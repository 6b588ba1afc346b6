[package]
name = "basic_grpc_service_rust"
version = "0.1.0"
edition = "2021"
publish = false

[dependencies]
colored = "3"
futures-core = "0.3"
prost = "0.14"
prost-types = "0.14"
rand = "0.9"
regex = "1"
rustls = { version = "0.23", default-features = false, features = ["ring", "std"] }
tokio = { version = "1", features = ["fs", "macros", "rt-multi-thread", "signal", "sync", "time"] }
tokio-stream = "0.1"
tonic = { version = "0.14", features = ["tls-ring"] }
tonic-prost = "0.14"
tonic-reflection = "0.14"
uuid = { version = "1", features = ["v4"] }
