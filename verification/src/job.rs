//! Background jobs: fan-out to workers, incremental aggregation, and the
//! snapshots streamed to the consumer.

pub mod clock;
pub mod coordinator;
pub mod emissions;
pub mod snapshot;
pub mod stream;
pub mod worker;
