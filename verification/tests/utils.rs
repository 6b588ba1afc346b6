use basic_grpc_service_rust::envelope::{Envelope, SPEC_VERSION};
use basic_grpc_service_rust::job::snapshot::{State, Timestamp};
use basic_grpc_service_rust::job::worker::PROTOCOLS;
use basic_grpc_service_rust::service::{
    create_hello_response, hello_greeting, talk_goes_on, talk_turn, Inbound, Outbound,
};
use basic_grpc_service_rust::talk::globals::GOODBYE_RESPONSES;
use basic_grpc_service_rust::utils::{create_background_response, random_protocol, StateManager};

fn at(seconds: i64, nanos: i32) -> Timestamp {
    Timestamp { seconds, nanos }
}

#[test]
fn new_registry_knows_nothing() {
    let registry = StateManager::new();
    assert_eq!(registry.get_state("job"), (None, None, None, None));
    assert!(!registry.has_errors("job"));
    assert_eq!(registry.get_errors("job"), Vec::<String>::new());
}

#[test]
fn start_and_finish_are_noted_under_the_hash() {
    let mut registry = StateManager::new();
    registry.start_at("a", State::Process, at(10, 5));
    assert_eq!(registry.get_state("a"), (Some(State::Process), Some(at(10, 5)), None, None));
    assert_eq!(registry.get_state("b"), (None, None, None, None));

    registry.start_at("b", State::Pending, at(11, 0));
    registry.finish_at("a", State::Complete, at(12, 7));
    assert_eq!(
        registry.get_state("a"),
        (Some(State::Complete), Some(at(10, 5)), Some(at(12, 7)), None)
    );
    assert_eq!(registry.get_state("b"), (Some(State::Pending), Some(at(11, 0)), None, None));

    registry.start_at("a", State::Process, at(20, 0));
    assert_eq!(
        registry.get_state("a"),
        (Some(State::Process), Some(at(20, 0)), Some(at(12, 7)), None)
    );
    registry.finish_at("c", State::Complete, at(30, 1));
    assert_eq!(registry.get_state("c"), (Some(State::Complete), None, Some(at(30, 1)), None));
}

#[test]
fn start_and_finish_read_the_clock() {
    let mut registry = StateManager::new();
    registry.start("job", State::Process);
    let (state, started, completed, errors) = registry.get_state("job");
    assert_eq!(state, Some(State::Process));
    let started = started.unwrap();
    assert!(started.seconds > 1_500_000_000);
    assert!(started.nanos >= 0 && started.nanos < 1_000_000_000);
    assert_eq!(completed, None);
    assert_eq!(errors, None);

    registry.finish("job", State::Complete);
    let (state, again, completed, _) = registry.get_state("job");
    assert_eq!(state, Some(State::Complete));
    assert_eq!(again, Some(started));
    let completed = completed.unwrap();
    assert!(completed.seconds > 1_500_000_000);
    assert!(completed.nanos >= 0 && completed.nanos < 1_000_000_000);
}

#[test]
fn errors_are_listed_oldest_first() {
    let mut registry = StateManager::new();
    registry.set_error("a", None);
    assert!(!registry.has_errors("a"));
    assert_eq!(registry.get_state("a").3, None);

    registry.set_error("a", Some("first".to_string()));
    assert!(registry.has_errors("a"));
    assert!(!registry.has_errors("b"));
    assert_eq!(registry.get_errors("a"), vec!["first".to_string()]);

    registry.set_error("a", Some("second".to_string()));
    registry.set_error("b", Some("other".to_string()));
    registry.set_error("a", None);
    assert_eq!(registry.get_errors("a"), vec!["first".to_string(), "second".to_string()]);
    assert_eq!(registry.get_errors("b"), vec!["other".to_string()]);
    assert_eq!(registry.get_errors("c"), Vec::<String>::new());
    assert_eq!(
        registry.get_state("a"),
        (None, None, None, Some(vec!["first".to_string(), "second".to_string()]))
    );
}

#[test]
fn random_protocol_is_one_of_the_four() {
    let mut seen = std::collections::HashSet::new();
    for _ in 0..400 {
        let name = random_protocol();
        assert!(PROTOCOLS.contains(&name.as_str()), "{}", name);
        seen.insert(name);
    }
    assert_eq!(seen.len(), 4);
    assert_eq!(PROTOCOLS, ["rest", "rpc", "grpc", "ws"]);
}

#[test]
fn background_response_wraps_the_encoded_event() {
    let envelope = create_background_response(vec![1, 2, 3]);
    assert_eq!(envelope.id.chars().count(), 36);
    assert_eq!(envelope.source, "basic.v1/Background");
    assert_eq!(envelope.spec_version, "1.0");
    assert_eq!(envelope.kind, "type.googleapis.com/basic.service.v1.BackgroundResponse");
    assert_eq!(
        envelope.data_type,
        "type.googleapis.com/basic.service.v1.BackgroundResponseEvent"
    );
    assert_eq!(envelope.data, vec![1, 2, 3]);
    let other = create_background_response(Vec::new());
    assert_ne!(envelope.id, other.id);
    assert_eq!(other.data, Vec::<u8>::new());
}

#[test]
fn fresh_identifiers_are_hyphenated() {
    let envelope = create_background_response(Vec::new());
    let id: Vec<char> = envelope.id.chars().collect();
    assert_eq!(id.len(), 36);
    for (place, c) in id.iter().enumerate() {
        if [8, 13, 18, 23].contains(&place) {
            assert_eq!(*c, '-');
        } else {
            assert!(c.is_ascii_hexdigit());
        }
    }
}

#[test]
fn seal_puts_every_part_in_its_place() {
    let envelope = Envelope::seal("id-1".to_string(), "src", "kind", "type", vec![9]);
    assert_eq!(envelope.id, "id-1");
    assert_eq!(envelope.source, "src");
    assert_eq!(envelope.spec_version, SPEC_VERSION);
    assert_eq!(envelope.kind, "kind");
    assert_eq!(envelope.data_type, "type");
    assert_eq!(envelope.data, vec![9]);
    let fresh = Envelope::seal_fresh("src", "kind", "type", vec![9]);
    assert_eq!(fresh.id.chars().count(), 36);
    assert_eq!(fresh.source, "src");
}

#[test]
fn hello_greets_by_name() {
    assert_eq!(hello_greeting("World"), "Hello, World!");
    assert_eq!(hello_greeting(""), "Hello, !");
    assert_eq!(hello_greeting("Zoë"), "Hello, Zoë!");
    let envelope = create_hello_response(vec![7, 7]);
    assert_eq!(envelope.id.chars().count(), 36);
    assert_eq!(envelope.source, "/basic/hello");
    assert_eq!(envelope.spec_version, "1.0");
    assert_eq!(envelope.kind, "io.basic.hello");
    assert_eq!(envelope.data_type, "basic.service.v1.HelloResponseEvent");
    assert_eq!(envelope.data, vec![7, 7]);
}

#[test]
fn talk_turn_answers_a_line() {
    for _ in 0..20 {
        match talk_turn(Inbound::Message("Goodbye!".to_string())) {
            Outbound::Answer(answer) => assert!(GOODBYE_RESPONSES.contains(&answer.as_str())),
            Outbound::Failure(report) => panic!("{}", report),
        }
    }
    match talk_turn(Inbound::Message("yes".to_string())) {
        Outbound::Answer(answer) => {
            assert!(["You seem quite sure.", "OK, but can you elaborate a bit?"].contains(&answer.as_str()))
        }
        Outbound::Failure(report) => panic!("{}", report),
    }
}

#[test]
fn talk_turn_reports_a_broken_stream() {
    match talk_turn(Inbound::Broken("connection reset".to_string())) {
        Outbound::Failure(report) => {
            assert_eq!(report, "Failed to receive message: connection reset")
        }
        Outbound::Answer(answer) => panic!("{}", answer),
    }
}

#[test]
fn talk_goes_on_only_after_a_delivered_answer() {
    let answer = Outbound::Answer("I see.".to_string());
    let failure = Outbound::Failure("Failed to receive message: x".to_string());
    assert!(talk_goes_on(&answer, true));
    assert!(!talk_goes_on(&answer, false));
    assert!(!talk_goes_on(&failure, true));
    assert!(!talk_goes_on(&failure, false));
}
