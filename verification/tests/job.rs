use basic_grpc_service_rust::job::coordinator::{
    channel_capacity, normalize_count, Action, Event, JobCoordinator, Phase,
};
use basic_grpc_service_rust::job::snapshot::{
    AggregateSnapshot, Payload, State, Timestamp, WorkerResult,
};
use basic_grpc_service_rust::job::stream::replay;
use basic_grpc_service_rust::job::worker::{
    protocol_at, run_worker, worker_delay_secs, worker_indices, worker_name, worker_result,
    PROTOCOLS,
};

fn at(seconds: i64) -> Timestamp {
    Timestamp { seconds, nanos: 0 }
}

fn result(n: usize) -> WorkerResult {
    worker_result(n, format!("id-{}", n), "grpc".to_string())
}

fn results(count: usize) -> Vec<WorkerResult> {
    (1..=count).map(result).collect()
}

fn shape(stream: &[AggregateSnapshot]) -> Vec<(State, usize)> {
    stream.iter().map(|s| (s.state, s.results.len())).collect()
}

#[test]
fn zero_workers_deliver_two_snapshots() {
    let stream = replay(0, at(10), &results(0), at(20), 100);
    assert_eq!(shape(&stream), vec![(State::Process, 0), (State::Complete, 0)]);
    assert_eq!(stream[0].started_at, at(10));
    assert_eq!(stream[0].completed_at, None);
    assert_eq!(stream[1].started_at, at(10));
    assert_eq!(stream[1].completed_at, Some(at(20)));
}

#[test]
fn three_workers_deliver_five_snapshots() {
    let stream = replay(3, at(10), &results(3), at(20), 100);
    assert_eq!(
        shape(&stream),
        vec![
            (State::Process, 0),
            (State::Process, 1),
            (State::Process, 2),
            (State::Process, 3),
            (State::Complete, 3),
        ]
    );
    for snapshot in &stream[..4] {
        assert_eq!(snapshot.completed_at, None);
    }
    assert_eq!(stream[4].completed_at, Some(at(20)));
}

#[test]
fn negative_request_behaves_as_zero() {
    let negative = replay(-5, at(1), &results(0), at(2), 100);
    let zero = replay(0, at(1), &results(0), at(2), 100);
    assert_eq!(shape(&negative), shape(&zero));
    assert_eq!(shape(&negative), vec![(State::Process, 0), (State::Complete, 0)]);
    assert_eq!(normalize_count(-5), 0);
    assert_eq!(normalize_count(i32::MIN), 0);
    assert_eq!(JobCoordinator::start_at(-5, at(1)).worker_count(), 0);
}

#[test]
fn normalize_count_keeps_what_is_not_negative() {
    assert_eq!(normalize_count(0), 0);
    assert_eq!(normalize_count(1), 1);
    assert_eq!(normalize_count(7), 7);
    assert_eq!(normalize_count(i32::MAX), i32::MAX as usize);
}

#[test]
fn channel_capacity_is_the_worker_count_but_never_zero() {
    assert_eq!(channel_capacity(0), 1);
    assert_eq!(channel_capacity(1), 1);
    assert_eq!(channel_capacity(3), 3);
    assert_eq!(channel_capacity(1000), 1000);
}

#[test]
fn emission_count_is_request_plus_two() {
    for requested in 0..12usize {
        let stream = replay(requested as i32, at(0), &results(requested), at(5), usize::MAX);
        assert_eq!(stream.len(), requested + 2);
    }
}

#[test]
fn results_never_shrink_and_keep_their_order() {
    let stream = replay(4, at(0), &results(4), at(9), 100);
    for pair in stream.windows(2) {
        assert!(pair[0].results.len() <= pair[1].results.len());
        for (earlier, later) in pair[0].results.iter().zip(pair[1].results.iter()) {
            assert_eq!(earlier.id, later.id);
            assert_eq!(earlier.name, later.name);
        }
    }
    let names: Vec<&str> = stream[5].results.iter().map(|r| r.name.as_str()).collect();
    assert_eq!(names, vec!["service-1", "service-2", "service-3", "service-4"]);
}

#[test]
fn exactly_one_complete_and_it_is_last() {
    let stream = replay(5, at(0), &results(5), at(9), 100);
    let complete: Vec<usize> = (0..stream.len())
        .filter(|&i| stream[i].state == State::Complete)
        .collect();
    assert_eq!(complete, vec![stream.len() - 1]);
    for snapshot in &stream[..stream.len() - 1] {
        assert_eq!(snapshot.state, State::Process);
        assert_eq!(snapshot.completed_at, None);
    }
}

#[test]
fn complete_snapshot_holds_every_result() {
    let stream = replay(6, at(100), &results(6), at(103), 100);
    let last = stream.last().unwrap();
    assert_eq!(last.state, State::Complete);
    assert_eq!(last.results.len(), 6);
    let done = last.completed_at.unwrap();
    assert!(last.started_at.not_after(&done));
}

#[test]
fn disconnect_after_k_deliveries_stops_the_stream() {
    for budget in 0..8usize {
        let stream = replay(3, at(0), &results(3), at(9), budget);
        assert_eq!(stream.len(), budget.min(5));
        assert!(stream.len() <= budget);
    }
    let cut = replay(3, at(0), &results(3), at(9), 2);
    assert_eq!(shape(&cut), vec![(State::Process, 0), (State::Process, 1)]);
}

#[test]
fn coordinator_walks_through_its_phases() {
    let mut job = JobCoordinator::start_at(2, at(50));
    assert_eq!(job.phase(), Phase::AwaitingSend);
    assert_eq!(job.worker_count(), 2);
    assert_eq!(job.snapshot().state, State::Process);
    assert_eq!(job.snapshot().result_count(), 0);

    assert_eq!(job.step_at(Event::Sent, at(51)), Action::Receive);
    assert_eq!(job.phase(), Phase::AwaitingResult);

    assert_eq!(job.step_at(Event::Result(result(2)), at(52)), Action::Emit);
    assert_eq!(job.phase(), Phase::AwaitingSend);
    assert_eq!(job.snapshot().result_count(), 1);
    assert_eq!(job.snapshot().results[0].name, "service-2");

    assert_eq!(job.step_at(Event::Sent, at(53)), Action::Receive);
    assert_eq!(job.step_at(Event::Result(result(1)), at(54)), Action::Emit);
    assert_eq!(job.snapshot().results[1].name, "service-1");
    assert_eq!(job.step_at(Event::Sent, at(55)), Action::Receive);

    assert_eq!(job.step_at(Event::Exhausted, at(56)), Action::Emit);
    assert_eq!(job.snapshot().state, State::Complete);
    assert_eq!(job.snapshot().completed_at, Some(at(56)));
    assert_eq!(job.snapshot().started_at, at(50));
    assert_eq!(job.snapshot().result_count(), 2);

    assert_eq!(job.step_at(Event::Sent, at(57)), Action::Stop);
    assert_eq!(job.phase(), Phase::Closed);
}

#[test]
fn failed_send_closes_the_job_for_good() {
    let mut job = JobCoordinator::start_at(3, at(0));
    assert_eq!(job.step_at(Event::Sent, at(1)), Action::Receive);
    assert_eq!(job.step_at(Event::Result(result(1)), at(2)), Action::Emit);
    assert_eq!(job.step_at(Event::SendFailed, at(3)), Action::Stop);
    assert_eq!(job.phase(), Phase::Closed);
    assert_eq!(job.step_at(Event::Result(result(2)), at(4)), Action::Stop);
    assert_eq!(job.step_at(Event::Sent, at(5)), Action::Stop);
    assert_eq!(job.step_at(Event::Exhausted, at(6)), Action::Stop);
    assert_eq!(job.phase(), Phase::Closed);
    assert_eq!(job.snapshot().state, State::Process);
    assert_eq!(job.snapshot().completed_at, None);
    assert_eq!(job.snapshot().result_count(), 1);
}

#[test]
fn failed_final_send_is_no_error() {
    let mut job = JobCoordinator::start_at(0, at(0));
    assert_eq!(job.step_at(Event::Sent, at(1)), Action::Receive);
    assert_eq!(job.step_at(Event::Exhausted, at(2)), Action::Emit);
    assert_eq!(job.step_at(Event::SendFailed, at(3)), Action::Stop);
    assert_eq!(job.phase(), Phase::Closed);
    assert_eq!(job.snapshot().state, State::Complete);
}

#[test]
fn unexpected_event_closes_the_job_without_emission() {
    let mut job = JobCoordinator::start_at(1, at(0));
    assert_eq!(job.step_at(Event::Exhausted, at(1)), Action::Stop);
    assert_eq!(job.phase(), Phase::Closed);
    assert_eq!(job.snapshot().state, State::Process);

    let mut other = JobCoordinator::start_at(1, at(0));
    assert_eq!(other.step_at(Event::Sent, at(1)), Action::Receive);
    assert_eq!(other.step_at(Event::Sent, at(2)), Action::Stop);
    assert_eq!(other.phase(), Phase::Closed);
}

#[test]
fn two_jobs_side_by_side_keep_their_own_streams() {
    let mut a = JobCoordinator::start_at(2, at(0));
    let mut b = JobCoordinator::start_at(1, at(100));
    let mut seen_a = vec![(a.snapshot().state, a.snapshot().result_count())];
    let mut seen_b = vec![(b.snapshot().state, b.snapshot().result_count())];

    assert_eq!(a.step_at(Event::Sent, at(1)), Action::Receive);
    assert_eq!(b.step_at(Event::Sent, at(101)), Action::Receive);
    assert_eq!(b.step_at(Event::Result(result(1)), at(102)), Action::Emit);
    seen_b.push((b.snapshot().state, b.snapshot().result_count()));
    assert_eq!(a.step_at(Event::Result(result(2)), at(2)), Action::Emit);
    seen_a.push((a.snapshot().state, a.snapshot().result_count()));
    assert_eq!(b.step_at(Event::Sent, at(103)), Action::Receive);
    assert_eq!(a.step_at(Event::Sent, at(3)), Action::Receive);
    assert_eq!(b.step_at(Event::Exhausted, at(104)), Action::Emit);
    seen_b.push((b.snapshot().state, b.snapshot().result_count()));
    assert_eq!(a.step_at(Event::Result(result(1)), at(4)), Action::Emit);
    seen_a.push((a.snapshot().state, a.snapshot().result_count()));
    assert_eq!(b.step_at(Event::Sent, at(105)), Action::Stop);
    assert_eq!(a.step_at(Event::Sent, at(5)), Action::Receive);
    assert_eq!(a.step_at(Event::Exhausted, at(6)), Action::Emit);
    seen_a.push((a.snapshot().state, a.snapshot().result_count()));
    assert_eq!(a.step_at(Event::Sent, at(7)), Action::Stop);

    let alone_a = replay(2, at(0), &vec![result(2), result(1)], at(6), 100);
    let alone_b = replay(1, at(100), &vec![result(1)], at(104), 100);
    assert_eq!(seen_a, shape(&alone_a));
    assert_eq!(seen_b, shape(&alone_b));
    assert_eq!(a.snapshot().started_at, at(0));
    assert_eq!(b.snapshot().started_at, at(100));
    assert_eq!(a.snapshot().results[0].name, "service-2");
    assert_eq!(b.snapshot().results[0].name, "service-1");
}

#[test]
fn start_reads_a_normal_clock() {
    let job = JobCoordinator::start(4);
    let started = job.snapshot().started_at;
    assert!(started.nanos >= 0 && started.nanos < 1_000_000_000);
    assert!(started.seconds > 1_500_000_000);
    assert_eq!(job.worker_count(), 4);
    assert_eq!(job.phase(), Phase::AwaitingSend);
}

#[test]
fn step_completes_at_the_present_time() {
    let mut job = JobCoordinator::start(0);
    assert_eq!(job.step(Event::Sent), Action::Receive);
    assert_eq!(job.step(Event::Exhausted), Action::Emit);
    let snapshot = job.snapshot();
    assert_eq!(snapshot.state, State::Complete);
    let done = snapshot.completed_at.unwrap();
    assert!(done.nanos >= 0 && done.nanos < 1_000_000_000);
    assert!(done.seconds > 1_500_000_000);
    assert_eq!(job.step(Event::Sent), Action::Stop);
}

#[test]
fn timestamps_compare_by_seconds_then_nanos() {
    let early = Timestamp { seconds: 5, nanos: 900 };
    let late = Timestamp { seconds: 6, nanos: 0 };
    assert!(early.not_after(&late));
    assert!(!late.not_after(&early));
    assert!(early.not_after(&early));
    assert!(Timestamp { seconds: 5, nanos: 1 }.not_after(&Timestamp { seconds: 5, nanos: 2 }));
    assert!(!Timestamp { seconds: 5, nanos: 3 }.not_after(&Timestamp { seconds: 5, nanos: 2 }));
}

#[test]
fn snapshot_copy_is_equal_in_every_field() {
    let mut snapshot = AggregateSnapshot::begin(at(3));
    snapshot.record(result(7));
    snapshot.record(result(8));
    snapshot.complete(at(4));
    let copy = snapshot.duplicate();
    assert_eq!(copy.state, State::Complete);
    assert_eq!(copy.started_at, at(3));
    assert_eq!(copy.completed_at, Some(at(4)));
    assert_eq!(copy.results.len(), 2);
    assert_eq!(copy.results[0].id, "id-7");
    assert_eq!(copy.results[1].name, "service-8");
    assert_eq!(copy.results[1].version, "1.1.2");
    assert_eq!(copy.results[1].payload.kind, "protocol");
    assert_eq!(copy.results[1].payload.value, "grpc");
}

#[test]
fn worker_result_is_made_of_its_parts() {
    let made = worker_result(12, "abc".to_string(), "ws".to_string());
    assert_eq!(made.id, "abc");
    assert_eq!(made.name, "service-12");
    assert_eq!(made.version, "1.1.2");
    assert_eq!(made.payload.kind, "protocol");
    assert_eq!(made.payload.value, "ws");
    let again = made.duplicate();
    assert_eq!(again.name, made.name);
    let _ = Payload { kind: String::new(), value: String::new() };
}

#[test]
fn worker_names_count_in_decimal() {
    assert_eq!(worker_name(0), "service-0");
    assert_eq!(worker_name(1), "service-1");
    assert_eq!(worker_name(9), "service-9");
    assert_eq!(worker_name(10), "service-10");
    assert_eq!(worker_name(305), "service-305");
    assert_eq!(worker_name(4_294_967_295), "service-4294967295");
}

#[test]
fn worker_indices_start_at_one() {
    assert_eq!(worker_indices(3), vec![1, 2, 3]);
    assert_eq!(worker_indices(1), vec![1]);
    assert_eq!(worker_indices(0), Vec::<usize>::new());
    assert_eq!(worker_indices(-4), Vec::<usize>::new());
}

#[test]
fn protocols_are_found_by_place() {
    assert_eq!(protocol_at(0), Some("rest"));
    assert_eq!(protocol_at(1), Some("rpc"));
    assert_eq!(protocol_at(2), Some("grpc"));
    assert_eq!(protocol_at(3), Some("ws"));
    assert_eq!(protocol_at(4), None);
    assert_eq!(protocol_at(usize::MAX), None);
}

#[test]
fn run_worker_reports_under_its_name() {
    for index in 1..40usize {
        let made = run_worker(index);
        assert_eq!(made.id.chars().count(), 36);
        assert_eq!(made.name, format!("service-{}", index));
        assert_eq!(made.version, "1.1.2");
        assert_eq!(made.payload.kind, "protocol");
        assert!(PROTOCOLS.contains(&made.payload.value.as_str()));
    }
    assert_ne!(run_worker(1).id, run_worker(1).id);
}

#[test]
fn worker_delay_stays_in_its_range() {
    let mut seen = [false; 4];
    for _ in 0..300 {
        let secs = worker_delay_secs();
        assert!((1..=3).contains(&secs));
        seen[secs as usize] = true;
    }
    assert!(seen[1] && seen[2] && seen[3]);
}
