//! The stream of snapshots that a job delivers, and what always holds of it.
//!
//! A job's surroundings are described by three things: the worker results in
//! the order in which the collector hands them over, the clock reading at
//! which the collector runs dry, and how many snapshots the consumer takes
//! before it goes away.

use super::coordinator::{
    action_of, law_step_moves_forward, model_step, normalized, start_model, Action, Event,
    EventView, JobCoordinator, JobModel, Phase,
};
use super::snapshot::{
    result_views, snapshot_views, AggregateSnapshot, SnapshotView, State, Timestamp, WorkerResult,
    WorkerResultView,
};
use vstd::prelude::*;

verus! {

/// The snapshots that reach the consumer from state `m` on, when the collector
/// still holds `results`, runs dry at `closed_at`, and the consumer takes
/// `budget` more snapshots before its stream fails.
///
/// The job is told `Sent` for each snapshot that the consumer takes and
/// `SendFailed` for the first that it does not; it is handed the results one
/// by one, and told `Exhausted` when none is left.
pub open spec fn deliveries(
    m: JobModel,
    results: Seq<WorkerResultView>,
    closed_at: Timestamp,
    budget: nat,
) -> Seq<SnapshotView>
    decreases results.len(), m.rank(),
{
    match m.phase {
        Phase::Closed => Seq::empty(),
        Phase::AwaitingSend => if budget == 0 {
            deliveries(model_step(m, EventView::SendFailed, closed_at).0, results, closed_at, 0)
        } else {
            seq![m.snapshot] + deliveries(
                model_step(m, EventView::Sent, closed_at).0,
                results,
                closed_at,
                (budget - 1) as nat,
            )
        },
        Phase::AwaitingResult => if results.len() == 0 {
            deliveries(
                model_step(m, EventView::Exhausted, closed_at).0,
                results,
                closed_at,
                budget,
            )
        } else {
            deliveries(
                model_step(m, EventView::Result(results[0]), closed_at).0,
                results.drop_first(),
                closed_at,
                budget,
            )
        },
    }
}

/// The snapshot of a job in process since `started_at` that holds `results`.
pub open spec fn in_process(started_at: Timestamp, results: Seq<WorkerResultView>) -> SnapshotView {
    SnapshotView { state: State::Process, started_at, completed_at: None, results }
}

/// The snapshot of a job that ran from `started_at` to `closed_at` and holds
/// `results`.
pub open spec fn completed(
    started_at: Timestamp,
    results: Seq<WorkerResultView>,
    closed_at: Timestamp,
) -> SnapshotView {
    SnapshotView { state: State::Complete, started_at, completed_at: Some(closed_at), results }
}

/// The whole stream of an undisturbed job: one snapshot in process for each
/// number of results from none to all, then the completed snapshot.
pub open spec fn full_stream(
    started_at: Timestamp,
    results: Seq<WorkerResultView>,
    closed_at: Timestamp,
) -> Seq<SnapshotView> {
    Seq::new(
        results.len() + 2,
        |i: int|
            if i <= results.len() {
                in_process(started_at, results.take(i))
            } else {
                completed(started_at, results, closed_at)
            },
    )
}

/// How many snapshots reach a consumer that takes `budget` of them, from a
/// job with `workers` workers.
pub open spec fn delivered_count(workers: nat, budget: nat) -> nat {
    if budget < workers + 2 {
        budget
    } else {
        workers + 2
    }
}

/// The state of a job that has emitted its snapshot with `done` results and
/// waits for the consumer to take it.
pub open spec fn sending(requested: nat, started_at: Timestamp, done: Seq<WorkerResultView>) -> JobModel {
    JobModel {
        requested,
        snapshot: in_process(started_at, done),
        phase: Phase::AwaitingSend,
    }
}

/// Nothing reaches the consumer from a job whose send has failed.
pub proof fn law_failed_send_delivers_nothing(
    m: JobModel,
    results: Seq<WorkerResultView>,
    closed_at: Timestamp,
)
    requires
        m.phase == Phase::AwaitingSend,
    ensures
        deliveries(m, results, closed_at, 0) == Seq::<SnapshotView>::empty(),
{
    let failed = model_step(m, EventView::SendFailed, closed_at).0;
    assert(deliveries(failed, results, closed_at, 0) == Seq::<SnapshotView>::empty());
}

/// A job that starts is well formed.
pub proof fn law_start_is_well_formed(requested: int, now: Timestamp)
    ensures
        start_model(requested, now).wf(),
        start_model(requested, now) == sending(normalized(requested), now, Seq::empty()),
{
}

/// From the moment a snapshot with `done` results is on its way, the consumer
/// receives the part of the full stream that starts there, as far as its
/// budget reaches.
proof fn lemma_deliveries_from(
    requested: nat,
    started_at: Timestamp,
    done: Seq<WorkerResultView>,
    rest: Seq<WorkerResultView>,
    closed_at: Timestamp,
    budget: nat,
)
    ensures
        deliveries(sending(requested, started_at, done), rest, closed_at, budget) == full_stream(
            started_at,
            done + rest,
            closed_at,
        ).subrange(
            done.len() as int,
            (done.len() + delivered_count(rest.len(), budget)) as int,
        ),
    decreases rest.len(),
{
    let m = sending(requested, started_at, done);
    let all = done + rest;
    let full = full_stream(started_at, all, closed_at);
    let got = deliveries(m, rest, closed_at, budget);
    let k = done.len() as int;
    assert(all.take(k) =~= done);
    if budget == 0 {
        law_failed_send_delivers_nothing(m, rest, closed_at);
        assert(got =~= full.subrange(k, k));
    } else {
        let waiting = model_step(m, EventView::Sent, closed_at).0;
        assert(got == seq![m.snapshot] + deliveries(waiting, rest, closed_at, (budget - 1) as nat));
        if rest.len() == 0 {
            assert(all =~= done);
            let last = model_step(waiting, EventView::Exhausted, closed_at).0;
            assert(last.snapshot == completed(started_at, done, closed_at));
            assert(deliveries(waiting, rest, closed_at, (budget - 1) as nat) == deliveries(
                last,
                rest,
                closed_at,
                (budget - 1) as nat,
            ));
            if budget == 1 {
                law_failed_send_delivers_nothing(last, rest, closed_at);
                assert(got =~= full.subrange(k, k + 1));
            } else {
                let over = model_step(last, EventView::Sent, closed_at).0;
                assert(over.phase == Phase::Closed);
                assert(deliveries(over, rest, closed_at, (budget - 2) as nat) =~= Seq::empty());
                assert(deliveries(last, rest, closed_at, (budget - 1) as nat) =~= seq![
                    last.snapshot,
                ]);
                assert(got =~= full.subrange(k, k + 2));
            }
        } else {
            let grown = model_step(waiting, EventView::Result(rest[0]), closed_at).0;
            assert(grown == sending(requested, started_at, done.push(rest[0])));
            assert(done.push(rest[0]) + rest.drop_first() =~= all);
            lemma_deliveries_from(
                requested,
                started_at,
                done.push(rest[0]),
                rest.drop_first(),
                closed_at,
                (budget - 1) as nat,
            );
            assert(got =~= full.subrange(k, k + delivered_count(rest.len(), budget)));
        }
    }
}

/// What the consumer of a job receives: the full stream of the job, cut off
/// after as many snapshots as the consumer takes.
pub proof fn law_stream_is_prefix_of_full(
    requested: int,
    started_at: Timestamp,
    results: Seq<WorkerResultView>,
    closed_at: Timestamp,
    budget: nat,
)
    ensures
        deliveries(start_model(requested, started_at), results, closed_at, budget) == full_stream(
            started_at,
            results,
            closed_at,
        ).take(delivered_count(results.len(), budget) as int),
{
    lemma_deliveries_from(
        normalized(requested),
        started_at,
        Seq::empty(),
        results,
        closed_at,
        budget,
    );
    assert(Seq::<WorkerResultView>::empty() + results =~= results);
}

/// A negative request starts the very job that a request for no workers
/// starts.
pub proof fn law_negative_request_is_empty_request(requested: int, now: Timestamp)
    requires
        requested < 0,
    ensures
        start_model(requested, now) == start_model(0, now),
{
}

/// With a consumer that takes every snapshot, a job for `requested` workers
/// delivers `requested + 2` snapshots.
pub proof fn law_emission_count(
    requested: int,
    started_at: Timestamp,
    results: Seq<WorkerResultView>,
    closed_at: Timestamp,
    budget: nat,
)
    requires
        requested >= 0,
        results.len() == requested,
        budget >= requested + 2,
    ensures
        deliveries(start_model(requested, started_at), results, closed_at, budget).len()
            == requested + 2,
{
    law_stream_is_prefix_of_full(requested, started_at, results, closed_at, budget);
}

/// The results of a job only grow along its stream: each delivered snapshot
/// holds the results of every earlier one, in the same order, and so at least
/// as many.
pub proof fn law_results_only_grow(
    requested: int,
    started_at: Timestamp,
    results: Seq<WorkerResultView>,
    closed_at: Timestamp,
    budget: nat,
)
    ensures
        ({
            let stream = deliveries(
                start_model(requested, started_at),
                results,
                closed_at,
                budget,
            );
            forall|i: int, j: int|
                0 <= i <= j < stream.len() ==> {
                    &&& (#[trigger] stream[i]).results.is_prefix_of((#[trigger] stream[j]).results)
                    &&& stream[i].results.len() <= stream[j].results.len()
                }
        }),
{
    law_stream_is_prefix_of_full(requested, started_at, results, closed_at, budget);
    let stream = deliveries(start_model(requested, started_at), results, closed_at, budget);
    assert forall|i: int, j: int| 0 <= i <= j < stream.len() implies {
        &&& (#[trigger] stream[i]).results.is_prefix_of((#[trigger] stream[j]).results)
        &&& stream[i].results.len() <= stream[j].results.len()
    } by {
        let n = results.len() as int;
        let a = if i <= n { i } else { n };
        let b = if j <= n { j } else { n };
        assert(results.take(n) =~= results);
        assert(stream[i].results == results.take(a));
        assert(stream[j].results == results.take(b));
        assert(results.take(b).take(a) =~= results.take(a));
    }
}

/// However long the consumer stays, only the last delivered snapshot can be
/// complete: every other one is in process and carries no completion time.
pub proof fn law_only_the_last_is_complete(
    requested: int,
    started_at: Timestamp,
    results: Seq<WorkerResultView>,
    closed_at: Timestamp,
    budget: nat,
)
    ensures
        ({
            let stream = deliveries(
                start_model(requested, started_at),
                results,
                closed_at,
                budget,
            );
            forall|i: int|
                0 <= i < stream.len() - 1 ==> {
                    &&& (#[trigger] stream[i]).state == State::Process
                    &&& stream[i].completed_at is None
                }
        }),
{
    law_stream_is_prefix_of_full(requested, started_at, results, closed_at, budget);
}

/// With a consumer that takes every snapshot, exactly one delivered snapshot
/// is complete, and it is the last.
pub proof fn law_exactly_one_complete(
    requested: int,
    started_at: Timestamp,
    results: Seq<WorkerResultView>,
    closed_at: Timestamp,
    budget: nat,
)
    requires
        budget >= results.len() + 2,
    ensures
        ({
            let stream = deliveries(
                start_model(requested, started_at),
                results,
                closed_at,
                budget,
            );
            &&& stream.len() == results.len() + 2
            &&& forall|i: int|
                0 <= i < stream.len() ==> ((#[trigger] stream[i]).state == State::Complete <==> i
                    == stream.len() - 1)
        }),
{
    law_stream_is_prefix_of_full(requested, started_at, results, closed_at, budget);
}

/// With a consumer that takes every snapshot and one result from each of the
/// `requested` workers, the complete snapshot holds `requested` results: all
/// of them, in the order in which they arrived. Its completion time is the
/// clock reading at which the collector ran dry, which is not before the
/// start unless the clock was set back in between.
pub proof fn law_complete_snapshot(
    requested: int,
    started_at: Timestamp,
    results: Seq<WorkerResultView>,
    closed_at: Timestamp,
    budget: nat,
)
    requires
        requested >= 0,
        results.len() == requested,
        budget >= requested + 2,
        started_at.le(closed_at),
    ensures
        ({
            let last = deliveries(
                start_model(requested, started_at),
                results,
                closed_at,
                budget,
            ).last();
            &&& last.state == State::Complete
            &&& last.results == results
            &&& last.results.len() == requested
            &&& last.completed_at matches Some(at) && last.started_at.le(at)
        }),
{
    law_stream_is_prefix_of_full(requested, started_at, results, closed_at, budget);
}

/// A consumer that goes away after taking `budget` snapshots has received no
/// more than those: nothing is delivered once a send has failed.
pub proof fn law_nothing_after_disconnect(
    requested: int,
    started_at: Timestamp,
    results: Seq<WorkerResultView>,
    closed_at: Timestamp,
    budget: nat,
)
    ensures
        deliveries(start_model(requested, started_at), results, closed_at, budget).len()
            <= budget,
        deliveries(start_model(requested, started_at), results, closed_at, budget).len()
            == delivered_count(results.len(), budget),
{
    law_stream_is_prefix_of_full(requested, started_at, results, closed_at, budget);
}

/// A failed send closes the job, and a closed job stays closed and asks for
/// no further emission, whatever is reported to it.
pub proof fn law_failed_send_is_final(m: JobModel, now: Timestamp, later: EventView, then: Timestamp)
    ensures
        model_step(m, EventView::SendFailed, now).0.phase == Phase::Closed,
        model_step(m, EventView::SendFailed, now).0.snapshot == m.snapshot,
        m.phase == Phase::Closed ==> model_step(m, later, then) == (m, Action::Stop),
{
}

/// The action that a transition returns is the one that the new phase awaits
/// the outcome of.
pub proof fn law_action_follows_phase(m: JobModel, event: EventView, now: Timestamp)
    ensures
        model_step(m, event, now).1 == action_of(model_step(m, event, now).0.phase),
{
}

/// Runs a whole job against scripted surroundings and returns what the
/// consumer receives: the job starts at `started_at`, the collector hands over
/// `results` in order and runs dry at `closed_at`, and the consumer takes
/// `budget` snapshots before its stream fails.
pub fn replay(
    requested: i32,
    started_at: Timestamp,
    results: &Vec<WorkerResult>,
    closed_at: Timestamp,
    budget: usize,
) -> (delivered: Vec<AggregateSnapshot>)
    ensures
        snapshot_views(delivered@) == deliveries(
            start_model(requested as int, started_at),
            result_views(results@),
            closed_at,
            budget as nat,
        ),
{
    let ghost script = result_views(results@);
    let ghost target = deliveries(
        start_model(requested as int, started_at),
        script,
        closed_at,
        budget as nat,
    );
    let mut job = JobCoordinator::start_at(requested, started_at);
    let mut delivered: Vec<AggregateSnapshot> = Vec::new();
    let mut action = job.next_action();
    let mut next: usize = 0;
    let mut left: usize = budget;
    assert(snapshot_views(delivered@) =~= Seq::empty());
    assert(script.skip(0) =~= script);
    loop
        invariant
            next <= results.len(),
            script == result_views(results@),
            action == action_of(job@.phase),
            snapshot_views(delivered@) + deliveries(
                job@,
                script.skip(next as int),
                closed_at,
                left as nat,
            ) == target,
        ensures
            snapshot_views(delivered@) == target,
        decreases results.len() - next, job@.rank(),
    {
        let ghost before = job@;
        let ghost sent = snapshot_views(delivered@);
        proof {
            law_action_follows_phase(before, EventView::Sent, closed_at);
            law_action_follows_phase(before, EventView::SendFailed, closed_at);
            law_action_follows_phase(before, EventView::Exhausted, closed_at);
        }
        match action {
            Action::Stop => {
                assert(sent + Seq::empty() =~= sent);
                break ;
            },
            Action::Emit => {
                if left == 0 {
                    proof {
                        law_failed_send_delivers_nothing(
                            before,
                            script.skip(next as int),
                            closed_at,
                        );
                    }
                    action = job.step_at(Event::SendFailed, closed_at);
                } else {
                    delivered.push(job.snapshot().duplicate());
                    left -= 1;
                    action = job.step_at(Event::Sent, closed_at);
                    assert(snapshot_views(delivered@) =~= sent + seq![before.snapshot]);
                    assert(sent + (seq![before.snapshot] + deliveries(
                        job@,
                        script.skip(next as int),
                        closed_at,
                        left as nat,
                    )) =~= snapshot_views(delivered@) + deliveries(
                        job@,
                        script.skip(next as int),
                        closed_at,
                        left as nat,
                    ));
                }
            },
            Action::Receive => {
                if next < results.len() {
                    let result = results[next].duplicate();
                    proof {
                        law_action_follows_phase(before, EventView::Result(result@), closed_at);
                        assert(script.skip(next as int)[0] == result@);
                        assert(script.skip(next as int).drop_first() =~= script.skip(next + 1));
                    }
                    action = job.step_at(Event::Result(result), closed_at);
                    next += 1;
                } else {
                    assert(script.skip(next as int).len() == 0);
                    action = job.step_at(Event::Exhausted, closed_at);
                }
            },
        }
    }
    delivered
}

} // verus!
