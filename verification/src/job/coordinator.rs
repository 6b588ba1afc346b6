//! The coordinator of one background job: a state machine that says, after
//! each thing that happens to the job, what its driver is to do next.
//!
//! The driver owns the waiting: it sends the current snapshot when told to
//! emit, waits for the next worker result when told to receive, and reports
//! what came of it. The coordinator owns every decision.

use super::clock::now;
use super::snapshot::{AggregateSnapshot, SnapshotView, State, Timestamp, WorkerResult, WorkerResultView};
use vstd::prelude::*;

verus! {

/// What the coordinator is waiting for.
#[derive(Clone, Copy, Debug, PartialEq, Eq, Structural)]
pub enum Phase {
    /// The current snapshot is on its way to the consumer.
    AwaitingSend,
    /// The next worker result, or the end of them, is awaited.
    AwaitingResult,
    /// The job is over: the final snapshot went out, or the consumer is gone.
    Closed,
}

/// What the driver is to do next.
#[derive(Clone, Copy, Debug, PartialEq, Eq, Structural)]
pub enum Action {
    /// Wrap the current snapshot, send it, and report `Sent` or `SendFailed`.
    Emit,
    /// Wait on the collector and report `Result` or `Exhausted`.
    Receive,
    /// Nothing more: drop the job.
    Stop,
}

/// What happened since the last action.
#[derive(Debug)]
pub enum Event {
    /// The consumer took the snapshot.
    Sent,
    /// The consumer is gone or its stream is closed.
    SendFailed,
    /// A worker finished.
    Result(WorkerResult),
    /// Every worker has finished and been collected.
    Exhausted,
}

/// The mathematical content of an [`Event`].
pub enum EventView {
    Sent,
    SendFailed,
    Result(WorkerResultView),
    Exhausted,
}

impl View for Event {
    type V = EventView;

    open spec fn view(&self) -> EventView {
        match self {
            Event::Sent => EventView::Sent,
            Event::SendFailed => EventView::SendFailed,
            Event::Result(r) => EventView::Result(r@),
            Event::Exhausted => EventView::Exhausted,
        }
    }
}

/// The action that a job in phase `phase` has its driver perform.
pub open spec fn action_of(phase: Phase) -> Action {
    match phase {
        Phase::AwaitingSend => Action::Emit,
        Phase::AwaitingResult => Action::Receive,
        Phase::Closed => Action::Stop,
    }
}

/// The state of a job as the contracts see it.
pub struct JobModel {
    pub requested: nat,
    pub snapshot: SnapshotView,
    pub phase: Phase,
}

impl JobModel {
    /// What holds of every state a job can reach: its snapshot is well
    /// formed, and results are awaited only while the job is in process.
    pub open spec fn wf(self) -> bool {
        &&& self.snapshot.wf()
        &&& self.phase == Phase::AwaitingResult ==> self.snapshot.state == State::Process
    }

    /// How many transitions the job can still make without a new result.
    pub open spec fn rank(self) -> nat {
        match self.phase {
            Phase::Closed => 0,
            Phase::AwaitingSend => if self.snapshot.state == State::Complete {
                1
            } else {
                3
            },
            Phase::AwaitingResult => 2,
        }
    }
}

/// The number of workers for a requested count: negative counts ask for none.
pub open spec fn normalized(requested: int) -> nat {
    if requested < 0 {
        0
    } else {
        requested as nat
    }
}

/// A job that has just started at `now`: in process, no results, its first
/// snapshot on the way out.
pub open spec fn start_model(requested: int, now: Timestamp) -> JobModel {
    JobModel {
        requested: normalized(requested),
        snapshot: SnapshotView {
            state: State::Process,
            started_at: now,
            completed_at: None,
            results: Seq::empty(),
        },
        phase: Phase::AwaitingSend,
    }
}

/// The job closed, its snapshot as it was.
pub open spec fn closed(m: JobModel) -> JobModel {
    JobModel { phase: Phase::Closed, ..m }
}

/// One transition of the job. `now` is the clock reading at the transition;
/// it is used only when the job completes.
///
/// An event that the current phase does not await closes the job without
/// another emission.
pub open spec fn model_step(m: JobModel, event: EventView, now: Timestamp) -> (JobModel, Action) {
    match (m.phase, event) {
        (Phase::AwaitingSend, EventView::Sent) => {
            if m.snapshot.state == State::Complete {
                (closed(m), Action::Stop)
            } else {
                (JobModel { phase: Phase::AwaitingResult, ..m }, Action::Receive)
            }
        },
        (Phase::AwaitingResult, EventView::Result(r)) => (
            JobModel {
                snapshot: SnapshotView { results: m.snapshot.results.push(r), ..m.snapshot },
                phase: Phase::AwaitingSend,
                ..m
            },
            Action::Emit,
        ),
        (Phase::AwaitingResult, EventView::Exhausted) => (
            JobModel {
                snapshot: SnapshotView {
                    state: State::Complete,
                    completed_at: Some(now),
                    ..m.snapshot
                },
                phase: Phase::AwaitingSend,
                ..m
            },
            Action::Emit,
        ),
        _ => (closed(m), Action::Stop),
    }
}

/// Every transition keeps the job well formed, and its snapshot only moves
/// forward: the start time stays, results are only appended, and a complete
/// snapshot never changes again.
pub proof fn law_step_moves_forward(m: JobModel, event: EventView, now: Timestamp)
    requires
        m.wf(),
    ensures
        model_step(m, event, now).0.wf(),
        model_step(m, event, now).0.requested == m.requested,
        m.snapshot.precedes(model_step(m, event, now).0.snapshot),
{
    let next = model_step(m, event, now).0;
    assert(m.snapshot.results.is_prefix_of(next.snapshot.results)) by {
        match (m.phase, event) {
            (Phase::AwaitingResult, EventView::Result(r)) => {
                assert(m.snapshot.results.push(r).take(m.snapshot.results.len() as int)
                    =~= m.snapshot.results);
            },
            _ => {
                assert(next.snapshot.results.take(m.snapshot.results.len() as int)
                    =~= m.snapshot.results);
            },
        }
    }
}

/// Clamps a requested worker count: a negative request asks for no workers.
pub fn normalize_count(requested: i32) -> (n: usize)
    ensures
        n == normalized(requested as int),
{
    if requested < 0 {
        0
    } else {
        requested as usize
    }
}

/// The slots that the collector and the outbound channel are made with: one
/// per worker, so that no worker ever waits to deliver, and never fewer than
/// one, the least a bounded channel can hold.
pub fn channel_capacity(workers: usize) -> (slots: usize)
    ensures
        slots == if workers == 0 { 1 } else { workers as int },
{
    if workers == 0 {
        1
    } else {
        workers
    }
}

/// The coordinator of one job. It owns the job's only snapshot.
#[derive(Debug)]
pub struct JobCoordinator {
    requested: usize,
    snapshot: AggregateSnapshot,
    phase: Phase,
}

impl View for JobCoordinator {
    type V = JobModel;

    closed spec fn view(&self) -> JobModel {
        JobModel {
            requested: self.requested as nat,
            snapshot: self.snapshot@,
            phase: self.phase,
        }
    }
}

impl JobCoordinator {
    /// Starts a job for `requested` workers at the clock reading `now`. The
    /// driver's first action is to emit the snapshot.
    pub fn start_at(requested: i32, now: Timestamp) -> (job: JobCoordinator)
        ensures
            job@ == start_model(requested as int, now),
            job@.wf(),
    {
        JobCoordinator {
            requested: normalize_count(requested),
            snapshot: AggregateSnapshot::begin(now),
            phase: Phase::AwaitingSend,
        }
    }

    /// Starts a job for `requested` workers now. The driver's first action is
    /// to emit the snapshot.
    pub fn start(requested: i32) -> (job: JobCoordinator)
        ensures
            job@ == start_model(requested as int, job@.snapshot.started_at),
            job@.snapshot.started_at.normal(),
            job@.wf(),
    {
        let at = now();
        JobCoordinator::start_at(requested, at)
    }

    /// Takes in what happened, at the clock reading `now`, and says what to
    /// do next.
    pub fn step_at(&mut self, event: Event, now: Timestamp) -> (action: Action)
        ensures
            (final(self)@, action) == model_step(old(self)@, event@, now),
            old(self)@.wf() ==> final(self)@.wf(),
    {
        proof {
            if self@.wf() {
                law_step_moves_forward(self@, event@, now);
            }
        }
        match (self.phase, event) {
            (Phase::AwaitingSend, Event::Sent) => {
                if self.snapshot.state == State::Complete {
                    self.phase = Phase::Closed;
                    Action::Stop
                } else {
                    self.phase = Phase::AwaitingResult;
                    Action::Receive
                }
            },
            (Phase::AwaitingResult, Event::Result(result)) => {
                self.snapshot.record(result);
                self.phase = Phase::AwaitingSend;
                Action::Emit
            },
            (Phase::AwaitingResult, Event::Exhausted) => {
                self.snapshot.complete(now);
                self.phase = Phase::AwaitingSend;
                Action::Emit
            },
            _ => {
                self.phase = Phase::Closed;
                Action::Stop
            },
        }
    }

    /// Takes in what happened and says what to do next. Where the job
    /// completes, it completes at the present reading of the clock.
    pub fn step(&mut self, event: Event) -> (action: Action)
        ensures
            exists|at: Timestamp|
                at.normal() && (final(self)@, action) == #[trigger] model_step(
                    old(self)@,
                    event@,
                    at,
                ),
            old(self)@.wf() ==> final(self)@.wf(),
    {
        let at = now();
        let ghost before = self@;
        let ghost seen = event@;
        let action = self.step_at(event, at);
        assert((self@, action) == model_step(before, seen, at));
        action
    }

    /// What the driver is to do now: the action that the last step returned,
    /// and `Emit` for a job that has just started.
    pub fn next_action(&self) -> (action: Action)
        ensures
            action == action_of(self@.phase),
    {
        match self.phase {
            Phase::AwaitingSend => Action::Emit,
            Phase::AwaitingResult => Action::Receive,
            Phase::Closed => Action::Stop,
        }
    }

    /// The job's snapshot as it stands: what an emission carries.
    pub fn snapshot(&self) -> (s: &AggregateSnapshot)
        ensures
            s@ == self@.snapshot,
    {
        &self.snapshot
    }

    /// What the coordinator is waiting for.
    pub fn phase(&self) -> (p: Phase)
        ensures
            p == self@.phase,
    {
        self.phase
    }

    /// How many workers the job runs.
    pub fn worker_count(&self) -> (n: usize)
        ensures
            n == self@.requested,
    {
        self.requested
    }
}

} // verus!
