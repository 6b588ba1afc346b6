//! The data a background job produces and streams.

use vstd::prelude::*;

verus! {

/// Where a job stands. A streamed snapshot is never `Pending`.
#[derive(Clone, Copy, Debug, PartialEq, Eq, Structural)]
pub enum State {
    Pending,
    Process,
    Complete,
}

/// A point in time: whole seconds since the Unix epoch and the nanoseconds
/// that follow them.
#[derive(Clone, Copy, Debug, PartialEq, Eq, Structural)]
pub struct Timestamp {
    pub seconds: i64,
    pub nanos: i32,
}

impl Timestamp {
    /// `self` is not later than `other`.
    pub open spec fn le(self, other: Timestamp) -> bool {
        self.seconds < other.seconds || (self.seconds == other.seconds && self.nanos
            <= other.nanos)
    }

    /// Whether `self` is not later than `other`.
    pub fn not_after(&self, other: &Timestamp) -> (b: bool)
        ensures
            b == self.le(*other),
    {
        self.seconds < other.seconds || (self.seconds == other.seconds && self.nanos
            <= other.nanos)
    }
}

/// What one worker hands back: a tagged value.
#[derive(Debug)]
pub struct Payload {
    pub kind: String,
    pub value: String,
}

/// The mathematical content of a [`Payload`].
pub struct PayloadView {
    pub kind: Seq<char>,
    pub value: Seq<char>,
}

impl View for Payload {
    type V = PayloadView;

    open spec fn view(&self) -> PayloadView {
        PayloadView { kind: self.kind@, value: self.value@ }
    }
}

/// The single result of one worker. Never changed once made.
#[derive(Debug)]
pub struct WorkerResult {
    pub id: String,
    pub name: String,
    pub version: String,
    pub payload: Payload,
}

/// The mathematical content of a [`WorkerResult`].
pub struct WorkerResultView {
    pub id: Seq<char>,
    pub name: Seq<char>,
    pub version: Seq<char>,
    pub payload: PayloadView,
}

impl View for WorkerResult {
    type V = WorkerResultView;

    open spec fn view(&self) -> WorkerResultView {
        WorkerResultView {
            id: self.id@,
            name: self.name@,
            version: self.version@,
            payload: self.payload@,
        }
    }
}

impl WorkerResult {
    /// A copy of the result, equal in every field.
    pub fn duplicate(&self) -> (copy: WorkerResult)
        ensures
            copy@ == self@,
    {
        WorkerResult {
            id: self.id.clone(),
            name: self.name.clone(),
            version: self.version.clone(),
            payload: Payload { kind: self.payload.kind.clone(), value: self.payload.value.clone() },
        }
    }
}

/// The views of a run of worker results, in the same order.
pub open spec fn result_views(results: Seq<WorkerResult>) -> Seq<WorkerResultView> {
    results.map_values(|r: WorkerResult| r@)
}

/// The running aggregate of a job, as streamed to the consumer.
#[derive(Debug)]
pub struct AggregateSnapshot {
    pub state: State,
    pub started_at: Timestamp,
    pub completed_at: Option<Timestamp>,
    pub results: Vec<WorkerResult>,
}

/// The mathematical content of an [`AggregateSnapshot`].
pub struct SnapshotView {
    pub state: State,
    pub started_at: Timestamp,
    pub completed_at: Option<Timestamp>,
    pub results: Seq<WorkerResultView>,
}

impl SnapshotView {
    /// A snapshot carries a completion time exactly when it is complete, and
    /// is never pending.
    pub open spec fn wf(self) -> bool {
        &&& self.state != State::Pending
        &&& self.completed_at is Some <==> self.state == State::Complete
    }

    /// `later` may follow `self` in the life of one job: same start, results
    /// only appended, and no way back from `Complete`.
    pub open spec fn precedes(self, later: SnapshotView) -> bool {
        &&& later.started_at == self.started_at
        &&& self.results.is_prefix_of(later.results)
        &&& self.state == State::Complete ==> later == self
    }
}

impl View for AggregateSnapshot {
    type V = SnapshotView;

    open spec fn view(&self) -> SnapshotView {
        SnapshotView {
            state: self.state,
            started_at: self.started_at,
            completed_at: self.completed_at,
            results: result_views(self.results@),
        }
    }
}

/// The views of a run of snapshots, in the same order.
pub open spec fn snapshot_views(snapshots: Seq<AggregateSnapshot>) -> Seq<SnapshotView> {
    snapshots.map_values(|s: AggregateSnapshot| s@)
}

impl AggregateSnapshot {
    /// The snapshot a job starts with: in process since `now`, no results.
    pub fn begin(now: Timestamp) -> (s: AggregateSnapshot)
        ensures
            s@ == (SnapshotView {
                state: State::Process,
                started_at: now,
                completed_at: None,
                results: Seq::empty(),
            }),
            s@.wf(),
    {
        let s = AggregateSnapshot {
            state: State::Process,
            started_at: now,
            completed_at: None,
            results: Vec::new(),
        };
        assert(s@.results =~= Seq::empty());
        s
    }

    /// Appends one result; everything else stays.
    pub fn record(&mut self, result: WorkerResult)
        ensures
            final(self)@ == (SnapshotView {
                results: old(self)@.results.push(result@),
                ..old(self)@
            }),
    {
        let ghost before = self.results@;
        self.results.push(result);
        assert(result_views(before.push(result)) =~= result_views(before).push(result@));
    }

    /// Marks the job complete at `now`; the results stay.
    pub fn complete(&mut self, now: Timestamp)
        ensures
            final(self)@ == (SnapshotView {
                state: State::Complete,
                completed_at: Some(now),
                ..old(self)@
            }),
    {
        self.state = State::Complete;
        self.completed_at = Some(now);
    }

    /// A copy of the snapshot as it stands, equal in every field.
    pub fn duplicate(&self) -> (copy: AggregateSnapshot)
        ensures
            copy@ == self@,
    {
        let mut results: Vec<WorkerResult> = Vec::new();
        let mut i: usize = 0;
        while i < self.results.len()
            invariant
                i <= self.results.len(),
                result_views(results@) == result_views(self.results@).take(i as int),
            decreases self.results.len() - i,
        {
            let ghost before = results@;
            results.push(self.results[i].duplicate());
            assert(result_views(results@) =~= result_views(before).push(self.results@[i as int]@));
            assert(result_views(self.results@).take(i + 1) =~= result_views(self.results@).take(
                i as int,
            ).push(self.results@[i as int]@));
            i += 1;
        }
        assert(result_views(self.results@).take(i as int) =~= result_views(self.results@));
        AggregateSnapshot {
            state: self.state,
            started_at: self.started_at,
            completed_at: self.completed_at,
            results,
        }
    }

    /// How many results the snapshot holds.
    pub fn result_count(&self) -> (n: usize)
        ensures
            n == self@.results.len(),
    {
        self.results.len()
    }
}

} // verus!
