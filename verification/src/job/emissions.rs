//! What a job has its driver emit, whatever the driver reports and in
//! whatever order: the emissions only move forward, and what one job emits
//! does not depend on what happens to another.

use super::coordinator::{
    law_step_moves_forward, model_step, Action, EventView, JobModel, Phase,
};
use super::snapshot::{SnapshotView, State, Timestamp};
use vstd::prelude::*;

verus! {

/// Something that happened to a job, with the clock reading at that moment.
pub struct Happening {
    pub event: EventView,
    pub at: Timestamp,
}

/// What the driver of a job is told to emit by the transition on `happening`
/// from `m`: the new snapshot, or nothing.
pub open spec fn emitted_by(m: JobModel, happening: Happening) -> Seq<SnapshotView> {
    let (next, action) = model_step(m, happening.event, happening.at);
    if action == Action::Emit {
        seq![next.snapshot]
    } else {
        Seq::empty()
    }
}

/// The snapshots that the driver of a job is told to emit, one after the
/// other, while `happenings` happen to the job in state `m`. The snapshot
/// that `m` itself holds is not among them: a job that has just started has
/// its driver emit that one first.
pub open spec fn emissions(m: JobModel, happenings: Seq<Happening>) -> Seq<SnapshotView>
    decreases happenings.len(),
{
    if happenings.len() == 0 {
        Seq::empty()
    } else {
        emitted_by(m, happenings[0]) + emissions(
            model_step(m, happenings[0].event, happenings[0].at).0,
            happenings.drop_first(),
        )
    }
}

/// One turn of a schedule for two jobs: something happens to the first job,
/// or to the second.
pub struct Turn {
    pub first: bool,
    pub happening: Happening,
}

/// What happens to one of the two jobs under a schedule, in order.
pub open spec fn share(schedule: Seq<Turn>, first: bool) -> Seq<Happening>
    decreases schedule.len(),
{
    if schedule.len() == 0 {
        Seq::empty()
    } else if schedule[0].first == first {
        seq![schedule[0].happening] + share(schedule.drop_first(), first)
    } else {
        share(schedule.drop_first(), first)
    }
}

/// The snapshots that two jobs emit, each in its own stream, while they are
/// driven turn by turn in the order of `schedule`.
pub open spec fn emissions_side_by_side(a: JobModel, b: JobModel, schedule: Seq<Turn>) -> (
    Seq<SnapshotView>,
    Seq<SnapshotView>,
)
    decreases schedule.len(),
{
    if schedule.len() == 0 {
        (Seq::empty(), Seq::empty())
    } else {
        let turn = schedule[0];
        if turn.first {
            let next = model_step(a, turn.happening.event, turn.happening.at).0;
            let rest = emissions_side_by_side(next, b, schedule.drop_first());
            (emitted_by(a, turn.happening) + rest.0, rest.1)
        } else {
            let next = model_step(b, turn.happening.event, turn.happening.at).0;
            let rest = emissions_side_by_side(a, next, schedule.drop_first());
            (rest.0, emitted_by(b, turn.happening) + rest.1)
        }
    }
}

/// Two jobs driven side by side, in whatever order their turns come, emit
/// each the stream that it would emit alone: no snapshot of one shows up in
/// the stream of the other, and none is lost, changed or moved.
pub proof fn law_jobs_do_not_interfere(a: JobModel, b: JobModel, schedule: Seq<Turn>)
    ensures
        emissions_side_by_side(a, b, schedule) == (
            emissions(a, share(schedule, true)),
            emissions(b, share(schedule, false)),
        ),
    decreases schedule.len(),
{
    if schedule.len() > 0 {
        let turn = schedule[0];
        let rest = schedule.drop_first();
        let mine = share(schedule, turn.first);
        assert(mine[0] == turn.happening);
        assert(mine.drop_first() =~= share(rest, turn.first));
        if turn.first {
            law_jobs_do_not_interfere(
                model_step(a, turn.happening.event, turn.happening.at).0,
                b,
                rest,
            );
        } else {
            law_jobs_do_not_interfere(
                a,
                model_step(b, turn.happening.event, turn.happening.at).0,
                rest,
            );
        }
    }
}

/// A job whose snapshot is complete asks for no further emission, whatever
/// is reported to it.
pub proof fn law_complete_is_never_followed(m: JobModel, happenings: Seq<Happening>)
    requires
        m.wf(),
        m.snapshot.state == State::Complete,
    ensures
        emissions(m, happenings) == Seq::<SnapshotView>::empty(),
    decreases happenings.len(),
{
    if happenings.len() > 0 {
        let next = model_step(m, happenings[0].event, happenings[0].at).0;
        law_step_moves_forward(m, happenings[0].event, happenings[0].at);
        law_complete_is_never_followed(next, happenings.drop_first());
        assert(emissions(m, happenings) =~= Seq::<SnapshotView>::empty());
    }
}

/// Every snapshot that a job has emitted from state `m` on is well formed and
/// follows the snapshot of `m`.
proof fn lemma_emissions_follow(m: JobModel, happenings: Seq<Happening>, i: int)
    requires
        m.wf(),
        0 <= i < emissions(m, happenings).len(),
    ensures
        emissions(m, happenings)[i].wf(),
        m.snapshot.precedes(emissions(m, happenings)[i]),
    decreases happenings.len(),
{
    let first = emitted_by(m, happenings[0]);
    let next = model_step(m, happenings[0].event, happenings[0].at).0;
    law_step_moves_forward(m, happenings[0].event, happenings[0].at);
    if i >= first.len() {
        let later = emissions(next, happenings.drop_first())[i - first.len()];
        lemma_emissions_follow(next, happenings.drop_first(), i - first.len());
        assert(m.snapshot.results.is_prefix_of(later.results)) by {
            assert(later.results.take(m.snapshot.results.len() as int)
                =~= next.snapshot.results.take(m.snapshot.results.len() as int));
        }
    }
}

/// Whatever is reported to a job, and in whatever order, the snapshots it
/// has emitted only move forward: each is well formed and follows the
/// snapshot that the job held before, a later one keeps the start time and
/// the results of an earlier one, in their order, and only the last can be
/// complete.
pub proof fn law_emissions_move_forward(m: JobModel, happenings: Seq<Happening>)
    requires
        m.wf(),
    ensures
        ({
            let stream = emissions(m, happenings);
            &&& forall|i: int|
                0 <= i < stream.len() ==> (#[trigger] stream[i]).wf() && m.snapshot.precedes(
                    stream[i],
                )
            &&& forall|i: int, j: int|
                0 <= i <= j < stream.len() ==> (#[trigger] stream[i]).precedes(
                    #[trigger] stream[j],
                )
            &&& forall|i: int, j: int|
                0 <= i <= j < stream.len() ==> (#[trigger] stream[i]).results.len() <= (
                #[trigger] stream[j]).results.len()
            &&& forall|i: int|
                0 <= i < stream.len() - 1 ==> (#[trigger] stream[i]).state == State::Process
        }),
    decreases happenings.len(),
{
    let stream = emissions(m, happenings);
    if happenings.len() > 0 {
        let first = emitted_by(m, happenings[0]);
        let next = model_step(m, happenings[0].event, happenings[0].at).0;
        let rest = emissions(next, happenings.drop_first());
        law_step_moves_forward(m, happenings[0].event, happenings[0].at);
        law_emissions_move_forward(next, happenings.drop_first());
        if next.snapshot.state == State::Complete {
            law_complete_is_never_followed(next, happenings.drop_first());
        }
        assert forall|i: int| 0 <= i < stream.len() implies (#[trigger] stream[i]).wf()
            && m.snapshot.precedes(stream[i]) by {
            lemma_emissions_follow(m, happenings, i);
        }
        assert forall|i: int, j: int| 0 <= i <= j < stream.len() implies (#[trigger] stream[i]).precedes(
            #[trigger] stream[j],
        ) by {
            if i < first.len() {
                if j >= first.len() {
                    lemma_emissions_follow(next, happenings.drop_first(), j - first.len());
                } else {
                    assert(stream[j].results.take(stream[i].results.len() as int)
                        =~= stream[i].results);
                }
            } else {
                assert(stream[i] == rest[i - first.len()]);
                assert(stream[j] == rest[j - first.len()]);
            }
        }
        assert forall|i: int| 0 <= i < stream.len() - 1 implies (#[trigger] stream[i]).state
            == State::Process by {
            lemma_emissions_follow(m, happenings, i);
            if i >= first.len() {
                assert(stream[i] == rest[i - first.len()]);
            }
        }
    }
}

} // verus!
