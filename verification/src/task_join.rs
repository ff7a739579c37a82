//! How tasks end, and what is done about those that do not.

use vstd::prelude::*;

use crate::job::{fail_recheck_of, mentions, JobKind, JobRow, JobState};
use crate::text::join2;

verus! {

/// How a task ended.
#[derive(Clone, Copy, Debug, PartialEq, Eq, Structural)]
pub enum JoinFailure {
    Panicked,
    Cancelled,
}

/// Tells how a task ended, without what it may have panicked with.
pub fn task_join_error_summary(task: &str, failure: JoinFailure) -> (r: String)
    ensures
        r@ == task@ + match failure {
            JoinFailure::Panicked => " panicked"@,
            JoinFailure::Cancelled => " was cancelled"@,
        },
{
    match failure {
        JoinFailure::Panicked => join2(task, " panicked"),
        JoinFailure::Cancelled => join2(task, " was cancelled"),
    }
}

/// Why a torrent whose task has ended by itself is shown in error.
pub fn reap_reason(failure: Option<JoinFailure>) -> (r: String)
    ensures
        r@ == match failure {
            None => "torrent task exited unexpectedly"@,
            Some(JoinFailure::Panicked) => "torrent task"@ + " panicked"@,
            Some(JoinFailure::Cancelled) => "torrent task"@ + " was cancelled"@,
        },
{
    match failure {
        None => "torrent task exited unexpectedly".to_owned(),
        Some(failure) => task_join_error_summary("torrent task", failure),
    }
}

/// What is done about a task that is to end.
#[derive(Clone, Copy, Debug, PartialEq, Eq, Structural)]
pub enum ShutdownStep {
    /// It has ended.
    Ended,
    /// It has ended, and not as it should have.
    EndedBadly,
    /// Its time is up: it is aborted, and waited for once more.
    Abort,
    /// It was aborted and has not ended in the grace time; it is given up.
    GiveUp,
}

pub open spec fn next_shutdown_step(
    joined: Option<Option<JoinFailure>>,
    aborted: bool,
) -> ShutdownStep {
    match joined {
        None => if aborted {
            ShutdownStep::GiveUp
        } else {
            ShutdownStep::Abort
        },
        Some(None) => ShutdownStep::Ended,
        Some(Some(JoinFailure::Cancelled)) => if aborted {
            ShutdownStep::Ended
        } else {
            ShutdownStep::EndedBadly
        },
        Some(Some(JoinFailure::Panicked)) => ShutdownStep::EndedBadly,
    }
}

/// Decides about a task that is to end. `joined` is how it ended, nothing where
/// the wait has run out; `aborted` tells whether it was aborted before. Being
/// cancelled is how an aborted task should end.
pub fn shutdown_step(joined: Option<Option<JoinFailure>>, aborted: bool) -> (r: ShutdownStep)
    ensures
        r == next_shutdown_step(joined, aborted),
{
    match joined {
        None => if aborted {
            ShutdownStep::GiveUp
        } else {
            ShutdownStep::Abort
        },
        Some(None) => ShutdownStep::Ended,
        Some(Some(JoinFailure::Cancelled)) => if aborted {
            ShutdownStep::Ended
        } else {
            ShutdownStep::EndedBadly
        },
        Some(Some(JoinFailure::Panicked)) => ShutdownStep::EndedBadly,
    }
}

/// A task is aborted at most once, and not before its time is up.
pub proof fn law_tasks_are_aborted_once(joined: Option<Option<JoinFailure>>, aborted: bool)
    ensures
        next_shutdown_step(joined, aborted) == ShutdownStep::Abort ==> joined is None && !aborted,
        aborted ==> next_shutdown_step(joined, aborted) != ShutdownStep::Abort,
{
}

/// The places of the tasks that have not ended, in their order.
pub open spec fn unfinished(finished: Seq<bool>) -> Seq<int>
    decreases finished.len(),
{
    if finished.len() == 0 {
        Seq::empty()
    } else {
        let before = unfinished(finished.drop_last());
        if finished.last() {
            before
        } else {
            before.push(finished.len() - 1)
        }
    }
}

/// The tasks to abort once the time of them all is up: those that have not
/// ended.
pub fn tasks_to_abort(finished: &[bool]) -> (r: Vec<usize>)
    ensures
        r@.map_values(|i: usize| i as int) == unfinished(finished@),
{
    let mut r: Vec<usize> = Vec::new();
    let mut i: usize = 0;
    proof {
        assert(finished@.take(0) =~= Seq::<bool>::empty());
        assert(r@.map_values(|i: usize| i as int) =~= Seq::<int>::empty());
    }
    while i < finished.len()
        invariant
            i <= finished@.len(),
            r@.map_values(|i: usize| i as int) == unfinished(finished@.take(i as int)),
        decreases finished@.len() - i,
    {
        proof {
            assert(finished@.take(i + 1).drop_last() =~= finished@.take(i as int));
        }
        if !finished[i] {
            let ghost before = r@;
            r.push(i);
            proof {
                assert(r@.map_values(|i: usize| i as int) =~= before.map_values(
                    |i: usize| i as int,
                ).push(i as int));
            }
        }
        i = i + 1;
    }
    assert(finished@.take(i as int) =~= finished@);
    r
}

/// A task that has ended is not aborted, and every other is.
pub proof fn law_exactly_the_unfinished_are_aborted(finished: Seq<bool>, i: int)
    ensures
        unfinished(finished).contains(i) <==> 0 <= i < finished.len() && !finished[i],
    decreases finished.len(),
{
    if finished.len() > 0 {
        let before = unfinished(finished.drop_last());
        law_exactly_the_unfinished_are_aborted(finished.drop_last(), i);
        let all = unfinished(finished);
        if before.contains(i) {
            let k = choose|k: int| 0 <= k < before.len() && before[k] == i;
            assert(all[k] == i);
        }
        if !finished.last() {
            assert(all[before.len() as int] == finished.len() - 1);
        }
        if all.contains(i) && i != finished.len() - 1 {
            let k = choose|k: int| 0 <= k < all.len() && all[k] == i;
            assert(before[k] == i);
        }
    }
}

/// What is to be done next about a torrent whose task has ended by itself.
#[derive(Debug)]
pub enum ReapAction {
    /// Forget the task: its channel, its announcements and its tier.
    Forget,
    /// Show the torrent in error, for this reason.
    ShowError { reason: String },
    /// Store the error, and end the rechecks that only the task could go on
    /// with.
    Persist,
    /// Put the torrent to sleep, in error; whether or not that was stored,
    /// there is no task any more.
    Demote,
    Finish,
}

/// What came of an action.
#[derive(Debug)]
pub enum ReapOutcome {
    Done,
    /// The session does not show the torrent.
    NotShown,
    Failed,
}

/// How far it has come.
#[derive(Clone, Copy, Debug, PartialEq, Eq, Structural)]
pub enum ReapPhase {
    Forgetting,
    Showing,
    Persisting,
    Demoting,
    Over,
}

/// The phase and the action after an outcome.
pub open spec fn reap_step(phase: ReapPhase, reason: String, outcome: ReapOutcome) -> (
    ReapPhase,
    ReapAction,
) {
    match (phase, outcome) {
        (ReapPhase::Forgetting, _) => (ReapPhase::Showing, ReapAction::ShowError { reason }),
        (ReapPhase::Showing, ReapOutcome::NotShown) => (ReapPhase::Over, ReapAction::Finish),
        (ReapPhase::Showing, _) => (ReapPhase::Persisting, ReapAction::Persist),
        (ReapPhase::Persisting, _) => (ReapPhase::Demoting, ReapAction::Demote),
        (_, _) => (ReapPhase::Over, ReapAction::Finish),
    }
}

/// Takes the outcome of the last action, and tells the next one.
pub fn reap_finished_torrent_task(
    phase: ReapPhase,
    reason: String,
    outcome: ReapOutcome,
) -> (r: (ReapPhase, ReapAction))
    ensures
        r == reap_step(phase, reason, outcome),
{
    match (phase, outcome) {
        (ReapPhase::Forgetting, _) => (ReapPhase::Showing, ReapAction::ShowError { reason }),
        (ReapPhase::Showing, ReapOutcome::NotShown) => (ReapPhase::Over, ReapAction::Finish),
        (ReapPhase::Showing, _) => (ReapPhase::Persisting, ReapAction::Persist),
        (ReapPhase::Persisting, _) => (ReapPhase::Demoting, ReapAction::Demote),
        (_, _) => (ReapPhase::Over, ReapAction::Finish),
    }
}

/// A torrent that is shown is put to sleep whether or not its error could be
/// stored.
pub proof fn law_dead_tasks_leave_sleeping_torrents(reason: String, outcome: ReapOutcome)
    ensures
        reap_step(ReapPhase::Persisting, reason, outcome).1 is Demote,
{
}

/// The job as it stands after a recheck of a torrent whose task has died was
/// ended.
pub open spec fn recheck_ended(
    before: JobRow,
    after: JobRow,
    hash: Seq<char>,
    reason: Seq<char>,
    now: i64,
) -> bool {
    if before.kind == JobKind::Recheck && mentions(before.affected_torrents@, hash) {
        &&& after.state == JobState::Failed
        &&& after.error matches Some(e) && e@ == reason
        &&& after.updated_at == now
        &&& after.finished_at == Some(now)
        &&& after == (JobRow {
            state: after.state,
            error: after.error,
            updated_at: after.updated_at,
            finished_at: after.finished_at,
            ..before
        })
    } else {
        after == before
    }
}

/// Ends every recheck of a torrent whose task has died; all other jobs stay.
pub fn fail_rechecks_of(jobs: &mut Vec<JobRow>, info_hash: &String, reason: &String, now: i64)
    ensures
        final(jobs)@.len() == old(jobs)@.len(),
        forall|i: int|
            0 <= i < old(jobs)@.len() ==> recheck_ended(
                #[trigger] old(jobs)@[i],
                final(jobs)@[i],
                info_hash@,
                reason@,
                now,
            ),
{
    let ghost before = jobs@;
    let mut i: usize = 0;
    while i < jobs.len()
        invariant
            i <= jobs@.len(),
            jobs@.len() == before.len(),
            before == old(jobs)@,
            forall|k: int|
                0 <= k < i ==> recheck_ended(
                    #[trigger] before[k],
                    jobs@[k],
                    info_hash@,
                    reason@,
                    now,
                ),
            forall|k: int| i <= k < before.len() ==> jobs@[k] == #[trigger] before[k],
        decreases jobs@.len() - i,
    {
        fail_recheck_of(&mut jobs[i], info_hash, reason, now);
        i = i + 1;
    }
}

/// A task that has ended well is done with, one that panicked has ended badly, and
/// one that was cancelled has ended well exactly where it was aborted. One that
/// has not ended is aborted, and given up where it was aborted already.
pub proof fn law_ends_of_tasks_are_told_apart(aborted: bool)
    ensures
        next_shutdown_step(Some(None), aborted) == ShutdownStep::Ended,
        next_shutdown_step(Some(Some(JoinFailure::Panicked)), aborted) == ShutdownStep::EndedBadly,
        next_shutdown_step(Some(Some(JoinFailure::Cancelled)), true) == ShutdownStep::Ended,
        next_shutdown_step(Some(Some(JoinFailure::Cancelled)), false) == ShutdownStep::EndedBadly,
        next_shutdown_step(None, false) == ShutdownStep::Abort,
        next_shutdown_step(None, true) == ShutdownStep::GiveUp,
{
}

/// A torrent whose task has died is forgotten as a running one, shown in error for
/// the reason, that is stored, and it is put to sleep; a torrent that is not
/// shown is only forgotten.
pub proof fn law_dead_tasks_are_reaped_in_order(
    reason: String,
    forgotten: ReapOutcome,
    shown: ReapOutcome,
    stored: ReapOutcome,
    demoted: ReapOutcome,
)
    requires
        !(shown is NotShown),
    ensures
        ({
            let (p1, a1) = reap_step(ReapPhase::Forgetting, reason, forgotten);
            let (p2, a2) = reap_step(p1, reason, shown);
            let (p3, a3) = reap_step(p2, reason, stored);
            let (p4, a4) = reap_step(p3, reason, demoted);
            &&& a1 == (ReapAction::ShowError { reason })
            &&& a2 is Persist
            &&& a3 is Demote
            &&& a4 is Finish
            &&& p4 == ReapPhase::Over
            &&& reap_step(p1, reason, ReapOutcome::NotShown) == (
                ReapPhase::Over,
                ReapAction::Finish,
            )
        }),
{
}

/// A recheck of the torrent fails for the reason and is over; every other job
/// stays as it is.
pub proof fn law_only_rechecks_of_the_torrent_fail(
    before: JobRow,
    after: JobRow,
    hash: Seq<char>,
    reason: Seq<char>,
    now: i64,
    i: int,
)
    requires
        recheck_ended(before, after, hash, reason, now),
    ensures
        before.kind != JobKind::Recheck ==> after == before,
        before.kind == JobKind::Recheck && 0 <= i < before.affected_torrents@.len()
            && before.affected_torrents@[i]@ == hash ==> after.state == JobState::Failed && (
        after.error matches Some(e) && e@ == reason) && after.finished_at == Some(now)
            && after.updated_at == now && after.job_id == before.job_id && after.kind
            == before.kind,
        after != before ==> mentions(before.affected_torrents@, hash),
{
}

/// Tasks are aborted in their order.
pub proof fn law_tasks_are_aborted_in_order(finished: Seq<bool>)
    ensures
        forall|k: int, l: int|
            0 <= k < l < unfinished(finished).len() ==> unfinished(finished)[k] < unfinished(
                finished,
            )[l],
        forall|k: int|
            0 <= k < unfinished(finished).len() ==> 0 <= #[trigger] unfinished(finished)[k]
                < finished.len(),
    decreases finished.len(),
{
    if finished.len() > 0 {
        let before = unfinished(finished.drop_last());
        let all = unfinished(finished);
        law_tasks_are_aborted_in_order(finished.drop_last());
        assert forall|k: int| 0 <= k < all.len() implies 0 <= #[trigger] all[k]
            < finished.len() by {
            if k < before.len() {
                assert(all[k] == before[k]);
            }
        }
        assert forall|k: int, l: int| 0 <= k < l < all.len() implies all[k] < all[l] by {
            assert(all[k] == before[k]);
            if l < before.len() {
                assert(all[l] == before[l]);
            }
        }
    }
}

} // verus!
