//! Routing an inbound peer to its torrent. A torrent without a task is woken
//! for the peer; where that fails, it goes back to sleep as it was.

use vstd::prelude::*;

use crate::job::TorrentState;
use crate::restore::{is_halted, starts_paused};
use crate::text::{join2, join3};

verus! {

/// Why a peer was not routed.
#[derive(Debug)]
pub enum RouteFailure {
    /// What stood in the way, as it was reported.
    Reported(String),
    NoTask { info_hash: String },
    NotResumed(String),
    NotDelivered(String),
}

impl RouteFailure {
    pub open spec fn text(self) -> Seq<char> {
        match self {
            RouteFailure::Reported(e) => e@,
            RouteFailure::NoTask { info_hash } => "torrent "@ + info_hash@
                + " has no runtime task"@,
            RouteFailure::NotResumed(e) => "promoted torrent task stopped before resume: "@ + e@,
            RouteFailure::NotDelivered(e) =>
                "promoted torrent task stopped before peer delivery: "@ + e@,
        }
    }

    /// The reason in words.
    pub fn to_text(&self) -> (r: String)
        ensures
            r@ == self.text(),
    {
        match self {
            RouteFailure::Reported(e) => e.clone(),
            RouteFailure::NoTask { info_hash } => join3(
                "torrent ",
                info_hash.as_str(),
                " has no runtime task",
            ),
            RouteFailure::NotResumed(e) => join2(
                "promoted torrent task stopped before resume: ",
                e.as_str(),
            ),
            RouteFailure::NotDelivered(e) => join2(
                "promoted torrent task stopped before peer delivery: ",
                e.as_str(),
            ),
        }
    }
}

/// What is to be done next with an inbound peer.
#[derive(Debug)]
pub enum RouteAction {
    /// Find the torrent that the peer asks for.
    Resolve,
    /// See whether the peer is banned.
    CheckBan,
    /// See that no storage work is under way.
    CheckIdle,
    /// See whether the torrent has a task.
    LookUpTask,
    /// See whether the torrent waits for its metadata, and note how it is
    /// shown.
    CheckPlaceholder,
    /// Show the torrent as waiting for its metadata.
    ShowPending,
    /// Start the task that fetches its metadata.
    EnsureMetadataTask,
    /// Wake the torrent; the peer is handed over once it is awake.
    Promote,
    /// Find the torrent's task.
    FindTask,
    /// Let the task that fetches the metadata begin.
    ResumeMetadataTask,
    /// Hand the peer to the task.
    Deliver,
    /// Note that the torrent is in use.
    Touch,
    /// It is over.
    Routed,
    Refuse(RouteFailure),
    /// Show the torrent as it was, take its task away, and refuse.
    RollBack(RouteFailure),
}

/// What came of an action.
#[derive(Debug)]
pub enum RouteOutcome {
    Done,
    Failed(String),
    Ban { banned: bool },
    Task { present: bool },
    /// Whether the torrent waits for its metadata, and whether the session
    /// shows it.
    Placeholder { yes: bool, shown: bool },
    NoTask { info_hash: String },
}

/// How far routing a peer has come.
#[derive(Clone, Copy, Debug, PartialEq, Eq, Structural)]
pub enum RoutePhase {
    Resolving,
    CheckingBan,
    CheckingIdle,
    LookingUpTask,
    CheckingPlaceholder,
    ShowingPending { shown: bool },
    EnsuringTask { shown: bool },
    Promoting,
    FindingTask { woken: Option<bool> },
    Resuming { shown: bool },
    Delivering { woken: Option<bool> },
    Touching,
    Over,
}

/// A peer that is being routed.
#[derive(Clone, Copy, Debug, PartialEq, Eq, Structural)]
pub struct PeerRoute {
    /// The address of the peer is known.
    pub has_addr: bool,
    pub phase: RoutePhase,
}

/// A failure after the torrent was woken for its metadata. `woken` tells
/// whether the session showed it before; nothing where it was awake.
pub open spec fn undo(woken: Option<bool>, why: RouteFailure) -> RouteAction {
    if woken == Some(true) {
        RouteAction::RollBack(why)
    } else {
        RouteAction::Refuse(why)
    }
}

/// The action after an outcome.
pub open spec fn route_step(route: PeerRoute, outcome: RouteOutcome) -> (RoutePhase, RouteAction) {
    match (route.phase, outcome) {
        (RoutePhase::Resolving, RouteOutcome::Failed(e)) => (
            RoutePhase::Over,
            RouteAction::Refuse(RouteFailure::Reported(e)),
        ),
        (RoutePhase::Resolving, _) => if route.has_addr {
            (RoutePhase::CheckingBan, RouteAction::CheckBan)
        } else {
            (RoutePhase::CheckingIdle, RouteAction::CheckIdle)
        },
        (RoutePhase::CheckingBan, RouteOutcome::Ban { banned: true }) => (
            RoutePhase::Over,
            RouteAction::Routed,
        ),
        (RoutePhase::CheckingBan, _) => (RoutePhase::CheckingIdle, RouteAction::CheckIdle),
        (RoutePhase::CheckingIdle, RouteOutcome::Failed(e)) => (
            RoutePhase::Over,
            RouteAction::Refuse(RouteFailure::Reported(e)),
        ),
        (RoutePhase::CheckingIdle, _) => (RoutePhase::LookingUpTask, RouteAction::LookUpTask),
        (RoutePhase::LookingUpTask, RouteOutcome::Task { present: true }) => (
            RoutePhase::FindingTask { woken: None },
            RouteAction::FindTask,
        ),
        (RoutePhase::LookingUpTask, _) => (
            RoutePhase::CheckingPlaceholder,
            RouteAction::CheckPlaceholder,
        ),
        (RoutePhase::CheckingPlaceholder, RouteOutcome::Failed(e)) => (
            RoutePhase::Over,
            RouteAction::Refuse(RouteFailure::Reported(e)),
        ),
        (RoutePhase::CheckingPlaceholder, RouteOutcome::Placeholder { yes: true, shown }) => (
            RoutePhase::ShowingPending { shown },
            RouteAction::ShowPending,
        ),
        (RoutePhase::CheckingPlaceholder, _) => (RoutePhase::Promoting, RouteAction::Promote),
        (RoutePhase::Promoting, _) => (RoutePhase::Over, RouteAction::Routed),
        (RoutePhase::ShowingPending { .. }, RouteOutcome::Failed(e)) => (
            RoutePhase::Over,
            RouteAction::Refuse(RouteFailure::Reported(e)),
        ),
        (RoutePhase::ShowingPending { shown }, _) => (
            RoutePhase::EnsuringTask { shown },
            RouteAction::EnsureMetadataTask,
        ),
        (RoutePhase::EnsuringTask { shown }, RouteOutcome::Failed(e)) => (
            RoutePhase::Over,
            undo(Some(shown), RouteFailure::Reported(e)),
        ),
        (RoutePhase::EnsuringTask { shown }, _) => (
            RoutePhase::FindingTask { woken: Some(shown) },
            RouteAction::FindTask,
        ),
        (RoutePhase::FindingTask { woken }, RouteOutcome::NoTask { info_hash }) => (
            RoutePhase::Over,
            undo(woken, RouteFailure::NoTask { info_hash }),
        ),
        (RoutePhase::FindingTask { woken: Some(shown) }, _) => (
            RoutePhase::Resuming { shown },
            RouteAction::ResumeMetadataTask,
        ),
        (RoutePhase::FindingTask { woken: None }, _) => (
            RoutePhase::Delivering { woken: None },
            RouteAction::Deliver,
        ),
        (RoutePhase::Resuming { shown }, RouteOutcome::Failed(e)) => (
            RoutePhase::Over,
            undo(Some(shown), RouteFailure::NotResumed(e)),
        ),
        (RoutePhase::Resuming { shown }, _) => (
            RoutePhase::Delivering { woken: Some(shown) },
            RouteAction::Deliver,
        ),
        (RoutePhase::Delivering { woken }, RouteOutcome::Failed(e)) => (
            RoutePhase::Over,
            undo(woken, RouteFailure::NotDelivered(e)),
        ),
        (RoutePhase::Delivering { .. }, _) => (RoutePhase::Touching, RouteAction::Touch),
        (_, _) => (RoutePhase::Over, RouteAction::Routed),
    }
}

fn undo_wake(woken: Option<bool>, why: RouteFailure) -> (r: RouteAction)
    ensures
        r == undo(woken, why),
{
    match woken {
        Some(true) => RouteAction::RollBack(why),
        _ => RouteAction::Refuse(why),
    }
}

impl PeerRoute {
    pub fn begin(has_addr: bool) -> (r: (Self, RouteAction))
        ensures
            r.0 == (PeerRoute { has_addr, phase: RoutePhase::Resolving }),
            r.1 is Resolve,
    {
        (PeerRoute { has_addr, phase: RoutePhase::Resolving }, RouteAction::Resolve)
    }

    /// Takes the outcome of the last action, and tells the next one.
    pub fn next(&mut self, outcome: RouteOutcome) -> (r: RouteAction)
        ensures
            final(self).has_addr == old(self).has_addr,
            (final(self).phase, r) == route_step(*old(self), outcome),
    {
        let phase = self.phase;
        self.phase = RoutePhase::Over;
        match (phase, outcome) {
            (RoutePhase::Resolving, RouteOutcome::Failed(e))
            | (RoutePhase::CheckingIdle, RouteOutcome::Failed(e))
            | (RoutePhase::CheckingPlaceholder, RouteOutcome::Failed(e))
            | (RoutePhase::ShowingPending { .. }, RouteOutcome::Failed(e)) => RouteAction::Refuse(
                RouteFailure::Reported(e),
            ),
            (RoutePhase::Resolving, _) => {
                if self.has_addr {
                    self.phase = RoutePhase::CheckingBan;
                    RouteAction::CheckBan
                } else {
                    self.phase = RoutePhase::CheckingIdle;
                    RouteAction::CheckIdle
                }
            },
            (RoutePhase::CheckingBan, RouteOutcome::Ban { banned: true }) => RouteAction::Routed,
            (RoutePhase::CheckingBan, _) => {
                self.phase = RoutePhase::CheckingIdle;
                RouteAction::CheckIdle
            },
            (RoutePhase::CheckingIdle, _) => {
                self.phase = RoutePhase::LookingUpTask;
                RouteAction::LookUpTask
            },
            (RoutePhase::LookingUpTask, RouteOutcome::Task { present: true }) => {
                self.phase = RoutePhase::FindingTask { woken: None };
                RouteAction::FindTask
            },
            (RoutePhase::LookingUpTask, _) => {
                self.phase = RoutePhase::CheckingPlaceholder;
                RouteAction::CheckPlaceholder
            },
            (RoutePhase::CheckingPlaceholder, RouteOutcome::Placeholder { yes: true, shown }) => {
                self.phase = RoutePhase::ShowingPending { shown };
                RouteAction::ShowPending
            },
            (RoutePhase::CheckingPlaceholder, _) => {
                self.phase = RoutePhase::Promoting;
                RouteAction::Promote
            },
            (RoutePhase::Promoting, _) => RouteAction::Routed,
            (RoutePhase::ShowingPending { shown }, _) => {
                self.phase = RoutePhase::EnsuringTask { shown };
                RouteAction::EnsureMetadataTask
            },
            (RoutePhase::EnsuringTask { shown }, RouteOutcome::Failed(e)) => undo_wake(
                Some(shown),
                RouteFailure::Reported(e),
            ),
            (RoutePhase::EnsuringTask { shown }, _) => {
                self.phase = RoutePhase::FindingTask { woken: Some(shown) };
                RouteAction::FindTask
            },
            (RoutePhase::FindingTask { woken }, RouteOutcome::NoTask { info_hash }) => undo_wake(
                woken,
                RouteFailure::NoTask { info_hash },
            ),
            (RoutePhase::FindingTask { woken: Some(shown) }, _) => {
                self.phase = RoutePhase::Resuming { shown };
                RouteAction::ResumeMetadataTask
            },
            (RoutePhase::FindingTask { woken: None }, _) => {
                self.phase = RoutePhase::Delivering { woken: None };
                RouteAction::Deliver
            },
            (RoutePhase::Resuming { shown }, RouteOutcome::Failed(e)) => undo_wake(
                Some(shown),
                RouteFailure::NotResumed(e),
            ),
            (RoutePhase::Resuming { shown }, _) => {
                self.phase = RoutePhase::Delivering { woken: Some(shown) };
                RouteAction::Deliver
            },
            (RoutePhase::Delivering { woken }, RouteOutcome::Failed(e)) => undo_wake(
                woken,
                RouteFailure::NotDelivered(e),
            ),
            (RoutePhase::Delivering { .. }, _) => {
                self.phase = RoutePhase::Touching;
                RouteAction::Touch
            },
            (_, _) => RouteAction::Routed,
        }
    }
}

/// A banned peer wakes nobody: it is dropped before its torrent is looked at.
pub proof fn law_banned_peers_wake_nobody(route: PeerRoute)
    requires
        route.phase == RoutePhase::CheckingBan,
    ensures
        route_step(route, RouteOutcome::Ban { banned: true }) == (
            RoutePhase::Over,
            RouteAction::Routed,
        ),
{
}

/// A torrent that was woken for its metadata, and shown before, is put back
/// however the rest fails.
pub proof fn law_failed_wake_is_undone(phase: RoutePhase, has_addr: bool, e: String)
    requires
        phase == (RoutePhase::EnsuringTask { shown: true }) || phase == (RoutePhase::Resuming {
            shown: true,
        }) || phase == (RoutePhase::Delivering { woken: Some(true) }),
    ensures
        route_step(PeerRoute { has_addr, phase }, RouteOutcome::Failed(e)).1 is RollBack,
{
}

/// How a torrent is put back after it was woken in vain.
#[derive(Clone, Copy, Debug, PartialEq, Eq, Structural)]
pub struct RollbackPlan {
    /// Storing its former state failed: the session is put back by hand.
    pub restore_session: bool,
    /// A task that exists only because of the wake is stopped.
    pub stop_task: bool,
    /// The state under which the tiers know it again; nothing where its task
    /// was there before.
    pub tier_state: Option<TorrentState>,
    /// The session shows it as dormant again.
    pub demote: bool,
    /// A task that was there before is paused again.
    pub pause_task: bool,
}

/// Plans how a torrent is put back. `snapshot_state` is the state that the
/// tiers knew it under, where they knew it.
pub fn plan_rollback(
    previous: TorrentState,
    snapshot_state: Option<TorrentState>,
    was_dormant: bool,
    task_was_present: bool,
    task_is_present: bool,
    state_restored: bool,
) -> (r: RollbackPlan)
    ensures
        r == (RollbackPlan {
            restore_session: !state_restored,
            stop_task: !task_was_present && task_is_present,
            tier_state: if task_was_present {
                None
            } else {
                match snapshot_state {
                    Some(state) => Some(state),
                    None => Some(previous),
                }
            },
            demote: !task_was_present && was_dormant,
            pause_task: task_was_present && task_is_present && is_halted(previous),
        }),
{
    RollbackPlan {
        restore_session: !state_restored,
        stop_task: !task_was_present && task_is_present,
        tier_state: if task_was_present {
            None
        } else {
            match snapshot_state {
                Some(state) => Some(state),
                None => Some(previous),
            }
        },
        demote: !task_was_present && was_dormant,
        pause_task: task_was_present && task_is_present && starts_paused(previous),
    }
}

/// What is reported after a torrent was put back: the reason, and what went
/// wrong with putting it back.
pub fn rollback_error(error: &str, rollback: &Option<String>) -> (r: String)
    ensures
        r@ == match *rollback {
            None => error@,
            Some(failed) => error@ + "; failed to restore metadata placeholder state: "@ + failed@,
        },
{
    match rollback {
        None => error.to_owned(),
        Some(failed) => join3(
            error,
            "; failed to restore metadata placeholder state: ",
            failed.as_str(),
        ),
    }
}

impl PeerRoute {
    /// The route after an outcome.
    pub open spec fn after(self, outcome: RouteOutcome) -> PeerRoute {
        PeerRoute { phase: route_step(self, outcome).0, ..self }
    }

    /// The action that follows on an outcome.
    pub open spec fn told(self, outcome: RouteOutcome) -> RouteAction {
        route_step(self, outcome).1
    }
}

/// A peer of a torrent that is awake is handed to its task, and the torrent
/// counts as in use. A peer whose address is known is checked for a ban first.
pub proof fn law_peers_of_awake_torrents_are_delivered(
    has_addr: bool,
    resolved: RouteOutcome,
    idle: RouteOutcome,
    found: RouteOutcome,
    delivered: RouteOutcome,
    touched: RouteOutcome,
)
    requires
        !(resolved is Failed),
        !(idle is Failed),
        !(found is NoTask),
        !(delivered is Failed),
    ensures
        ({
            let allowed = RouteOutcome::Ban { banned: false };
            let present = RouteOutcome::Task { present: true };
            let m0 = PeerRoute { has_addr, phase: RoutePhase::Resolving };
            let m1 = m0.after(resolved);
            let m2 = if has_addr {
                m1.after(allowed)
            } else {
                m1
            };
            let m3 = m2.after(idle);
            let m4 = m3.after(present);
            let m5 = m4.after(found);
            let m6 = m5.after(delivered);
            &&& has_addr ==> m0.told(resolved) is CheckBan && m1.told(allowed) is CheckIdle
            &&& !has_addr ==> m0.told(resolved) is CheckIdle
            &&& m2.told(idle) is LookUpTask
            &&& m3.told(present) is FindTask
            &&& m4.told(found) is Deliver
            &&& m5.told(delivered) is Touch
            &&& m6.told(touched) is Routed
            &&& m6.after(touched).phase == RoutePhase::Over
        }),
{
}

/// A peer of a torrent that waits for its metadata and has no task wakes it: it is
/// shown as waiting, its task is made, found and told to begin, and then gets
/// the peer. Whatever fails on the way, a torrent that was shown before is put
/// back, and what failed is told.
pub proof fn law_peers_wake_waiting_torrents(
    has_addr: bool,
    was_shown: bool,
    pending: RouteOutcome,
    ensured: RouteOutcome,
    found: RouteOutcome,
    resumed: RouteOutcome,
    delivered: RouteOutcome,
    error: String,
    info_hash: String,
)
    requires
        !(pending is Failed),
        !(ensured is Failed),
        !(found is NoTask),
        !(resumed is Failed),
        !(delivered is Failed),
    ensures
        ({
            let absent = RouteOutcome::Task { present: false };
            let waits = RouteOutcome::Placeholder { yes: true, shown: was_shown };
            let failed = RouteOutcome::Failed(error);
            let put_back = |why: RouteFailure|
                if was_shown {
                    RouteAction::RollBack(why)
                } else {
                    RouteAction::Refuse(why)
                };
            let m0 = PeerRoute { has_addr, phase: RoutePhase::LookingUpTask };
            let m1 = m0.after(absent);
            let m2 = m1.after(waits);
            let m3 = m2.after(pending);
            let m4 = m3.after(ensured);
            let m5 = m4.after(found);
            let m6 = m5.after(resumed);
            &&& m0.told(absent) is CheckPlaceholder
            &&& m1.told(waits) is ShowPending
            &&& m2.told(pending) is EnsureMetadataTask
            &&& m3.told(ensured) is FindTask
            &&& m4.told(found) is ResumeMetadataTask
            &&& m5.told(resumed) is Deliver
            &&& m6.told(delivered) is Touch
            &&& m2.told(failed) == RouteAction::Refuse(RouteFailure::Reported(error))
            &&& m3.told(failed) == put_back(RouteFailure::Reported(error))
            &&& m4.told((RouteOutcome::NoTask { info_hash })) == put_back(
                (RouteFailure::NoTask { info_hash }),
            )
            &&& m5.told(failed) == put_back(RouteFailure::NotResumed(error))
            &&& m6.told(failed) == put_back(RouteFailure::NotDelivered(error))
            &&& m3.after(failed).phase == RoutePhase::Over && m5.after(failed).phase
                == RoutePhase::Over && m6.after(failed).phase == RoutePhase::Over
        }),
{
}

/// A peer of a sleeping torrent wakes it, and that is all for now; what fails
/// before anything was woken is told as it was reported, or names the torrent
/// without a task, and nothing is put back.
pub proof fn law_other_peers_are_settled(
    has_addr: bool,
    promoted: RouteOutcome,
    shown: bool,
    error: String,
    info_hash: String,
)
    ensures
        ({
            let sleeps = RouteOutcome::Placeholder { yes: false, shown };
            let failed = RouteOutcome::Failed(error);
            let told = RouteAction::Refuse(RouteFailure::Reported(error));
            let at = |phase: RoutePhase| PeerRoute { has_addr, phase };
            &&& at(RoutePhase::CheckingPlaceholder).told(sleeps) is Promote
            &&& at(RoutePhase::CheckingPlaceholder).after(sleeps).told(promoted) is Routed
            &&& at(RoutePhase::CheckingPlaceholder).told(failed) == told
            &&& at(RoutePhase::Resolving).told(failed) == told
            &&& at(RoutePhase::CheckingIdle).told(failed) == told
            &&& at(RoutePhase::FindingTask { woken: None }).told(
                (RouteOutcome::NoTask { info_hash }),
            ) == RouteAction::Refuse((RouteFailure::NoTask { info_hash }))
            &&& at(RoutePhase::Delivering { woken: None }).told(failed) == RouteAction::Refuse(
                RouteFailure::NotDelivered(error),
            )
        }),
{
}

/// A route begins with finding out whom the peer asks for; a failure is told with what
/// went wrong on the way back, where something did.
pub proof fn law_routes_begin_with_the_torrent(
    has_addr: bool,
    r: (PeerRoute, RouteAction),
    error: &str,
    failed: String,
    plain: String,
    both: String,
)
    requires
        call_ensures(PeerRoute::begin, (has_addr,), r),
        call_ensures(rollback_error, (error, &None::<String>), plain),
        call_ensures(rollback_error, (error, &Some(failed)), both),
    ensures
        r.0.has_addr == has_addr && r.0.phase == RoutePhase::Resolving && r.1 is Resolve,
        plain@ == error@,
        error@.is_prefix_of(both@) && failed@.is_suffix_of(both@),
{
    let middle = "; failed to restore metadata placeholder state: "@;
    assert(both@ == error@ + middle + failed@);
    assert(both@.subrange(0, error@.len() as int) =~= error@);
    assert(both@.subrange(both@.len() - failed@.len(), both@.len() as int) =~= failed@);
}

/// What a route waits for is what was last asked for, and it is over exactly when the
/// peer was routed or refused.
pub proof fn law_routes_wait_for_what_they_ask(route: PeerRoute, outcome: RouteOutcome)
    ensures
        ({
            let told = route.told(outcome);
            let after = route.after(outcome).phase;
            &&& told is Resolve <==> after is Resolving
            &&& told is CheckBan <==> after is CheckingBan
            &&& told is CheckIdle <==> after is CheckingIdle
            &&& told is LookUpTask <==> after is LookingUpTask
            &&& told is CheckPlaceholder <==> after is CheckingPlaceholder
            &&& told is ShowPending <==> after is ShowingPending
            &&& told is EnsureMetadataTask <==> after is EnsuringTask
            &&& told is Promote <==> after is Promoting
            &&& told is FindTask <==> after is FindingTask
            &&& told is ResumeMetadataTask <==> after is Resuming
            &&& told is Deliver <==> after is Delivering
            &&& told is Touch <==> after is Touching
            &&& after is Over <==> told is Routed || told is Refuse || told is RollBack
        }),
{
}

} // verus!
