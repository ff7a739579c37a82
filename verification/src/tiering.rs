//! Which torrents run and which sleep. Only a seed that nobody uses is put to
//! sleep, and no sleeping torrent loses its next announce.

use vstd::prelude::*;

use crate::job::TorrentState;

verus! {

/// What is known of a sleeping torrent whose announce is due. Times are
/// seconds since the epoch.
#[derive(Clone, Copy, Debug)]
pub struct DueTorrent {
    pub has_task: bool,
    /// No job of the torrent is under way.
    pub jobs_idle: bool,
    /// The state that the session shows, where it shows the torrent.
    pub state: Option<TorrentState>,
    /// When the announce is due, nothing where none is; an error where it
    /// could not be read.
    pub deadline: Result<Option<i64>, ()>,
}

/// What is done about an announce that is due.
#[derive(Clone, Copy, Debug, PartialEq, Eq, Structural)]
pub enum DueStep {
    /// Nothing: the torrent is awake, or need not announce.
    Ignore,
    /// Look again after a while.
    RetryLater,
    /// Look again at that time.
    Reschedule { at: i64 },
    /// Wake the torrent for its announce.
    Promote,
}

pub open spec fn due_step(t: DueTorrent, now: i64) -> DueStep {
    if t.has_task {
        DueStep::Ignore
    } else if !t.jobs_idle {
        DueStep::RetryLater
    } else if t.state != Some(TorrentState::Seeding) {
        DueStep::Ignore
    } else {
        match t.deadline {
            Err(()) => DueStep::RetryLater,
            Ok(None) => DueStep::Ignore,
            Ok(Some(at)) => if at > now {
                DueStep::Reschedule { at }
            } else {
                DueStep::Promote
            },
        }
    }
}

/// Decides about an announce that is due.
pub fn promote_due_tracker_torrent(t: DueTorrent, now: i64) -> (r: DueStep)
    ensures
        r == due_step(t, now),
{
    if t.has_task {
        return DueStep::Ignore;
    }
    if !t.jobs_idle {
        return DueStep::RetryLater;
    }
    match t.state {
        Some(TorrentState::Seeding) => {},
        _ => {
            return DueStep::Ignore;
        },
    }
    match t.deadline {
        Err(()) => DueStep::RetryLater,
        Ok(None) => DueStep::Ignore,
        Ok(Some(at)) => if at > now {
            DueStep::Reschedule { at }
        } else {
            DueStep::Promote
        },
    }
}

/// How much a torrent is used.
#[derive(Clone, Copy, Debug, PartialEq, Eq, Structural)]
pub struct Activity {
    pub connected_peers: u64,
    pub outstanding_requests: u64,
}

/// What is done about a running torrent whose turn has come.
#[derive(Clone, Copy, Debug, PartialEq, Eq, Structural)]
pub enum IdleStep {
    /// Nothing is known of its use: ask again after a while.
    RetryLater,
    /// It stays awake; it is in use where `touch` is set.
    Keep { touch: bool },
    /// It is put to sleep; it is in use where `touch` is set.
    Demote { touch: bool },
}

/// A torrent is in use while it has peers or awaits data.
pub open spec fn in_use(activity: Activity) -> bool {
    activity.connected_peers > 0 || activity.outstanding_requests > 0
}

pub open spec fn idle_step(
    activity: Option<Activity>,
    dormant: bool,
    state: TorrentState,
) -> IdleStep {
    match activity {
        None => IdleStep::RetryLater,
        Some(activity) => if dormant && state == TorrentState::Seeding {
            IdleStep::Demote { touch: in_use(activity) }
        } else {
            IdleStep::Keep { touch: in_use(activity) }
        },
    }
}

/// Decides about a running torrent. `activity` is nothing where its task did
/// not answer; `dormant` is what the tiers make of it.
pub fn reconcile_activity_tier(activity: Option<Activity>, dormant: bool, state: TorrentState) -> (r:
    IdleStep)
    ensures
        r == idle_step(activity, dormant, state),
{
    match activity {
        None => IdleStep::RetryLater,
        Some(activity) => {
            let touch = activity.connected_peers > 0 || activity.outstanding_requests > 0;
            if dormant && state == TorrentState::Seeding {
                IdleStep::Demote { touch }
            } else {
                IdleStep::Keep { touch }
            }
        },
    }
}

/// The torrents whose turn has come and which may be asked how much they are
/// used: those that have a task, are shown, and are not being removed.
pub fn may_reconcile(deleting: bool, has_task: bool, shown: bool) -> (r: bool)
    ensures
        r == (!deleting && has_task && shown),
{
    !deleting && has_task && shown
}

/// When a torrent that was put to sleep is looked at again.
#[derive(Clone, Copy, Debug, PartialEq, Eq, Structural)]
pub enum Wakeup {
    /// Not for an announce.
    Never,
    /// At the time of its announce.
    At { deadline: i64 },
    /// After a while: its announce could not be read or told in time.
    RetryLater,
}

/// Decides when a torrent that was put to sleep is looked at again.
/// `representable` tells whether the clock can tell that time.
pub fn demoted_wakeup(deadline: Result<Option<i64>, ()>, representable: bool) -> (r: Wakeup)
    ensures
        r == match deadline {
            Ok(None) => Wakeup::Never,
            Ok(Some(deadline)) => if representable {
                Wakeup::At { deadline }
            } else {
                Wakeup::RetryLater
            },
            Err(()) => Wakeup::RetryLater,
        },
{
    match deadline {
        Ok(None) => Wakeup::Never,
        Ok(Some(deadline)) => if representable {
            Wakeup::At { deadline }
        } else {
            Wakeup::RetryLater
        },
        Err(()) => Wakeup::RetryLater,
    }
}

/// The state under which the tiers keep a torrent that was put to sleep.
pub fn demoted_state(shown: Option<TorrentState>) -> (r: TorrentState)
    ensures
        r == match shown {
            Some(state) => state,
            None => TorrentState::Seeding,
        },
{
    match shown {
        Some(state) => state,
        None => TorrentState::Seeding,
    }
}

/// Only seeds are put to sleep, and never because their task did not answer.
pub proof fn law_only_idle_seeds_are_demoted(
    activity: Option<Activity>,
    dormant: bool,
    state: TorrentState,
)
    ensures
        idle_step(activity, dormant, state) is Demote ==> activity is Some && dormant && state
            == TorrentState::Seeding,
{
}

/// A due announce of a sleeping seed is never lost: it wakes the torrent, or it
/// is looked at again.
pub proof fn law_due_announces_are_not_lost(t: DueTorrent, now: i64)
    requires
        !t.has_task,
        t.state == Some(TorrentState::Seeding),
        t.deadline != Ok::<Option<i64>, ()>(None),
    ensures
        due_step(t, now) != DueStep::Ignore,
{
}

/// A torrent that is awake needs no waking. One that sleeps and seeds is woken when
/// its announce is due and not before; it is looked at again where a job is
/// under way or its time cannot be read. One that does not seed is left alone.
pub proof fn law_sleeping_seeds_wake_in_time(t: DueTorrent, now: i64)
    ensures
        t.has_task ==> due_step(t, now) == DueStep::Ignore,
        !t.has_task && !t.jobs_idle ==> due_step(t, now) == DueStep::RetryLater,
        !t.has_task && t.jobs_idle && t.state != Some(TorrentState::Seeding) ==> due_step(t, now)
            == DueStep::Ignore,
        !t.has_task && t.jobs_idle && t.state == Some(TorrentState::Seeding) ==> match t.deadline {
            Ok(Some(at)) => (due_step(t, now) == DueStep::Promote <==> at <= now) && (at > now
                ==> due_step(t, now) == (DueStep::Reschedule { at })),
            Ok(None) => due_step(t, now) == DueStep::Ignore,
            Err(()) => due_step(t, now) == DueStep::RetryLater,
        },
{
}

/// A torrent counts as used exactly while it has a peer or awaits data, however
/// its turn ends; it sleeps where the tiers say so and it seeds, and is asked
/// again where its task did not answer.
pub proof fn law_use_is_noted(activity: Activity, dormant: bool, state: TorrentState)
    ensures
        ({
            let used = activity.connected_peers != 0 || activity.outstanding_requests != 0;
            let step = idle_step(Some(activity), dormant, state);
            &&& step matches IdleStep::Keep { touch } ==> touch == used
            &&& step matches IdleStep::Demote { touch } ==> touch == used
            &&& step is Demote <==> dormant && state == TorrentState::Seeding
            &&& !(step is Demote) ==> step is Keep
            &&& idle_step(None, dormant, state) == IdleStep::RetryLater
        }),
{
}

/// Whether a torrent is asked, when it is looked at again and how the tiers keep it
/// follow from what is known of it.
pub proof fn law_sleep_follows_what_is_known(
    deleting: bool,
    has_task: bool,
    shown: bool,
    asked: bool,
    deadline: i64,
    representable: bool,
    known: Wakeup,
    unknown: Wakeup,
    unread: Wakeup,
    state: TorrentState,
    kept: TorrentState,
)
    requires
        call_ensures(may_reconcile, (deleting, has_task, shown), asked),
        call_ensures(demoted_wakeup, (Ok(Some(deadline)), representable), known),
        call_ensures(demoted_wakeup, (Ok(None), representable), unknown),
        call_ensures(demoted_wakeup, (Err(()), representable), unread),
        call_ensures(demoted_state, (Some(state),), kept),
    ensures
        asked <==> has_task && shown && !deleting,
        representable ==> known == (Wakeup::At { deadline }),
        !representable ==> known == Wakeup::RetryLater,
        unknown == Wakeup::Never,
        unread == Wakeup::RetryLater,
        kept == state,
{
}

} // verus!
