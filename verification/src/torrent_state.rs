//! Changing the state of a torrent: shown first, then stored, and shown as it
//! was where it could not be stored.

use vstd::prelude::*;

use crate::job::TorrentState;
use crate::problem::CmdResult;
use crate::recheck::Progress;
use crate::text::join3;

verus! {

/// What the session shows of a torrent's state.
#[derive(Clone, Copy, Debug)]
pub struct Lifecycle {
    pub state: TorrentState,
    pub progress: Progress,
}

/// What the session shows of a torrent or magnet link.
#[derive(Debug)]
pub struct ShownEntry {
    pub name: String,
    pub total_length: u64,
    pub amount_left: u64,
    pub state: TorrentState,
    pub category: Option<String>,
    pub tags: Vec<String>,
    pub save_path: String,
}

/// What changes.
#[derive(Clone, Copy, Debug)]
pub struct StateChange {
    pub state: TorrentState,
    /// The length of a torrent that is complete.
    pub completed_length: Option<u64>,
    /// What a verification found: the length, and how much is missing.
    pub verified_progress: Option<(u64, u64)>,
}

/// The state after a change.
pub open spec fn changed(before: Lifecycle, change: StateChange, now: u64) -> Lifecycle {
    let first = match change.completed_length {
        Some(total) => before.progress.completed(total, now),
        None => before.progress,
    };
    Lifecycle {
        state: change.state,
        progress: match change.verified_progress {
            Some((total, left)) => first.verified(total, left),
            None => first,
        },
    }
}

/// Shows a change of state. `deleting` is why a torrent that is being removed
/// stays as it is, `transition` whether its state may change so. Gives back
/// what was shown before.
pub fn show_state_change(
    shown: &mut Option<Lifecycle>,
    info_hash: &String,
    deleting: CmdResult<()>,
    transition: CmdResult<()>,
    change: StateChange,
    now: u64,
) -> (r: CmdResult<Lifecycle>)
    ensures
        match (deleting, *old(shown), transition) {
            (Err(e), _, _) => r == Err::<Lifecycle, String>(e) && *final(shown) == *old(shown),
            (Ok(()), None, _) => *final(shown) == *old(shown) && (r matches Err(e) && e@
                == "torrent "@ + info_hash@ + " not found"@),
            (Ok(()), Some(_), Err(e)) => r == Err::<Lifecycle, String>(e) && *final(shown)
                == *old(shown),
            (Ok(()), Some(before), Ok(())) => r == Ok::<Lifecycle, String>(before)
                && *final(shown) == Some(changed(before, change, now)),
        },
{
    if let Err(error) = deleting {
        return Err(error);
    }
    let previous = match *shown {
        Some(lifecycle) => lifecycle,
        None => {
            return Err(join3("torrent ", info_hash.as_str(), " not found"));
        },
    };
    if let Err(error) = transition {
        return Err(error);
    }
    let mut progress = previous.progress;
    progress.update(change.completed_length, change.verified_progress, now);
    *shown = Some(Lifecycle { state: change.state, progress });
    Ok(previous)
}

/// Settles a change of state after it was stored. `stored` tells whether there
/// was a row to store it in, or why it could not be stored.
pub fn settle_state_change(
    shown: &mut Option<Lifecycle>,
    previous: Lifecycle,
    info_hash: &String,
    stored: Result<bool, String>,
) -> (r: CmdResult<()>)
    ensures
        r is Ok <==> stored == Ok::<bool, String>(true),
        *final(shown) == if r is Ok {
            *old(shown)
        } else {
            Some(previous)
        },
        match stored {
            Ok(true) => true,
            Ok(false) => r matches Err(e) && e@ == "torrent "@ + info_hash@
                + " is missing from the database"@,
            Err(error) => r == Err::<(), String>(error),
        },
{
    match stored {
        Ok(true) => Ok(()),
        Ok(false) => {
            *shown = Some(previous);
            Err(join3("torrent ", info_hash.as_str(), " is missing from the database"))
        },
        Err(error) => {
            *shown = Some(previous);
            Err(error)
        },
    }
}

/// Shows a torrent in error although that could not be stored: what is shown is
/// true, and the next start brings the rest in line.
pub fn force_error(shown: &mut Option<Lifecycle>)
    ensures
        *final(shown) == match *old(shown) {
            Some(before) => Some(Lifecycle { state: TorrentState::Error, ..before }),
            None => None,
        },
{
    if let Some(before) = *shown {
        *shown = Some(Lifecycle { state: TorrentState::Error, progress: before.progress });
    }
}

/// A verification alone never makes a torrent complete, and a torrent keeps the
/// time at which it was first complete.
pub proof fn law_first_completion_is_kept(before: Lifecycle, change: StateChange, now: u64)
    ensures
        before.progress.completed_at is Some ==> changed(
            before,
            change,
            now,
        ).progress.completed_at == before.progress.completed_at,
        change.completed_length is None ==> changed(before, change, now).progress.completed_at
            == before.progress.completed_at,
{
}

/// A change brings the state that it names. A completion leaves nothing missing of
/// the length that it names, and sets the time of the first completion; a
/// verification sets the length and what is missing of it, never more than
/// there is; a change of the state alone leaves the progress as it was.
pub proof fn law_changes_do_what_they_name(
    before: Lifecycle,
    state: TorrentState,
    total: u64,
    left: u64,
    now: u64,
)
    ensures
        ({
            let only_state = changed(
                before,
                StateChange { state, completed_length: None, verified_progress: None },
                now,
            );
            let complete = changed(
                before,
                StateChange { state, completed_length: Some(total), verified_progress: None },
                now,
            );
            let verified = changed(
                before,
                StateChange { state, completed_length: None, verified_progress: Some((total, left)) },
                now,
            );
            &&& only_state.state == state && complete.state == state && verified.state == state
            &&& only_state.progress == before.progress
            &&& complete.progress.total_length == total && complete.progress.amount_left == 0
            &&& complete.progress.completed_at is Some
            &&& before.progress.completed_at is None ==> complete.progress.completed_at == Some(now)
            &&& verified.progress.total_length == total
            &&& verified.progress.amount_left <= total && verified.progress.amount_left <= left
            &&& verified.progress.amount_left == total || verified.progress.amount_left == left
            &&& verified.progress.completed_at == before.progress.completed_at
        }),
{
}

/// A change is shown where it is allowed, and what was shown before is given back; a
/// refused change is told with its reason and shows nothing.
pub proof fn law_refused_changes_show_nothing(
    info_hash: &String,
    deleting: CmdResult<()>,
    transition: CmdResult<()>,
    change: StateChange,
    now: u64,
)
    ensures
        forall|shown: &mut Option<Lifecycle>, r: CmdResult<Lifecycle>| #[trigger]
            call_ensures(
                show_state_change,
                (shown, info_hash, deleting, transition, change, now),
                r,
            ) ==> {
                &&& r is Ok <==> deleting is Ok && transition is Ok && *shown is Some
                &&& r is Err ==> *final(shown) == *shown
                &&& r matches Ok(before) ==> *shown == Some(before) && (*final(shown) matches Some(
                    after,
                ) && after.state == change.state)
                &&& deleting matches Err(e) ==> r == Err::<Lifecycle, String>(e)
            },
{
}

/// A change that could not be stored is taken back, and told; one that was stored
/// stays. An error is shown even where it could not be stored, and nothing else is
/// touched by it.
pub proof fn law_unstored_changes_are_taken_back(
    previous: Lifecycle,
    info_hash: &String,
    stored: Result<bool, String>,
)
    ensures
        forall|shown: &mut Option<Lifecycle>, r: CmdResult<()>| #[trigger]
            call_ensures(settle_state_change, (shown, previous, info_hash, stored), r) ==> {
                &&& r is Ok <==> stored == Ok::<bool, String>(true)
                &&& r is Ok ==> *final(shown) == *shown
                &&& r is Err ==> *final(shown) == Some(previous)
                &&& stored matches Err(e) ==> r == Err::<(), String>(e)
            },
        forall|shown: &mut Option<Lifecycle>| #[trigger]
            call_ensures(force_error, (shown,), ()) ==> {
                &&& *shown is None ==> *final(shown) is None
                &&& *shown matches Some(before) ==> (*final(shown) matches Some(after)
                    && after.state == TorrentState::Error && after.progress == before.progress)
            },
{
}

} // verus!
