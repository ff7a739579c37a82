//! The stored description of a torrent: how it is put in place and how it is
//! taken away. The row of a torrent goes last, so that what is left can be
//! found and removed later.

use vstd::prelude::*;

use crate::text::join4;

verus! {

/// What is said of a description that was not put in place.
pub open spec fn published_text(path: Seq<char>, rest: Seq<char>, error: Seq<char>) -> Seq<char> {
    "publishing torrent metadata blob "@ + path + rest + error
}

/// What is to be done next to put a description in place.
#[derive(Debug)]
pub enum PublishAction {
    /// Rename the staged file.
    Rename,
    /// Make the new name durable, where the file lies in a directory.
    SyncDirectory,
    /// It is over; where `remove_staged` is set, the staged file is removed
    /// first.
    Close { remove_staged: bool, result: Result<(), String> },
}

/// How far it has come.
#[derive(Clone, Copy, Debug, PartialEq, Eq, Structural)]
pub enum PublishPhase {
    Renaming,
    Syncing,
    Over,
}

/// Takes what came of the last action, and tells the next one. `staged` and
/// `destination` are the paths as they are shown; `has_parent` tells whether the
/// destination lies in a directory.
pub fn publish_torrent_blob(
    phase: PublishPhase,
    staged: &str,
    destination: &str,
    has_parent: bool,
    result: Result<(), String>,
) -> (r: (PublishPhase, PublishAction))
    ensures
        match (phase, result) {
            (PublishPhase::Renaming, Err(e)) => r.0 == PublishPhase::Over && (r.1
                matches PublishAction::Close { remove_staged: true, result: Err(text) }
                && text@ == published_text(staged@, " failed: "@, e@)),
            (PublishPhase::Renaming, Ok(())) => if has_parent {
                r == (PublishPhase::Syncing, PublishAction::SyncDirectory)
            } else {
                r == (
                    PublishPhase::Over,
                    PublishAction::Close { remove_staged: false, result: Ok(()) },
                )
            },
            (PublishPhase::Syncing, Err(e)) => r.0 == PublishPhase::Over && (r.1
                matches PublishAction::Close { remove_staged: false, result: Err(text) }
                && text@ == published_text(
                destination@,
                " was not durably committed: "@,
                e@,
            )),
            (_, _) => r == (
                PublishPhase::Over,
                PublishAction::Close { remove_staged: false, result: Ok(()) },
            ),
        },
{
    match (phase, result) {
        (PublishPhase::Renaming, Err(e)) => (
            PublishPhase::Over,
            PublishAction::Close {
                remove_staged: true,
                result: Err(
                    join4(
                        "publishing torrent metadata blob ",
                        staged,
                        " failed: ",
                        e.as_str(),
                    ),
                ),
            },
        ),
        (PublishPhase::Renaming, Ok(())) => {
            if has_parent {
                (PublishPhase::Syncing, PublishAction::SyncDirectory)
            } else {
                (
                    PublishPhase::Over,
                    PublishAction::Close { remove_staged: false, result: Ok(()) },
                )
            }
        },
        (PublishPhase::Syncing, Err(e)) => (
            PublishPhase::Over,
            PublishAction::Close {
                remove_staged: false,
                result: Err(
                    join4(
                        "publishing torrent metadata blob ",
                        destination,
                        " was not durably committed: ",
                        e.as_str(),
                    ),
                ),
            },
        ),
        (_, _) => (
            PublishPhase::Over,
            PublishAction::Close { remove_staged: false, result: Ok(()) },
        ),
    }
}

/// What came of removing a file.
#[derive(Debug)]
pub enum FileRemoval {
    Removed,
    NotThere,
    Failed(String),
}

/// What is to be done next to forget a torrent.
#[derive(Debug)]
pub enum ForgetAction {
    /// Remove the description.
    RemoveBlob,
    /// Remove what is known of its pieces.
    RemoveResume,
    /// Delete the row, and log the event.
    DeleteRow,
    Finish(Result<(), String>),
}

/// How far it has come.
#[derive(Clone, Copy, Debug, PartialEq, Eq, Structural)]
pub enum ForgetPhase {
    RemovingBlob,
    RemovingResume,
    DeletingRow,
    Over,
}

/// The phase and the action after an outcome. A description that is not there
/// need not be removed.
pub open spec fn forget_step(phase: ForgetPhase, outcome: FileRemoval) -> (
    ForgetPhase,
    ForgetAction,
) {
    match (phase, outcome) {
        (ForgetPhase::Over, _) => (ForgetPhase::Over, ForgetAction::Finish(Ok(()))),
        (_, FileRemoval::Failed(e)) => (ForgetPhase::Over, ForgetAction::Finish(Err(e))),
        (ForgetPhase::RemovingBlob, _) => (
            ForgetPhase::RemovingResume,
            ForgetAction::RemoveResume,
        ),
        (ForgetPhase::RemovingResume, _) => (ForgetPhase::DeletingRow, ForgetAction::DeleteRow),
        (ForgetPhase::DeletingRow, _) => (ForgetPhase::Over, ForgetAction::Finish(Ok(()))),
    }
}

/// Takes the outcome of the last action, and tells the next one.
pub fn delete_persisted_torrent(phase: ForgetPhase, outcome: FileRemoval) -> (r: (
    ForgetPhase,
    ForgetAction,
))
    ensures
        r == forget_step(phase, outcome),
{
    match (phase, outcome) {
        (ForgetPhase::Over, _) => (ForgetPhase::Over, ForgetAction::Finish(Ok(()))),
        (_, FileRemoval::Failed(e)) => (ForgetPhase::Over, ForgetAction::Finish(Err(e))),
        (ForgetPhase::RemovingBlob, _) => (
            ForgetPhase::RemovingResume,
            ForgetAction::RemoveResume,
        ),
        (ForgetPhase::RemovingResume, _) => (ForgetPhase::DeletingRow, ForgetAction::DeleteRow),
        (ForgetPhase::DeletingRow, _) => (ForgetPhase::Over, ForgetAction::Finish(Ok(()))),
    }
}

/// The row of a torrent is deleted only after its files are gone.
pub proof fn law_rows_go_last(phase: ForgetPhase, outcome: FileRemoval)
    ensures
        forget_step(phase, outcome).1 is DeleteRow ==> phase == ForgetPhase::RemovingResume && !(
        outcome is Failed),
        forget_step(phase, outcome).1 is RemoveResume ==> phase == ForgetPhase::RemovingBlob
            && !(outcome is Failed),
{
}

/// A torrent is forgotten in three steps, its description, what is known of its
/// pieces and its row; files that are not there do not stop it, and what
/// fails stops it and is told.
pub proof fn law_torrents_are_forgotten_in_order(
    blob: FileRemoval,
    resume: FileRemoval,
    row: FileRemoval,
    error: String,
)
    requires
        !(blob is Failed),
        !(resume is Failed),
        !(row is Failed),
    ensures
        ({
            let (p1, a1) = forget_step(ForgetPhase::RemovingBlob, blob);
            let (p2, a2) = forget_step(p1, resume);
            let (p3, a3) = forget_step(p2, row);
            let failed = FileRemoval::Failed(error);
            let told = (ForgetPhase::Over, ForgetAction::Finish(Err(error)));
            &&& a1 is RemoveResume
            &&& a2 is DeleteRow
            &&& a3 == ForgetAction::Finish(Ok(()))
            &&& p3 == ForgetPhase::Over
            &&& forget_step(ForgetPhase::RemovingBlob, failed) == told
            &&& forget_step(p1, failed) == told
            &&& forget_step(p2, failed) == told
        }),
{
}

/// What is said of a description that was not put in place names the file and
/// ends with what went wrong.
pub proof fn law_unpublished_descriptions_are_explained(
    path: Seq<char>,
    rest: Seq<char>,
    error: Seq<char>,
)
    ensures
        error.is_suffix_of(published_text(path, rest, error)),
        published_text(path, rest, error).len() >= path.len() + rest.len() + error.len(),
{
    let text = published_text(path, rest, error);
    assert(error =~= text.subrange(text.len() - error.len(), text.len() as int));
}

/// A description is put in place by a rename that is then made durable; a rename
/// that fails removes the staged file, and only that does.
pub proof fn law_descriptions_are_published_in_order(
    staged: &str,
    destination: &str,
    has_parent: bool,
    error: String,
    renamed: (PublishPhase, PublishAction),
    unrenamed: (PublishPhase, PublishAction),
    synced: (PublishPhase, PublishAction),
    unsynced: (PublishPhase, PublishAction),
)
    requires
        call_ensures(
            publish_torrent_blob,
            (PublishPhase::Renaming, staged, destination, has_parent, Ok(())),
            renamed,
        ),
        call_ensures(
            publish_torrent_blob,
            (PublishPhase::Renaming, staged, destination, has_parent, Err(error)),
            unrenamed,
        ),
        call_ensures(
            publish_torrent_blob,
            (PublishPhase::Syncing, staged, destination, has_parent, Ok(())),
            synced,
        ),
        call_ensures(
            publish_torrent_blob,
            (PublishPhase::Syncing, staged, destination, has_parent, Err(error)),
            unsynced,
        ),
    ensures
        has_parent ==> renamed.1 is SyncDirectory && renamed.0 == PublishPhase::Syncing,
        !has_parent ==> (renamed.1 matches PublishAction::Close { remove_staged, result }
            && !remove_staged && result is Ok),
        unrenamed.1 matches PublishAction::Close { remove_staged, result } && remove_staged
            && result is Err,
        synced.1 matches PublishAction::Close { remove_staged, result } && !remove_staged && result
            is Ok,
        unsynced.1 matches PublishAction::Close { remove_staged, result } && !remove_staged
            && result is Err,
{
}

/// What forgetting waits for is what was last asked for, and it is over exactly when it
/// is finished.
pub proof fn law_forgetting_waits_for_what_it_asks(phase: ForgetPhase, outcome: FileRemoval)
    ensures
        ({
            let told = forget_step(phase, outcome).1;
            let after = forget_step(phase, outcome).0;
            &&& told is RemoveBlob <==> after is RemovingBlob
            &&& told is RemoveResume <==> after is RemovingResume
            &&& told is DeleteRow <==> after is DeletingRow
            &&& after is Over <==> told is Finish
        }),
{
}

} // verus!
