//! Turning a magnet link whose metadata has come in into a torrent. Whatever
//! goes wrong, the session shows the magnet link as before, and no torrent
//! file is left behind that nothing refers to.

use vstd::prelude::*;

use crate::job::TorrentState;
use crate::text::{join2, join3, join4};
use crate::torrent_state::ShownEntry;

verus! {

/// Why a magnet link was not completed.
#[derive(Debug)]
pub enum CompletionFailure {
    /// What stood in the way, as it was reported.
    Reported(String),
    BeingRemoved { info_hash: String },
    LostMetadata,
    HashMismatch { fetched: String, expected: String },
    NotFound { info_hash: String },
    Publish(String),
    NotDurable(String),
    LostPieceIndex,
    LostMetainfo,
}

impl CompletionFailure {
    pub open spec fn text(self) -> Seq<char> {
        match self {
            CompletionFailure::Reported(e) => e@,
            CompletionFailure::BeingRemoved { info_hash } => "torrent "@ + info_hash@
                + " is being removed; wait for payload cleanup"@,
            CompletionFailure::LostMetadata => "magnet completion lost parsed metadata"@,
            CompletionFailure::HashMismatch { fetched, expected } => "fetched metadata hash "@
                + fetched@ + " does not match magnet "@ + expected@,
            CompletionFailure::NotFound { info_hash } => "metadata-pending torrent "@ + info_hash@
                + " not found"@,
            CompletionFailure::Publish(e) => "failed to publish fetched magnet metadata blob: "@
                + e@,
            CompletionFailure::NotDurable(e) =>
                "fetched magnet metadata blob was not durably committed: "@ + e@,
            CompletionFailure::LostPieceIndex =>
                "magnet completion lost its piece-index memory reservation"@,
            CompletionFailure::LostMetainfo =>
                "magnet completion lost its metadata memory reservation"@,
        }
    }

    /// The reason in words.
    pub fn to_text(&self) -> (r: String)
        ensures
            r@ == self.text(),
    {
        match self {
            CompletionFailure::Reported(e) => e.clone(),
            CompletionFailure::BeingRemoved { info_hash } => join3(
                "torrent ",
                info_hash.as_str(),
                " is being removed; wait for payload cleanup",
            ),
            CompletionFailure::LostMetadata => "magnet completion lost parsed metadata".to_owned(),
            CompletionFailure::HashMismatch { fetched, expected } => join4(
                "fetched metadata hash ",
                fetched.as_str(),
                " does not match magnet ",
                expected.as_str(),
            ),
            CompletionFailure::NotFound { info_hash } => join3(
                "metadata-pending torrent ",
                info_hash.as_str(),
                " not found",
            ),
            CompletionFailure::Publish(e) => join2(
                "failed to publish fetched magnet metadata blob: ",
                e.as_str(),
            ),
            CompletionFailure::NotDurable(e) => join2(
                "fetched magnet metadata blob was not durably committed: ",
                e.as_str(),
            ),
            CompletionFailure::LostPieceIndex => {
                "magnet completion lost its piece-index memory reservation".to_owned()
            },
            CompletionFailure::LostMetainfo => {
                "magnet completion lost its metadata memory reservation".to_owned()
            },
        }
    }
}

/// Which torrent file is deleted when a completion is given up.
#[derive(Clone, Copy, Debug, PartialEq, Eq, Structural)]
pub enum Cleanup {
    /// None: the completion will be tried again with it.
    Keep,
    /// The one that was written aside, or the published one where none was.
    Candidate,
    /// The one that was written aside.
    Staged,
    /// The published one.
    Published,
}

/// What is to be done next.
#[derive(Debug)]
pub enum CompletionAction {
    /// See whether the torrent is being removed.
    CheckRemoval,
    /// Check the trackers of the metadata.
    CheckTrackers,
    /// See that no storage work is under way.
    CheckIdle,
    /// Compare the hash of the metadata with that of the magnet link.
    CompareHash,
    /// Get the memory for the piece index and the metainfo.
    Reserve,
    LookUpMagnet,
    /// See that the save path lies below a storage root.
    Authorize,
    /// Show the torrent in place of the magnet link, as `completed_entry` puts it
    /// together; its state is this one.
    Show { state: TorrentState },
    /// Put the torrent file that was written aside in its place.
    Publish,
    /// Make sure that it stays there.
    Sync,
    /// Store the torrent.
    Persist,
    /// End the metadata task, and leave the distributed hash table where
    /// `unregister_dht` is set.
    EndMetadataTask { unregister_dht: bool },
    /// Start the torrent's task.
    Start { paused: bool, state: TorrentState, register_dht: bool },
    /// It was not completed. Where `restore` is set, the session shows the
    /// magnet link again.
    GiveUp { restore: bool, cleanup: Cleanup, why: CompletionFailure },
}

/// What came of an action.
#[derive(Debug)]
pub enum CompletionOutcome {
    Done,
    Failed(String),
    /// Other work was under way; the completion can be tried again.
    Busy(String),
    Removal { under_way: bool, info_hash: String },
    Hash { fetched: String, expected: String },
    Reserved { piece_index: bool, metainfo: bool },
    Magnet { state: TorrentState },
    NotFound { info_hash: String },
}

/// How far completing a magnet link has come.
#[derive(Clone, Copy, Debug, PartialEq, Eq, Structural)]
pub enum CompletionPhase {
    CheckingRemoval,
    CheckingTrackers,
    CheckingIdle,
    ComparingHash,
    Reserving,
    LookingUp,
    Authorizing,
    Showing,
    Publishing,
    Syncing,
    Persisting,
    EndingMetadataTask,
    Over,
}

/// A magnet link that is being completed.
#[derive(Clone, Copy, Debug, PartialEq, Eq, Structural)]
pub struct MagnetCompletion {
    /// There is metadata that could be read.
    pub has_metadata: bool,
    /// A torrent file was written aside.
    pub staged: bool,
    pub private: bool,
    pub piece_index: bool,
    pub metainfo: bool,
    /// The state that the torrent will be in.
    pub state: TorrentState,
    pub phase: CompletionPhase,
}

/// The state of the torrent: what the user asked for while the metadata was on
/// its way stays.
pub open spec fn completed_state(previous: TorrentState) -> TorrentState {
    if previous == TorrentState::Paused || previous == TorrentState::Stopped {
        previous
    } else {
        TorrentState::Downloading
    }
}

/// What is shown in place of a magnet link: the name and the length are those
/// of the metadata, all of the payload is missing, and what the user chose
/// stays.
pub open spec fn entry_completed(previous: ShownEntry, name: String, total_length: u64) -> ShownEntry {
    ShownEntry {
        name,
        total_length,
        amount_left: total_length,
        state: completed_state(previous.state),
        category: previous.category,
        tags: previous.tags,
        save_path: previous.save_path,
    }
}

fn state_after_completion(previous: TorrentState) -> (r: TorrentState)
    ensures
        r == completed_state(previous),
{
    if previous == TorrentState::Paused || previous == TorrentState::Stopped {
        previous
    } else {
        TorrentState::Downloading
    }
}

/// Puts a torrent in the place of a magnet link, as the session shows it.
pub fn completed_entry(previous: ShownEntry, name: String, total_length: u64) -> (r: ShownEntry)
    ensures
        r == entry_completed(previous, name, total_length),
{
    ShownEntry {
        name,
        total_length,
        amount_left: total_length,
        state: state_after_completion(previous.state),
        category: previous.category,
        tags: previous.tags,
        save_path: previous.save_path,
    }
}

pub open spec fn starts_halted(state: TorrentState) -> bool {
    state == TorrentState::Paused || state == TorrentState::Stopped
}

pub open spec fn given_up(
    m: MagnetCompletion,
    restore: bool,
    cleanup: Cleanup,
    why: CompletionFailure,
) -> (MagnetCompletion, CompletionAction) {
    (
        MagnetCompletion { phase: CompletionPhase::Over, ..m },
        CompletionAction::GiveUp { restore, cleanup, why },
    )
}

impl MagnetCompletion {
    pub open spec fn at(self, phase: CompletionPhase) -> MagnetCompletion {
        MagnetCompletion { phase, ..self }
    }

    /// What follows once the torrent is stored and the metadata task is gone.
    pub open spec fn started(self) -> CompletionAction {
        if !self.piece_index {
            CompletionAction::GiveUp {
                restore: false,
                cleanup: Cleanup::Keep,
                why: CompletionFailure::LostPieceIndex,
            }
        } else if !self.metainfo {
            CompletionAction::GiveUp {
                restore: false,
                cleanup: Cleanup::Keep,
                why: CompletionFailure::LostMetainfo,
            }
        } else {
            CompletionAction::Start {
                paused: starts_halted(self.state),
                state: self.state,
                register_dht: !starts_halted(self.state) && !self.private,
            }
        }
    }
}

/// The action after an outcome.
pub open spec fn completion_next(m: MagnetCompletion, outcome: CompletionOutcome) -> (
    MagnetCompletion,
    CompletionAction,
) {
    match (m.phase, outcome) {
        (
            CompletionPhase::CheckingRemoval,
            CompletionOutcome::Removal { under_way: true, info_hash },
        ) => given_up(
            m,
            false,
            Cleanup::Candidate,
            CompletionFailure::BeingRemoved { info_hash },
        ),
        (CompletionPhase::CheckingRemoval, _) => if m.has_metadata {
            (m.at(CompletionPhase::CheckingTrackers), CompletionAction::CheckTrackers)
        } else {
            given_up(m, false, Cleanup::Keep, CompletionFailure::LostMetadata)
        },
        (CompletionPhase::CheckingTrackers, CompletionOutcome::Failed(e)) => given_up(
            m,
            false,
            Cleanup::Candidate,
            CompletionFailure::Reported(e),
        ),
        (CompletionPhase::CheckingTrackers, _) => (
            m.at(CompletionPhase::CheckingIdle),
            CompletionAction::CheckIdle,
        ),
        (CompletionPhase::CheckingIdle, CompletionOutcome::Busy(e)) => given_up(
            m,
            false,
            Cleanup::Keep,
            CompletionFailure::Reported(e),
        ),
        (CompletionPhase::CheckingIdle, CompletionOutcome::Failed(e)) => given_up(
            m,
            false,
            Cleanup::Candidate,
            CompletionFailure::Reported(e),
        ),
        (CompletionPhase::CheckingIdle, _) => (
            m.at(CompletionPhase::ComparingHash),
            CompletionAction::CompareHash,
        ),
        (CompletionPhase::ComparingHash, CompletionOutcome::Hash { fetched, expected }) =>
            if fetched@ != expected@ {
            given_up(
                m,
                false,
                Cleanup::Candidate,
                CompletionFailure::HashMismatch { fetched, expected },
            )
        } else {
            (m.at(CompletionPhase::Reserving), CompletionAction::Reserve)
        },
        (CompletionPhase::Reserving, CompletionOutcome::Failed(e)) => given_up(
            m,
            false,
            Cleanup::Candidate,
            CompletionFailure::Reported(e),
        ),
        (CompletionPhase::Reserving, CompletionOutcome::Reserved { piece_index, metainfo }) => (
            MagnetCompletion { piece_index, metainfo, ..m.at(CompletionPhase::LookingUp) },
            CompletionAction::LookUpMagnet,
        ),
        (CompletionPhase::LookingUp, CompletionOutcome::NotFound { info_hash }) => given_up(
            m,
            false,
            Cleanup::Candidate,
            CompletionFailure::NotFound { info_hash },
        ),
        (CompletionPhase::LookingUp, CompletionOutcome::Magnet { state }) => (
            MagnetCompletion {
                state: completed_state(state),
                ..m.at(CompletionPhase::Authorizing)
            },
            CompletionAction::Authorize,
        ),
        (CompletionPhase::Authorizing, CompletionOutcome::Failed(e)) => given_up(
            m,
            false,
            Cleanup::Candidate,
            CompletionFailure::Reported(e),
        ),
        (CompletionPhase::Authorizing, _) => (
            m.at(CompletionPhase::Showing),
            CompletionAction::Show { state: m.state },
        ),
        (CompletionPhase::Showing, CompletionOutcome::NotFound { info_hash }) => given_up(
            m,
            false,
            Cleanup::Keep,
            CompletionFailure::NotFound { info_hash },
        ),
        (CompletionPhase::Showing, CompletionOutcome::Failed(e)) => given_up(
            m,
            true,
            Cleanup::Candidate,
            CompletionFailure::Reported(e),
        ),
        (CompletionPhase::Showing, _) => if m.staged {
            (m.at(CompletionPhase::Publishing), CompletionAction::Publish)
        } else {
            (m.at(CompletionPhase::Persisting), CompletionAction::Persist)
        },
        (CompletionPhase::Publishing, CompletionOutcome::Failed(e)) => given_up(
            m,
            true,
            Cleanup::Staged,
            CompletionFailure::Publish(e),
        ),
        (CompletionPhase::Publishing, _) => (
            m.at(CompletionPhase::Syncing),
            CompletionAction::Sync,
        ),
        (CompletionPhase::Syncing, CompletionOutcome::Failed(e)) => given_up(
            m,
            true,
            Cleanup::Published,
            CompletionFailure::NotDurable(e),
        ),
        (CompletionPhase::Syncing, _) => (
            m.at(CompletionPhase::Persisting),
            CompletionAction::Persist,
        ),
        (CompletionPhase::Persisting, CompletionOutcome::Failed(e)) => given_up(
            m,
            true,
            Cleanup::Published,
            CompletionFailure::Reported(e),
        ),
        (CompletionPhase::Persisting, _) => (
            m.at(CompletionPhase::EndingMetadataTask),
            CompletionAction::EndMetadataTask { unregister_dht: m.private },
        ),
        (CompletionPhase::EndingMetadataTask, _) => (m.at(CompletionPhase::Over), m.started()),
        (_, _) => given_up(m, false, Cleanup::Keep, CompletionFailure::LostMetadata),
    }
}

impl MagnetCompletion {
    /// Starts on metadata that has come in.
    pub fn begin(has_metadata: bool, staged: bool, private: bool) -> (r: (Self, CompletionAction))
        ensures
            r.0 == (MagnetCompletion {
                has_metadata,
                staged,
                private,
                piece_index: false,
                metainfo: false,
                state: TorrentState::Downloading,
                phase: CompletionPhase::CheckingRemoval,
            }),
            r.1 is CheckRemoval,
    {
        (
            MagnetCompletion {
                has_metadata,
                staged,
                private,
                piece_index: false,
                metainfo: false,
                state: TorrentState::Downloading,
                phase: CompletionPhase::CheckingRemoval,
            },
            CompletionAction::CheckRemoval,
        )
    }

    fn give_up(&mut self, restore: bool, cleanup: Cleanup, why: CompletionFailure) -> (r:
        CompletionAction)
        ensures
            (*final(self), r) == given_up(*old(self), restore, cleanup, why),
    {
        self.phase = CompletionPhase::Over;
        CompletionAction::GiveUp { restore, cleanup, why }
    }

    fn start(&self) -> (r: CompletionAction)
        ensures
            r == self.started(),
    {
        if !self.piece_index {
            return CompletionAction::GiveUp {
                restore: false,
                cleanup: Cleanup::Keep,
                why: CompletionFailure::LostPieceIndex,
            };
        }
        if !self.metainfo {
            return CompletionAction::GiveUp {
                restore: false,
                cleanup: Cleanup::Keep,
                why: CompletionFailure::LostMetainfo,
            };
        }
        let paused = self.state == TorrentState::Paused || self.state == TorrentState::Stopped;
        CompletionAction::Start {
            paused,
            state: self.state,
            register_dht: !paused && !self.private,
        }
    }

    /// Takes the outcome of the last action, and tells the next one.
    pub fn next(&mut self, outcome: CompletionOutcome) -> (r: CompletionAction)
        ensures
            (*final(self), r) == completion_next(*old(self), outcome),
    {
        match (self.phase, outcome) {
            (
                CompletionPhase::CheckingRemoval,
                CompletionOutcome::Removal { under_way: true, info_hash },
            ) => self.give_up(
                false,
                Cleanup::Candidate,
                CompletionFailure::BeingRemoved { info_hash },
            ),
            (CompletionPhase::CheckingRemoval, _) => {
                if self.has_metadata {
                    self.phase = CompletionPhase::CheckingTrackers;
                    CompletionAction::CheckTrackers
                } else {
                    self.give_up(false, Cleanup::Keep, CompletionFailure::LostMetadata)
                }
            },
            (CompletionPhase::CheckingTrackers, CompletionOutcome::Failed(e))
            | (CompletionPhase::CheckingIdle, CompletionOutcome::Failed(e))
            | (CompletionPhase::Reserving, CompletionOutcome::Failed(e))
            | (CompletionPhase::Authorizing, CompletionOutcome::Failed(e)) => self.give_up(
                false,
                Cleanup::Candidate,
                CompletionFailure::Reported(e),
            ),
            (CompletionPhase::CheckingTrackers, _) => {
                self.phase = CompletionPhase::CheckingIdle;
                CompletionAction::CheckIdle
            },
            (CompletionPhase::CheckingIdle, CompletionOutcome::Busy(e)) => self.give_up(
                false,
                Cleanup::Keep,
                CompletionFailure::Reported(e),
            ),
            (CompletionPhase::CheckingIdle, _) => {
                self.phase = CompletionPhase::ComparingHash;
                CompletionAction::CompareHash
            },
            (CompletionPhase::ComparingHash, CompletionOutcome::Hash { fetched, expected }) => {
                if fetched != expected {
                    return self.give_up(
                        false,
                        Cleanup::Candidate,
                        CompletionFailure::HashMismatch { fetched, expected },
                    );
                }
                self.phase = CompletionPhase::Reserving;
                CompletionAction::Reserve
            },
            (CompletionPhase::Reserving, CompletionOutcome::Reserved { piece_index, metainfo }) => {
                self.piece_index = piece_index;
                self.metainfo = metainfo;
                self.phase = CompletionPhase::LookingUp;
                CompletionAction::LookUpMagnet
            },
            (CompletionPhase::LookingUp, CompletionOutcome::NotFound { info_hash }) => {
                self.give_up(false, Cleanup::Candidate, CompletionFailure::NotFound { info_hash })
            },
            (CompletionPhase::LookingUp, CompletionOutcome::Magnet { state }) => {
                self.state = state_after_completion(state);
                self.phase = CompletionPhase::Authorizing;
                CompletionAction::Authorize
            },
            (CompletionPhase::Authorizing, _) => {
                self.phase = CompletionPhase::Showing;
                CompletionAction::Show { state: self.state }
            },
            (CompletionPhase::Showing, CompletionOutcome::NotFound { info_hash }) => {
                self.give_up(false, Cleanup::Keep, CompletionFailure::NotFound { info_hash })
            },
            (CompletionPhase::Showing, CompletionOutcome::Failed(e)) => self.give_up(
                true,
                Cleanup::Candidate,
                CompletionFailure::Reported(e),
            ),
            (CompletionPhase::Showing, _) => {
                if self.staged {
                    self.phase = CompletionPhase::Publishing;
                    CompletionAction::Publish
                } else {
                    self.phase = CompletionPhase::Persisting;
                    CompletionAction::Persist
                }
            },
            (CompletionPhase::Publishing, CompletionOutcome::Failed(e)) => self.give_up(
                true,
                Cleanup::Staged,
                CompletionFailure::Publish(e),
            ),
            (CompletionPhase::Publishing, _) => {
                self.phase = CompletionPhase::Syncing;
                CompletionAction::Sync
            },
            (CompletionPhase::Syncing, CompletionOutcome::Failed(e)) => self.give_up(
                true,
                Cleanup::Published,
                CompletionFailure::NotDurable(e),
            ),
            (CompletionPhase::Syncing, _) => {
                self.phase = CompletionPhase::Persisting;
                CompletionAction::Persist
            },
            (CompletionPhase::Persisting, CompletionOutcome::Failed(e)) => self.give_up(
                true,
                Cleanup::Published,
                CompletionFailure::Reported(e),
            ),
            (CompletionPhase::Persisting, _) => {
                self.phase = CompletionPhase::EndingMetadataTask;
                CompletionAction::EndMetadataTask { unregister_dht: self.private }
            },
            (CompletionPhase::EndingMetadataTask, _) => {
                self.phase = CompletionPhase::Over;
                self.start()
            },
            (_, _) => self.give_up(false, Cleanup::Keep, CompletionFailure::LostMetadata),
        }
    }
}

/// A pause or stop that came while the metadata was on its way survives the
/// completion.
pub proof fn law_completion_keeps_the_users_intent(m: MagnetCompletion, previous: TorrentState)
    requires
        m.phase == CompletionPhase::LookingUp,
    ensures
        ({
            let (next, _) = completion_next(m, CompletionOutcome::Magnet { state: previous });
            &&& (previous == TorrentState::Paused || previous == TorrentState::Stopped
                ==> next.state == previous && starts_halted(next.state))
            &&& (previous != TorrentState::Paused && previous != TorrentState::Stopped
                ==> next.state == TorrentState::Downloading)
        }),
{
}

/// Once the session shows the torrent, every failure shows the magnet link
/// again and deletes the torrent file.
pub proof fn law_shown_torrent_is_rolled_back(m: MagnetCompletion, e: String)
    requires
        m.phase == CompletionPhase::Showing || m.phase == CompletionPhase::Publishing || m.phase
            == CompletionPhase::Syncing || m.phase == CompletionPhase::Persisting,
    ensures
        completion_next(m, CompletionOutcome::Failed(e)).1 matches CompletionAction::GiveUp {
            restore: true,
            cleanup,
            ..
        } && cleanup != Cleanup::Keep,
{
}

/// A private torrent leaves the distributed hash table when its metadata tells
/// that it is private, and is not registered again.
pub proof fn law_private_torrent_leaves_the_table(m: MagnetCompletion, outcome: CompletionOutcome)
    requires
        m.private,
    ensures
        completion_next(m, outcome).1 matches CompletionAction::EndMetadataTask {
            unregister_dht,
        } ==> unregister_dht,
        completion_next(m, outcome).1 matches CompletionAction::Start { register_dht, .. }
            ==> !register_dht,
{
}

/// Where a completion stands after a run of outcomes.
pub open spec fn completed_to(m: MagnetCompletion, outcomes: Seq<CompletionOutcome>) -> MagnetCompletion
    decreases outcomes.len(),
{
    if outcomes.len() == 0 {
        m
    } else {
        completion_next(completed_to(m, outcomes.drop_last()), outcomes.last()).0
    }
}

/// What the session shows after a run of outcomes. The action that shows the
/// torrent may fail halfway, and a completion that is given up shows what was
/// there before where it says so.
pub open spec fn shown_after(
    m: MagnetCompletion,
    outcomes: Seq<CompletionOutcome>,
    previous: ShownEntry,
    name: String,
    total_length: u64,
) -> ShownEntry
    decreases outcomes.len(),
{
    if outcomes.len() == 0 {
        previous
    } else {
        let before = completed_to(m, outcomes.drop_last());
        let action = completion_next(before, outcomes.last()).1;
        if action matches CompletionAction::GiveUp { restore: true, .. } {
            previous
        } else if before.phase == CompletionPhase::Showing && !(outcomes.last() is NotFound) {
            entry_completed(previous, name, total_length)
        } else {
            shown_after(m, outcomes.drop_last(), previous, name, total_length)
        }
    }
}

/// The action that a run of outcomes ends with.
pub open spec fn last_action(m: MagnetCompletion, outcomes: Seq<CompletionOutcome>) -> CompletionAction {
    completion_next(completed_to(m, outcomes.drop_last()), outcomes.last()).1
}

/// The session shows the torrent, and the completion goes on.
pub open spec fn is_shown(phase: CompletionPhase) -> bool {
    phase == CompletionPhase::Publishing || phase == CompletionPhase::Syncing || phase
        == CompletionPhase::Persisting || phase == CompletionPhase::EndingMetadataTask
}

proof fn lemma_shown(
    m: MagnetCompletion,
    outcomes: Seq<CompletionOutcome>,
    previous: ShownEntry,
    name: String,
    total_length: u64,
)
    requires
        m.phase == CompletionPhase::CheckingRemoval,
    ensures
        ({
            let phase = completed_to(m, outcomes).phase;
            let shown = shown_after(m, outcomes, previous, name, total_length);
            &&& is_shown(phase) ==> shown == entry_completed(previous, name, total_length)
            &&& !is_shown(phase) && phase != CompletionPhase::Over ==> shown == previous
        }),
    decreases outcomes.len(),
{
    if outcomes.len() > 0 {
        lemma_shown(m, outcomes.drop_last(), previous, name, total_length);
    }
}

/// A completion that fails before the torrent is stored leaves the magnet link
/// as it was shown, whatever happened on the way; one that succeeds shows the
/// torrent.
pub proof fn law_completion_shows_all_or_nothing(
    m: MagnetCompletion,
    outcomes: Seq<CompletionOutcome>,
    previous: ShownEntry,
    name: String,
    total_length: u64,
)
    requires
        m.phase == CompletionPhase::CheckingRemoval,
        outcomes.len() > 0,
    ensures
        ({
            let phase = completed_to(m, outcomes.drop_last()).phase;
            let shown = shown_after(m, outcomes, previous, name, total_length);
            &&& last_action(m, outcomes) is GiveUp && phase != CompletionPhase::EndingMetadataTask
                && phase != CompletionPhase::Over ==> shown == previous
            &&& last_action(m, outcomes) is Start ==> shown == entry_completed(
                previous,
                name,
                total_length,
            )
        }),
{
    lemma_shown(m, outcomes.drop_last(), previous, name, total_length);
}

proof fn lemma_state_is_the_magnets(
    m: MagnetCompletion,
    outcomes: Seq<CompletionOutcome>,
    previous: TorrentState,
)
    requires
        m.phase == CompletionPhase::CheckingRemoval,
        forall|i: int|
            0 <= i < outcomes.len() ==> ((#[trigger] outcomes[i]) matches CompletionOutcome::Magnet {
                state,
            } ==> state == previous),
    ensures
        ({
            let after = completed_to(m, outcomes);
            is_shown(after.phase) || after.phase == CompletionPhase::Authorizing || after.phase
                == CompletionPhase::Showing ==> after.state == completed_state(previous)
        }),
    decreases outcomes.len(),
{
    if outcomes.len() > 0 {
        assert forall|i: int| 0 <= i < outcomes.drop_last().len() implies ((
        #[trigger] outcomes.drop_last()[i]) matches CompletionOutcome::Magnet { state } ==> state
            == previous) by {
            assert(outcomes.drop_last()[i] == outcomes[i]);
        }
        lemma_state_is_the_magnets(m, outcomes.drop_last(), previous);
        assert(outcomes.last() == outcomes[outcomes.len() - 1]);
    }
}

/// The state in which the torrent is shown and started is the one that its
/// entry has.
pub proof fn law_one_state_throughout(
    m: MagnetCompletion,
    outcomes: Seq<CompletionOutcome>,
    previous: ShownEntry,
    name: String,
    total_length: u64,
)
    requires
        m.phase == CompletionPhase::CheckingRemoval,
        outcomes.len() > 0,
        forall|i: int|
            0 <= i < outcomes.len() ==> ((#[trigger] outcomes[i]) matches CompletionOutcome::Magnet {
                state,
            } ==> state == previous.state),
    ensures
        last_action(m, outcomes) matches CompletionAction::Show { state } ==> state
            == entry_completed(previous, name, total_length).state,
        last_action(m, outcomes) matches CompletionAction::Start { state, .. } ==> state
            == entry_completed(previous, name, total_length).state,
{
    assert forall|i: int| 0 <= i < outcomes.drop_last().len() implies ((
    #[trigger] outcomes.drop_last()[i]) matches CompletionOutcome::Magnet { state } ==> state
        == previous.state) by {
        assert(outcomes.drop_last()[i] == outcomes[i]);
    }
    lemma_state_is_the_magnets(m, outcomes.drop_last(), previous.state);
}

/// The hash of the metadata has been compared with that of the magnet link.
pub open spec fn is_past_comparison(phase: CompletionPhase) -> bool {
    phase != CompletionPhase::CheckingRemoval && phase != CompletionPhase::CheckingTrackers && phase
        != CompletionPhase::CheckingIdle && phase != CompletionPhase::ComparingHash && phase
        != CompletionPhase::Over
}

/// The metadata has the hash of the magnet link.
pub open spec fn is_match(outcome: CompletionOutcome) -> bool {
    outcome matches CompletionOutcome::Hash { fetched, expected } && fetched@ == expected@
}

/// Metadata of another torrent than the magnet link's is never shown, published
/// or stored, whatever happens on the way.
pub proof fn law_foreign_metadata_is_never_shown(
    m: MagnetCompletion,
    outcomes: Seq<CompletionOutcome>,
)
    requires
        m.phase == CompletionPhase::CheckingRemoval,
        is_past_comparison(completed_to(m, outcomes).phase),
    ensures
        exists|i: int| 0 <= i < outcomes.len() && is_match(#[trigger] outcomes[i]),
    decreases outcomes.len(),
{
    let before = completed_to(m, outcomes.drop_last());
    if is_past_comparison(before.phase) {
        law_foreign_metadata_is_never_shown(m, outcomes.drop_last());
        let i = choose|i: int|
            0 <= i < outcomes.drop_last().len() && is_match(#[trigger] outcomes.drop_last()[i]);
        assert(is_match(outcomes[i]));
    } else {
        assert(before.phase == CompletionPhase::ComparingHash);
        assert(is_match(outcomes[outcomes.len() - 1]));
    }
}

impl MagnetCompletion {
    /// The completion after an outcome.
    pub open spec fn after(self, outcome: CompletionOutcome) -> MagnetCompletion {
        completion_next(self, outcome).0
    }

    /// The action that follows on an outcome.
    pub open spec fn told(self, outcome: CompletionOutcome) -> CompletionAction {
        completion_next(self, outcome).1
    }
}

/// Metadata of the right torrent, against which nothing speaks, is checked, shown,
/// put in place where it was written aside, stored, and takes over from the
/// task that fetched it. A torrent that was paused or stopped stays so and is
/// not registered with the distributed hash table; any other downloads, and is
/// registered unless it is private.
pub proof fn law_sound_metadata_takes_over(
    staged: bool,
    private: bool,
    state: TorrentState,
    hash: String,
    trackers: CompletionOutcome,
    idle: CompletionOutcome,
    authorized: CompletionOutcome,
    shown: CompletionOutcome,
    published: CompletionOutcome,
    synced: CompletionOutcome,
    stored: CompletionOutcome,
    ended: CompletionOutcome,
    info_hash: String,
)
    requires
        !(trackers is Failed),
        !(idle is Failed) && !(idle is Busy),
        !(authorized is Failed),
        !(shown is Failed) && !(shown is NotFound),
        !(published is Failed),
        !(synced is Failed),
        !(stored is Failed),
    ensures
        ({
            let stays = CompletionOutcome::Removal { under_way: false, info_hash };
            let same = CompletionOutcome::Hash { fetched: hash, expected: hash };
            let memory = CompletionOutcome::Reserved { piece_index: true, metainfo: true };
            let found = CompletionOutcome::Magnet { state };
            let halted = match state {
                TorrentState::Paused => true,
                TorrentState::Stopped => true,
                TorrentState::Queued => false,
                TorrentState::MetadataPending => false,
                TorrentState::Checking => false,
                TorrentState::Downloading => false,
                TorrentState::Seeding => false,
                TorrentState::Error => false,
            };
            let new_state = if halted {
                state
            } else {
                TorrentState::Downloading
            };
            let m0 = MagnetCompletion {
                has_metadata: true,
                staged,
                private,
                piece_index: false,
                metainfo: false,
                state: TorrentState::Downloading,
                phase: CompletionPhase::CheckingRemoval,
            };
            let m1 = m0.after(stays);
            let m2 = m1.after(trackers);
            let m3 = m2.after(idle);
            let m4 = m3.after(same);
            let m5 = m4.after(memory);
            let m6 = m5.after(found);
            let m7 = m6.after(authorized);
            let m8 = m7.after(shown);
            let m9 = if staged {
                m8.after(published).after(synced)
            } else {
                m8
            };
            let m10 = m9.after(stored);
            &&& m0.told(stays) is CheckTrackers
            &&& m1.told(trackers) is CheckIdle
            &&& m2.told(idle) is CompareHash
            &&& m3.told(same) is Reserve
            &&& m4.told(memory) is LookUpMagnet
            &&& m5.told(found) is Authorize
            &&& m6.told(authorized) == (CompletionAction::Show { state: new_state })
            &&& staged ==> m7.told(shown) is Publish && m8.told(published) is Sync && m8.after(
                published,
            ).told(synced) is Persist
            &&& !staged ==> m7.told(shown) is Persist
            &&& m9.told(stored) == (CompletionAction::EndMetadataTask { unregister_dht: private })
            &&& m10.told(ended) == (CompletionAction::Start {
                paused: halted,
                state: new_state,
                register_dht: !halted && !private,
            })
            &&& m10.after(ended).phase == CompletionPhase::Over
        }),
{
}

/// A completion that fails tells what was reported, and deletes the torrent file
/// that it leaves behind: the one written aside or published as long as it is
/// not shown, and later the one of the step that failed. Work that is only busy
/// deletes nothing: it will be tried again.
pub proof fn law_failed_completions_clean_up(
    m: MagnetCompletion,
    error: String,
    info_hash: String,
    fetched: String,
    expected: String,
)
    ensures
        ({
            let gives_up = |outcome: CompletionOutcome, restore: bool, cleanup: Cleanup, why: CompletionFailure|
                m.told(outcome) == (CompletionAction::GiveUp { restore, cleanup, why }) && m.after(
                    outcome,
                ).phase == CompletionPhase::Over;
            let failed = CompletionOutcome::Failed(error);
            let reported = CompletionFailure::Reported(error);
            match m.phase {
                CompletionPhase::CheckingRemoval => gives_up(
                    CompletionOutcome::Removal { under_way: true, info_hash },
                    false,
                    Cleanup::Candidate,
                    CompletionFailure::BeingRemoved { info_hash },
                ),
                CompletionPhase::CheckingTrackers => gives_up(
                    failed,
                    false,
                    Cleanup::Candidate,
                    reported,
                ),
                CompletionPhase::CheckingIdle => gives_up(
                    failed,
                    false,
                    Cleanup::Candidate,
                    reported,
                ) && gives_up(CompletionOutcome::Busy(error), false, Cleanup::Keep, reported),
                CompletionPhase::ComparingHash => fetched@ != expected@ ==> gives_up(
                    CompletionOutcome::Hash { fetched, expected },
                    false,
                    Cleanup::Candidate,
                    CompletionFailure::HashMismatch { fetched, expected },
                ),
                CompletionPhase::Reserving => gives_up(failed, false, Cleanup::Candidate, reported),
                CompletionPhase::LookingUp => gives_up(
                    CompletionOutcome::NotFound { info_hash },
                    false,
                    Cleanup::Candidate,
                    CompletionFailure::NotFound { info_hash },
                ),
                CompletionPhase::Authorizing => gives_up(
                    failed,
                    false,
                    Cleanup::Candidate,
                    reported,
                ),
                CompletionPhase::Showing => gives_up(failed, true, Cleanup::Candidate, reported)
                    && gives_up(
                    CompletionOutcome::NotFound { info_hash },
                    false,
                    Cleanup::Keep,
                    CompletionFailure::NotFound { info_hash },
                ),
                CompletionPhase::Publishing => gives_up(
                    failed,
                    true,
                    Cleanup::Staged,
                    CompletionFailure::Publish(error),
                ),
                CompletionPhase::Syncing => gives_up(
                    failed,
                    true,
                    Cleanup::Published,
                    CompletionFailure::NotDurable(error),
                ),
                CompletionPhase::Persisting => gives_up(
                    failed,
                    true,
                    Cleanup::Published,
                    reported,
                ),
                CompletionPhase::EndingMetadataTask => true,
                CompletionPhase::Over => true,
            }
        }),
{
}

/// The task of a completed torrent is started only with the memory that it needs;
/// the lack is told, and nothing that is stored is undone.
pub proof fn law_completed_torrents_need_their_memory(
    m: MagnetCompletion,
    ended: CompletionOutcome,
)
    requires
        m.phase == CompletionPhase::EndingMetadataTask,
    ensures
        m.piece_index && m.metainfo <==> m.told(ended) is Start,
        !m.piece_index ==> m.told(ended) == (CompletionAction::GiveUp {
            restore: false,
            cleanup: Cleanup::Keep,
            why: CompletionFailure::LostPieceIndex,
        }),
        m.piece_index && !m.metainfo ==> m.told(ended) == (CompletionAction::GiveUp {
            restore: false,
            cleanup: Cleanup::Keep,
            why: CompletionFailure::LostMetainfo,
        }),
{
}

/// What is known of a completion is not forgotten on the way.
pub proof fn law_completions_carry_on_what_is_known(
    m: MagnetCompletion,
    outcome: CompletionOutcome,
)
    ensures
        m.after(outcome).private == m.private,
        m.after(outcome).staged == m.staged,
        m.after(outcome).has_metadata == m.has_metadata,
        m.phase != CompletionPhase::Reserving ==> m.after(outcome).piece_index == m.piece_index
            && m.after(outcome).metainfo == m.metainfo,
        m.phase == CompletionPhase::Reserving ==> (outcome matches CompletionOutcome::Reserved {
            piece_index,
            metainfo,
        } ==> m.after(outcome).piece_index == piece_index && m.after(outcome).metainfo == metainfo),
        m.phase != CompletionPhase::LookingUp ==> m.after(outcome).state == m.state,
        m.phase == CompletionPhase::CheckingRemoval && !m.has_metadata && !(outcome is Removal)
            ==> (m.told(outcome) matches CompletionAction::GiveUp { why, cleanup, .. } && why
            is LostMetadata && cleanup == Cleanup::Keep),
{
}

/// What is shown in place of a magnet link is all missing, is as long and called
/// as its metadata says, and keeps everything that the user chose: a pause, a
/// stop, the category, the tags and the place.
pub proof fn law_completed_entries_keep_the_users_choices(
    previous: ShownEntry,
    name: String,
    total_length: u64,
)
    ensures
        ({
            let shown = entry_completed(previous, name, total_length);
            &&& shown.name == name
            &&& shown.total_length == total_length
            &&& shown.amount_left == total_length
            &&& shown.category == previous.category
            &&& shown.tags == previous.tags
            &&& shown.save_path == previous.save_path
            &&& (previous.state == TorrentState::Paused || previous.state == TorrentState::Stopped)
                ==> shown.state == previous.state
            &&& !(previous.state == TorrentState::Paused || previous.state == TorrentState::Stopped)
                ==> shown.state == TorrentState::Downloading
        }),
{
}

/// A completion carries what is known of the metadata, and begins with the question
/// whether the torrent is being removed.
pub proof fn law_completions_begin_as_asked(
    has_metadata: bool,
    staged: bool,
    private: bool,
    r: (MagnetCompletion, CompletionAction),
)
    requires
        call_ensures(MagnetCompletion::begin, (has_metadata, staged, private), r),
    ensures
        r.0.has_metadata == has_metadata && r.0.staged == staged && r.0.private == private,
        r.0.phase == CompletionPhase::CheckingRemoval && r.1 is CheckRemoval,
        !r.0.piece_index && !r.0.metainfo,
{
}

/// What a completion waits for is what was last asked for, and it is over exactly when
/// the torrent is started or given up.
pub proof fn law_completions_wait_for_what_they_ask(m: MagnetCompletion, outcome: CompletionOutcome)
    ensures
        ({
            let told = m.told(outcome);
            let after = m.after(outcome).phase;
            &&& told is CheckRemoval <==> after is CheckingRemoval
            &&& told is CheckTrackers <==> after is CheckingTrackers
            &&& told is CheckIdle <==> after is CheckingIdle
            &&& told is CompareHash <==> after is ComparingHash
            &&& told is Reserve <==> after is Reserving
            &&& told is LookUpMagnet <==> after is LookingUp
            &&& told is Authorize <==> after is Authorizing
            &&& told is Show <==> after is Showing
            &&& told is Publish <==> after is Publishing
            &&& told is Sync <==> after is Syncing
            &&& told is Persist <==> after is Persisting
            &&& told is EndMetadataTask <==> after is EndingMetadataTask
            &&& after is Over <==> told is Start || told is GiveUp
        }),
{
}

} // verus!
