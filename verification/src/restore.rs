//! Bringing stored torrents back at startup. A torrent that cannot be brought
//! back is shown in error, one that need not run stays dormant, and none that
//! lies outside the storage roots is touched.

use vstd::prelude::*;

use crate::job::TorrentState;
use crate::text::{decimal, decimal_text, join2, join4};

verus! {

/// A state in which a torrent's task starts paused.
pub open spec fn is_halted(state: TorrentState) -> bool {
    state == TorrentState::Paused || state == TorrentState::Stopped || state == TorrentState::Queued
}

/// Whether a torrent's task starts paused.
pub fn starts_paused(state: TorrentState) -> (r: bool)
    ensures
        r == is_halted(state),
{
    state == TorrentState::Paused || state == TorrentState::Stopped || state == TorrentState::Queued
}

/// What is known of a stored torrent before anything is read.
#[derive(Clone, Copy, Debug, PartialEq, Eq, Structural)]
pub struct StoredTorrent {
    /// Its save path lies below a storage root.
    pub authorized: bool,
    pub state: TorrentState,
    /// Torrents that are not needed stay dormant.
    pub tiers_enabled: bool,
    /// A torrent in this state is needed at once.
    pub needed_at_once: bool,
    /// It is registered with the distributed hash table in this state.
    pub registers_dht: bool,
    /// Its metadata is still to be fetched.
    pub placeholder: bool,
    /// The length of the text that it is filed under.
    pub hash_len: usize,
    pub piece_count: i64,
    /// Its next announce is known and can be told in time.
    pub has_deadline: bool,
}

/// A task is started for the torrent, as far as memory allows.
pub open spec fn wants_task(t: StoredTorrent) -> bool {
    t.state != TorrentState::Error && (!t.tiers_enabled || t.needed_at_once)
}

/// What is to be done next for a stored torrent.
#[derive(Debug)]
pub enum RestoreAction {
    /// Leave it alone.
    Skip,
    /// Show it in the session, and read the identity that it is filed under.
    ShowPlaceholder { active: bool },
    /// Get the memory for fetching its metadata.
    ReserveMetadataTask,
    /// Start fetching its metadata.
    SpawnMetadataTask { paused: bool, register_dht: bool },
    /// Note that it was brought back without its metadata.
    NotePlaceholder,
    /// Get the memory for its piece index.
    ReservePieceIndex { piece_count: usize },
    /// Show it as dormant, with its next announce where `schedule` is set.
    ShowDormant { schedule: bool },
    /// Get the memory for reading its torrent file.
    ReserveParser,
    ReadBlob,
    ParseBlob,
    /// Bring its list of files in line with its metainfo, and compare its
    /// hash.
    RepairFiles,
    /// Get the memory for its metainfo.
    ReserveMetainfo,
    /// Show it in the session.
    Show,
    /// Start its task.
    SpawnTask { paused: bool, register_dht: bool },
    /// Note that it was brought back, and how.
    NoteRestored { state: TorrentState, private: bool, v2_only: bool },
    /// Show it in error.
    ShowError(RestoreFailure),
    /// Stop bringing torrents back, for this reason.
    Abort(String),
}

/// Why a stored torrent is shown in error.
#[derive(Debug)]
pub enum RestoreFailure {
    ParserMemory(String),
    Unreadable(String),
    Invalid(String),
    PieceCount { actual: i64, stored: i64 },
    Hash { found: String, filed: String },
    MetainfoMemory(String),
    PieceIndexMemory,
    MetainfoLost,
}

impl RestoreFailure {
    /// Whether the torrent's runtime is at fault, as opposed to its file.
    pub open spec fn blames_runtime(self) -> bool {
        self is ParserMemory || self is MetainfoMemory || self is PieceIndexMemory || self
            is MetainfoLost
    }

    /// The stored torrent file can never be used, so it is put aside.
    pub open spec fn discards_blob(self) -> bool {
        self is Invalid || self is Hash
    }

    /// Whether the torrent's runtime is at fault, as opposed to its file.
    pub fn is_runtime_fault(&self) -> (r: bool)
        ensures
            r == self.blames_runtime(),
    {
        match self {
            RestoreFailure::ParserMemory(_)
            | RestoreFailure::MetainfoMemory(_)
            | RestoreFailure::PieceIndexMemory
            | RestoreFailure::MetainfoLost => true,
            _ => false,
        }
    }

    /// Whether the stored torrent file is put aside.
    pub fn is_blob_unusable(&self) -> (r: bool)
        ensures
            r == self.discards_blob(),
    {
        match self {
            RestoreFailure::Invalid(_) | RestoreFailure::Hash { .. } => true,
            _ => false,
        }
    }

    /// The reason in words.
    pub open spec fn reason_text(self) -> Seq<char> {
        match self {
            RestoreFailure::ParserMemory(e) =>
                "torrent parser memory admission was unavailable: "@ + e@,
            RestoreFailure::Unreadable(e) => "failed to read persisted torrent metadata: "@ + e@,
            RestoreFailure::Invalid(e) => "persisted torrent metadata is invalid: "@ + e@,
            RestoreFailure::PieceCount { actual, stored } => "persisted piece count "@
                + signed_decimal(actual) + " does not match row "@ + signed_decimal(stored),
            RestoreFailure::Hash { found, filed } => "persisted torrent hash "@ + found@
                + " does not match row "@ + filed@,
            RestoreFailure::MetainfoMemory(e) =>
                "persistent torrent metadata memory admission was unavailable: "@ + e@,
            RestoreFailure::PieceIndexMemory => "piece-index memory admission was unavailable"@,
            RestoreFailure::MetainfoLost =>
                "persistent torrent metadata memory admission was lost"@,
        }
    }

    /// The reason in words.
    pub fn reason(&self) -> (r: String)
        ensures
            r@ == self.reason_text(),
    {
        match self {
            RestoreFailure::ParserMemory(e) => join2(
                "torrent parser memory admission was unavailable: ",
                e.as_str(),
            ),
            RestoreFailure::Unreadable(e) => join2(
                "failed to read persisted torrent metadata: ",
                e.as_str(),
            ),
            RestoreFailure::Invalid(e) => join2(
                "persisted torrent metadata is invalid: ",
                e.as_str(),
            ),
            RestoreFailure::PieceCount { actual, stored } => {
                let a = signed_text(*actual);
                let b = signed_text(*stored);
                join4("persisted piece count ", a.as_str(), " does not match row ", b.as_str())
            },
            RestoreFailure::Hash { found, filed } => join4(
                "persisted torrent hash ",
                found.as_str(),
                " does not match row ",
                filed.as_str(),
            ),
            RestoreFailure::MetainfoMemory(e) => join2(
                "persistent torrent metadata memory admission was unavailable: ",
                e.as_str(),
            ),
            RestoreFailure::PieceIndexMemory => {
                "piece-index memory admission was unavailable".to_owned()
            },
            RestoreFailure::MetainfoLost => {
                "persistent torrent metadata memory admission was lost".to_owned()
            },
        }
    }
}

/// A number with its sign.
pub open spec fn signed_decimal(n: i64) -> Seq<char> {
    if n < 0 {
        "-"@ + decimal((-(n as int)) as nat)
    } else {
        decimal(n as nat)
    }
}

/// Writes a number with its sign.
pub fn signed_text(n: i64) -> (r: String)
    ensures
        r@ == signed_decimal(n),
{
    if n < 0 {
        let magnitude: u64 = (-(n as i128)) as u64;
        let digits = decimal_text(magnitude);
        join2("-", digits.as_str())
    } else {
        decimal_text(n as u64)
    }
}

/// What came of an action.
#[derive(Debug)]
pub enum RestoreOutcome {
    Done,
    Failed(String),
    /// The torrent file could be read: its number of pieces, whether the torrent
    /// is private, and whether it has no SHA-1 identity.
    Parsed { pieces: u64, private: bool, v2_only: bool },
    /// What its metainfo says that it is filed under, and what it is filed
    /// under.
    Hash { found: String, filed: String },
    /// Whether there is memory to hold on to.
    Reserved { held: bool },
}

/// How far bringing back a torrent has come.
#[derive(Clone, Copy, Debug, PartialEq, Eq, Structural)]
pub enum RestorePhase {
    ShowingPlaceholder,
    ReservingMetadataTask,
    SpawningMetadataTask,
    ReservingPieceIndex,
    ReservingParser { indexed: bool },
    Reading { indexed: bool },
    Parsing { indexed: bool },
    Repairing { indexed: bool, private: bool, v2_only: bool },
    ReservingMetainfo { indexed: bool, private: bool, v2_only: bool },
    Showing { indexed: bool, held: bool, private: bool, v2_only: bool },
    Spawning { private: bool, v2_only: bool },
    ShowingError,
    Over,
}

/// A stored torrent that is being brought back.
#[derive(Clone, Copy, Debug, PartialEq, Eq, Structural)]
pub struct RestoreRow {
    pub torrent: StoredTorrent,
    pub phase: RestorePhase,
}

/// It stays dormant.
pub open spec fn dormant(t: StoredTorrent) -> (RestorePhase, RestoreAction) {
    (
        RestorePhase::Over,
        RestoreAction::ShowDormant { schedule: t.state == TorrentState::Seeding && t.has_deadline },
    )
}

/// It is shown in error.
pub open spec fn in_error(why: RestoreFailure) -> (RestorePhase, RestoreAction) {
    (RestorePhase::ShowingError, RestoreAction::ShowError(why))
}

/// The first action for a stored torrent.
pub open spec fn restore_first(t: StoredTorrent) -> (RestorePhase, RestoreAction) {
    if !t.authorized {
        (RestorePhase::Over, RestoreAction::Skip)
    } else if t.placeholder {
        (RestorePhase::ShowingPlaceholder, RestoreAction::ShowPlaceholder { active: wants_task(t) })
    } else if !wants_task(t) {
        dormant(t)
    } else if t.hash_len == 40 || t.hash_len == 64 {
        if t.piece_count < 0 || t.piece_count > usize::MAX {
            // Its stored piece count makes no sense.
            dormant(t)
        } else {
            (
                RestorePhase::ReservingPieceIndex,
                RestoreAction::ReservePieceIndex { piece_count: t.piece_count as usize },
            )
        }
    } else {
        (RestorePhase::ReservingParser { indexed: false }, RestoreAction::ReserveParser)
    }
}

/// A count of pieces as it is stored.
pub open spec fn stored_pieces(pieces: u64) -> i64 {
    if pieces > i64::MAX {
        i64::MAX
    } else {
        pieces as i64
    }
}

/// The action after an outcome.
pub open spec fn restore_step(row: RestoreRow, outcome: RestoreOutcome) -> (
    RestorePhase,
    RestoreAction,
) {
    let t = row.torrent;
    match (row.phase, outcome) {
        // The identity could not be read: it is shown without a task.
        (RestorePhase::ShowingPlaceholder, RestoreOutcome::Failed(_)) => (
            RestorePhase::Over,
            RestoreAction::NotePlaceholder,
        ),
        (RestorePhase::ShowingPlaceholder, _) => if wants_task(t) {
            (RestorePhase::ReservingMetadataTask, RestoreAction::ReserveMetadataTask)
        } else {
            (RestorePhase::Over, RestoreAction::NotePlaceholder)
        },
        (RestorePhase::ReservingMetadataTask, RestoreOutcome::Failed(_)) => (
            RestorePhase::Over,
            RestoreAction::NotePlaceholder,
        ),
        (RestorePhase::ReservingMetadataTask, _) => (
            RestorePhase::SpawningMetadataTask,
            RestoreAction::SpawnMetadataTask {
                paused: is_halted(t.state),
                register_dht: t.registers_dht,
            },
        ),
        (RestorePhase::SpawningMetadataTask, _) => (
            RestorePhase::Over,
            RestoreAction::NotePlaceholder,
        ),
        (RestorePhase::ReservingPieceIndex, RestoreOutcome::Failed(_)) => dormant(t),
        (RestorePhase::ReservingPieceIndex, _) => (
            RestorePhase::ReservingParser { indexed: true },
            RestoreAction::ReserveParser,
        ),
        (RestorePhase::ReservingParser { .. }, RestoreOutcome::Failed(e)) => in_error(
            RestoreFailure::ParserMemory(e),
        ),
        (RestorePhase::ReservingParser { indexed }, _) => (
            RestorePhase::Reading { indexed },
            RestoreAction::ReadBlob,
        ),
        (RestorePhase::Reading { .. }, RestoreOutcome::Failed(e)) => in_error(
            RestoreFailure::Unreadable(e),
        ),
        (RestorePhase::Reading { indexed }, _) => (
            RestorePhase::Parsing { indexed },
            RestoreAction::ParseBlob,
        ),
        (RestorePhase::Parsing { .. }, RestoreOutcome::Failed(e)) => in_error(
            RestoreFailure::Invalid(e),
        ),
        (RestorePhase::Parsing { indexed }, RestoreOutcome::Parsed { pieces, private, v2_only }) => if pieces
            <= usize::MAX && stored_pieces(pieces) != t.piece_count {
            in_error(
                RestoreFailure::PieceCount { actual: stored_pieces(pieces), stored: t.piece_count },
            )
        } else {
            (RestorePhase::Repairing { indexed, private, v2_only }, RestoreAction::RepairFiles)
        },
        (RestorePhase::Repairing { .. }, RestoreOutcome::Failed(e)) => (
            RestorePhase::Over,
            RestoreAction::Abort(e),
        ),
        (RestorePhase::Repairing { indexed, private, v2_only }, RestoreOutcome::Hash { found, filed }) =>
            if found@ != filed@ {
            in_error(RestoreFailure::Hash { found, filed })
        } else {
            (
                RestorePhase::ReservingMetainfo { indexed, private, v2_only },
                RestoreAction::ReserveMetainfo,
            )
        },
        (RestorePhase::ReservingMetainfo { .. }, RestoreOutcome::Failed(e)) => in_error(
            RestoreFailure::MetainfoMemory(e),
        ),
        (
            RestorePhase::ReservingMetainfo { indexed, private, v2_only },
            RestoreOutcome::Reserved { held },
        ) => (
            RestorePhase::Showing { indexed, held, private, v2_only },
            RestoreAction::Show,
        ),
        (RestorePhase::Showing { .. }, RestoreOutcome::Failed(_)) => (
            RestorePhase::Over,
            RestoreAction::Skip,
        ),
        (RestorePhase::Showing { indexed: false, .. }, _) => in_error(
            RestoreFailure::PieceIndexMemory,
        ),
        (RestorePhase::Showing { held: false, .. }, _) => in_error(RestoreFailure::MetainfoLost),
        (RestorePhase::Showing { indexed: true, held: true, private, v2_only }, _) => (
            RestorePhase::Spawning { private, v2_only },
            RestoreAction::SpawnTask {
                paused: is_halted(t.state),
                register_dht: !private && t.registers_dht,
            },
        ),
        (RestorePhase::Spawning { private, v2_only }, _) => (
            RestorePhase::Over,
            RestoreAction::NoteRestored { state: t.state, private, v2_only },
        ),
        (RestorePhase::ShowingError, RestoreOutcome::Failed(e)) => (
            RestorePhase::Over,
            RestoreAction::Abort(e),
        ),
        (_, _) => (RestorePhase::Over, RestoreAction::Skip),
    }
}

impl RestoreRow {
    /// Starts on a stored torrent.
    pub fn begin(torrent: StoredTorrent) -> (r: (Self, RestoreAction))
        ensures
            r.0.torrent == torrent,
            (r.0.phase, r.1) == restore_first(torrent),
    {
        let over = RestoreRow { torrent, phase: RestorePhase::Over };
        if !torrent.authorized {
            return (over, RestoreAction::Skip);
        }
        let active = torrent.state != TorrentState::Error && (!torrent.tiers_enabled
            || torrent.needed_at_once);
        if torrent.placeholder {
            return (
                RestoreRow { torrent, phase: RestorePhase::ShowingPlaceholder },
                RestoreAction::ShowPlaceholder { active },
            );
        }
        let schedule = torrent.state == TorrentState::Seeding && torrent.has_deadline;
        if !active {
            return (over, RestoreAction::ShowDormant { schedule });
        }
        if torrent.hash_len == 40 || torrent.hash_len == 64 {
            if torrent.piece_count < 0 || torrent.piece_count as u64 > usize::MAX as u64 {
                return (over, RestoreAction::ShowDormant { schedule });
            }
            return (
                RestoreRow { torrent, phase: RestorePhase::ReservingPieceIndex },
                RestoreAction::ReservePieceIndex { piece_count: torrent.piece_count as usize },
            );
        }
        (
            RestoreRow { torrent, phase: RestorePhase::ReservingParser { indexed: false } },
            RestoreAction::ReserveParser,
        )
    }

    fn end(&mut self, action: RestoreAction) -> (r: RestoreAction)
        ensures
            final(self).torrent == old(self).torrent,
            final(self).phase == RestorePhase::Over,
            r == action,
    {
        self.phase = RestorePhase::Over;
        action
    }

    fn fail(&mut self, why: RestoreFailure) -> (r: RestoreAction)
        ensures
            final(self).torrent == old(self).torrent,
            (final(self).phase, r) == in_error(why),
    {
        self.phase = RestorePhase::ShowingError;
        RestoreAction::ShowError(why)
    }

    /// Takes the outcome of the last action, and tells the next one.
    pub fn next(&mut self, outcome: RestoreOutcome) -> (r: RestoreAction)
        ensures
            final(self).torrent == old(self).torrent,
            (final(self).phase, r) == restore_step(*old(self), outcome),
    {
        let t = self.torrent;
        match (self.phase, outcome) {
            (RestorePhase::ShowingPlaceholder, RestoreOutcome::Failed(_)) => self.end(
                RestoreAction::NotePlaceholder,
            ),
            (RestorePhase::ShowingPlaceholder, _) => {
                if t.state != TorrentState::Error && (!t.tiers_enabled || t.needed_at_once) {
                    self.phase = RestorePhase::ReservingMetadataTask;
                    RestoreAction::ReserveMetadataTask
                } else {
                    self.end(RestoreAction::NotePlaceholder)
                }
            },
            (RestorePhase::ReservingMetadataTask, RestoreOutcome::Failed(_)) => self.end(
                RestoreAction::NotePlaceholder,
            ),
            (RestorePhase::ReservingMetadataTask, _) => {
                self.phase = RestorePhase::SpawningMetadataTask;
                RestoreAction::SpawnMetadataTask {
                    paused: starts_paused(t.state),
                    register_dht: t.registers_dht,
                }
            },
            (RestorePhase::SpawningMetadataTask, _) => self.end(RestoreAction::NotePlaceholder),
            (RestorePhase::ReservingPieceIndex, RestoreOutcome::Failed(_)) => {
                let schedule = t.state == TorrentState::Seeding && t.has_deadline;
                self.end(RestoreAction::ShowDormant { schedule })
            },
            (RestorePhase::ReservingPieceIndex, _) => {
                self.phase = RestorePhase::ReservingParser { indexed: true };
                RestoreAction::ReserveParser
            },
            (RestorePhase::ReservingParser { .. }, RestoreOutcome::Failed(e)) => self.fail(
                RestoreFailure::ParserMemory(e),
            ),
            (RestorePhase::ReservingParser { indexed }, _) => {
                self.phase = RestorePhase::Reading { indexed };
                RestoreAction::ReadBlob
            },
            (RestorePhase::Reading { .. }, RestoreOutcome::Failed(e)) => self.fail(
                RestoreFailure::Unreadable(e),
            ),
            (RestorePhase::Reading { indexed }, _) => {
                self.phase = RestorePhase::Parsing { indexed };
                RestoreAction::ParseBlob
            },
            (RestorePhase::Parsing { .. }, RestoreOutcome::Failed(e)) => self.fail(
                RestoreFailure::Invalid(e),
            ),
            (RestorePhase::Parsing { indexed }, RestoreOutcome::Parsed { pieces, private, v2_only }) => {
                let actual: i64 = if pieces > i64::MAX as u64 {
                    i64::MAX
                } else {
                    pieces as i64
                };
                if pieces <= usize::MAX as u64 && actual != t.piece_count {
                    return self.fail(RestoreFailure::PieceCount { actual, stored: t.piece_count });
                }
                self.phase = RestorePhase::Repairing { indexed, private, v2_only };
                RestoreAction::RepairFiles
            },
            (RestorePhase::Repairing { .. }, RestoreOutcome::Failed(e)) => self.end(
                RestoreAction::Abort(e),
            ),
            (
                RestorePhase::Repairing { indexed, private, v2_only },
                RestoreOutcome::Hash { found, filed },
            ) => {
                if found != filed {
                    return self.fail(RestoreFailure::Hash { found, filed });
                }
                self.phase = RestorePhase::ReservingMetainfo { indexed, private, v2_only };
                RestoreAction::ReserveMetainfo
            },
            (RestorePhase::ReservingMetainfo { .. }, RestoreOutcome::Failed(e)) => self.fail(
                RestoreFailure::MetainfoMemory(e),
            ),
            (
                RestorePhase::ReservingMetainfo { indexed, private, v2_only },
                RestoreOutcome::Reserved { held },
            ) => {
                self.phase = RestorePhase::Showing { indexed, held, private, v2_only };
                RestoreAction::Show
            },
            (RestorePhase::Showing { .. }, RestoreOutcome::Failed(_)) => self.end(
                RestoreAction::Skip,
            ),
            (RestorePhase::Showing { indexed: false, .. }, _) => self.fail(
                RestoreFailure::PieceIndexMemory,
            ),
            (RestorePhase::Showing { held: false, .. }, _) => self.fail(
                RestoreFailure::MetainfoLost,
            ),
            (RestorePhase::Showing { indexed: true, held: true, private, v2_only }, _) => {
                self.phase = RestorePhase::Spawning { private, v2_only };
                RestoreAction::SpawnTask {
                    paused: starts_paused(t.state),
                    register_dht: !private && t.registers_dht,
                }
            },
            (RestorePhase::Spawning { private, v2_only }, _) => self.end(
                RestoreAction::NoteRestored { state: t.state, private, v2_only },
            ),
            (RestorePhase::ShowingError, RestoreOutcome::Failed(e)) => self.end(
                RestoreAction::Abort(e),
            ),
            (_, _) => self.end(RestoreAction::Skip),
        }
    }
}

/// The dormant torrents that were brought back are noted once, together, and
/// only where there are any.
pub fn dormant_note(restored: u64) -> (r: Option<u64>)
    ensures
        r == if restored > 0 {
            Some(restored)
        } else {
            None
        },
{
    if restored > 0 {
        Some(restored)
    } else {
        None
    }
}

/// Where bringing back a torrent stands after a run of outcomes.
pub open spec fn restored_to(t: StoredTorrent, outcomes: Seq<RestoreOutcome>) -> RestorePhase
    decreases outcomes.len(),
{
    if outcomes.len() == 0 {
        restore_first(t).0
    } else {
        let phase = restored_to(t, outcomes.drop_last());
        restore_step(RestoreRow { torrent: t, phase }, outcomes.last()).0
    }
}

/// Nothing is ever done for a torrent outside the storage roots.
pub proof fn law_unauthorized_torrents_are_left_alone(
    t: StoredTorrent,
    outcomes: Seq<RestoreOutcome>,
)
    requires
        !t.authorized,
    ensures
        restore_first(t).1 is Skip,
        restored_to(t, outcomes) is Over,
    decreases outcomes.len(),
{
    if outcomes.len() > 0 {
        law_unauthorized_torrents_are_left_alone(t, outcomes.drop_last());
    }
}

/// A torrent that need not run costs nothing: no file is read for it and no
/// memory is taken.
pub proof fn law_dormant_torrents_read_nothing(t: StoredTorrent)
    requires
        t.authorized,
        !t.placeholder,
        !wants_task(t),
    ensures
        restore_first(t).1 is ShowDormant,
        restore_first(t).0 is Over,
{
}

/// The task of a torrent that was halted starts paused, and no private torrent
/// is registered with the distributed hash table.
pub proof fn law_restored_tasks_respect_the_torrent(row: RestoreRow, outcome: RestoreOutcome)
    ensures
        restore_step(row, outcome).1 matches RestoreAction::SpawnTask { paused, register_dht } ==> {
            &&& paused == is_halted(row.torrent.state)
            &&& register_dht ==> row.torrent.registers_dht
            &&& register_dht ==> row.phase matches RestorePhase::Showing { private: false, .. }
        },
{
}

/// Every torrent whose task was started is noted to be brought back, however the
/// start went, and no other is noted so.
pub proof fn law_started_torrents_are_noted(row: RestoreRow, outcome: RestoreOutcome)
    ensures
        restore_step(row, outcome).1 is SpawnTask <==> restore_step(row, outcome).0 is Spawning,
        restore_step(row, outcome).1 is NoteRestored <==> row.phase is Spawning,
{
}

/// A torrent's task is started only where its file says that it is the torrent
/// that it is filed as.
pub proof fn law_started_torrents_are_the_filed_ones(
    t: StoredTorrent,
    outcomes: Seq<RestoreOutcome>,
)
    requires
        is_past_hash(restored_to(t, outcomes)),
    ensures
        exists|i: int| 0 <= i < outcomes.len() && is_filed(#[trigger] outcomes[i]),
    decreases outcomes.len(),
{
    let before = restored_to(t, outcomes.drop_last());
    if is_past_hash(before) {
        law_started_torrents_are_the_filed_ones(t, outcomes.drop_last());
        let i = choose|i: int|
            0 <= i < outcomes.drop_last().len() && is_filed(#[trigger] outcomes.drop_last()[i]);
        assert(is_filed(outcomes[i]));
    } else {
        assert(before is Repairing);
        assert(is_filed(outcomes[outcomes.len() - 1]));
    }
}

/// The hash of the torrent's file has been compared: the task is started from
/// here on only.
pub open spec fn is_past_hash(phase: RestorePhase) -> bool {
    phase is ReservingMetainfo || phase is Showing || phase is Spawning
}

/// The torrent's file has the hash that the torrent is filed under.
pub open spec fn is_filed(outcome: RestoreOutcome) -> bool {
    outcome matches RestoreOutcome::Hash { found, filed } && found@ == filed@
}

impl RestoreRow {
    /// The torrent's row after an outcome.
    pub open spec fn after(self, outcome: RestoreOutcome) -> RestoreRow {
        RestoreRow { phase: restore_step(self, outcome).0, ..self }
    }

    /// The action that follows on an outcome.
    pub open spec fn told(self, outcome: RestoreOutcome) -> RestoreAction {
        restore_step(self, outcome).1
    }
}

/// A torrent's task starts paused exactly where the torrent was paused, stopped
/// or queued.
pub proof fn law_halted_states_are_three(state: TorrentState)
    ensures
        is_halted(state) <==> (state == TorrentState::Paused || state == TorrentState::Stopped
            || state == TorrentState::Queued),
{
}

/// Whatever happens on the way, a task starts as its torrent was left: paused
/// where it was paused, stopped or queued, running otherwise. It is registered
/// with the distributed hash table where a torrent in its state is, unless its
/// metainfo says that it is private.
pub proof fn law_restored_tasks_go_on_as_they_were(row: RestoreRow, outcome: RestoreOutcome)
    ensures
        ({
            let halted = match row.torrent.state {
                TorrentState::Paused => true,
                TorrentState::Stopped => true,
                TorrentState::Queued => true,
                TorrentState::MetadataPending => false,
                TorrentState::Checking => false,
                TorrentState::Downloading => false,
                TorrentState::Seeding => false,
                TorrentState::Error => false,
            };
            &&& row.told(outcome) matches RestoreAction::SpawnTask { paused, register_dht } ==> {
                &&& paused == halted
                &&& row.phase matches RestorePhase::Showing { private, .. } && register_dht == (
                !private && row.torrent.registers_dht)
            }
            &&& row.told(outcome) matches RestoreAction::SpawnMetadataTask {
                paused,
                register_dht,
            } ==> paused == halted && register_dht == row.torrent.registers_dht
        }),
{
}

/// A torrent that is needed, and of which everything is as it is stored, is
/// read, checked, shown, started and noted, in this order.
pub proof fn law_sound_torrents_are_started(
    t: StoredTorrent,
    indexed: RestoreOutcome,
    parser: RestoreOutcome,
    read: RestoreOutcome,
    pieces: u64,
    private: bool,
    v2_only: bool,
    hash: String,
    shown: RestoreOutcome,
    started: RestoreOutcome,
)
    requires
        t.authorized,
        !t.placeholder,
        t.state != TorrentState::Error,
        !t.tiers_enabled || t.needed_at_once,
        t.hash_len == 40 || t.hash_len == 64,
        0 <= t.piece_count <= usize::MAX,
        pieces == t.piece_count,
        !(indexed is Failed),
        !(parser is Failed),
        !(read is Failed),
        !(shown is Failed),
    ensures
        ({
            let parsed = RestoreOutcome::Parsed { pieces, private, v2_only };
            let same = RestoreOutcome::Hash { found: hash, filed: hash };
            let held = RestoreOutcome::Reserved { held: true };
            let m0 = RestoreRow { torrent: t, phase: restore_first(t).0 };
            let m1 = m0.after(indexed);
            let m2 = m1.after(parser);
            let m3 = m2.after(read);
            let m4 = m3.after(parsed);
            let m5 = m4.after(same);
            let m6 = m5.after(held);
            let m7 = m6.after(shown);
            &&& restore_first(t).1 == (RestoreAction::ReservePieceIndex {
                piece_count: t.piece_count as usize,
            })
            &&& m0.told(indexed) is ReserveParser
            &&& m1.told(parser) is ReadBlob
            &&& m2.told(read) is ParseBlob
            &&& m3.told(parsed) is RepairFiles
            &&& m4.told(same) is ReserveMetainfo
            &&& m5.told(held) is Show
            &&& m6.told(shown) is SpawnTask
            &&& m7.told(started) == (RestoreAction::NoteRestored {
                state: t.state,
                private,
                v2_only,
            })
            &&& m7.after(started).phase == RestorePhase::Over
        }),
{
}

/// A torrent that is not needed, or is in error, is only shown, as dormant; so is
/// one whose piece count makes no sense or finds no memory. Its next announce
/// is planned exactly where it seeds and that is known.
pub proof fn law_unneeded_torrents_sleep(t: StoredTorrent, error: String)
    requires
        t.authorized,
        !t.placeholder,
    ensures
        ({
            let asleep = RestoreAction::ShowDormant {
                schedule: t.state == TorrentState::Seeding && t.has_deadline,
            };
            let m0 = RestoreRow { torrent: t, phase: RestorePhase::ReservingPieceIndex };
            let filed = t.hash_len == 40 || t.hash_len == 64;
            &&& (t.state == TorrentState::Error || (t.tiers_enabled && !t.needed_at_once))
                ==> restore_first(t) == (RestorePhase::Over, asleep)
            &&& filed && t.piece_count < 0 ==> restore_first(t) == (RestorePhase::Over, asleep)
            &&& m0.told(RestoreOutcome::Failed(error)) == asleep
            &&& m0.after(RestoreOutcome::Failed(error)).phase == RestorePhase::Over
            &&& restore_first(t).1 is ShowDormant || restore_first(t).1 is ReservePieceIndex
                || restore_first(t).1 is ReserveParser
        }),
{
}

/// A torrent that waits for its metadata is shown first. A task fetches its
/// metadata where one is wanted and there is memory; it is noted in any case.
pub proof fn law_placeholders_are_shown_and_noted(
    t: StoredTorrent,
    shown: RestoreOutcome,
    reserved: RestoreOutcome,
    started: RestoreOutcome,
    error: String,
)
    requires
        t.authorized,
        t.placeholder,
        !(shown is Failed),
        !(reserved is Failed),
    ensures
        ({
            let wanted = t.state != TorrentState::Error && (!t.tiers_enabled || t.needed_at_once);
            let m0 = RestoreRow { torrent: t, phase: restore_first(t).0 };
            let m1 = m0.after(shown);
            let m2 = m1.after(reserved);
            &&& restore_first(t).1 == (RestoreAction::ShowPlaceholder { active: wanted })
            &&& m0.told(RestoreOutcome::Failed(error)) is NotePlaceholder
            &&& m0.after(RestoreOutcome::Failed(error)).phase == RestorePhase::Over
            &&& !wanted ==> m0.told(shown) is NotePlaceholder && m1.phase == RestorePhase::Over
            &&& wanted ==> {
                &&& m0.told(shown) is ReserveMetadataTask
                &&& m1.told(RestoreOutcome::Failed(error)) is NotePlaceholder
                &&& m1.after(RestoreOutcome::Failed(error)).phase == RestorePhase::Over
                &&& m1.told(reserved) is SpawnMetadataTask
                &&& m2.told(started) is NotePlaceholder
                &&& m2.after(started).phase == RestorePhase::Over
            }
        }),
{
}

/// A torrent that cannot be brought back is shown in error with what stood in
/// the way: each step that fails has its own reason.
pub proof fn law_each_failure_has_its_reason(
    row: RestoreRow,
    error: String,
    done: RestoreOutcome,
)
    requires
        !(done is Failed),
    ensures
        ({
            let failed = RestoreOutcome::Failed(error);
            match row.phase {
                RestorePhase::ReservingParser { .. } => row.told(failed)
                    == RestoreAction::ShowError(RestoreFailure::ParserMemory(error)),
                RestorePhase::Reading { .. } => row.told(failed) == RestoreAction::ShowError(
                    RestoreFailure::Unreadable(error),
                ),
                RestorePhase::Parsing { .. } => row.told(failed) == RestoreAction::ShowError(
                    RestoreFailure::Invalid(error),
                ),
                RestorePhase::ReservingMetainfo { .. } => row.told(failed)
                    == RestoreAction::ShowError(RestoreFailure::MetainfoMemory(error)),
                RestorePhase::Showing { indexed, held, .. } => {
                    &&& row.told(failed) is Skip
                    &&& !indexed ==> row.told(done) == RestoreAction::ShowError(
                        RestoreFailure::PieceIndexMemory,
                    )
                    &&& indexed && !held ==> row.told(done) == RestoreAction::ShowError(
                        RestoreFailure::MetainfoLost,
                    )
                },
                RestorePhase::Repairing { .. } => row.told(failed) == RestoreAction::Abort(error),
                RestorePhase::ShowingError => row.told(failed) == RestoreAction::Abort(error),
                _ => true,
            }
        }),
        row.told(RestoreOutcome::Failed(error)) is ShowError ==> row.after(
            RestoreOutcome::Failed(error),
        ).phase == RestorePhase::ShowingError,
        row.told(RestoreOutcome::Failed(error)) is Abort ==> row.after(
            RestoreOutcome::Failed(error),
        ).phase == RestorePhase::Over,
{
}

/// A torrent file that is not the stored torrent's is not used: another number
/// of pieces, or another hash, is told with both values.
pub proof fn law_mismatches_are_told(
    row: RestoreRow,
    pieces: u64,
    private: bool,
    v2_only: bool,
    found: String,
    filed: String,
)
    requires
        pieces <= usize::MAX,
        pieces <= i64::MAX,
    ensures
        row.phase is Parsing && pieces != row.torrent.piece_count ==> row.told(
            (RestoreOutcome::Parsed { pieces, private, v2_only }),
        ) == RestoreAction::ShowError(
            (RestoreFailure::PieceCount {
                actual: pieces as i64,
                stored: row.torrent.piece_count,
            }),
        ),
        row.phase is Repairing && found@ != filed@ ==> row.told(
            (RestoreOutcome::Hash { found, filed }),
        ) == RestoreAction::ShowError((RestoreFailure::Hash { found, filed })),
{
}

/// What is found out on the way is not forgotten.
pub proof fn law_findings_are_carried_on(row: RestoreRow, outcome: RestoreOutcome)
    ensures
        match (row.phase, outcome, row.after(outcome).phase) {
            (RestorePhase::ReservingPieceIndex, _, RestorePhase::ReservingParser { indexed }) =>
                indexed,
            (
                RestorePhase::Parsing { indexed },
                RestoreOutcome::Parsed { private, v2_only, .. },
                RestorePhase::Repairing { indexed: i, private: p, v2_only: v },
            ) => i == indexed && p == private && v == v2_only,
            (
                RestorePhase::ReservingMetainfo { indexed, private, v2_only },
                RestoreOutcome::Reserved { held },
                RestorePhase::Showing { indexed: i, held: h, private: p, v2_only: v },
            ) => i == indexed && h == held && p == private && v == v2_only,
            _ => true,
        },
{
}

/// Memory that is short and tasks that cannot be had are not the torrent file's
/// fault; only a file that is no torrent's, or another torrent's, is put aside.
pub proof fn law_blame_falls_on_the_right_part(failure: RestoreFailure)
    ensures
        match failure {
            RestoreFailure::ParserMemory(_) => failure.blames_runtime() && !failure.discards_blob(),
            RestoreFailure::MetainfoMemory(_) => failure.blames_runtime()
                && !failure.discards_blob(),
            RestoreFailure::PieceIndexMemory => failure.blames_runtime()
                && !failure.discards_blob(),
            RestoreFailure::MetainfoLost => failure.blames_runtime() && !failure.discards_blob(),
            RestoreFailure::Unreadable(_) => !failure.blames_runtime() && !failure.discards_blob(),
            RestoreFailure::PieceCount { .. } => !failure.blames_runtime()
                && !failure.discards_blob(),
            RestoreFailure::Invalid(_) => !failure.blames_runtime() && failure.discards_blob(),
            RestoreFailure::Hash { .. } => !failure.blames_runtime() && failure.discards_blob(),
        },
{
}

/// That torrents sleep is noted exactly where some do, with their number.
pub proof fn law_sleeping_torrents_are_noted(restored: u64, r: Option<u64>)
    requires
        call_ensures(dormant_note, (restored,), r),
    ensures
        restored == 0 <==> r is None,
        r matches Some(n) ==> n == restored,
{
}

/// What is waited for is what was last asked for, and a torrent is done with exactly
/// when it has been noted, left asleep or given up.
pub proof fn law_restored_torrents_wait_for_what_they_ask(row: RestoreRow, outcome: RestoreOutcome)
    ensures
        ({
            let told = row.told(outcome);
            let after = row.after(outcome).phase;
            &&& told is ReserveMetadataTask <==> after is ReservingMetadataTask
            &&& told is SpawnMetadataTask <==> after is SpawningMetadataTask
            &&& told is ReserveParser <==> after is ReservingParser
            &&& told is ReadBlob <==> after is Reading
            &&& told is ParseBlob <==> after is Parsing
            &&& told is RepairFiles <==> after is Repairing
            &&& told is ReserveMetainfo <==> after is ReservingMetainfo
            &&& told is Show <==> after is Showing
            &&& told is SpawnTask <==> after is Spawning
            &&& told is ShowError <==> after is ShowingError
            &&& told is ReservePieceIndex <==> after is ReservingPieceIndex
            &&& told is ShowPlaceholder <==> after is ShowingPlaceholder
            &&& after is Over <==> told is NotePlaceholder || told is ShowDormant || told is Skip || told is NoteRestored || told is Abort
        }),
{
}

} // verus!
