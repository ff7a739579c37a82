//! Changing what a torrent is called and where it lies. A new place means a
//! move of its files: the move is entered among those that are being prepared,
//! the torrent's task is quiesced, and only then is the move planned and
//! queued. However that ends, no reservation is left behind.

use vstd::prelude::*;

use crate::limits::EngineLimits;
use crate::pending_moves::{Pending, PendingStorageMove, PendingStorageMoves};
use crate::problem::{either, reports, CmdResult, Problem};
use crate::storage_path::{PathParts, StoragePath};
use crate::text::{join2, join3, join4};
use crate::torrent_state::ShownEntry;
use crate::validation::{
    optional_text_problem, owned_text, save_path_problem, validate_owned_text,
};

verus! {

/// What is wrong with a new name or save path.
pub open spec fn fields_problem(
    limits: EngineLimits,
    name: Option<Seq<char>>,
    save_path: Option<Seq<char>>,
) -> Problem {
    either(
        optional_text_problem(name, limits.name_bytes as nat, "torrent name"@),
        save_path_problem(limits, save_path),
    )
}

/// A new name and save path are bounded.
pub fn validate_fields(
    limits: &EngineLimits,
    name: &Option<String>,
    save_path: &Option<String>,
) -> (r: CmdResult<()>)
    ensures
        reports(r, fields_problem(*limits, owned_text(*name), owned_text(*save_path))),
{
    validate_owned_text(name, limits.name_bytes, "torrent name")?;
    validate_owned_text(save_path, limits.save_path_bytes, "save path")
}

/// Why a name or save path was not changed.
#[derive(Debug)]
pub enum FieldsRefusal {
    /// What stood in the way, as it was reported.
    Reported(String),
    NotFound { info_hash: String },
    Capacity,
    AlreadyMoving,
    NotQuiet { info_hash: String, error: String },
    Changed { info_hash: String },
    CannotApply(String),
    NotSubmitted,
}

impl FieldsRefusal {
    pub open spec fn text(self) -> Seq<char> {
        match self {
            FieldsRefusal::Reported(e) => e@,
            FieldsRefusal::NotFound { info_hash } => "torrent "@ + info_hash@ + " not found"@,
            FieldsRefusal::Capacity => "storage move planning capacity exhausted; retry later"@,
            FieldsRefusal::AlreadyMoving =>
                "torrent already has a storage move being prepared; retry later"@,
            FieldsRefusal::NotQuiet { info_hash, error } => "torrent "@ + info_hash@
                + " could not be quiesced for storage move: "@ + error@,
            FieldsRefusal::Changed { info_hash } => "torrent "@ + info_hash@
                + " changed while its storage move was being planned; retry"@,
            FieldsRefusal::CannotApply(e) => "storage plan cannot apply: "@ + e@,
            FieldsRefusal::NotSubmitted => "storage move job submission failed"@,
        }
    }

    /// The refusal in words.
    pub fn to_text(&self) -> (r: String)
        ensures
            r@ == self.text(),
    {
        match self {
            FieldsRefusal::Reported(e) => e.clone(),
            FieldsRefusal::NotFound { info_hash } => join3(
                "torrent ",
                info_hash.as_str(),
                " not found",
            ),
            FieldsRefusal::Capacity => {
                "storage move planning capacity exhausted; retry later".to_owned()
            },
            FieldsRefusal::AlreadyMoving => {
                "torrent already has a storage move being prepared; retry later".to_owned()
            },
            FieldsRefusal::NotQuiet { info_hash, error } => join4(
                "torrent ",
                info_hash.as_str(),
                " could not be quiesced for storage move: ",
                error.as_str(),
            ),
            FieldsRefusal::Changed { info_hash } => join3(
                "torrent ",
                info_hash.as_str(),
                " changed while its storage move was being planned; retry",
            ),
            FieldsRefusal::CannotApply(e) => join2("storage plan cannot apply: ", e.as_str()),
            FieldsRefusal::NotSubmitted => "storage move job submission failed".to_owned(),
        }
    }
}

/// A torrent as the session shows it: which one it is, what it is called and
/// where it lies.
pub struct ShownTorrent {
    pub handle: u64,
    pub name: String,
    pub save_path: StoragePath,
}

impl ShownTorrent {
    /// It is the same torrent, under the same name and in the same place.
    pub open spec fn same(self, other: ShownTorrent) -> bool {
        &&& self.handle == other.handle
        &&& self.name@ == other.name@
        &&& self.save_path@ == other.save_path@
    }

    /// Tells whether it is the same torrent, under the same name and in the
    /// same place.
    pub fn same_as(&self, other: &ShownTorrent) -> (r: bool)
        ensures
            r == self.same(*other),
    {
        self.handle == other.handle && self.name == other.name && self.save_path.same_as(
            &other.save_path,
        )
    }
}

/// What is to be done next to change a name or save path.
#[derive(Debug)]
pub enum FieldsAction {
    /// See that no job of the torrent is under way.
    CheckIdle,
    LookUp,
    /// Show and store the change, as `show_fields` and `settle_fields` decide; no
    /// file moves.
    Persist,
    /// Find the storage roots.
    LoadRoots,
    /// Find the files of the torrent.
    LoadFiles,
    /// Take one of the slots for planning.
    TakeSlot,
    /// Quiesce the torrent's task.
    Quiesce,
    /// Plan the move of the torrent's files.
    Plan,
    Refuse(FieldsRefusal),
}

/// What came of an action.
pub enum FieldsOutcome {
    Done,
    Failed(String),
    NotFound,
    Found(ShownTorrent),
    Slot { taken: bool },
    Quiesced(Option<bool>),
}

/// How far a change has come.
#[derive(Clone, Copy, Debug, PartialEq, Eq, Structural)]
pub enum FieldsPhase {
    CheckingIdle,
    LookingUp,
    LoadingRoots { handle: u64 },
    LoadingFiles { handle: u64 },
    TakingSlot { handle: u64 },
    Quiescing { handle: u64 },
    Over,
}

/// A change of a torrent's name or save path.
pub struct FieldsUpdate {
    pub info_hash: String,
    /// Where the torrent is to lie, where that is to change.
    pub target: Option<StoragePath>,
    pub phase: FieldsPhase,
}

pub open spec fn refused(r: FieldsRefusal, pending: Pending) -> (
    FieldsPhase,
    FieldsAction,
    Pending,
) {
    (FieldsPhase::Over, FieldsAction::Refuse(r), pending)
}

/// Files move where a place is given that is not the one where they lie.
pub open spec fn moves_files(target: Option<StoragePath>, current: PathParts) -> bool {
    target matches Some(t) && t@ != current
}

/// The phase and the action after an outcome, and the moves that are being
/// prepared.
pub open spec fn fields_step(update: FieldsUpdate, outcome: FieldsOutcome, pending: Pending) -> (
    FieldsPhase,
    FieldsAction,
    Pending,
) {
    let hash = update.info_hash;
    match (update.phase, outcome) {
        (FieldsPhase::CheckingIdle, FieldsOutcome::Failed(e)) => refused(
            FieldsRefusal::Reported(e),
            pending,
        ),
        (FieldsPhase::CheckingIdle, _) => (FieldsPhase::LookingUp, FieldsAction::LookUp, pending),
        (FieldsPhase::LookingUp, FieldsOutcome::Found(torrent)) => if moves_files(
            update.target,
            torrent.save_path@,
        ) {
            (
                FieldsPhase::LoadingRoots { handle: torrent.handle },
                FieldsAction::LoadRoots,
                pending,
            )
        } else {
            (FieldsPhase::Over, FieldsAction::Persist, pending)
        },
        (FieldsPhase::LookingUp, _) => refused(
            FieldsRefusal::NotFound { info_hash: hash },
            pending,
        ),
        (FieldsPhase::LoadingRoots { .. }, FieldsOutcome::Failed(e)) => refused(
            FieldsRefusal::Reported(e),
            pending,
        ),
        (FieldsPhase::LoadingRoots { handle }, _) => (
            FieldsPhase::LoadingFiles { handle },
            FieldsAction::LoadFiles,
            pending,
        ),
        (FieldsPhase::LoadingFiles { .. }, FieldsOutcome::Failed(e)) => refused(
            FieldsRefusal::Reported(e),
            pending,
        ),
        (FieldsPhase::LoadingFiles { handle }, _) => (
            FieldsPhase::TakingSlot { handle },
            FieldsAction::TakeSlot,
            pending,
        ),
        (FieldsPhase::TakingSlot { handle }, FieldsOutcome::Slot { taken: true }) =>
            if pending.dom().contains(hash@) {
            refused(FieldsRefusal::AlreadyMoving, pending)
        } else {
            (
                FieldsPhase::Quiescing { handle },
                FieldsAction::Quiesce,
                pending.insert(
                    hash@,
                    PendingStorageMove { torrent_handle: handle, quiesced: None },
                ),
            )
        },
        (FieldsPhase::TakingSlot { .. }, _) => refused(FieldsRefusal::Capacity, pending),
        (FieldsPhase::Quiescing { .. }, FieldsOutcome::Quiesced(quiesced)) => (
            FieldsPhase::Over,
            FieldsAction::Plan,
            if pending.dom().contains(hash@) {
                pending.insert(hash@, PendingStorageMove { quiesced, ..pending[hash@] })
            } else {
                pending
            },
        ),
        (FieldsPhase::Quiescing { .. }, FieldsOutcome::Failed(error)) => refused(
            FieldsRefusal::NotQuiet { info_hash: hash, error },
            pending.remove(hash@),
        ),
        (FieldsPhase::Quiescing { .. }, _) => refused(
            FieldsRefusal::Capacity,
            pending.remove(hash@),
        ),
        (FieldsPhase::Over, _) => refused(FieldsRefusal::Capacity, pending),
    }
}

impl FieldsUpdate {
    /// Starts on a change that is in bounds.
    pub fn begin(info_hash: String, target: Option<StoragePath>) -> (r: (Self, FieldsAction))
        ensures
            r.0.info_hash == info_hash,
            r.0.target == target,
            r.0.phase == FieldsPhase::CheckingIdle,
            r.1 is CheckIdle,
    {
        (
            FieldsUpdate { info_hash, target, phase: FieldsPhase::CheckingIdle },
            FieldsAction::CheckIdle,
        )
    }

    fn moves(&self, current: &StoragePath) -> (r: bool)
        ensures
            r == moves_files(self.target, current@),
    {
        match &self.target {
            None => false,
            Some(target) => !target.same_as(current),
        }
    }

    /// Takes the outcome of the last action, and tells the next one. A move is
    /// entered among those that are being prepared before the torrent's task
    /// is quiesced, and leaves it where that fails.
    pub fn next(&mut self, outcome: FieldsOutcome, pending: &mut PendingStorageMoves) -> (r:
        FieldsAction)
        requires
            old(pending).wf(),
        ensures
            final(pending).wf(),
            final(self).info_hash == old(self).info_hash,
            final(self).target == old(self).target,
            (final(self).phase, r, final(pending)@) == fields_step(
                *old(self),
                outcome,
                old(pending)@,
            ),
    {
        let phase = self.phase;
        self.phase = FieldsPhase::Over;
        match (phase, outcome) {
            (FieldsPhase::CheckingIdle, FieldsOutcome::Failed(e))
            | (FieldsPhase::LoadingRoots { .. }, FieldsOutcome::Failed(e))
            | (FieldsPhase::LoadingFiles { .. }, FieldsOutcome::Failed(e)) => FieldsAction::Refuse(
                FieldsRefusal::Reported(e),
            ),
            (FieldsPhase::CheckingIdle, _) => {
                self.phase = FieldsPhase::LookingUp;
                FieldsAction::LookUp
            },
            (FieldsPhase::LookingUp, FieldsOutcome::Found(torrent)) => {
                if self.moves(&torrent.save_path) {
                    self.phase = FieldsPhase::LoadingRoots { handle: torrent.handle };
                    FieldsAction::LoadRoots
                } else {
                    FieldsAction::Persist
                }
            },
            (FieldsPhase::LookingUp, _) => FieldsAction::Refuse(
                FieldsRefusal::NotFound { info_hash: self.info_hash.clone() },
            ),
            (FieldsPhase::LoadingRoots { handle }, _) => {
                self.phase = FieldsPhase::LoadingFiles { handle };
                FieldsAction::LoadFiles
            },
            (FieldsPhase::LoadingFiles { handle }, _) => {
                self.phase = FieldsPhase::TakingSlot { handle };
                FieldsAction::TakeSlot
            },
            (FieldsPhase::TakingSlot { handle }, FieldsOutcome::Slot { taken: true }) => {
                if pending.try_reserve_storage_move(&self.info_hash, handle) {
                    self.phase = FieldsPhase::Quiescing { handle };
                    FieldsAction::Quiesce
                } else {
                    FieldsAction::Refuse(FieldsRefusal::AlreadyMoving)
                }
            },
            (FieldsPhase::TakingSlot { .. }, _) => FieldsAction::Refuse(FieldsRefusal::Capacity),
            (FieldsPhase::Quiescing { .. }, FieldsOutcome::Quiesced(quiesced)) => {
                pending.record_storage_move_quiescence(&self.info_hash, quiesced);
                FieldsAction::Plan
            },
            (FieldsPhase::Quiescing { .. }, FieldsOutcome::Failed(error)) => {
                pending.release_storage_move_reservation(&self.info_hash);
                FieldsAction::Refuse(
                    FieldsRefusal::NotQuiet { info_hash: self.info_hash.clone(), error },
                )
            },
            (FieldsPhase::Quiescing { .. }, _) => {
                pending.release_storage_move_reservation(&self.info_hash);
                FieldsAction::Refuse(FieldsRefusal::Capacity)
            },
            (FieldsPhase::Over, _) => FieldsAction::Refuse(FieldsRefusal::Capacity),
        }
    }
}

/// What a torrent is called, and where it lies.
#[derive(Debug)]
pub struct Fields {
    pub name: String,
    pub save_path: String,
}

/// The entry under a new name and in a new place, where they are given; all
/// else stays.
pub open spec fn with_fields(
    entry: ShownEntry,
    name: Option<String>,
    save_path: Option<String>,
) -> ShownEntry {
    ShownEntry {
        name: match name {
            Some(name) => name,
            None => entry.name,
        },
        save_path: match save_path {
            Some(path) => path,
            None => entry.save_path,
        },
        ..entry
    }
}

/// Shows a torrent under a new name or in a new place. `idle` is why it stays as
/// it is: a job of it is under way. Gives back what was shown before.
pub fn show_fields(
    shown: &mut Option<ShownEntry>,
    info_hash: &String,
    idle: CmdResult<()>,
    name: Option<String>,
    save_path: Option<String>,
) -> (r: CmdResult<Fields>)
    ensures
        match (idle, *old(shown)) {
            (Err(e), _) => r == Err::<Fields, String>(e) && *final(shown) == *old(shown),
            (Ok(()), None) => *final(shown) == *old(shown) && (r matches Err(e) && e@
                == "torrent "@ + info_hash@ + " not found"@),
            (Ok(()), Some(before)) => r == Ok::<Fields, String>(
                Fields { name: before.name, save_path: before.save_path },
            ) && *final(shown) == Some(with_fields(before, name, save_path)),
        },
{
    if let Err(error) = idle {
        return Err(error);
    }
    let mut entry = match shown.take() {
        Some(entry) => entry,
        None => {
            return Err(join3("torrent ", info_hash.as_str(), " not found"));
        },
    };
    let previous = Fields { name: entry.name.clone(), save_path: entry.save_path.clone() };
    if let Some(name) = name {
        entry.name = name;
    }
    if let Some(path) = save_path {
        entry.save_path = path;
    }
    *shown = Some(entry);
    Ok(previous)
}

/// The entry under its former name and in its former place.
pub open spec fn fields_restored(shown: Option<ShownEntry>, previous: Fields) -> Option<ShownEntry> {
    match shown {
        Some(entry) => Some(
            ShownEntry { name: previous.name, save_path: previous.save_path, ..entry },
        ),
        None => None,
    }
}

/// Settles a change after it was stored. `stored` tells whether there was a row
/// to store it in, or why it could not be stored.
pub fn settle_fields(
    shown: &mut Option<ShownEntry>,
    previous: Fields,
    info_hash: &String,
    stored: Result<bool, String>,
) -> (r: CmdResult<()>)
    ensures
        *final(shown) == if stored == Ok::<bool, String>(true) {
            *old(shown)
        } else {
            fields_restored(*old(shown), previous)
        },
        match stored {
            Ok(true) => r is Ok,
            Ok(false) => r matches Err(e) && e@ == "torrent "@ + info_hash@
                + " is missing from the database"@,
            Err(error) => r == Err::<(), String>(error),
        },
{
    let error = match stored {
        Ok(true) => {
            return Ok(());
        },
        Ok(false) => join3("torrent ", info_hash.as_str(), " is missing from the database"),
        Err(error) => error,
    };
    if let Some(entry) = shown.take() {
        let mut entry = entry;
        entry.name = previous.name;
        entry.save_path = previous.save_path;
        *shown = Some(entry);
    }
    Err(error)
}

/// A change that could not be stored leaves the torrent as it was shown.
pub proof fn law_unstored_fields_are_taken_back(
    before: ShownEntry,
    name: Option<String>,
    save_path: Option<String>,
)
    ensures
        fields_restored(
            Some(with_fields(before, name, save_path)),
            Fields { name: before.name, save_path: before.save_path },
        ) == Some(before),
{
}

/// What is to be done next about a move that has been planned.
#[derive(Debug)]
pub enum MoveAction {
    /// See that no stored job of the torrent is under way.
    CheckIdle,
    LookUp,
    /// See that the plan can be carried out. Without a plan there is no file
    /// to move, and an empty plan stands in.
    CheckPlan { has_plan: bool },
    /// Hand the plan to the worker.
    Queue,
    /// Report the job.
    Accepted { job_id: String },
    /// Let the torrent's task go on in the old place, and refuse.
    ResumeAndRefuse(FieldsRefusal),
}

/// What came of an action.
pub enum MoveOutcome {
    Done,
    Failed(String),
    NotFound,
    Found(ShownTorrent),
    Queued { job_id: String },
}

/// How far a planned move has come.
#[derive(Clone, Copy, Debug, PartialEq, Eq, Structural)]
pub enum MovePhase {
    CheckingIdle,
    LookingUp,
    CheckingPlan,
    CheckingIdleAgain,
    Queueing,
    Over,
}

/// A move that has been planned. `plan` tells whether there is a plan, or why
/// none could be made.
pub struct PreparedMove {
    pub info_hash: String,
    /// The torrent as it was when the move was planned.
    pub planned_for: ShownTorrent,
    pub plan: Result<bool, String>,
    pub phase: MovePhase,
}

pub open spec fn unprepared(hash: Seq<char>, r: FieldsRefusal, pending: Pending) -> (
    MovePhase,
    MoveAction,
    Pending,
) {
    (MovePhase::Over, MoveAction::ResumeAndRefuse(r), pending.remove(hash))
}

/// The phase and the action after an outcome, and the moves that are being
/// prepared.
pub open spec fn move_step(m: PreparedMove, outcome: MoveOutcome, pending: Pending) -> (
    MovePhase,
    MoveAction,
    Pending,
) {
    let hash = m.info_hash@;
    match (m.phase, outcome) {
        (MovePhase::CheckingIdle, MoveOutcome::Failed(e)) => unprepared(
            hash,
            FieldsRefusal::Reported(e),
            pending,
        ),
        (MovePhase::CheckingIdle, _) => (MovePhase::LookingUp, MoveAction::LookUp, pending),
        (MovePhase::LookingUp, MoveOutcome::Found(torrent)) => if !torrent.same(m.planned_for) {
            unprepared(hash, FieldsRefusal::Changed { info_hash: m.info_hash }, pending)
        } else {
            match m.plan {
                Ok(has_plan) => (
                    MovePhase::CheckingPlan,
                    MoveAction::CheckPlan { has_plan },
                    pending,
                ),
                Err(e) => unprepared(hash, FieldsRefusal::Reported(e), pending),
            }
        },
        (MovePhase::LookingUp, _) => unprepared(
            hash,
            FieldsRefusal::NotFound { info_hash: m.info_hash },
            pending,
        ),
        (MovePhase::CheckingPlan, MoveOutcome::Failed(e)) => unprepared(
            hash,
            FieldsRefusal::CannotApply(e),
            pending,
        ),
        (MovePhase::CheckingPlan, _) => (
            MovePhase::CheckingIdleAgain,
            MoveAction::CheckIdle,
            pending,
        ),
        (MovePhase::CheckingIdleAgain, MoveOutcome::Failed(e)) => unprepared(
            hash,
            FieldsRefusal::Reported(e),
            pending,
        ),
        (MovePhase::CheckingIdleAgain, _) => (MovePhase::Queueing, MoveAction::Queue, pending),
        (MovePhase::Queueing, MoveOutcome::Queued { job_id }) => (
            MovePhase::Over,
            MoveAction::Accepted { job_id },
            pending.remove(hash),
        ),
        (MovePhase::Queueing, MoveOutcome::Failed(e)) => unprepared(
            hash,
            FieldsRefusal::Reported(e),
            pending,
        ),
        (_, _) => unprepared(hash, FieldsRefusal::NotSubmitted, pending),
    }
}

impl PreparedMove {
    /// Starts on a move that has been planned.
    pub fn begin(
        info_hash: String,
        planned_for: ShownTorrent,
        plan: Result<bool, String>,
    ) -> (r: (Self, MoveAction))
        ensures
            r.0.info_hash == info_hash,
            r.0.planned_for == planned_for,
            r.0.plan == plan,
            r.0.phase == MovePhase::CheckingIdle,
            r.1 is CheckIdle,
    {
        (
            PreparedMove { info_hash, planned_for, plan, phase: MovePhase::CheckingIdle },
            MoveAction::CheckIdle,
        )
    }

    fn fail(&self, refusal: FieldsRefusal, pending: &mut PendingStorageMoves) -> (r: MoveAction)
        requires
            old(pending).wf(),
        ensures
            final(pending).wf(),
            final(pending)@ == old(pending)@.remove(self.info_hash@),
            r == MoveAction::ResumeAndRefuse(refusal),
    {
        pending.release_storage_move_reservation(&self.info_hash);
        MoveAction::ResumeAndRefuse(refusal)
    }

    /// Takes the outcome of the last action, and tells the next one. The move
    /// leaves those that are being prepared when it is queued or refused.
    pub fn next(&mut self, outcome: MoveOutcome, pending: &mut PendingStorageMoves) -> (r:
        MoveAction)
        requires
            old(pending).wf(),
        ensures
            final(pending).wf(),
            final(self).info_hash == old(self).info_hash,
            final(self).planned_for == old(self).planned_for,
            (final(self).phase, r, final(pending)@) == move_step(
                *old(self),
                outcome,
                old(pending)@,
            ),
    {
        let phase = self.phase;
        self.phase = MovePhase::Over;
        match (phase, outcome) {
            (MovePhase::CheckingIdle, MoveOutcome::Failed(e))
            | (MovePhase::CheckingIdleAgain, MoveOutcome::Failed(e))
            | (MovePhase::Queueing, MoveOutcome::Failed(e)) => self.fail(
                FieldsRefusal::Reported(e),
                pending,
            ),
            (MovePhase::CheckingIdle, _) => {
                self.phase = MovePhase::LookingUp;
                MoveAction::LookUp
            },
            (MovePhase::LookingUp, MoveOutcome::Found(torrent)) => {
                if !torrent.same_as(&self.planned_for) {
                    return self.fail(
                        FieldsRefusal::Changed { info_hash: self.info_hash.clone() },
                        pending,
                    );
                }
                let mut plan: Result<bool, String> = Ok(false);
                std::mem::swap(&mut plan, &mut self.plan);
                match plan {
                    Ok(has_plan) => {
                        self.phase = MovePhase::CheckingPlan;
                        MoveAction::CheckPlan { has_plan }
                    },
                    Err(e) => self.fail(FieldsRefusal::Reported(e), pending),
                }
            },
            (MovePhase::LookingUp, _) => self.fail(
                FieldsRefusal::NotFound { info_hash: self.info_hash.clone() },
                pending,
            ),
            (MovePhase::CheckingPlan, MoveOutcome::Failed(e)) => self.fail(
                FieldsRefusal::CannotApply(e),
                pending,
            ),
            (MovePhase::CheckingPlan, _) => {
                self.phase = MovePhase::CheckingIdleAgain;
                MoveAction::CheckIdle
            },
            (MovePhase::CheckingIdleAgain, _) => {
                self.phase = MovePhase::Queueing;
                MoveAction::Queue
            },
            (MovePhase::Queueing, MoveOutcome::Queued { job_id }) => {
                pending.release_storage_move_reservation(&self.info_hash);
                MoveAction::Accepted { job_id }
            },
            (_, _) => self.fail(FieldsRefusal::NotSubmitted, pending),
        }
    }
}

/// What the session shows of a torrent's name and place.
#[derive(Debug)]
pub struct TorrentFields {
    pub name: String,
    pub save_path: String,
}

/// The fields with the changes that are given.
pub open spec fn changed_fields(
    fields: TorrentFields,
    name: Option<String>,
    save_path: Option<String>,
) -> TorrentFields {
    TorrentFields {
        name: match name {
            Some(name) => name,
            None => fields.name,
        },
        save_path: match save_path {
            Some(path) => path,
            None => fields.save_path,
        },
    }
}

impl TorrentFields {
    /// Shows a change, and gives back what was shown before.
    pub fn change(&mut self, name: Option<String>, save_path: Option<String>) -> (r: TorrentFields)
        ensures
            *final(self) == changed_fields(*old(self), name, save_path),
            r.name@ == old(self).name@,
            r.save_path@ == old(self).save_path@,
    {
        let previous = TorrentFields {
            name: self.name.clone(),
            save_path: self.save_path.clone(),
        };
        if let Some(name) = name {
            self.name = name;
        }
        if let Some(path) = save_path {
            self.save_path = path;
        }
        previous
    }

    /// Settles a change after it was stored. `stored` tells whether there was
    /// a row to store it in, or why it could not be stored; where it was not
    /// stored, what was shown before is shown again.
    pub fn settle(
        &mut self,
        previous: TorrentFields,
        info_hash: &String,
        stored: Result<bool, String>,
    ) -> (r: CmdResult<()>)
        ensures
            r is Ok <==> stored == Ok::<bool, String>(true),
            *final(self) == if r is Ok {
                *old(self)
            } else {
                previous
            },
            match stored {
                Ok(true) => true,
                Ok(false) => r matches Err(e) && e@ == "torrent "@ + info_hash@
                    + " is missing from the database"@,
                Err(error) => r == Err::<(), String>(error),
            },
    {
        match stored {
            Ok(true) => Ok(()),
            Ok(false) => {
                *self = previous;
                Err(join3("torrent ", info_hash.as_str(), " is missing from the database"))
            },
            Err(error) => {
                *self = previous;
                Err(error)
            },
        }
    }
}

/// While a change is worked on, its torrent has a move that is being prepared
/// exactly while the change waits for the torrent's task or for the plan.
pub proof fn law_refused_changes_leave_no_reservation(
    update: FieldsUpdate,
    outcome: FieldsOutcome,
    pending: Pending,
)
    requires
        update.phase is Quiescing <==> pending.dom().contains(update.info_hash@),
    ensures
        ({
            let (phase, action, after) = fields_step(update, outcome, pending);
            after.dom().contains(update.info_hash@) <==> phase is Quiescing || action is Plan
        }),
{
}

/// A planned move keeps its reservation until it is over, and no longer.
pub proof fn law_settled_moves_leave_no_reservation(
    m: PreparedMove,
    outcome: MoveOutcome,
    pending: Pending,
)
    requires
        pending.dom().contains(m.info_hash@),
    ensures
        ({
            let (phase, action, after) = move_step(m, outcome, pending);
            &&& after.dom().contains(m.info_hash@) <==> phase != MovePhase::Over
            &&& phase == MovePhase::Over <==> action is Accepted || action is ResumeAndRefuse
        }),
{
}

/// The files of a torrent that has changed since its move was planned are not
/// touched.
pub proof fn law_changed_torrents_are_not_moved(
    m: PreparedMove,
    torrent: ShownTorrent,
    pending: Pending,
)
    requires
        m.phase == MovePhase::LookingUp,
        !torrent.same(m.planned_for),
    ensures
        move_step(m, MoveOutcome::Found(torrent), pending).1 is ResumeAndRefuse,
{
}

/// Only a new place moves files: a change of the name alone, and a change to the
/// place where the files lie already, is stored without a move. A new place is
/// planned once the storage roots and the files are known, a slot is free, no
/// other move of the torrent is being prepared and its task is quiet.
pub proof fn law_new_places_are_planned(
    info_hash: String,
    target: Option<StoragePath>,
    torrent: ShownTorrent,
    pending: Pending,
    idle: FieldsOutcome,
    roots: FieldsOutcome,
    files: FieldsOutcome,
    quiesced: Option<bool>,
)
    requires
        !(idle is Failed),
        !(roots is Failed),
        !(files is Failed),
        !pending.dom().contains(info_hash@),
    ensures
        ({
            let at = |phase: FieldsPhase| FieldsUpdate { info_hash, target, phase };
            let found = FieldsOutcome::Found(torrent);
            let slot = FieldsOutcome::Slot { taken: true };
            let (p1, a1, q1) = fields_step(at(FieldsPhase::CheckingIdle), idle, pending);
            let (p2, a2, q2) = fields_step(at(p1), found, q1);
            let moves = target matches Some(place) && place@ != torrent.save_path@;
            &&& a1 is LookUp
            &&& !moves ==> a2 is Persist && p2 == FieldsPhase::Over && q2 == pending
            &&& moves ==> {
                let (p3, a3, q3) = fields_step(at(p2), roots, q2);
                let (p4, a4, q4) = fields_step(at(p3), files, q3);
                let (p5, a5, q5) = fields_step(at(p4), slot, q4);
                let (p6, a6, q6) = fields_step(at(p5), FieldsOutcome::Quiesced(quiesced), q5);
                &&& a2 is LoadRoots
                &&& a3 is LoadFiles
                &&& a4 is TakeSlot
                &&& a5 is Quiesce
                &&& q5 == pending.insert(
                    info_hash@,
                    PendingStorageMove { torrent_handle: torrent.handle, quiesced: None },
                )
                &&& a6 is Plan
                &&& p6 == FieldsPhase::Over
                &&& q6 == pending.insert(
                    info_hash@,
                    PendingStorageMove { torrent_handle: torrent.handle, quiesced },
                )
            }
        }),
{
    let q = pending.insert(
        info_hash@,
        PendingStorageMove { torrent_handle: torrent.handle, quiesced: None },
    );
    assert(q.insert(
        info_hash@,
        PendingStorageMove { torrent_handle: torrent.handle, quiesced },
    ) =~= pending.insert(
        info_hash@,
        PendingStorageMove { torrent_handle: torrent.handle, quiesced },
    ));
}

/// A change that is refused says why: each thing that can stand in the way has
/// its own answer, and the moves that are being prepared are as before.
pub proof fn law_refused_changes_are_told(
    update: FieldsUpdate,
    pending: Pending,
    error: String,
)
    ensures
        ({
            let refuses = |outcome: FieldsOutcome, why: FieldsRefusal, after: Pending|
                fields_step(update, outcome, pending) == (
                    FieldsPhase::Over,
                    FieldsAction::Refuse(why),
                    after,
                );
            let hash = update.info_hash;
            match update.phase {
                FieldsPhase::CheckingIdle => refuses(
                    FieldsOutcome::Failed(error),
                    FieldsRefusal::Reported(error),
                    pending,
                ),
                FieldsPhase::LookingUp => refuses(
                    FieldsOutcome::NotFound,
                    FieldsRefusal::NotFound { info_hash: hash },
                    pending,
                ),
                FieldsPhase::LoadingRoots { .. } => refuses(
                    FieldsOutcome::Failed(error),
                    FieldsRefusal::Reported(error),
                    pending,
                ),
                FieldsPhase::LoadingFiles { .. } => refuses(
                    FieldsOutcome::Failed(error),
                    FieldsRefusal::Reported(error),
                    pending,
                ),
                FieldsPhase::TakingSlot { .. } => refuses(
                    FieldsOutcome::Slot { taken: false },
                    FieldsRefusal::Capacity,
                    pending,
                ) && (pending.dom().contains(hash@) ==> refuses(
                    FieldsOutcome::Slot { taken: true },
                    FieldsRefusal::AlreadyMoving,
                    pending,
                )),
                FieldsPhase::Quiescing { .. } => refuses(
                    FieldsOutcome::Failed(error),
                    FieldsRefusal::NotQuiet { info_hash: hash, error },
                    pending.remove(hash@),
                ),
                FieldsPhase::Over => true,
            }
        }),
{
}

/// A planned move of a torrent that is still as it was planned for is checked,
/// found idle once more, queued and accepted under its job; then it is no
/// longer being prepared.
pub proof fn law_planned_moves_are_queued(
    info_hash: String,
    torrent: ShownTorrent,
    seen: ShownTorrent,
    has_plan: bool,
    pending: Pending,
    idle: MoveOutcome,
    checked: MoveOutcome,
    still_idle: MoveOutcome,
    job_id: String,
)
    requires
        seen.handle == torrent.handle,
        seen.name@ == torrent.name@,
        seen.save_path@ == torrent.save_path@,
        !(idle is Failed),
        !(checked is Failed),
        !(still_idle is Failed),
    ensures
        ({
            let at = |phase: MovePhase|
                PreparedMove { info_hash, planned_for: torrent, plan: Ok(has_plan), phase };
            let queued = MoveOutcome::Queued { job_id };
            let (p1, a1, q1) = move_step(at(MovePhase::CheckingIdle), idle, pending);
            let (p2, a2, q2) = move_step(at(p1), MoveOutcome::Found(seen), q1);
            let (p3, a3, q3) = move_step(at(p2), checked, q2);
            let (p4, a4, q4) = move_step(at(p3), still_idle, q3);
            let (p5, a5, q5) = move_step(at(p4), queued, q4);
            &&& a1 is LookUp
            &&& a2 == (MoveAction::CheckPlan { has_plan })
            &&& a3 is CheckIdle
            &&& a4 is Queue
            &&& q4 == pending
            &&& a5 == (MoveAction::Accepted { job_id })
            &&& p5 == MovePhase::Over
            &&& q5 == pending.remove(info_hash@)
        }),
{
}

/// A planned move that is not queued lets the torrent's task go on in the old
/// place, is no longer being prepared, and says why.
pub proof fn law_unqueued_moves_are_told(
    m: PreparedMove,
    seen: ShownTorrent,
    pending: Pending,
    error: String,
)
    ensures
        ({
            let refuses = |outcome: MoveOutcome, why: FieldsRefusal|
                move_step(m, outcome, pending) == (
                    MovePhase::Over,
                    MoveAction::ResumeAndRefuse(why),
                    pending.remove(m.info_hash@),
                );
            let failed = MoveOutcome::Failed(error);
            match m.phase {
                MovePhase::CheckingIdle => refuses(failed, FieldsRefusal::Reported(error)),
                MovePhase::LookingUp => {
                    let changed = seen.handle != m.planned_for.handle || seen.name@
                        != m.planned_for.name@ || seen.save_path@ != m.planned_for.save_path@;
                    &&& refuses(
                        MoveOutcome::NotFound,
                        FieldsRefusal::NotFound { info_hash: m.info_hash },
                    )
                    &&& changed ==> refuses(
                        MoveOutcome::Found(seen),
                        FieldsRefusal::Changed { info_hash: m.info_hash },
                    )
                    &&& !changed ==> (m.plan matches Err(why) ==> refuses(
                        MoveOutcome::Found(seen),
                        FieldsRefusal::Reported(why),
                    ))
                },
                MovePhase::CheckingPlan => refuses(failed, FieldsRefusal::CannotApply(error)),
                MovePhase::CheckingIdleAgain => refuses(failed, FieldsRefusal::Reported(error)),
                MovePhase::Queueing => refuses(failed, FieldsRefusal::Reported(error)),
                MovePhase::Over => true,
            }
        }),
{
}

/// A change touches only what it names: the name where one is given, the place
/// where one is given, and nothing else.
pub proof fn law_changes_touch_only_what_they_name(
    entry: ShownEntry,
    fields: TorrentFields,
    name: Option<String>,
    save_path: Option<String>,
)
    ensures
        ({
            let after = with_fields(entry, name, save_path);
            let changed = changed_fields(fields, name, save_path);
            &&& name matches Some(new) ==> after.name == new && changed.name == new
            &&& name is None ==> after.name == entry.name && changed.name == fields.name
            &&& save_path matches Some(new) ==> after.save_path == new && changed.save_path == new
            &&& save_path is None ==> after.save_path == entry.save_path && changed.save_path
                == fields.save_path
            &&& after.total_length == entry.total_length && after.amount_left == entry.amount_left
                && after.state == entry.state && after.category == entry.category && after.tags
                == entry.tags
        }),
{
}

/// A change of name or place that could not be stored is taken back, and told.
pub proof fn law_shown_fields_follow_what_is_stored(
    name: Option<String>,
    save_path: Option<String>,
    previous: TorrentFields,
    info_hash: &String,
    stored: Result<bool, String>,
)
    ensures
        forall|fields: &mut TorrentFields, r: TorrentFields| #[trigger]
            call_ensures(TorrentFields::change, (fields, name, save_path), r) ==> {
                &&& r.name@ == fields.name@ && r.save_path@ == fields.save_path@
                &&& name is Some ==> Some(final(fields).name) == name
                &&& name is None ==> final(fields).name == fields.name
                &&& save_path is Some ==> Some(final(fields).save_path) == save_path
                &&& save_path is None ==> final(fields).save_path == fields.save_path
            },
        forall|fields: &mut TorrentFields, r: CmdResult<()>| #[trigger]
            call_ensures(TorrentFields::settle, (fields, previous, info_hash, stored), r) ==> {
                &&& r is Ok <==> stored == Ok::<bool, String>(true)
                &&& r is Ok ==> *final(fields) == *fields
                &&& r is Err ==> *final(fields) == previous
            },
{
}

/// A change begins with the question whether the torrent is idle, for the torrent and
/// the place that were named.
pub proof fn law_changes_begin_as_asked(
    info_hash: String,
    target: Option<StoragePath>,
    update: (FieldsUpdate, FieldsAction),
    planned_for: ShownTorrent,
    plan: Result<bool, String>,
    queued: (PreparedMove, MoveAction),
)
    requires
        call_ensures(FieldsUpdate::begin, (info_hash, target), update),
        call_ensures(PreparedMove::begin, (info_hash, planned_for, plan), queued),
    ensures
        update.0.info_hash == info_hash && update.0.target == target && update.0.phase
            == FieldsPhase::CheckingIdle && update.1 is CheckIdle,
        queued.0.info_hash == info_hash && queued.0.planned_for == planned_for && queued.0.plan
            == plan && queued.0.phase == MovePhase::CheckingIdle && queued.1 is CheckIdle,
{
}

/// What a change waits for is what was last asked for, and it is over exactly when it
/// is stored, planned or refused.
pub proof fn law_changes_wait_for_what_they_ask(update: FieldsUpdate, outcome: FieldsOutcome, pending: Pending)
    ensures
        ({
            let told = fields_step(update, outcome, pending).1;
            let after = fields_step(update, outcome, pending).0;
            &&& told is CheckIdle <==> after is CheckingIdle
            &&& told is LookUp <==> after is LookingUp
            &&& told is LoadRoots <==> after is LoadingRoots
            &&& told is LoadFiles <==> after is LoadingFiles
            &&& told is TakeSlot <==> after is TakingSlot
            &&& told is Quiesce <==> after is Quiescing
            &&& after is Over <==> told is Persist || told is Plan || told is Refuse
        }),
{
}

/// What a planned move waits for is what was last asked for, and it is over exactly when
/// it is queued or refused.
pub proof fn law_planned_moves_wait_for_what_they_ask(m: PreparedMove, outcome: MoveOutcome, pending: Pending)
    ensures
        ({
            let told = move_step(m, outcome, pending).1;
            let after = move_step(m, outcome, pending).0;
            &&& told is CheckIdle <==> after is CheckingIdle || after is CheckingIdleAgain
            &&& told is LookUp <==> after is LookingUp
            &&& told is CheckPlan <==> after is CheckingPlan
            &&& told is Queue <==> after is Queueing
            &&& after is Over <==> told is Accepted || told is ResumeAndRefuse
        }),
{
}

/// What nobody asked for is refused: a move that was not queued says so, and a change
/// that does not hear from its torrent gives its reservation back.
pub proof fn law_unasked_outcomes_are_refused(
    update: FieldsUpdate,
    outcome: FieldsOutcome,
    m: PreparedMove,
    answer: MoveOutcome,
    pending: Pending,
)
    ensures
        update.phase is Over ==> fields_step(update, outcome, pending) == (
            FieldsPhase::Over,
            FieldsAction::Refuse(FieldsRefusal::Capacity),
            pending,
        ),
        update.phase is Quiescing && !(outcome is Quiesced) && !(outcome is Failed)
            ==> fields_step(update, outcome, pending) == (
            FieldsPhase::Over,
            FieldsAction::Refuse(FieldsRefusal::Capacity),
            pending.remove(update.info_hash@),
        ),
        m.phase is Over || (m.phase is Queueing && !(answer is Queued) && !(answer is Failed))
            ==> move_step(m, answer, pending) == (
            MovePhase::Over,
            MoveAction::ResumeAndRefuse(FieldsRefusal::NotSubmitted),
            pending.remove(m.info_hash@),
        ),
{
}

} // verus!
