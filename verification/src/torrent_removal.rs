//! Removing torrents, with their payload or without.

use vstd::prelude::*;

use crate::problem::CmdResult;
use crate::storage_path::StoragePath;
use crate::storage_plan::{PlanIssue, PlannedStorageAction};
use crate::text::{join3, join4};

verus! {

/// Why a torrent was not removed.
#[derive(Debug)]
pub enum RemovalFailure {
    /// What stood in the way, as it was reported.
    Reported(String),
    NotFound { info_hash: String },
    FilesUnknown { info_hash: String },
    NotQuiet { info_hash: String, error: String },
}

impl RemovalFailure {
    pub open spec fn text(self) -> Seq<char> {
        match self {
            RemovalFailure::Reported(e) => e@,
            RemovalFailure::NotFound { info_hash } => "torrent "@ + info_hash@ + " not found"@,
            RemovalFailure::FilesUnknown { info_hash } =>
                "cannot prepare payload cleanup for torrent "@ + info_hash@
                + ": durable file metadata is missing"@,
            RemovalFailure::NotQuiet { info_hash, error } => "torrent "@ + info_hash@
                + " could not be quiesced for payload cleanup: "@ + error@,
        }
    }

    /// The reason in words.
    pub fn to_text(&self) -> (r: String)
        ensures
            r@ == self.text(),
    {
        match self {
            RemovalFailure::Reported(e) => e.clone(),
            RemovalFailure::NotFound { info_hash } => join3(
                "torrent ",
                info_hash.as_str(),
                " not found",
            ),
            RemovalFailure::FilesUnknown { info_hash } => join3(
                "cannot prepare payload cleanup for torrent ",
                info_hash.as_str(),
                ": durable file metadata is missing",
            ),
            RemovalFailure::NotQuiet { info_hash, error } => join4(
                "torrent ",
                info_hash.as_str(),
                " could not be quiesced for payload cleanup: ",
                error.as_str(),
            ),
        }
    }
}

/// What is to be done next to remove a torrent.
#[derive(Debug)]
pub enum RemovalAction {
    /// See that no job of the torrent is under way.
    CheckIdle,
    LookUp,
    /// Load the list of its files.
    LoadFiles,
    /// See whether the torrent still waits for its metadata.
    CheckPlaceholder,
    /// Plan the deletion of its payload.
    PlanDelete,
    /// Quiesce its task.
    Quiesce,
    /// Queue the deletion of its payload.
    QueueDelete,
    /// Let its task go on, and refuse.
    ResumeAndRefuse(RemovalFailure),
    /// Refuse commands to it until the payload is gone, and report the job.
    Queued { job_id: String },
    /// Stop its task, and delete its metadata.
    DeleteMetadata,
    /// Note the failed removal, and refuse.
    NoteAndRefuse(RemovalFailure),
    /// Take it out of the session.
    Forget,
    Removed,
    Refuse(RemovalFailure),
}

/// What came of an action.
#[derive(Debug)]
pub enum RemovalOutcome {
    Done,
    Failed(String),
    NotFound,
    /// Whether the torrent has any files.
    Files { any: bool },
    /// Whether the torrent waits for its metadata.
    Placeholder { yes: bool },
    /// Whether there is anything to delete.
    Plan { some: bool },
    Queued { job_id: String },
}

/// How far removing a torrent has come.
#[derive(Clone, Copy, Debug, PartialEq, Eq, Structural)]
pub enum RemovalPhase {
    CheckingIdle,
    LookingUp,
    LoadingFiles,
    CheckingPlaceholder,
    Planning,
    Quiescing,
    Queueing,
    DeletingMetadata,
    Forgetting,
    Over,
}

/// A torrent that is being removed.
#[derive(Debug)]
pub struct TorrentRemoval {
    pub info_hash: String,
    pub delete_files: bool,
    pub phase: RemovalPhase,
}

/// The action after an outcome.
pub open spec fn removal_step(removal: TorrentRemoval, outcome: RemovalOutcome) -> (
    RemovalPhase,
    RemovalAction,
) {
    let refuse = |why: RemovalFailure| (RemovalPhase::Over, RemovalAction::Refuse(why));
    let info_hash = removal.info_hash;
    match (removal.phase, outcome) {
        (RemovalPhase::CheckingIdle, RemovalOutcome::Failed(e)) => refuse(
            RemovalFailure::Reported(e),
        ),
        (RemovalPhase::CheckingIdle, _) => (RemovalPhase::LookingUp, RemovalAction::LookUp),
        (RemovalPhase::LookingUp, RemovalOutcome::NotFound) => refuse(
            RemovalFailure::NotFound { info_hash },
        ),
        (RemovalPhase::LookingUp, _) => if removal.delete_files {
            (RemovalPhase::LoadingFiles, RemovalAction::LoadFiles)
        } else {
            (RemovalPhase::DeletingMetadata, RemovalAction::DeleteMetadata)
        },
        (RemovalPhase::LoadingFiles, RemovalOutcome::Failed(e)) => refuse(
            RemovalFailure::Reported(e),
        ),
        (RemovalPhase::LoadingFiles, RemovalOutcome::Files { any: true }) => (
            RemovalPhase::Planning,
            RemovalAction::PlanDelete,
        ),
        (RemovalPhase::LoadingFiles, _) => (
            RemovalPhase::CheckingPlaceholder,
            RemovalAction::CheckPlaceholder,
        ),
        (RemovalPhase::CheckingPlaceholder, RemovalOutcome::Failed(e)) => refuse(
            RemovalFailure::Reported(e),
        ),
        (RemovalPhase::CheckingPlaceholder, RemovalOutcome::Placeholder { yes: true }) => (
            RemovalPhase::Planning,
            RemovalAction::PlanDelete,
        ),
        (RemovalPhase::CheckingPlaceholder, _) => refuse(
            RemovalFailure::FilesUnknown { info_hash },
        ),
        (RemovalPhase::Planning, RemovalOutcome::Failed(e)) => refuse(RemovalFailure::Reported(e)),
        (RemovalPhase::Planning, RemovalOutcome::Plan { some: true }) => (
            RemovalPhase::Quiescing,
            RemovalAction::Quiesce,
        ),
        (RemovalPhase::Planning, _) => (
            RemovalPhase::DeletingMetadata,
            RemovalAction::DeleteMetadata,
        ),
        (RemovalPhase::Quiescing, RemovalOutcome::Failed(error)) => refuse(
            RemovalFailure::NotQuiet { info_hash, error },
        ),
        (RemovalPhase::Quiescing, _) => (RemovalPhase::Queueing, RemovalAction::QueueDelete),
        (RemovalPhase::Queueing, RemovalOutcome::Queued { job_id }) => (
            RemovalPhase::Over,
            RemovalAction::Queued { job_id },
        ),
        (RemovalPhase::Queueing, RemovalOutcome::Failed(e)) => (
            RemovalPhase::Over,
            RemovalAction::ResumeAndRefuse(RemovalFailure::Reported(e)),
        ),
        (RemovalPhase::DeletingMetadata, RemovalOutcome::Failed(e)) => (
            RemovalPhase::Over,
            RemovalAction::NoteAndRefuse(RemovalFailure::Reported(e)),
        ),
        (RemovalPhase::DeletingMetadata, _) => (RemovalPhase::Forgetting, RemovalAction::Forget),
        (RemovalPhase::Forgetting, RemovalOutcome::Failed(e)) => refuse(
            RemovalFailure::Reported(e),
        ),
        (_, _) => (RemovalPhase::Over, RemovalAction::Removed),
    }
}

impl TorrentRemoval {
    /// Starts to remove a torrent.
    pub fn begin(info_hash: String, delete_files: bool) -> (r: (Self, RemovalAction))
        ensures
            r.0 == (TorrentRemoval { info_hash, delete_files, phase: RemovalPhase::CheckingIdle }),
            r.1 is CheckIdle,
    {
        (
            TorrentRemoval { info_hash, delete_files, phase: RemovalPhase::CheckingIdle },
            RemovalAction::CheckIdle,
        )
    }

    /// Takes the outcome of the last action, and tells the next one.
    pub fn next(&mut self, outcome: RemovalOutcome) -> (r: RemovalAction)
        ensures
            final(self).info_hash == old(self).info_hash,
            final(self).delete_files == old(self).delete_files,
            (final(self).phase, r) == removal_step(*old(self), outcome),
    {
        let phase = self.phase;
        self.phase = RemovalPhase::Over;
        match (phase, outcome) {
            (RemovalPhase::CheckingIdle, RemovalOutcome::Failed(e))
            | (RemovalPhase::LoadingFiles, RemovalOutcome::Failed(e))
            | (RemovalPhase::CheckingPlaceholder, RemovalOutcome::Failed(e))
            | (RemovalPhase::Planning, RemovalOutcome::Failed(e))
            | (RemovalPhase::Forgetting, RemovalOutcome::Failed(e)) => RemovalAction::Refuse(
                RemovalFailure::Reported(e),
            ),
            (RemovalPhase::CheckingIdle, _) => {
                self.phase = RemovalPhase::LookingUp;
                RemovalAction::LookUp
            },
            (RemovalPhase::LookingUp, RemovalOutcome::NotFound) => RemovalAction::Refuse(
                RemovalFailure::NotFound { info_hash: self.info_hash.clone() },
            ),
            (RemovalPhase::LookingUp, _) => {
                if self.delete_files {
                    self.phase = RemovalPhase::LoadingFiles;
                    RemovalAction::LoadFiles
                } else {
                    self.phase = RemovalPhase::DeletingMetadata;
                    RemovalAction::DeleteMetadata
                }
            },
            (RemovalPhase::LoadingFiles, RemovalOutcome::Files { any: true }) => {
                self.phase = RemovalPhase::Planning;
                RemovalAction::PlanDelete
            },
            (RemovalPhase::LoadingFiles, _) => {
                self.phase = RemovalPhase::CheckingPlaceholder;
                RemovalAction::CheckPlaceholder
            },
            (RemovalPhase::CheckingPlaceholder, RemovalOutcome::Placeholder { yes: true }) => {
                self.phase = RemovalPhase::Planning;
                RemovalAction::PlanDelete
            },
            (RemovalPhase::CheckingPlaceholder, _) => RemovalAction::Refuse(
                RemovalFailure::FilesUnknown { info_hash: self.info_hash.clone() },
            ),
            (RemovalPhase::Planning, RemovalOutcome::Plan { some: true }) => {
                self.phase = RemovalPhase::Quiescing;
                RemovalAction::Quiesce
            },
            (RemovalPhase::Planning, _) => {
                self.phase = RemovalPhase::DeletingMetadata;
                RemovalAction::DeleteMetadata
            },
            (RemovalPhase::Quiescing, RemovalOutcome::Failed(error)) => RemovalAction::Refuse(
                RemovalFailure::NotQuiet { info_hash: self.info_hash.clone(), error },
            ),
            (RemovalPhase::Quiescing, _) => {
                self.phase = RemovalPhase::Queueing;
                RemovalAction::QueueDelete
            },
            (RemovalPhase::Queueing, RemovalOutcome::Queued { job_id }) => RemovalAction::Queued {
                job_id,
            },
            (RemovalPhase::Queueing, RemovalOutcome::Failed(e)) => RemovalAction::ResumeAndRefuse(
                RemovalFailure::Reported(e),
            ),
            (RemovalPhase::DeletingMetadata, RemovalOutcome::Failed(e)) =>
                RemovalAction::NoteAndRefuse(RemovalFailure::Reported(e)),
            (RemovalPhase::DeletingMetadata, _) => {
                self.phase = RemovalPhase::Forgetting;
                RemovalAction::Forget
            },
            (_, _) => RemovalAction::Removed,
        }
    }
}

/// No payload is queued for deletion before the torrent's task is quiet.
pub proof fn law_payload_waits_for_a_quiet_task(removal: TorrentRemoval, outcome: RemovalOutcome)
    ensures
        removal_step(removal, outcome).1 is QueueDelete ==> removal.phase == RemovalPhase::Quiescing
            && !(outcome is Failed),
        removal_step(removal, outcome).1 is Queued ==> removal.phase == RemovalPhase::Queueing,
{
}

/// A torrent is forgotten only after its metadata was deleted.
pub proof fn law_metadata_goes_before_the_torrent(removal: TorrentRemoval, outcome: RemovalOutcome)
    ensures
        removal_step(removal, outcome).1 is Forget ==> removal.phase
            == RemovalPhase::DeletingMetadata && !(outcome is Failed),
{
}

/// Where a removal stands after a run of outcomes.
pub open spec fn removed_to(removal: TorrentRemoval, outcomes: Seq<RemovalOutcome>) -> RemovalPhase
    decreases outcomes.len(),
{
    if outcomes.len() == 0 {
        removal.phase
    } else {
        let phase = removed_to(removal, outcomes.drop_last());
        removal_step(TorrentRemoval { phase, ..removal }, outcomes.last()).0
    }
}

/// Whatever happens on the way, no payload is deleted with a torrent whose
/// payload is to be kept.
pub proof fn law_kept_payload_is_not_deleted(
    removal: TorrentRemoval,
    outcomes: Seq<RemovalOutcome>,
)
    requires
        removal.phase == RemovalPhase::CheckingIdle,
        !removal.delete_files,
    ensures
        removed_to(removal, outcomes) != RemovalPhase::Queueing,
        removed_to(removal, outcomes) != RemovalPhase::Quiescing,
        removed_to(removal, outcomes) != RemovalPhase::Planning,
        removed_to(removal, outcomes) != RemovalPhase::LoadingFiles,
        removed_to(removal, outcomes) != RemovalPhase::CheckingPlaceholder,
    decreases outcomes.len(),
{
    if outcomes.len() > 0 {
        law_kept_payload_is_not_deleted(removal, outcomes.drop_last());
    }
}

/// A path below the save directory, one component after another.
pub type RelPath = Seq<Seq<char>>;

/// The view of a path.
pub open spec fn rel_view(path: Seq<String>) -> RelPath {
    path.map_values(|c: String| c@)
}

/// The views of a list of paths.
pub open spec fn rel_views(paths: Seq<Vec<String>>) -> Seq<RelPath> {
    paths.map_values(|p: Vec<String>| rel_view(p@))
}

/// `dir` is a directory above one of the files, below the save directory.
pub open spec fn holds_a_file(files: Seq<RelPath>, dir: RelPath) -> bool {
    exists|i: int|
        0 <= i < files.len() && 0 < dir.len() < (#[trigger] files[i]).len() && files[i].take(
            dir.len() as int,
        ) == dir
}

/// Directories, deepest first.
pub open spec fn deepest_first(dirs: Seq<RelPath>) -> bool {
    forall|i: int, j: int|
        0 <= i < j < dirs.len() ==> (#[trigger] dirs[i]).len() >= (#[trigger] dirs[j]).len()
}

/// Whether two paths are the same.
fn same_path(a: &Vec<String>, b: &Vec<String>) -> (r: bool)
    ensures
        r == (rel_view(a@) == rel_view(b@)),
{
    if a.len() != b.len() {
        assert(rel_view(a@).len() != rel_view(b@).len());
        return false;
    }
    let mut i: usize = 0;
    while i < a.len()
        invariant
            i <= a@.len() == b@.len(),
            forall|k: int| 0 <= k < i ==> rel_view(a@)[k] == rel_view(b@)[k],
        decreases a@.len() - i,
    {
        if a[i] != b[i] {
            assert(rel_view(a@)[i as int] != rel_view(b@)[i as int]);
            return false;
        }
        i = i + 1;
    }
    assert(rel_view(a@) =~= rel_view(b@));
    true
}

fn prefix(path: &Vec<String>, n: usize) -> (r: Vec<String>)
    requires
        n <= path@.len(),
    ensures
        rel_view(r@) == rel_view(path@).take(n as int),
        r@.len() == n,
{
    let mut r: Vec<String> = Vec::new();
    let mut i: usize = 0;
    while i < n
        invariant
            i <= n <= path@.len(),
            r@ == path@.take(i as int),
        decreases n - i,
    {
        r.push(path[i].clone());
        assert(r@ =~= path@.take(i + 1));
        i = i + 1;
    }
    assert(rel_view(r@) =~= rel_view(path@).take(n as int));
    r
}

/// Enters a directory in a list that is ordered deepest first, unless it is
/// there already.
fn enter(dirs: &mut Vec<Vec<String>>, dir: Vec<String>)
    requires
        deepest_first(rel_views(old(dirs)@)),
        rel_views(old(dirs)@).no_duplicates(),
    ensures
        deepest_first(rel_views(final(dirs)@)),
        rel_views(final(dirs)@).no_duplicates(),
        forall|d: RelPath|
            rel_views(final(dirs)@).contains(d) <==> rel_views(old(dirs)@).contains(d) || d
                == rel_view(dir@),
{
    let ghost before = rel_views(dirs@);
    let ghost new = rel_view(dir@);
    let mut i: usize = 0;
    while i < dirs.len()
        invariant
            i <= dirs@.len(),
            before == rel_views(dirs@),
            new == rel_view(dir@),
            dirs@ == old(dirs)@,
            deepest_first(before),
            before.no_duplicates(),
            forall|k: int| 0 <= k < i ==> #[trigger] before[k] != new,
        decreases dirs@.len() - i,
    {
        if same_path(&dirs[i], &dir) {
            assert(before[i as int] == new);
            return ;
        }
        i = i + 1;
    }
    let mut at: usize = 0;
    while at < dirs.len() && dirs[at].len() >= dir.len()
        invariant
            at <= dirs@.len(),
            dirs@ == old(dirs)@,
            before == rel_views(dirs@),
            new == rel_view(dir@),
            forall|k: int| 0 <= k < at ==> (#[trigger] before[k]).len() >= new.len(),
        decreases dirs@.len() - at,
    {
        assert(before[at as int] == rel_view(dirs@[at as int]@));
        at = at + 1;
    }
    dirs.insert(at, dir);
    proof {
        let after = rel_views(dirs@);
        assert(after =~= before.insert(at as int, new));
        assert forall|k: int, j: int| 0 <= k < j < after.len() implies (#[trigger] after[k]).len()
            >= (#[trigger] after[j]).len() by {
            if j < at {
                assert(after[k] == before[k] && after[j] == before[j]);
            } else if j == at {
                assert(after[k] == before[k]);
            } else if k < at {
                assert(after[k] == before[k] && after[j] == before[j - 1]);
            } else if k == at {
                assert(after[j] == before[j - 1]);
                assert(before[at as int].len() < new.len());
                if j - 1 > at {
                    assert(before[at as int].len() >= before[j - 1].len());
                }
            } else {
                assert(after[k] == before[k - 1] && after[j] == before[j - 1]);
            }
        }
        assert forall|k: int, j: int| 0 <= k < after.len() && 0 <= j < after.len() && k != j implies after[k]
            != after[j] by {
            let a = if k < at { k } else { k - 1 };
            let b = if j < at { j } else { j - 1 };
            if k == at {
                assert(after[j] == before[b]);
            } else if j == at {
                assert(after[k] == before[a]);
            } else {
                assert(after[k] == before[a] && after[j] == before[b]);
            }
        }
        assert forall|d: RelPath| after.contains(d) <==> before.contains(d) || d == new by {
            if before.contains(d) {
                let k = choose|k: int| 0 <= k < before.len() && before[k] == d;
                if k < at {
                    assert(after[k] == d);
                } else {
                    assert(after[k + 1] == d);
                }
            }
            if d == new {
                assert(after[at as int] == d);
            }
            if after.contains(d) && d != new {
                let k = choose|k: int| 0 <= k < after.len() && after[k] == d;
                if k < at {
                    assert(before[k] == d);
                } else {
                    assert(before[k - 1] == d);
                }
            }
        }
    }
}

/// A file of a torrent: its path below the save directory, and its size.
#[derive(Debug)]
pub struct PayloadFile {
    pub path: Vec<String>,
    pub bytes: u64,
}

/// The paths of a list of files.
pub open spec fn file_paths(files: Seq<PayloadFile>) -> Seq<RelPath> {
    files.map_values(|f: PayloadFile| rel_view(f.path@))
}

/// The directories to prune after files have been deleted: each directory above
/// a file and below the save directory, once, the deepest first. The save
/// directory itself is not among them.
fn directories_to_prune(files: &Vec<PayloadFile>) -> (dirs: Vec<Vec<String>>)
    ensures
        deepest_first(rel_views(dirs@)),
        rel_views(dirs@).no_duplicates(),
        forall|d: RelPath| #[trigger]
            rel_views(dirs@).contains(d) <==> holds_a_file(file_paths(files@), d),
{
    let ghost all = file_paths(files@);
    let mut dirs: Vec<Vec<String>> = Vec::new();
    let mut i: usize = 0;
    assert(all.take(0) =~= Seq::<RelPath>::empty());
    while i < files.len()
        invariant
            i <= files@.len(),
            all == file_paths(files@),
            deepest_first(rel_views(dirs@)),
            rel_views(dirs@).no_duplicates(),
            forall|d: RelPath| #[trigger]
                rel_views(dirs@).contains(d) <==> holds_a_file(all.take(i as int), d),
        decreases files@.len() - i,
    {
        let file = &files[i].path;
        let ghost path = rel_view(file@);
        let ghost start = rel_views(dirs@);
        let mut n: usize = 1;
        while n < file.len()
            invariant
                1 <= n,
                n <= file@.len() || n == 1,
                path == rel_view(file@),
                deepest_first(rel_views(dirs@)),
                rel_views(dirs@).no_duplicates(),
                forall|d: RelPath| #[trigger]
                    rel_views(dirs@).contains(d) <==> start.contains(d) || (0 < d.len() < n && d.len()
                        < path.len() && path.take(d.len() as int) == d),
            decreases file@.len() - n,
        {
            let dir = prefix(file, n);
            let ghost old_dirs = rel_views(dirs@);
            let ghost d0 = rel_view(dir@);
            enter(&mut dirs, dir);
            proof {
                assert forall|d: RelPath| #[trigger] rel_views(dirs@).contains(d) <==> start.contains(
                    d,
                ) || (0 < d.len() < n + 1 && d.len() < path.len() && path.take(d.len() as int)
                    == d) by {
                    assert(rel_views(dirs@).contains(d) <==> old_dirs.contains(d) || d == d0);
                }
            }
            n = n + 1;
        }
        proof {
            let upto = all.take(i as int);
            let more = all.take(i + 1);
            assert(more =~= upto.push(path));
            assert forall|d: RelPath| #[trigger] rel_views(dirs@).contains(d) <==> holds_a_file(
                more,
                d,
            ) by {
                assert(start.contains(d) <==> holds_a_file(upto, d));
                if holds_a_file(upto, d) {
                    let k = choose|k: int|
                        0 <= k < upto.len() && 0 < d.len() < (#[trigger] upto[k]).len()
                            && upto[k].take(d.len() as int) == d;
                    assert(more[k] == upto[k]);
                }
                if 0 < d.len() < path.len() && path.take(d.len() as int) == d {
                    assert(more[i as int] == path);
                }
                if holds_a_file(more, d) {
                    let k = choose|k: int|
                        0 <= k < more.len() && 0 < d.len() < (#[trigger] more[k]).len()
                            && more[k].take(d.len() as int) == d;
                    if k < i {
                        assert(upto[k] == more[k]);
                    }
                }
            }
        }
        i = i + 1;
    }
    assert(all.take(i as int) =~= all);
    dirs
}

/// One step of the deletion of a torrent's payload; its path is below the save
/// directory.
#[derive(Debug)]
pub struct DeleteStep {
    pub action: PlannedStorageAction,
    pub path: Vec<String>,
    /// The directory at which the pruning ends.
    pub destination: Option<StoragePath>,
    pub bytes: u64,
}

/// How a torrent's payload is deleted.
#[derive(Debug)]
pub struct DeletePlan {
    pub dry_run: bool,
    pub can_apply: bool,
    pub issues: Vec<PlanIssue>,
    pub steps: Vec<DeleteStep>,
    pub rollback_steps: Vec<DeleteStep>,
}

/// The paths of a list of steps.
pub open spec fn step_paths(steps: Seq<DeleteStep>) -> Seq<RelPath> {
    steps.map_values(|s: DeleteStep| rel_view(s.path@))
}

/// The step deletes a file if it is there.
pub open spec fn deletes_file(step: DeleteStep, file: PayloadFile) -> bool {
    &&& step.action == PlannedStorageAction::SafeDeleteIfPresent
    &&& rel_view(step.path@) == rel_view(file.path@)
    &&& step.destination is None
    &&& step.bytes == file.bytes
}

/// The step removes empty directories up to the save directory, which stays.
pub open spec fn prunes(step: DeleteStep, save_root: StoragePath) -> bool {
    &&& step.action == PlannedStorageAction::PruneEmptyDirs
    &&& step.destination matches Some(root) && root@ == save_root@ && root.text@ == save_root.text@
    &&& step.bytes == 0
}

/// `steps` deletes the files in their order, and then prunes the directories
/// that held them, the deepest first.
pub open spec fn deletes_payload(
    steps: Seq<DeleteStep>,
    save_root: StoragePath,
    files: Seq<PayloadFile>,
) -> bool {
    let n = files.len() as int;
    let dirs = step_paths(steps.skip(n));
    &&& n <= steps.len()
    &&& forall|i: int| 0 <= i < n ==> deletes_file(#[trigger] steps[i], files[i])
    &&& forall|i: int| n <= i < steps.len() ==> prunes(#[trigger] steps[i], save_root)
    &&& deepest_first(dirs)
    &&& dirs.no_duplicates()
    &&& forall|d: RelPath| #[trigger]
        dirs.contains(d) <==> holds_a_file(file_paths(files), d)
}

/// Plans the deletion of a torrent's payload. `authorized` tells why the save
/// directory may not be worked in, if that is so. There is nothing to do for a
/// torrent without files.
pub fn plan_torrent_payload_delete(
    authorized: CmdResult<()>,
    save_root: &StoragePath,
    files: Vec<PayloadFile>,
) -> (r: CmdResult<Option<DeletePlan>>)
    ensures
        match authorized {
            Err(e) => r == Err::<Option<DeletePlan>, String>(e),
            Ok(()) => match r {
                Err(_) => false,
                Ok(None) => files@.len() == 0,
                Ok(Some(plan)) => {
                    &&& files@.len() > 0
                    &&& deletes_payload(plan.steps@, *save_root, files@)
                    &&& plan.can_apply
                    &&& !plan.dry_run
                    &&& plan.issues@.len() == 0
                    &&& plan.rollback_steps@.len() == 0
                },
            },
        },
{
    if let Err(error) = authorized {
        return Err(error);
    }
    if files.len() == 0 {
        return Ok(None);
    }
    let dirs = directories_to_prune(&files);
    let ghost all = files@;
    let ghost pruned = rel_views(dirs@);
    let mut steps: Vec<DeleteStep> = Vec::new();
    let mut i: usize = 0;
    while i < files.len()
        invariant
            i <= files@.len(),
            all == files@,
            steps@.len() == i,
            forall|k: int| 0 <= k < i ==> deletes_file(#[trigger] steps@[k], all[k]),
        decreases files@.len() - i,
    {
        let path = prefix(&files[i].path, files[i].path.len());
        assert(rel_view(path@) =~= rel_view(all[i as int].path@));
        steps.push(
            DeleteStep {
                action: PlannedStorageAction::SafeDeleteIfPresent,
                path,
                destination: None,
                bytes: files[i].bytes,
            },
        );
        i = i + 1;
    }
    let mut rest = dirs;
    let ghost n = all.len() as int;
    proof {
        assert(pruned.skip(0) =~= pruned);
        assert(step_paths(steps@.skip(n)) =~= pruned.take(0));
        assert(rel_views(rest@) == pruned.skip(0));
    }
    let ghost mut k: int = 0;
    while rest.len() > 0
        invariant
            0 <= k <= pruned.len(),
            n == all.len(),
            n <= steps@.len(),
            rel_views(rest@) == pruned.skip(k),
            step_paths(steps@.skip(n)) == pruned.take(k),
            forall|j: int| 0 <= j < n ==> deletes_file(#[trigger] steps@[j], all[j]),
            forall|j: int| n <= j < steps@.len() ==> prunes(#[trigger] steps@[j], *save_root),
        decreases rest@.len(),
    {
        let ghost before = steps@;
        assert(pruned.skip(k).len() == rest@.len());
        assert(rel_views(rest@)[0] == pruned.skip(k)[0]);
        let path = rest.remove(0);
        proof {
            assert(rel_view(path@) == pruned[k]);
            assert(rel_views(rest@) =~= pruned.skip(k).skip(1));
            assert(pruned.skip(k).skip(1) =~= pruned.skip(k + 1));
        }
        steps.push(
            DeleteStep {
                action: PlannedStorageAction::PruneEmptyDirs,
                path,
                destination: Some(save_root.copied()),
                bytes: 0,
            },
        );
        proof {
            assert(step_paths(steps@.skip(n)) =~= step_paths(before.skip(n)).push(pruned[k]));
            assert(pruned.take(k + 1) =~= pruned.take(k).push(pruned[k]));
            k = k + 1;
        }
    }
    proof {
        assert(rel_views(rest@).len() == 0);
        assert(pruned.take(k) =~= pruned);
    }
    Ok(
        Some(
            DeletePlan {
                dry_run: false,
                can_apply: true,
                issues: Vec::new(),
                steps,
                rollback_steps: Vec::new(),
            },
        ),
    )
}

/// A directory is pruned only after every directory inside it.
pub proof fn law_inner_directories_go_first(dirs: Seq<RelPath>, i: int, j: int)
    requires
        deepest_first(dirs),
        0 <= i < dirs.len(),
        0 <= j < dirs.len(),
        dirs[i].len() < dirs[j].len(),
        dirs[j].take(dirs[i].len() as int) == dirs[i],
    ensures
        j < i,
{
}

impl TorrentRemoval {
    /// The removal after an outcome.
    pub open spec fn after(self, outcome: RemovalOutcome) -> TorrentRemoval {
        TorrentRemoval { phase: removal_step(self, outcome).0, ..self }
    }

    /// The action that follows on an outcome.
    pub open spec fn told(self, outcome: RemovalOutcome) -> RemovalAction {
        removal_step(self, outcome).1
    }
}

/// A torrent that is removed with files for which there is a plan: once its task
/// is quiet their deletion is queued, and the removal ends with that job. Its
/// metadata is not deleted and it is not forgotten on the way.
pub proof fn law_planned_payload_is_queued(
    info_hash: String,
    idle: RemovalOutcome,
    found: RemovalOutcome,
    quiet: RemovalOutcome,
    job_id: String,
    error: String,
)
    requires
        !(idle is Failed),
        !(found is NotFound),
        !(quiet is Failed),
    ensures
        ({
            let m0 = TorrentRemoval {
                info_hash,
                delete_files: true,
                phase: RemovalPhase::CheckingIdle,
            };
            let m1 = m0.after(idle);
            let m2 = m1.after(found);
            let m3 = m2.after(RemovalOutcome::Files { any: true });
            let m4 = m3.after(RemovalOutcome::Plan { some: true });
            let m5 = m4.after(quiet);
            &&& m0.told(idle) is LookUp
            &&& m1.told(found) is LoadFiles
            &&& m2.told(RemovalOutcome::Files { any: true }) is PlanDelete
            &&& m3.told(RemovalOutcome::Plan { some: true }) is Quiesce
            &&& m4.told(quiet) is QueueDelete
            &&& m5.told(RemovalOutcome::Queued { job_id }) == RemovalAction::Queued { job_id }
            &&& m5.after(RemovalOutcome::Queued { job_id }).phase == RemovalPhase::Over
            // A deletion that cannot be queued, and a task that does not fall
            // quiet, leave the torrent in the session.
            &&& m5.told(RemovalOutcome::Failed(error)) == RemovalAction::ResumeAndRefuse(
                RemovalFailure::Reported(error),
            )
            &&& m5.after(RemovalOutcome::Failed(error)).phase == RemovalPhase::Over
            &&& m4.told(RemovalOutcome::Failed(error)) == RemovalAction::Refuse(
                RemovalFailure::NotQuiet { info_hash, error },
            )
            &&& m4.after(RemovalOutcome::Failed(error)).phase == RemovalPhase::Over
        }),
{
}

/// Whatever happens: once the payload of a torrent is to be deleted and its task
/// was asked to fall quiet, the removal itself never deletes the metadata or
/// forgets the torrent.
pub proof fn law_queued_payload_keeps_the_torrent(
    removal: TorrentRemoval,
    quiet: RemovalOutcome,
    queued: RemovalOutcome,
)
    requires
        removal.phase == RemovalPhase::Planning,
        queued is Queued || queued is Failed,
    ensures
        ({
            let quiescing = removal.after(RemovalOutcome::Plan { some: true });
            let queueing = quiescing.after(quiet);
            &&& !(quiescing.told(quiet) is DeleteMetadata) && !(quiescing.told(quiet) is Forget)
                && !(quiescing.told(quiet) is Removed)
            &&& !(quiet is Failed) ==> queueing.phase != RemovalPhase::DeletingMetadata
                && queueing.phase != RemovalPhase::Forgetting && !(queueing.told(
                queued,
            ) is DeleteMetadata) && !(queueing.told(queued) is Forget) && !(queueing.told(
                queued,
            ) is Removed)
        }),
{
}

/// A torrent whose payload is kept, or that has none to delete, is removed at
/// once: its metadata is deleted, then it is forgotten, then it is gone.
pub proof fn law_removal_without_payload_completes(
    info_hash: String,
    idle: RemovalOutcome,
    found: RemovalOutcome,
    deleted: RemovalOutcome,
    forgotten: RemovalOutcome,
    error: String,
)
    requires
        !(idle is Failed),
        !(found is NotFound),
        !(deleted is Failed),
        !(forgotten is Failed),
    ensures
        ({
            let kept = TorrentRemoval {
                info_hash,
                delete_files: false,
                phase: RemovalPhase::CheckingIdle,
            }.after(idle);
            let empty = TorrentRemoval { delete_files: true, ..kept }.after(found).after(
                RemovalOutcome::Files { any: true },
            );
            let k = kept.after(found);
            let p = empty.after(RemovalOutcome::Plan { some: false });
            &&& kept.told(found) is DeleteMetadata
            &&& empty.told(RemovalOutcome::Plan { some: false }) is DeleteMetadata
            &&& k.told(deleted) is Forget && p.told(deleted) is Forget
            &&& k.after(deleted).told(forgotten) is Removed
            &&& p.after(deleted).told(forgotten) is Removed
            &&& k.after(deleted).after(forgotten).phase == RemovalPhase::Over
            // Metadata that cannot be deleted keeps the torrent.
            &&& k.told(RemovalOutcome::Failed(error)) == RemovalAction::NoteAndRefuse(
                RemovalFailure::Reported(error),
            )
            &&& k.after(RemovalOutcome::Failed(error)).phase == RemovalPhase::Over
            &&& k.after(deleted).told(RemovalOutcome::Failed(error)) == RemovalAction::Refuse(
                RemovalFailure::Reported(error),
            )
        }),
{
}

/// A torrent without files is removed with its payload only where it still waits
/// for its metadata; else its files are unknown and nothing is removed.
pub proof fn law_unknown_files_are_not_removed(
    removal: TorrentRemoval,
    files: RemovalOutcome,
    placeholder: RemovalOutcome,
)
    requires
        removal.phase == RemovalPhase::LoadingFiles,
        files == (RemovalOutcome::Files { any: false }),
        placeholder is Placeholder,
    ensures
        ({
            let checking = removal.after(files);
            &&& removal.told(files) is CheckPlaceholder
            &&& placeholder == (RemovalOutcome::Placeholder { yes: true }) ==> checking.told(
                placeholder,
            ) is PlanDelete && checking.after(placeholder).phase == RemovalPhase::Planning
            &&& placeholder == (RemovalOutcome::Placeholder { yes: false }) ==> checking.told(
                placeholder,
            ) == RemovalAction::Refuse(
                RemovalFailure::FilesUnknown { info_hash: removal.info_hash },
            ) && checking.after(placeholder).phase == RemovalPhase::Over
        }),
{
}

/// A torrent that is not there is not removed.
pub proof fn law_missing_torrents_are_told(removal: TorrentRemoval)
    requires
        removal.phase == RemovalPhase::LookingUp,
    ensures
        removal.told(RemovalOutcome::NotFound) == RemovalAction::Refuse(
            (RemovalFailure::NotFound { info_hash: removal.info_hash }),
        ),
        removal.after(RemovalOutcome::NotFound).phase == RemovalPhase::Over,
{
}

/// A removal that is stopped before anything was touched is refused with what
/// was reported, and is over.
pub proof fn law_early_failures_refuse(removal: TorrentRemoval, error: String)
    requires
        removal.phase == RemovalPhase::CheckingIdle || removal.phase == RemovalPhase::LoadingFiles
            || removal.phase == RemovalPhase::CheckingPlaceholder || removal.phase
            == RemovalPhase::Planning,
    ensures
        removal.told(RemovalOutcome::Failed(error)) == RemovalAction::Refuse(
            RemovalFailure::Reported(error),
        ),
        removal.after(RemovalOutcome::Failed(error)).phase == RemovalPhase::Over,
{
}

/// A removal is of the torrent that was named, with its files exactly where that was
/// asked for, and begins with the question whether the torrent is idle.
pub proof fn law_removals_begin_as_asked(
    info_hash: String,
    delete_files: bool,
    r: (TorrentRemoval, RemovalAction),
)
    requires
        call_ensures(TorrentRemoval::begin, (info_hash, delete_files), r),
    ensures
        r.0.info_hash == info_hash && r.0.delete_files == delete_files && r.0.phase
            == RemovalPhase::CheckingIdle && r.1 is CheckIdle,
{
}

/// A torrent without files needs no plan; the plan for one with files deletes each
/// of them in order, and can be applied. Where the place may not be worked in, that
/// is told.
pub proof fn law_every_file_is_planned_for(
    authorized: CmdResult<()>,
    save_root: &StoragePath,
    files: Vec<PayloadFile>,
    r: CmdResult<Option<DeletePlan>>,
)
    requires
        call_ensures(plan_torrent_payload_delete, (authorized, save_root, files), r),
    ensures
        authorized is Ok <==> r is Ok,
        authorized is Ok && files@.len() == 0 ==> r == Ok::<Option<DeletePlan>, String>(None),
        authorized is Ok && files@.len() > 0 ==> (r matches Ok(Some(plan)) && plan.can_apply
            && !plan.dry_run && plan.steps@.len() >= files@.len() && (forall|i: int|
            0 <= i < files@.len() ==> deletes_file(#[trigger] plan.steps@[i], files@[i]))),
{
}

/// What a removal waits for is what was last asked for, and it is over exactly when it
/// has told how it ended.
pub proof fn law_removals_wait_for_what_they_ask(removal: TorrentRemoval, outcome: RemovalOutcome)
    ensures
        ({
            let told = removal.told(outcome);
            let after = removal.after(outcome).phase;
            &&& told is LookUp <==> after is LookingUp
            &&& told is LoadFiles <==> after is LoadingFiles
            &&& told is CheckPlaceholder <==> after is CheckingPlaceholder
            &&& told is PlanDelete <==> after is Planning
            &&& told is Quiesce <==> after is Quiescing
            &&& told is QueueDelete <==> after is Queueing
            &&& told is DeleteMetadata <==> after is DeletingMetadata
            &&& told is Forget <==> after is Forgetting
            &&& told is CheckIdle <==> after is CheckingIdle
            &&& after is Over <==> told is ResumeAndRefuse || told is Queued || told is NoteAndRefuse || told is Removed || told is Refuse
        }),
{
}

} // verus!
