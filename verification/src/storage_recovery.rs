//! Taking up a storage job after a restart. Nothing is done to a torrent's
//! files before its task is quiet, and a job that cannot be understood isolates
//! its torrents instead of guessing.

use vstd::prelude::*;

use crate::job::{JobKind, JobState};
use crate::storage_path::StoragePath;
use crate::text::{count_text, decimal, join2, join3, join5, join6};

verus! {

/// What the log of a job tells of its plan.
#[derive(Debug)]
pub struct LoggedPlan {
    /// The operation that the plan carries out.
    pub operation: PlanOperation,
    /// The number of steps of the plan, where the entry holds the plan.
    pub steps: Option<usize>,
    /// The torrent that the entry's context names.
    pub context_hash: Option<String>,
}

/// What a plan is for.
#[derive(Clone, Copy, Debug, PartialEq, Eq, Structural)]
pub enum PlanOperation {
    Move,
    /// Deletes the payload of a torrent that is being removed.
    PayloadDelete,
    Other,
}

/// Where a part of the record of a job comes from.
#[derive(Clone, Copy, Debug, PartialEq, Eq, Structural)]
pub enum Source {
    /// The newest entry that can be read.
    Latest,
    /// The entry that queued the job.
    First,
}

/// A job that is taken up only where it was left in one of these states.
pub open spec fn is_recoverable(kind: JobKind, state: JobState) -> bool {
    kind == JobKind::StoragePlan && (state == JobState::Queued || state == JobState::Paused || state
        == JobState::Cancelling || state == JobState::CommitPending)
}

/// Whether a job is taken up after a restart.
pub fn recoverable(kind: JobKind, state: JobState) -> (r: bool)
    ensures
        r == is_recoverable(kind, state),
{
    kind == JobKind::StoragePlan && (state == JobState::Queued || state == JobState::Paused || state
        == JobState::Cancelling || state == JobState::CommitPending)
}

/// The torrents that a job that cannot be taken up is held responsible for.
#[derive(Clone, Copy, Debug, PartialEq, Eq, Structural)]
pub enum Targets {
    /// The torrent that the context names.
    ContextTorrent,
    /// The torrents that the job lists.
    Affected,
}

/// Which entries a job is taken up from.
#[derive(Clone, Copy, Debug, PartialEq, Eq, Structural)]
pub struct RecordChoice {
    /// The entry that tells the operation and the completed steps.
    pub entry: Source,
    /// The entry that tells the plan.
    pub plan: Source,
}

/// The newest entry that can be read counts, else the first one; where the
/// newest one leaves the plan out, the plan of the first one counts.
pub open spec fn chosen_record(latest: Option<LoggedPlan>, first: Option<LoggedPlan>) -> Option<
    RecordChoice,
> {
    match latest {
        Some(entry) => if entry.steps is Some {
            Some(RecordChoice { entry: Source::Latest, plan: Source::Latest })
        } else if first matches Some(f) && f.steps is Some {
            Some(RecordChoice { entry: Source::Latest, plan: Source::First })
        } else {
            None
        },
        None => if first matches Some(f) && f.steps is Some {
            Some(RecordChoice { entry: Source::First, plan: Source::First })
        } else {
            None
        },
    }
}

/// Chooses the entries that a job is taken up from, none where no plan can be
/// read.
pub fn choose_record(latest: &Option<LoggedPlan>, first: &Option<LoggedPlan>) -> (r: Option<
    RecordChoice,
>)
    ensures
        r == chosen_record(*latest, *first),
{
    let first_has_plan = match first {
        Some(entry) => entry.steps.is_some(),
        None => false,
    };
    match latest {
        Some(entry) => if entry.steps.is_some() {
            Some(RecordChoice { entry: Source::Latest, plan: Source::Latest })
        } else if first_has_plan {
            Some(RecordChoice { entry: Source::Latest, plan: Source::First })
        } else {
            None
        },
        None => if first_has_plan {
            Some(RecordChoice { entry: Source::First, plan: Source::First })
        } else {
            None
        },
    }
}

/// The torrents that are isolated where no plan can be read: the one that the
/// context names, if it names one.
pub fn targets_without_plan(context_names_torrent: bool) -> (r: Targets)
    ensures
        r == if context_names_torrent {
            Targets::ContextTorrent
        } else {
            Targets::Affected
        },
{
    if context_names_torrent {
        Targets::ContextTorrent
    } else {
        Targets::Affected
    }
}

/// The torrents that are isolated where a plan can be read but not carried
/// out: an older payload deletion names its torrent only in the context.
pub open spec fn recovery_targets(operation: PlanOperation, context_names_torrent: bool) -> Targets {
    if operation == PlanOperation::PayloadDelete && context_names_torrent {
        Targets::ContextTorrent
    } else {
        Targets::Affected
    }
}

/// The steps that count as done: all of them where the job says so twice, else
/// those that the log names.
pub open spec fn checkpoint_steps(done: i64, checkpoint: i64, steps: nat, logged: Seq<usize>) -> Seq<
    usize,
> {
    if done == steps && checkpoint == steps {
        Seq::new(steps, |i: int| i as usize)
    } else {
        logged
    }
}

/// Works out which steps count as done.
pub fn recovered_checkpoint(done: i64, checkpoint: i64, steps: usize, logged: Vec<usize>) -> (r:
    Vec<usize>)
    ensures
        r@ == checkpoint_steps(done, checkpoint, steps as nat, logged@),
{
    if done >= 0 && done as u64 == steps as u64 && checkpoint >= 0 && checkpoint as u64
        == steps as u64 {
        let mut all: Vec<usize> = Vec::new();
        let mut i: usize = 0;
        while i < steps
            invariant
                i <= steps,
                all@ == Seq::new(i as nat, |k: int| k as usize),
            decreases steps - i,
        {
            all.push(i);
            i = i + 1;
            assert(all@ =~= Seq::new(i as nat, |k: int| k as usize));
        }
        all
    } else {
        logged
    }
}

/// A torrent whose task was quiesced, and whether it was paused before.
#[derive(Debug)]
pub struct Quiesced {
    pub info_hash: String,
    pub was_paused: bool,
}

/// The view of a list of quiesced torrents.
pub open spec fn quiesced_views(list: Seq<Quiesced>) -> Seq<(Seq<char>, bool)> {
    list.map_values(|q: Quiesced| (q.info_hash@, q.was_paused))
}

/// `list` without the entries for `hash`.
pub open spec fn without_hash(list: Seq<(Seq<char>, bool)>, hash: Seq<char>) -> Seq<
    (Seq<char>, bool),
>
    decreases list.len(),
{
    if list.len() == 0 {
        seq![]
    } else if list.last().0 == hash {
        without_hash(list.drop_last(), hash)
    } else {
        without_hash(list.drop_last(), hash).push(list.last())
    }
}

/// What was quiesced before the restart, overruled by what is quiesced now.
pub open spec fn overruled(
    durable: Seq<(Seq<char>, bool)>,
    live: Seq<(Seq<char>, bool)>,
) -> Seq<(Seq<char>, bool)>
    decreases live.len(),
{
    if live.len() == 0 {
        durable
    } else {
        without_hash(overruled(durable, live.drop_last()), live.last().0).push(live.last())
    }
}

fn drop_hash(list: Vec<Quiesced>, hash: &String) -> (r: Vec<Quiesced>)
    ensures
        quiesced_views(r@) == without_hash(quiesced_views(list@), hash@),
{
    let ghost all = list@;
    let mut rest = list;
    let mut kept: Vec<Quiesced> = Vec::new();
    let ghost mut n: int = 0;
    proof {
        assert(all.skip(0) =~= all);
        assert(quiesced_views(all).take(0) =~= Seq::<(Seq<char>, bool)>::empty());
        assert(quiesced_views(kept@) =~= Seq::<(Seq<char>, bool)>::empty());
    }
    while rest.len() > 0
        invariant
            0 <= n <= all.len(),
            rest@ == all.skip(n),
            quiesced_views(kept@) == without_hash(quiesced_views(all).take(n), hash@),
        decreases rest@.len(),
    {
        let item = rest.remove(0);
        proof {
            assert(item == all[n]);
            assert(rest@ =~= all.skip(n + 1));
            let views = quiesced_views(all);
            assert(views.take(n + 1).drop_last() =~= views.take(n));
            assert(views.take(n + 1).last() == (item.info_hash@, item.was_paused));
        }
        if item.info_hash != *hash {
            let ghost before = kept@;
            kept.push(item);
            assert(quiesced_views(kept@) =~= quiesced_views(before).push(
                (item.info_hash@, item.was_paused),
            ));
        }
        proof {
            n = n + 1;
        }
    }
    assert(quiesced_views(all).take(n) =~= quiesced_views(all));
    kept
}

/// Brings what was quiesced before the restart up to date.
pub fn merge_quiesced(durable: Vec<Quiesced>, live: Vec<Quiesced>) -> (r: Vec<Quiesced>)
    ensures
        quiesced_views(r@) == overruled(quiesced_views(durable@), quiesced_views(live@)),
{
    let ghost all = live@;
    let ghost start = quiesced_views(durable@);
    let mut merged = durable;
    let mut rest = live;
    let ghost mut n: int = 0;
    proof {
        assert(all.skip(0) =~= all);
        assert(quiesced_views(all).take(0) =~= Seq::<(Seq<char>, bool)>::empty());
    }
    while rest.len() > 0
        invariant
            0 <= n <= all.len(),
            rest@ == all.skip(n),
            quiesced_views(merged@) == overruled(start, quiesced_views(all).take(n)),
        decreases rest@.len(),
    {
        let item = rest.remove(0);
        proof {
            assert(item == all[n]);
            assert(rest@ =~= all.skip(n + 1));
            let views = quiesced_views(all);
            assert(views.take(n + 1).drop_last() =~= views.take(n));
            assert(views.take(n + 1).last() == (item.info_hash@, item.was_paused));
        }
        merged = drop_hash(merged, &item.info_hash);
        let ghost before = merged@;
        merged.push(item);
        proof {
            assert(quiesced_views(merged@) =~= quiesced_views(before).push(
                (item.info_hash@, item.was_paused),
            ));
            n = n + 1;
        }
    }
    assert(quiesced_views(all).take(n) =~= quiesced_views(all));
    merged
}

/// Why a job could not be taken up.
#[derive(Debug)]
pub enum RecoveryFailure {
    MissingPlan,
    InvalidPlan(String),
    InvalidQuiesceContext(String),
    InvalidCheckpoint(String),
    Roots(String),
    Reconciliation(String),
    MoveTargets,
    MoveContext(String),
    MoveTorrentMissing { info_hash: String },
    MovePath { current: String, old: String, new: String },
    MoveSource(String),
    DeleteTarget(String),
    Quiesce(String),
    Incomplete { found: usize, steps: usize },
    Submission(String),
}

impl RecoveryFailure {
    /// The reason in words.
    pub open spec fn reason_text(self) -> Seq<char> {
        match self {
            RecoveryFailure::MissingPlan => "storage plan payload is missing or invalid"@,
            RecoveryFailure::InvalidPlan(e) => e@,
            RecoveryFailure::InvalidQuiesceContext(e) => e@,
            RecoveryFailure::InvalidCheckpoint(e) => e@,
            RecoveryFailure::Roots(e) => e@,
            RecoveryFailure::Reconciliation(e) =>
                "storage plan filesystem reconciliation failed: "@ + e@,
            RecoveryFailure::MoveTargets =>
                "storage move job must have exactly one affected torrent context"@,
            RecoveryFailure::MoveContext(e) => e@,
            RecoveryFailure::MoveTorrentMissing { info_hash } => "torrent "@ + info_hash@
                + " is missing during storage move recovery"@,
            RecoveryFailure::MovePath { current, old, new } =>
                "storage move recovery registry path "@ + current@
                + " is neither the plan source "@ + old@ + " nor destination "@ + new@,
            RecoveryFailure::MoveSource(e) => e@,
            RecoveryFailure::DeleteTarget(e) => e@,
            RecoveryFailure::Quiesce(e) => "storage plan recovery could not quiesce torrent(s): "@
                + e@,
            RecoveryFailure::Incomplete { found, steps } =>
                "storage job claimed commit pending but filesystem reconciliation found "@
                + decimal(found as nat) + "/"@ + decimal(steps as nat) + " steps"@,
            RecoveryFailure::Submission(e) => e@,
        }
    }

    /// The reason in words.
    pub fn reason(&self) -> (r: String)
        ensures
            r@ == self.reason_text(),
    {
        match self {
            RecoveryFailure::MissingPlan => "storage plan payload is missing or invalid".to_owned(),
            RecoveryFailure::InvalidPlan(e)
            | RecoveryFailure::InvalidQuiesceContext(e)
            | RecoveryFailure::InvalidCheckpoint(e)
            | RecoveryFailure::Roots(e)
            | RecoveryFailure::MoveContext(e)
            | RecoveryFailure::MoveSource(e)
            | RecoveryFailure::DeleteTarget(e)
            | RecoveryFailure::Submission(e) => e.clone(),
            RecoveryFailure::Reconciliation(e) => join2(
                "storage plan filesystem reconciliation failed: ",
                e.as_str(),
            ),
            RecoveryFailure::MoveTargets => {
                "storage move job must have exactly one affected torrent context".to_owned()
            },
            RecoveryFailure::MoveTorrentMissing { info_hash } => join3(
                "torrent ",
                info_hash.as_str(),
                " is missing during storage move recovery",
            ),
            RecoveryFailure::MovePath { current, old, new } => join6(
                "storage move recovery registry path ",
                current.as_str(),
                " is neither the plan source ",
                old.as_str(),
                " nor destination ",
                new.as_str(),
            ),
            RecoveryFailure::Quiesce(e) => join2(
                "storage plan recovery could not quiesce torrent(s): ",
                e.as_str(),
            ),
            RecoveryFailure::Incomplete { found, steps } => {
                let a = count_text(*found);
                let b = count_text(*steps);
                join5(
                    "storage job claimed commit pending but filesystem reconciliation found ",
                    a.as_str(),
                    "/",
                    b.as_str(),
                    " steps",
                )
            },
        }
    }

    /// The note in the log of the job.
    pub open spec fn note_text(self) -> Seq<char> {
        match self {
            RecoveryFailure::MissingPlan => "storage plan recovery failed"@,
            RecoveryFailure::InvalidPlan(_) =>
                "storage plan recovery found an oversized or invalid plan"@,
            RecoveryFailure::InvalidQuiesceContext(_) =>
                "storage plan recovery found invalid quiesce context"@,
            RecoveryFailure::InvalidCheckpoint(_) =>
                "storage plan recovery found an invalid checkpoint"@,
            RecoveryFailure::Roots(_) => "storage plan recovery could not resolve roots"@,
            RecoveryFailure::Reconciliation(_) =>
                "storage plan recovery found ambiguous filesystem state"@,
            RecoveryFailure::MoveTargets => "storage move recovery failed"@,
            RecoveryFailure::MoveContext(_) => "storage move recovery failed"@,
            RecoveryFailure::MoveTorrentMissing { .. } => "storage move recovery failed"@,
            RecoveryFailure::MovePath { .. } =>
                "storage move recovery found an inconsistent save path"@,
            RecoveryFailure::MoveSource(_) =>
                "storage move recovery found an inconsistent source path"@,
            RecoveryFailure::DeleteTarget(_) => "storage delete recovery failed"@,
            RecoveryFailure::Quiesce(_) => "storage plan recovery could not quiesce torrent(s)"@,
            RecoveryFailure::Incomplete { .. } =>
                "storage plan commit-pending recovery found incomplete filesystem state"@,
            RecoveryFailure::Submission(_) => "storage plan recovery could not be queued"@,
        }
    }

    /// The note in the log of the job.
    pub fn note(&self) -> (r: &'static str)
        ensures
            r@ == self.note_text(),
    {
        match self {
            RecoveryFailure::MissingPlan => "storage plan recovery failed",
            RecoveryFailure::InvalidPlan(_) =>
                "storage plan recovery found an oversized or invalid plan",
            RecoveryFailure::InvalidQuiesceContext(_) =>
                "storage plan recovery found invalid quiesce context",
            RecoveryFailure::InvalidCheckpoint(_) =>
                "storage plan recovery found an invalid checkpoint",
            RecoveryFailure::Roots(_) => "storage plan recovery could not resolve roots",
            RecoveryFailure::Reconciliation(_) =>
                "storage plan recovery found ambiguous filesystem state",
            RecoveryFailure::MoveTargets => "storage move recovery failed",
            RecoveryFailure::MoveContext(_) => "storage move recovery failed",
            RecoveryFailure::MoveTorrentMissing { .. } => "storage move recovery failed",
            RecoveryFailure::MovePath { .. } =>
                "storage move recovery found an inconsistent save path",
            RecoveryFailure::MoveSource(_) =>
                "storage move recovery found an inconsistent source path",
            RecoveryFailure::DeleteTarget(_) => "storage delete recovery failed",
            RecoveryFailure::Quiesce(_) => "storage plan recovery could not quiesce torrent(s)",
            RecoveryFailure::Incomplete { .. } =>
                "storage plan commit-pending recovery found incomplete filesystem state",
            RecoveryFailure::Submission(_) => "storage plan recovery could not be queued",
        }
    }
}

/// The torrents to isolate.
#[derive(Clone, Copy, Debug, PartialEq, Eq, Structural)]
pub enum Isolated {
    /// Those that the record of the job makes responsible.
    Recovery(Targets),
    /// The torrent of a move.
    MoveTorrent,
    /// Those whose tasks are or were to be quiesced.
    Quiesced,
}

/// How a job is handed back to the worker.
#[derive(Clone, Copy, Debug, PartialEq, Eq, Structural)]
pub enum Submission {
    Run,
    Paused,
    /// Only to be rolled back.
    Cancelled,
}

/// Who finishes a job.
#[derive(Clone, Copy, Debug, PartialEq, Eq, Structural)]
pub enum Finisher {
    Delete,
    Move,
    Plan,
}

/// What is to be done next about a job.
#[derive(Debug)]
pub enum RecoveryAction {
    /// Check the plan against the limits.
    ValidatePlan,
    /// Read from the context which tasks were quiesced.
    ReadQuiesced,
    /// Read which steps were done.
    ReadCheckpoint,
    ResolveRoots,
    /// Compare the plan with the filesystem.
    Reconcile,
    /// Read from the plan and the context where the torrent moves.
    ReadMoveContext,
    /// Look up where the session says that the torrent is.
    LookUpMovePath,
    /// Check that the torrent still is where the plan moves it from.
    CheckMoveSource,
    /// Read from the context which torrent is being deleted.
    ReadDeleteTarget,
    /// Quiesce the tasks; commands to a torrent that is being deleted are
    /// refused from now on.
    Quiesce { guard_delete: bool },
    /// Finish a job whose files are in place. A job that is neither a move nor
    /// a deletion is finished by letting the tasks go on and completing it.
    Finish(Finisher),
    /// Hand the job back to the worker.
    Submit(Submission),
    /// Wait for the worker, and finish then.
    Watch(Finisher),
    /// Give up: the torrents are isolated. Commands to a torrent that was
    /// being deleted are accepted again where `release_guard` is set.
    Isolate { who: Isolated, why: RecoveryFailure, release_guard: bool },
}

/// What came of an action.
#[derive(Debug)]
pub enum RecoveryOutcome {
    Done,
    Failed(String),
    /// The steps that the filesystem shows.
    Reconciled { steps: usize },
    /// Where the session says that the torrent is.
    MovePath(Option<PathMatch>),
    /// Whether a torrent is being deleted.
    DeleteTarget { some: bool },
}

/// How a path compares with the ends of a move.
#[derive(Debug)]
pub enum PathMatch {
    Old,
    New,
    Neither { current: String, old: String, new: String },
}

/// Tells how the path that the session shows compares with the ends of a move.
pub fn compare_move_path(current: &StoragePath, old: &StoragePath, new: &StoragePath) -> (r:
    PathMatch)
    ensures
        if current@ == old@ {
            r is Old
        } else if current@ == new@ {
            r is New
        } else {
            r matches PathMatch::Neither { current: c, old: o, new: n } && c@ == current.text@
                && o@ == old.text@ && n@ == new.text@
        },
{
    if current.same_as(old) {
        PathMatch::Old
    } else if current.same_as(new) {
        PathMatch::New
    } else {
        PathMatch::Neither {
            current: current.text.clone(),
            old: old.text.clone(),
            new: new.text.clone(),
        }
    }
}

/// The torrents that an action concerns, by what the record of the job tells:
/// the torrents that it lists, the one that its context names, and the one whose
/// payload it deletes.
#[derive(Debug)]
pub struct RecordedTorrents {
    pub affected: Vec<String>,
    pub context: Option<String>,
    pub deleted: Option<String>,
}

/// The texts of a list.
pub open spec fn hash_texts(list: Seq<String>) -> Seq<Seq<char>> {
    list.map_values(|hash: String| hash@)
}

/// The torrent alone where there is one, else those that are listed.
pub open spec fn one_or_listed(one: Option<String>, listed: Seq<String>) -> Seq<Seq<char>> {
    match one {
        Some(hash) => seq![hash@],
        None => hash_texts(listed),
    }
}

/// The torrents that are isolated.
pub open spec fn isolated_texts(who: Isolated, torrents: RecordedTorrents) -> Seq<Seq<char>> {
    match who {
        Isolated::Recovery(Targets::ContextTorrent) => one_or_listed(
            torrents.context,
            torrents.affected@,
        ),
        Isolated::Recovery(Targets::Affected) => hash_texts(torrents.affected@),
        Isolated::MoveTorrent => if torrents.affected@.len() > 0 {
            seq![torrents.affected@[0]@]
        } else {
            Seq::empty()
        },
        Isolated::Quiesced => one_or_listed(torrents.deleted, torrents.affected@),
    }
}

fn copy_list(list: &Vec<String>) -> (r: Vec<String>)
    ensures
        hash_texts(r@) == hash_texts(list@),
{
    let mut r: Vec<String> = Vec::new();
    let mut i: usize = 0;
    while i < list.len()
        invariant
            i <= list@.len(),
            hash_texts(r@) =~= hash_texts(list@).take(i as int),
        decreases list@.len() - i,
    {
        let ghost before = r@;
        r.push(list[i].clone());
        proof {
            assert(hash_texts(r@) =~= hash_texts(before).push(list@[i as int]@));
            assert(hash_texts(list@).take(i + 1) =~= hash_texts(list@).take(i as int).push(
                list@[i as int]@,
            ));
        }
        i = i + 1;
    }
    assert(hash_texts(list@).take(i as int) =~= hash_texts(list@));
    r
}

fn copy_one_or_listed(one: &Option<String>, listed: &Vec<String>) -> (r: Vec<String>)
    ensures
        hash_texts(r@) == one_or_listed(*one, listed@),
{
    match one {
        Some(hash) => {
            let mut r: Vec<String> = Vec::new();
            r.push(hash.clone());
            assert(hash_texts(r@) =~= seq![hash@]);
            r
        },
        None => copy_list(listed),
    }
}

impl RecordedTorrents {
    /// The torrents that are isolated.
    pub fn isolated(&self, who: Isolated) -> (r: Vec<String>)
        ensures
            hash_texts(r@) == isolated_texts(who, *self),
    {
        match who {
            Isolated::Recovery(Targets::ContextTorrent) => copy_one_or_listed(
                &self.context,
                &self.affected,
            ),
            Isolated::Recovery(Targets::Affected) => copy_list(&self.affected),
            Isolated::MoveTorrent => {
                let mut r: Vec<String> = Vec::new();
                if self.affected.len() > 0 {
                    r.push(self.affected[0].clone());
                    assert(hash_texts(r@) =~= seq![self.affected@[0]@]);
                } else {
                    assert(hash_texts(r@) =~= Seq::<Seq<char>>::empty());
                }
                r
            },
            Isolated::Quiesced => copy_one_or_listed(&self.deleted, &self.affected),
        }
    }

    /// The torrents whose tasks are quiesced: the one whose payload is deleted,
    /// else those that the job lists.
    pub fn quiesce_targets(&self) -> (r: Vec<String>)
        ensures
            hash_texts(r@) == one_or_listed(self.deleted, self.affected@),
    {
        copy_one_or_listed(&self.deleted, &self.affected)
    }
}

/// What is known of a job from its record.
#[derive(Clone, Copy, Debug, PartialEq, Eq, Structural)]
pub struct RecoveryFacts {
    pub state: JobState,
    pub operation: PlanOperation,
    /// The steps of the plan.
    pub steps: usize,
    /// The torrents that the job lists.
    pub affected: usize,
    /// The context names a torrent.
    pub context_names_torrent: bool,
}

/// How far taking up a job has come.
#[derive(Clone, Copy, Debug, PartialEq, Eq, Structural)]
pub enum RecoveryPhase {
    ValidatingPlan,
    ReadingQuiesced,
    ReadingCheckpoint,
    ResolvingRoots,
    Reconciling,
    ReadingMoveContext { reconciled: usize },
    LookingUpMovePath { reconciled: usize },
    CheckingMoveSource,
    ReadingDeleteTarget { reconciled: usize },
    Quiescing { reconciled: usize, deleting: bool },
    Submitting { deleting: bool },
    Over,
}

/// A job that is being taken up.
#[derive(Clone, Copy, Debug, PartialEq, Eq, Structural)]
pub struct RecoveredJob {
    pub facts: RecoveryFacts,
    pub phase: RecoveryPhase,
}

impl RecoveryFacts {
    pub open spec fn blamed(self) -> Isolated {
        Isolated::Recovery(recovery_targets(self.operation, self.context_names_torrent))
    }

    /// What follows once it is known how many steps the filesystem shows.
    pub open spec fn after_reconciliation(self, reconciled: usize) -> (
        RecoveryPhase,
        RecoveryAction,
    ) {
        if self.operation == PlanOperation::Move {
            if self.affected != 1 {
                give_up(self.blamed(), RecoveryFailure::MoveTargets, false)
            } else {
                (RecoveryPhase::ReadingMoveContext { reconciled }, RecoveryAction::ReadMoveContext)
            }
        } else {
            (RecoveryPhase::ReadingDeleteTarget { reconciled }, RecoveryAction::ReadDeleteTarget)
        }
    }

    pub open spec fn finisher(self, deleting: bool) -> Finisher {
        if deleting {
            Finisher::Delete
        } else if self.operation == PlanOperation::Move {
            Finisher::Move
        } else {
            Finisher::Plan
        }
    }

    pub open spec fn submission(self) -> Submission {
        if self.state == JobState::Cancelling {
            Submission::Cancelled
        } else if self.state == JobState::Paused {
            Submission::Paused
        } else {
            Submission::Run
        }
    }
}

/// The torrents are isolated.
pub open spec fn give_up(who: Isolated, why: RecoveryFailure, release_guard: bool) -> (
    RecoveryPhase,
    RecoveryAction,
) {
    (RecoveryPhase::Over, RecoveryAction::Isolate { who, why, release_guard })
}

/// The action after an outcome.
pub open spec fn recovery_step(job: RecoveredJob, outcome: RecoveryOutcome) -> (
    RecoveryPhase,
    RecoveryAction,
) {
    let facts = job.facts;
    let blamed = facts.blamed();
    match (job.phase, outcome) {
        (RecoveryPhase::ValidatingPlan, RecoveryOutcome::Failed(e)) => give_up(
            blamed,
            RecoveryFailure::InvalidPlan(e),
            false,
        ),
        (RecoveryPhase::ValidatingPlan, _) => (
            RecoveryPhase::ReadingQuiesced,
            RecoveryAction::ReadQuiesced,
        ),
        (RecoveryPhase::ReadingQuiesced, RecoveryOutcome::Failed(e)) => give_up(
            blamed,
            RecoveryFailure::InvalidQuiesceContext(e),
            false,
        ),
        (RecoveryPhase::ReadingQuiesced, _) => (
            RecoveryPhase::ReadingCheckpoint,
            RecoveryAction::ReadCheckpoint,
        ),
        (RecoveryPhase::ReadingCheckpoint, RecoveryOutcome::Failed(e)) => give_up(
            blamed,
            RecoveryFailure::InvalidCheckpoint(e),
            false,
        ),
        (RecoveryPhase::ReadingCheckpoint, _) => (
            RecoveryPhase::ResolvingRoots,
            RecoveryAction::ResolveRoots,
        ),
        (RecoveryPhase::ResolvingRoots, RecoveryOutcome::Failed(e)) => give_up(
            blamed,
            RecoveryFailure::Roots(e),
            false,
        ),
        (RecoveryPhase::ResolvingRoots, _) => if facts.state == JobState::CommitPending {
            (RecoveryPhase::Reconciling, RecoveryAction::Reconcile)
        } else {
            facts.after_reconciliation(0)
        },
        (RecoveryPhase::Reconciling, RecoveryOutcome::Failed(e)) => give_up(
            blamed,
            RecoveryFailure::Reconciliation(e),
            false,
        ),
        (RecoveryPhase::Reconciling, RecoveryOutcome::Reconciled { steps }) =>
            facts.after_reconciliation(steps),
        (RecoveryPhase::ReadingMoveContext { .. }, RecoveryOutcome::Failed(e)) => give_up(
            Isolated::MoveTorrent,
            RecoveryFailure::MoveContext(e),
            false,
        ),
        (RecoveryPhase::ReadingMoveContext { reconciled }, _) => if facts.state
            == JobState::CommitPending {
            (RecoveryPhase::LookingUpMovePath { reconciled }, RecoveryAction::LookUpMovePath)
        } else {
            (RecoveryPhase::CheckingMoveSource, RecoveryAction::CheckMoveSource)
        },
        (RecoveryPhase::LookingUpMovePath { .. }, RecoveryOutcome::Failed(info_hash)) => give_up(
            Isolated::MoveTorrent,
            RecoveryFailure::MoveTorrentMissing { info_hash },
            false,
        ),
        (
            RecoveryPhase::LookingUpMovePath { .. },
            RecoveryOutcome::MovePath(Some(PathMatch::Neither { current, old, new })),
        ) => give_up(
            Isolated::MoveTorrent,
            RecoveryFailure::MovePath { current, old, new },
            false,
        ),
        (RecoveryPhase::LookingUpMovePath { reconciled }, _) => (
            RecoveryPhase::ReadingDeleteTarget { reconciled },
            RecoveryAction::ReadDeleteTarget,
        ),
        (RecoveryPhase::CheckingMoveSource, RecoveryOutcome::Failed(e)) => give_up(
            Isolated::MoveTorrent,
            RecoveryFailure::MoveSource(e),
            false,
        ),
        (RecoveryPhase::CheckingMoveSource, _) => (
            RecoveryPhase::ReadingDeleteTarget { reconciled: 0 },
            RecoveryAction::ReadDeleteTarget,
        ),
        (RecoveryPhase::ReadingDeleteTarget { .. }, RecoveryOutcome::Failed(e)) => give_up(
            blamed,
            RecoveryFailure::DeleteTarget(e),
            false,
        ),
        (
            RecoveryPhase::ReadingDeleteTarget { reconciled },
            RecoveryOutcome::DeleteTarget { some },
        ) => (
            RecoveryPhase::Quiescing { reconciled, deleting: some },
            RecoveryAction::Quiesce { guard_delete: some },
        ),
        (RecoveryPhase::Quiescing { deleting, .. }, RecoveryOutcome::Failed(e)) => give_up(
            Isolated::Quiesced,
            RecoveryFailure::Quiesce(e),
            deleting,
        ),
        (RecoveryPhase::Quiescing { reconciled, deleting }, _) => if facts.state
            != JobState::CommitPending {
            (
                RecoveryPhase::Submitting { deleting },
                RecoveryAction::Submit(facts.submission()),
            )
        } else if reconciled != facts.steps {
            give_up(
                Isolated::Quiesced,
                RecoveryFailure::Incomplete { found: reconciled, steps: facts.steps },
                deleting,
            )
        } else {
            (RecoveryPhase::Over, RecoveryAction::Finish(facts.finisher(deleting)))
        },
        (RecoveryPhase::Submitting { deleting }, RecoveryOutcome::Failed(e)) => give_up(
            Isolated::Quiesced,
            RecoveryFailure::Submission(e),
            deleting,
        ),
        (RecoveryPhase::Submitting { deleting }, _) => (
            RecoveryPhase::Over,
            RecoveryAction::Watch(facts.finisher(deleting)),
        ),
        (_, _) => give_up(blamed, RecoveryFailure::MissingPlan, false),
    }
}

impl RecoveredJob {
    /// Starts on a job whose plan can be read.
    pub fn begin(facts: RecoveryFacts) -> (r: (Self, RecoveryAction))
        ensures
            r.0 == (RecoveredJob { facts, phase: RecoveryPhase::ValidatingPlan }),
            r.1 is ValidatePlan,
    {
        (
            RecoveredJob { facts, phase: RecoveryPhase::ValidatingPlan },
            RecoveryAction::ValidatePlan,
        )
    }

    /// A job whose plan cannot be read is given up at once.
    pub fn without_plan(context_names_torrent: bool) -> (r: RecoveryAction)
        ensures
            r == (RecoveryAction::Isolate {
                who: Isolated::Recovery(
                    if context_names_torrent {
                        Targets::ContextTorrent
                    } else {
                        Targets::Affected
                    },
                ),
                why: RecoveryFailure::MissingPlan,
                release_guard: false,
            }),
    {
        RecoveryAction::Isolate {
            who: Isolated::Recovery(targets_without_plan(context_names_torrent)),
            why: RecoveryFailure::MissingPlan,
            release_guard: false,
        }
    }

    fn blamed(&self) -> (r: Isolated)
        ensures
            r == self.facts.blamed(),
    {
        if self.facts.operation == PlanOperation::PayloadDelete && self.facts.context_names_torrent {
            Isolated::Recovery(Targets::ContextTorrent)
        } else {
            Isolated::Recovery(Targets::Affected)
        }
    }

    fn finisher(&self, deleting: bool) -> (r: Finisher)
        ensures
            r == self.facts.finisher(deleting),
    {
        if deleting {
            Finisher::Delete
        } else if self.facts.operation == PlanOperation::Move {
            Finisher::Move
        } else {
            Finisher::Plan
        }
    }

    fn after_reconciliation(&mut self, reconciled: usize) -> (r: RecoveryAction)
        ensures
            final(self).facts == old(self).facts,
            (final(self).phase, r) == old(self).facts.after_reconciliation(reconciled),
    {
        if self.facts.operation == PlanOperation::Move {
            if self.facts.affected != 1 {
                self.phase = RecoveryPhase::Over;
                return RecoveryAction::Isolate {
                    who: self.blamed(),
                    why: RecoveryFailure::MoveTargets,
                    release_guard: false,
                };
            }
            self.phase = RecoveryPhase::ReadingMoveContext { reconciled };
            RecoveryAction::ReadMoveContext
        } else {
            self.phase = RecoveryPhase::ReadingDeleteTarget { reconciled };
            RecoveryAction::ReadDeleteTarget
        }
    }

    fn isolate(&mut self, who: Isolated, why: RecoveryFailure, release_guard: bool) -> (r:
        RecoveryAction)
        ensures
            final(self).facts == old(self).facts,
            (final(self).phase, r) == give_up(who, why, release_guard),
    {
        self.phase = RecoveryPhase::Over;
        RecoveryAction::Isolate { who, why, release_guard }
    }

    /// Takes the outcome of the last action, and tells the next one.
    pub fn next(&mut self, outcome: RecoveryOutcome) -> (r: RecoveryAction)
        ensures
            final(self).facts == old(self).facts,
            (final(self).phase, r) == recovery_step(*old(self), outcome),
    {
        let facts = self.facts;
        let blamed = self.blamed();
        match (self.phase, outcome) {
            (RecoveryPhase::ValidatingPlan, RecoveryOutcome::Failed(e)) => self.isolate(
                blamed,
                RecoveryFailure::InvalidPlan(e),
                false,
            ),
            (RecoveryPhase::ValidatingPlan, _) => {
                self.phase = RecoveryPhase::ReadingQuiesced;
                RecoveryAction::ReadQuiesced
            },
            (RecoveryPhase::ReadingQuiesced, RecoveryOutcome::Failed(e)) => self.isolate(
                blamed,
                RecoveryFailure::InvalidQuiesceContext(e),
                false,
            ),
            (RecoveryPhase::ReadingQuiesced, _) => {
                self.phase = RecoveryPhase::ReadingCheckpoint;
                RecoveryAction::ReadCheckpoint
            },
            (RecoveryPhase::ReadingCheckpoint, RecoveryOutcome::Failed(e)) => self.isolate(
                blamed,
                RecoveryFailure::InvalidCheckpoint(e),
                false,
            ),
            (RecoveryPhase::ReadingCheckpoint, _) => {
                self.phase = RecoveryPhase::ResolvingRoots;
                RecoveryAction::ResolveRoots
            },
            (RecoveryPhase::ResolvingRoots, RecoveryOutcome::Failed(e)) => self.isolate(
                blamed,
                RecoveryFailure::Roots(e),
                false,
            ),
            (RecoveryPhase::ResolvingRoots, _) => {
                if facts.state == JobState::CommitPending {
                    self.phase = RecoveryPhase::Reconciling;
                    RecoveryAction::Reconcile
                } else {
                    self.after_reconciliation(0)
                }
            },
            (RecoveryPhase::Reconciling, RecoveryOutcome::Failed(e)) => self.isolate(
                blamed,
                RecoveryFailure::Reconciliation(e),
                false,
            ),
            (RecoveryPhase::Reconciling, RecoveryOutcome::Reconciled { steps }) => {
                self.after_reconciliation(steps)
            },
            (RecoveryPhase::ReadingMoveContext { .. }, RecoveryOutcome::Failed(e)) => self.isolate(
                Isolated::MoveTorrent,
                RecoveryFailure::MoveContext(e),
                false,
            ),
            (RecoveryPhase::ReadingMoveContext { reconciled }, _) => {
                if facts.state == JobState::CommitPending {
                    self.phase = RecoveryPhase::LookingUpMovePath { reconciled };
                    RecoveryAction::LookUpMovePath
                } else {
                    self.phase = RecoveryPhase::CheckingMoveSource;
                    RecoveryAction::CheckMoveSource
                }
            },
            (RecoveryPhase::LookingUpMovePath { .. }, RecoveryOutcome::Failed(info_hash)) => {
                self.isolate(
                    Isolated::MoveTorrent,
                    RecoveryFailure::MoveTorrentMissing { info_hash },
                    false,
                )
            },
            (
                RecoveryPhase::LookingUpMovePath { .. },
                RecoveryOutcome::MovePath(Some(PathMatch::Neither { current, old, new })),
            ) => self.isolate(
                Isolated::MoveTorrent,
                RecoveryFailure::MovePath { current, old, new },
                false,
            ),
            (RecoveryPhase::LookingUpMovePath { reconciled }, _) => {
                self.phase = RecoveryPhase::ReadingDeleteTarget { reconciled };
                RecoveryAction::ReadDeleteTarget
            },
            (RecoveryPhase::CheckingMoveSource, RecoveryOutcome::Failed(e)) => self.isolate(
                Isolated::MoveTorrent,
                RecoveryFailure::MoveSource(e),
                false,
            ),
            (RecoveryPhase::CheckingMoveSource, _) => {
                self.phase = RecoveryPhase::ReadingDeleteTarget { reconciled: 0 };
                RecoveryAction::ReadDeleteTarget
            },
            (RecoveryPhase::ReadingDeleteTarget { .. }, RecoveryOutcome::Failed(e)) => self.isolate(
                blamed,
                RecoveryFailure::DeleteTarget(e),
                false,
            ),
            (
                RecoveryPhase::ReadingDeleteTarget { reconciled },
                RecoveryOutcome::DeleteTarget { some },
            ) => {
                self.phase = RecoveryPhase::Quiescing { reconciled, deleting: some };
                RecoveryAction::Quiesce { guard_delete: some }
            },
            (RecoveryPhase::Quiescing { deleting, .. }, RecoveryOutcome::Failed(e)) => self.isolate(
                Isolated::Quiesced,
                RecoveryFailure::Quiesce(e),
                deleting,
            ),
            (RecoveryPhase::Quiescing { reconciled, deleting }, _) => {
                if facts.state != JobState::CommitPending {
                    self.phase = RecoveryPhase::Submitting { deleting };
                    RecoveryAction::Submit(
                        if facts.state == JobState::Cancelling {
                            Submission::Cancelled
                        } else if facts.state == JobState::Paused {
                            Submission::Paused
                        } else {
                            Submission::Run
                        },
                    )
                } else if reconciled != facts.steps {
                    self.isolate(
                        Isolated::Quiesced,
                        RecoveryFailure::Incomplete { found: reconciled, steps: facts.steps },
                        deleting,
                    )
                } else {
                    self.phase = RecoveryPhase::Over;
                    RecoveryAction::Finish(self.finisher(deleting))
                }
            },
            (RecoveryPhase::Submitting { deleting }, RecoveryOutcome::Failed(e)) => self.isolate(
                Isolated::Quiesced,
                RecoveryFailure::Submission(e),
                deleting,
            ),
            (RecoveryPhase::Submitting { deleting }, _) => {
                self.phase = RecoveryPhase::Over;
                RecoveryAction::Watch(self.finisher(deleting))
            },
            (_, _) => self.isolate(blamed, RecoveryFailure::MissingPlan, false),
        }
    }
}

/// Where taking up a job stands after a run of outcomes.
pub open spec fn phase_after(facts: RecoveryFacts, outcomes: Seq<RecoveryOutcome>) -> RecoveryPhase
    decreases outcomes.len(),
{
    if outcomes.len() == 0 {
        RecoveryPhase::ValidatingPlan
    } else {
        let phase = phase_after(facts, outcomes.drop_last());
        recovery_step(RecoveredJob { facts, phase }, outcomes.last()).0
    }
}

/// What a job is in the middle of is known to match its record.
pub open spec fn sound_phase(facts: RecoveryFacts, phase: RecoveryPhase) -> bool {
    match phase {
        RecoveryPhase::ReadingMoveContext { .. } => facts.operation == PlanOperation::Move
            && facts.affected == 1,
        RecoveryPhase::LookingUpMovePath { .. } => facts.operation == PlanOperation::Move
            && facts.affected == 1 && facts.state == JobState::CommitPending,
        RecoveryPhase::CheckingMoveSource => facts.operation == PlanOperation::Move
            && facts.affected == 1 && facts.state != JobState::CommitPending,
        RecoveryPhase::ReadingDeleteTarget { .. } => facts.operation == PlanOperation::Move
            ==> facts.affected == 1,
        RecoveryPhase::Quiescing { .. } => facts.operation == PlanOperation::Move ==> facts.affected
            == 1,
        RecoveryPhase::Submitting { .. } => facts.state != JobState::CommitPending,
        _ => true,
    }
}

proof fn lemma_phases_are_sound(facts: RecoveryFacts, outcomes: Seq<RecoveryOutcome>)
    ensures
        sound_phase(facts, phase_after(facts, outcomes)),
    decreases outcomes.len(),
{
    if outcomes.len() > 0 {
        lemma_phases_are_sound(facts, outcomes.drop_last());
    }
}

/// No job touches files or finishes before the tasks of its torrents are
/// quiet: it is handed to the worker, or finished, only out of quiescing.
pub proof fn law_files_wait_for_quiet_tasks(job: RecoveredJob, outcome: RecoveryOutcome)
    ensures
        recovery_step(job, outcome).1 is Submit || recovery_step(job, outcome).1 is Finish
            ==> job.phase is Quiescing && !(outcome is Failed),
{
}

/// A job is finished without the worker only where the filesystem shows every
/// step of it.
pub proof fn law_only_complete_commits_are_finished(job: RecoveredJob, outcome: RecoveryOutcome)
    ensures
        recovery_step(job, outcome).1 is Finish ==> job.facts.state == JobState::CommitPending
            && (job.phase matches RecoveryPhase::Quiescing { reconciled, .. } && reconciled
            == job.facts.steps),
{
}

/// A job that was being cancelled is never run, and one that was paused is not
/// started.
pub proof fn law_submission_keeps_the_intent(job: RecoveredJob, outcome: RecoveryOutcome)
    ensures
        recovery_step(job, outcome).1 matches RecoveryAction::Submit(mode) ==> {
            &&& (mode == Submission::Cancelled <==> job.facts.state == JobState::Cancelling)
            &&& (mode == Submission::Paused <==> job.facts.state == JobState::Paused)
        },
{
}

/// Every run of outcomes leads a move only where it has one torrent, and a job
/// to the worker only where its files are not in place yet.
pub proof fn law_recovery_follows_the_record(facts: RecoveryFacts, outcomes: Seq<RecoveryOutcome>)
    ensures
        sound_phase(facts, phase_after(facts, outcomes)),
{
    lemma_phases_are_sound(facts, outcomes);
}

/// A job that is given up after its torrent was guarded gives the guard back.
pub proof fn law_guard_is_given_back(job: RecoveredJob, outcome: RecoveryOutcome)
    ensures
        ({
            let guarded = match job.phase {
                RecoveryPhase::Quiescing { deleting, .. } => deleting,
                RecoveryPhase::Submitting { deleting } => deleting,
                _ => false,
            };
            recovery_step(job, outcome).1 matches RecoveryAction::Isolate { release_guard, .. }
                ==> release_guard == guarded
        }),
{
}

/// Where taking up a job stands after a run of outcomes.
pub open spec fn recovered_to(job: RecoveredJob, outcomes: Seq<RecoveryOutcome>) -> RecoveredJob
    decreases outcomes.len(),
{
    if outcomes.len() == 0 {
        job
    } else {
        let before = recovered_to(job, outcomes.drop_last());
        RecoveredJob { phase: recovery_step(before, outcomes.last()).0, ..before }
    }
}

/// Whatever happens on the way, a job is handed back to the worker only after
/// the tasks of its torrents were quiesced.
pub proof fn law_jobs_are_handed_back_after_quiescing(
    job: RecoveredJob,
    outcomes: Seq<RecoveryOutcome>,
)
    requires
        job.phase == RecoveryPhase::ValidatingPlan,
        recovered_to(job, outcomes).phase is Submitting,
    ensures
        outcomes.len() > 0,
        recovered_to(job, outcomes.drop_last()).phase is Quiescing,
        !(outcomes.last() is Failed),
{
}

impl RecoveredJob {
    /// The job after an outcome.
    pub open spec fn after(self, outcome: RecoveryOutcome) -> RecoveredJob {
        RecoveredJob { phase: recovery_step(self, outcome).0, ..self }
    }

    /// The action that follows on an outcome.
    pub open spec fn told(self, outcome: RecoveryOutcome) -> RecoveryAction {
        recovery_step(self, outcome).1
    }
}

/// A job whose files are not in place yet, and against which nothing speaks, has
/// its record read, its torrents' tasks quiesced, and goes back to the worker
/// as it was left: one that was being cancelled only to be rolled back, one
/// that was paused as paused, any other to run. Whoever finishes it follows
/// from what it does.
pub proof fn law_unfinished_jobs_go_back_to_the_worker(
    facts: RecoveryFacts,
    valid: RecoveryOutcome,
    quiesced: RecoveryOutcome,
    checkpoint: RecoveryOutcome,
    roots: RecoveryOutcome,
    context: RecoveryOutcome,
    source: RecoveryOutcome,
    deleting: bool,
    quiet: RecoveryOutcome,
    submitted: RecoveryOutcome,
)
    requires
        facts.state != JobState::CommitPending,
        facts.operation == PlanOperation::Move ==> facts.affected == 1,
        !(valid is Failed),
        !(quiesced is Failed),
        !(checkpoint is Failed),
        !(roots is Failed),
        !(context is Failed),
        !(source is Failed),
        !(quiet is Failed),
        !(submitted is Failed),
    ensures
        ({
            let target = RecoveryOutcome::DeleteTarget { some: deleting };
            let moves = facts.operation == PlanOperation::Move;
            let m0 = RecoveredJob { facts, phase: RecoveryPhase::ValidatingPlan };
            let m1 = m0.after(valid);
            let m2 = m1.after(quiesced);
            let m3 = m2.after(checkpoint);
            let m4 = m3.after(roots);
            let m5 = m4.after(context);
            let m6 = if moves {
                m5.after(source)
            } else {
                m4
            };
            let m7 = m6.after(target);
            let m8 = m7.after(quiet);
            &&& m0.told(valid) is ReadQuiesced
            &&& m1.told(quiesced) is ReadCheckpoint
            &&& m2.told(checkpoint) is ResolveRoots
            &&& moves ==> m3.told(roots) is ReadMoveContext && m4.told(context) is CheckMoveSource
                && m5.told(source) is ReadDeleteTarget
            &&& !moves ==> m3.told(roots) is ReadDeleteTarget
            &&& m6.told(target) == (RecoveryAction::Quiesce { guard_delete: deleting })
            &&& m7.told(quiet) == RecoveryAction::Submit(
                match facts.state {
                    JobState::Cancelling => Submission::Cancelled,
                    JobState::Paused => Submission::Paused,
                    _ => Submission::Run,
                },
            )
            &&& m8.told(submitted) matches RecoveryAction::Watch(finisher) && {
                &&& deleting ==> finisher == Finisher::Delete
                &&& !deleting && moves ==> finisher == Finisher::Move
                &&& !deleting && !moves ==> finisher == Finisher::Plan
            }
            &&& m8.after(submitted).phase == RecoveryPhase::Over
        }),
{
}

/// A job whose files should be in place is compared with the filesystem: where
/// that shows every step it is finished, and where it shows fewer or more the
/// torrents are isolated and both numbers are told.
pub proof fn law_committed_jobs_are_finished(
    facts: RecoveryFacts,
    roots: RecoveryOutcome,
    found: usize,
    context: RecoveryOutcome,
    place: Option<PathMatch>,
    deleting: bool,
    quiet: RecoveryOutcome,
)
    requires
        facts.state == JobState::CommitPending,
        facts.operation == PlanOperation::Move ==> facts.affected == 1,
        !(roots is Failed),
        !(context is Failed),
        !(place matches Some(PathMatch::Neither { .. })),
        !(quiet is Failed),
    ensures
        ({
            let seen = RecoveryOutcome::Reconciled { steps: found };
            let target = RecoveryOutcome::DeleteTarget { some: deleting };
            let moves = facts.operation == PlanOperation::Move;
            let m0 = RecoveredJob { facts, phase: RecoveryPhase::ResolvingRoots };
            let m1 = m0.after(roots);
            let m2 = m1.after(seen);
            let m3 = m2.after(context);
            let m4 = if moves {
                m3.after(RecoveryOutcome::MovePath(place))
            } else {
                m2
            };
            let m5 = m4.after(target);
            &&& m0.told(roots) is Reconcile
            &&& moves ==> m1.told(seen) is ReadMoveContext && m2.told(context) is LookUpMovePath
                && m3.told(RecoveryOutcome::MovePath(place)) is ReadDeleteTarget
            &&& !moves ==> m1.told(seen) is ReadDeleteTarget
            &&& m4.told(target) == (RecoveryAction::Quiesce { guard_delete: deleting })
            &&& found == facts.steps ==> (m5.told(quiet) matches RecoveryAction::Finish(finisher)
                && (deleting ==> finisher == Finisher::Delete) && (!deleting && moves ==> finisher
                == Finisher::Move) && (!deleting && !moves ==> finisher == Finisher::Plan))
            &&& found != facts.steps ==> m5.told(quiet) == (RecoveryAction::Isolate {
                who: Isolated::Quiesced,
                why: RecoveryFailure::Incomplete { found, steps: facts.steps },
                release_guard: deleting,
            })
            &&& m5.after(quiet).phase == RecoveryPhase::Over
        }),
{
}

/// A job that cannot be taken up isolates the torrents that it is responsible
/// for, and says why: each step that fails has its own reason. A payload
/// deletion whose context names its torrent isolates that one, any other job
/// those that it lists, a move its torrent, and from the quiescing on those
/// that were to be quiesced.
pub proof fn law_given_up_jobs_isolate_their_torrents(job: RecoveredJob, error: String)
    ensures
        ({
            let blamed = if job.facts.operation == PlanOperation::PayloadDelete
                && job.facts.context_names_torrent {
                Isolated::Recovery(Targets::ContextTorrent)
            } else {
                Isolated::Recovery(Targets::Affected)
            };
            let gives_up = |who: Isolated, why: RecoveryFailure, release_guard: bool|
                job.told(RecoveryOutcome::Failed(error)) == (RecoveryAction::Isolate {
                    who,
                    why,
                    release_guard,
                }) && job.after(RecoveryOutcome::Failed(error)).phase == RecoveryPhase::Over;
            match job.phase {
                RecoveryPhase::ValidatingPlan => gives_up(
                    blamed,
                    RecoveryFailure::InvalidPlan(error),
                    false,
                ),
                RecoveryPhase::ReadingQuiesced => gives_up(
                    blamed,
                    RecoveryFailure::InvalidQuiesceContext(error),
                    false,
                ),
                RecoveryPhase::ReadingCheckpoint => gives_up(
                    blamed,
                    RecoveryFailure::InvalidCheckpoint(error),
                    false,
                ),
                RecoveryPhase::ResolvingRoots => gives_up(
                    blamed,
                    RecoveryFailure::Roots(error),
                    false,
                ),
                RecoveryPhase::Reconciling => gives_up(
                    blamed,
                    RecoveryFailure::Reconciliation(error),
                    false,
                ),
                RecoveryPhase::ReadingMoveContext { .. } => gives_up(
                    Isolated::MoveTorrent,
                    RecoveryFailure::MoveContext(error),
                    false,
                ),
                RecoveryPhase::LookingUpMovePath { .. } => gives_up(
                    Isolated::MoveTorrent,
                    RecoveryFailure::MoveTorrentMissing { info_hash: error },
                    false,
                ),
                RecoveryPhase::CheckingMoveSource => gives_up(
                    Isolated::MoveTorrent,
                    RecoveryFailure::MoveSource(error),
                    false,
                ),
                RecoveryPhase::ReadingDeleteTarget { .. } => gives_up(
                    blamed,
                    RecoveryFailure::DeleteTarget(error),
                    false,
                ),
                RecoveryPhase::Quiescing { deleting, .. } => gives_up(
                    Isolated::Quiesced,
                    RecoveryFailure::Quiesce(error),
                    deleting,
                ),
                RecoveryPhase::Submitting { deleting } => gives_up(
                    Isolated::Quiesced,
                    RecoveryFailure::Submission(error),
                    deleting,
                ),
                RecoveryPhase::Over => true,
            }
        }),
{
}

/// A move that lists no torrent or several is not taken up, and neither is one
/// whose torrent lies at neither end of the move.
pub proof fn law_unclear_moves_are_not_taken_up(
    facts: RecoveryFacts,
    roots: RecoveryOutcome,
    reconciled: usize,
    current: String,
    old: String,
    new: String,
)
    requires
        facts.operation == PlanOperation::Move,
        !(roots is Failed),
    ensures
        facts.affected != 1 && facts.state != JobState::CommitPending ==> ({
            let m0 = RecoveredJob { facts, phase: RecoveryPhase::ResolvingRoots };
            m0.told(roots) matches RecoveryAction::Isolate { who, why, release_guard } && who
                == Isolated::Recovery(Targets::Affected) && why is MoveTargets && !release_guard
        }),
        facts.affected != 1 && facts.state == JobState::CommitPending ==> ({
            let m0 = RecoveredJob { facts, phase: RecoveryPhase::Reconciling };
            m0.told((RecoveryOutcome::Reconciled { steps: reconciled })) matches
                RecoveryAction::Isolate { who, why, release_guard } && who == Isolated::Recovery(
                Targets::Affected,
            ) && why is MoveTargets && !release_guard
        }),
        ({
            let m0 = RecoveredJob { facts, phase: RecoveryPhase::LookingUpMovePath { reconciled } };
            let lost = RecoveryOutcome::MovePath(Some(PathMatch::Neither { current, old, new }));
            m0.told(lost) == (RecoveryAction::Isolate {
                who: Isolated::MoveTorrent,
                why: RecoveryFailure::MovePath { current, old, new },
                release_guard: false,
            }) && m0.after(lost).phase == RecoveryPhase::Over
        }),
{
}

/// Exactly the storage plans that were queued, paused, being cancelled or waiting
/// for their commit are taken up.
pub proof fn law_open_storage_plans_are_taken_up(kind: JobKind, state: JobState)
    ensures
        is_recoverable(kind, state) <==> kind == JobKind::StoragePlan && match state {
            JobState::Queued => true,
            JobState::Running => false,
            JobState::Paused => true,
            JobState::Cancelling => true,
            JobState::Cancelled => false,
            JobState::Failed => false,
            JobState::Completed => false,
            JobState::CommitPending => true,
        },
{
}

/// A job is taken up from the newest entry that can be read, and from a plan that
/// is there: the newest entry's own, else the first one's. Without a plan it is
/// not taken up, and with one it is.
pub proof fn law_records_hold_a_plan(latest: Option<LoggedPlan>, first: Option<LoggedPlan>)
    ensures
        ({
            let planned = |entry: Option<LoggedPlan>| entry matches Some(e) && e.steps is Some;
            match chosen_record(latest, first) {
                Some(choice) => {
                    &&& choice.entry == Source::Latest <==> latest is Some
                    &&& choice.plan == Source::Latest ==> planned(latest)
                    &&& choice.plan == Source::First ==> planned(first) && !planned(latest)
                },
                None => !planned(latest) && !planned(first),
            }
        }),
        (latest matches Some(e) && e.steps is Some) || (first matches Some(e) && e.steps is Some)
            ==> chosen_record(latest, first) is Some,
{
}

/// Where a job says twice that all of its steps are done, each of them counts as
/// done; else those that the log names, and no other.
pub proof fn law_checkpoints_follow_the_record(
    done: i64,
    checkpoint: i64,
    steps: nat,
    logged: Seq<usize>,
    i: int,
)
    requires
        steps <= usize::MAX,
    ensures
        ({
            let counted = checkpoint_steps(done, checkpoint, steps, logged);
            &&& done == steps && checkpoint == steps ==> counted.len() == steps && (0 <= i < steps
                ==> counted[i] == i)
            &&& done != steps || checkpoint != steps ==> counted == logged
        }),
{
}

proof fn lemma_without(list: Seq<(Seq<char>, bool)>, hash: Seq<char>, item: (Seq<char>, bool))
    ensures
        without_hash(list, hash).contains(item) <==> list.contains(item) && item.0 != hash,
    decreases list.len(),
{
    if list.len() > 0 {
        let n = list.len() - 1;
        let fewer = list.drop_last();
        let before = without_hash(fewer, hash);
        lemma_without(fewer, hash, item);
        assert(list.contains(item) <==> fewer.contains(item) || item == list[n]) by {
            if fewer.contains(item) {
                let k = choose|k: int| 0 <= k < fewer.len() && fewer[k] == item;
                assert(list[k] == item);
            }
            if list.contains(item) && item != list[n] {
                let k = choose|k: int| 0 <= k < list.len() && list[k] == item;
                assert(fewer[k] == item);
            }
        }
        if list.last().0 != hash {
            let after = before.push(list.last());
            assert(after.contains(item) <==> before.contains(item) || item == list.last()) by {
                if before.contains(item) {
                    let k = choose|k: int| 0 <= k < before.len() && before[k] == item;
                    assert(after[k] == item);
                }
                if item == list.last() {
                    assert(after[before.len() as int] == item);
                }
            }
        }
    }
}

/// What is quiesced now counts for its torrent, and what was quiesced before the
/// restart counts for every torrent of which nothing newer is known.
pub proof fn law_newer_quiescence_wins(
    durable: Seq<(Seq<char>, bool)>,
    live: Seq<(Seq<char>, bool)>,
    item: (Seq<char>, bool),
)
    ensures
        (forall|i: int| 0 <= i < live.len() ==> (#[trigger] live[i]).0 != item.0) ==> (overruled(
            durable,
            live,
        ).contains(item) <==> durable.contains(item)),
        forall|i: int|
            0 <= i < live.len() && #[trigger] live[i] == item && (forall|k: int|
                i < k < live.len() ==> (#[trigger] live[k]).0 != item.0) ==> overruled(
                durable,
                live,
            ).contains(item),
        overruled(durable, live).contains(item) ==> durable.contains(item) || live.contains(item),
    decreases live.len(),
{
    if live.len() > 0 {
        let n = live.len() - 1;
        let fewer = live.drop_last();
        let before = overruled(durable, fewer);
        let kept = without_hash(before, live.last().0);
        let after = overruled(durable, live);
        law_newer_quiescence_wins(durable, fewer, item);
        lemma_without(before, live.last().0, item);
        assert(after == kept.push(live.last()));
        assert(after.contains(item) <==> kept.contains(item) || item == live.last()) by {
            if kept.contains(item) {
                let k = choose|k: int| 0 <= k < kept.len() && kept[k] == item;
                assert(after[k] == item);
            }
            if item == live.last() {
                assert(after[kept.len() as int] == item);
            }
        }
        if forall|i: int| 0 <= i < live.len() ==> (#[trigger] live[i]).0 != item.0 {
            assert(live[n].0 != item.0);
            assert forall|i: int| 0 <= i < fewer.len() implies (#[trigger] fewer[i]).0
                != item.0 by {
                assert(live[i] == fewer[i]);
            }
        }
        assert forall|i: int|
            0 <= i < live.len() && #[trigger] live[i] == item && (forall|k: int|
                i < k < live.len() ==> (#[trigger] live[k]).0
                    != item.0) implies after.contains(item) by {
            if i < n {
                assert(live[n].0 != item.0);
                assert(fewer[i] == item);
                assert forall|k: int| i < k < fewer.len() implies (#[trigger] fewer[k]).0
                    != item.0 by {
                    assert(live[k] == fewer[k]);
                }
            }
        }
        if fewer.contains(item) {
            let k = choose|k: int| 0 <= k < fewer.len() && fewer[k] == item;
            assert(live[k] == item);
        }
        if item == live.last() {
            assert(live[n] == item);
        }
    }
}

/// The torrents that are isolated are those that the record makes responsible:
/// the one that the context names, or those that are listed, the torrent of a
/// move, or those whose tasks were to be quiesced.
pub proof fn law_isolated_torrents_are_on_record(torrents: RecordedTorrents, i: int)
    requires
        0 <= i < torrents.affected@.len(),
    ensures
        isolated_texts(Isolated::Recovery(Targets::Affected), torrents).contains(
            torrents.affected@[i]@,
        ),
        isolated_texts(Isolated::Recovery(Targets::Affected), torrents).len()
            == torrents.affected@.len(),
        isolated_texts(Isolated::MoveTorrent, torrents) == seq![torrents.affected@[0]@],
        torrents.context matches Some(hash) ==> isolated_texts(
            Isolated::Recovery(Targets::ContextTorrent),
            torrents,
        ) == seq![hash@],
        torrents.deleted matches Some(hash) ==> isolated_texts(Isolated::Quiesced, torrents)
            == seq![hash@],
        torrents.context is None ==> isolated_texts(
            Isolated::Recovery(Targets::ContextTorrent),
            torrents,
        ).contains(torrents.affected@[i]@),
        torrents.deleted is None ==> isolated_texts(Isolated::Quiesced, torrents).contains(
            torrents.affected@[i]@,
        ),
{
    assert(hash_texts(torrents.affected@)[i] == torrents.affected@[i]@);
}

/// A job without a plan isolates the torrent that its context names, or else those
/// that it lists, and holds no guard.
pub proof fn law_jobs_without_plan_isolate_their_torrents(named: bool, r: RecoveryAction)
    requires
        call_ensures(RecoveredJob::without_plan, (named,), r),
    ensures
        r matches RecoveryAction::Isolate { who: Isolated::Recovery(targets), why, release_guard }
            && why == RecoveryFailure::MissingPlan && !release_guard && (targets
            == Targets::ContextTorrent <==> named) && (targets == Targets::Affected <==> !named),
{
}

/// A moved torrent is at its old place, at its new one, or at neither.
pub proof fn law_places_are_told_apart(
    current: &StoragePath,
    old: &StoragePath,
    new: &StoragePath,
    r: PathMatch,
)
    requires
        call_ensures(compare_move_path, (current, old, new), r),
    ensures
        current@ == old@ <==> r is Old,
        current@ == new@ && current@ != old@ <==> r is New,
{
}

/// A job is taken up with its plan first, as it was found.
pub proof fn law_recovery_begins_with_the_plan(
    facts: RecoveryFacts,
    r: (RecoveredJob, RecoveryAction),
)
    requires
        call_ensures(RecoveredJob::begin, (facts,), r),
    ensures
        r.0.facts == facts && r.0.phase == RecoveryPhase::ValidatingPlan && r.1 is ValidatePlan,
{
}

/// What taking up a job waits for is what was last asked for, and it is over exactly when
/// the job is finished, watched or its torrents are isolated.
pub proof fn law_recovery_waits_for_what_it_asks(job: RecoveredJob, outcome: RecoveryOutcome)
    ensures
        ({
            let told = job.told(outcome);
            let after = job.after(outcome).phase;
            &&& told is ValidatePlan <==> after is ValidatingPlan
            &&& told is ReadQuiesced <==> after is ReadingQuiesced
            &&& told is ReadCheckpoint <==> after is ReadingCheckpoint
            &&& told is ResolveRoots <==> after is ResolvingRoots
            &&& told is Reconcile <==> after is Reconciling
            &&& told is ReadMoveContext <==> after is ReadingMoveContext
            &&& told is LookUpMovePath <==> after is LookingUpMovePath
            &&& told is CheckMoveSource <==> after is CheckingMoveSource
            &&& told is ReadDeleteTarget <==> after is ReadingDeleteTarget
            &&& told is Quiesce <==> after is Quiescing
            &&& told is Submit <==> after is Submitting
            &&& after is Over <==> told is Finish || told is Watch || told is Isolate
        }),
{
}

} // verus!
