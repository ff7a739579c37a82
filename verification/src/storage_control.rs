//! Carrying out storage plans. Files are touched only while the tasks of their
//! torrents are quiet, and the tasks go on however it ends.

use vstd::prelude::*;

use crate::job::JobState;
use crate::manual_recovery::{manual_recovery_reason, marked};
use crate::problem::{CmdResult, Problem};
use crate::storage_plan::{PlanIssue, StoragePlan, StoragePlanStep};
use crate::storage_recovery::{quiesced_views, Quiesced};
use crate::text::{join2, join4, lowered, to_ascii_lowercase, trim, trimmed};

verus! {

/// The name of an operation as it is compared: without white space around it
/// and in lower case.
pub fn normalize_operation(operation: &str) -> (r: String)
    ensures
        r@ == lowered(trimmed(operation@)),
{
    to_ascii_lowercase(trim(operation).as_str())
}

/// Why a plan was not carried out.
#[derive(Debug)]
pub enum PlanRefusal {
    DryRun,
    CannotApply(String),
    /// What stood in the way, as it was reported.
    Reported(String),
}

impl PlanRefusal {
    pub open spec fn text(self) -> Seq<char> {
        match self {
            PlanRefusal::DryRun =>
                "storage execution received a dry-run plan; use the preview endpoint first"@,
            PlanRefusal::CannotApply(e) => "storage plan cannot apply: "@ + e@,
            PlanRefusal::Reported(e) => e@,
        }
    }

    /// The refusal in words.
    pub fn to_text(&self) -> (r: String)
        ensures
            r@ == self.text(),
    {
        match self {
            PlanRefusal::DryRun => {
                "storage execution received a dry-run plan; use the preview endpoint first".to_owned()
            },
            PlanRefusal::CannotApply(e) => join2("storage plan cannot apply: ", e.as_str()),
            PlanRefusal::Reported(e) => e.clone(),
        }
    }
}

/// What is to be done next about a plan.
#[derive(Debug)]
pub enum PlanAction {
    /// See that the plan can be applied.
    CheckPlan,
    /// Bring the list of its torrents into order.
    NormalizeTargets,
    /// See that the torrents can be the plan's.
    ValidateTargets,
    /// See that no job of the torrents is under way.
    CheckIdle,
    /// Work out where the torrent moves.
    ReadMoveContext,
    /// Quiesce the tasks of the torrents.
    Quiesce,
    /// Hand the plan to the worker.
    Queue,
    /// Report the job; its end is that of a move or of a plan.
    Accepted { job_id: String, is_move: bool },
    Refuse(PlanRefusal),
    /// Let the tasks go on, and refuse.
    ResumeAndRefuse(PlanRefusal),
}

/// What came of an action.
#[derive(Debug)]
pub enum PlanOutcome {
    Done,
    Failed(String),
    Queued { job_id: String },
}

/// How far a plan has come.
#[derive(Clone, Copy, Debug, PartialEq, Eq, Structural)]
pub enum PlanPhase {
    CheckingPlan,
    Normalizing,
    Validating,
    CheckingIdle,
    ReadingMoveContext,
    Quiescing,
    Queueing,
    Over,
}

/// A plan that is to be carried out.
#[derive(Clone, Copy, Debug, PartialEq, Eq, Structural)]
pub struct PlanExecution {
    pub is_move: bool,
    pub phase: PlanPhase,
}

/// The action after an outcome.
pub open spec fn plan_step(plan: PlanExecution, outcome: PlanOutcome) -> (PlanPhase, PlanAction) {
    match (plan.phase, outcome) {
        (PlanPhase::CheckingPlan, PlanOutcome::Failed(e)) => (
            PlanPhase::Over,
            PlanAction::Refuse(PlanRefusal::CannotApply(e)),
        ),
        (PlanPhase::CheckingPlan, _) => (PlanPhase::Normalizing, PlanAction::NormalizeTargets),
        (PlanPhase::Normalizing, PlanOutcome::Failed(e)) => (
            PlanPhase::Over,
            PlanAction::Refuse(PlanRefusal::Reported(e)),
        ),
        (PlanPhase::Normalizing, _) => (PlanPhase::Validating, PlanAction::ValidateTargets),
        (PlanPhase::Validating, PlanOutcome::Failed(e)) => (
            PlanPhase::Over,
            PlanAction::Refuse(PlanRefusal::Reported(e)),
        ),
        (PlanPhase::Validating, _) => (PlanPhase::CheckingIdle, PlanAction::CheckIdle),
        (PlanPhase::CheckingIdle, PlanOutcome::Failed(e)) => (
            PlanPhase::Over,
            PlanAction::Refuse(PlanRefusal::Reported(e)),
        ),
        (PlanPhase::CheckingIdle, _) => if plan.is_move {
            (PlanPhase::ReadingMoveContext, PlanAction::ReadMoveContext)
        } else {
            (PlanPhase::Quiescing, PlanAction::Quiesce)
        },
        (PlanPhase::ReadingMoveContext, PlanOutcome::Failed(e)) => (
            PlanPhase::Over,
            PlanAction::Refuse(PlanRefusal::Reported(e)),
        ),
        (PlanPhase::ReadingMoveContext, _) => (PlanPhase::Quiescing, PlanAction::Quiesce),
        (PlanPhase::Quiescing, PlanOutcome::Failed(e)) => (
            PlanPhase::Over,
            PlanAction::Refuse(PlanRefusal::Reported(e)),
        ),
        (PlanPhase::Quiescing, _) => (PlanPhase::Queueing, PlanAction::Queue),
        (PlanPhase::Queueing, PlanOutcome::Queued { job_id }) => (
            PlanPhase::Over,
            PlanAction::Accepted { job_id, is_move: plan.is_move },
        ),
        (PlanPhase::Queueing, PlanOutcome::Failed(e)) => (
            PlanPhase::Over,
            PlanAction::ResumeAndRefuse(PlanRefusal::Reported(e)),
        ),
        (_, _) => (PlanPhase::Over, PlanAction::Refuse(PlanRefusal::DryRun)),
    }
}

impl PlanExecution {
    /// Starts on a plan. A plan that was made only to be looked at is refused.
    pub fn begin(operation: &str, dry_run: bool) -> (r: (Self, PlanAction))
        ensures
            r.0.is_move == (lowered(trimmed(operation@)) == "move"@),
            dry_run ==> r.0.phase == PlanPhase::Over && r.1 == PlanAction::Refuse(
                PlanRefusal::DryRun,
            ),
            !dry_run ==> r.0.phase == PlanPhase::CheckingPlan && r.1 is CheckPlan,
    {
        let is_move = normalize_operation(operation) == "move".to_owned();
        if dry_run {
            return (
                PlanExecution { is_move, phase: PlanPhase::Over },
                PlanAction::Refuse(PlanRefusal::DryRun),
            );
        }
        (PlanExecution { is_move, phase: PlanPhase::CheckingPlan }, PlanAction::CheckPlan)
    }

    /// Takes the outcome of the last action, and tells the next one.
    pub fn next(&mut self, outcome: PlanOutcome) -> (r: PlanAction)
        ensures
            final(self).is_move == old(self).is_move,
            (final(self).phase, r) == plan_step(*old(self), outcome),
    {
        let phase = self.phase;
        self.phase = PlanPhase::Over;
        match (phase, outcome) {
            (PlanPhase::CheckingPlan, PlanOutcome::Failed(e)) => PlanAction::Refuse(
                PlanRefusal::CannotApply(e),
            ),
            (PlanPhase::Normalizing, PlanOutcome::Failed(e))
            | (PlanPhase::Validating, PlanOutcome::Failed(e))
            | (PlanPhase::CheckingIdle, PlanOutcome::Failed(e))
            | (PlanPhase::ReadingMoveContext, PlanOutcome::Failed(e))
            | (PlanPhase::Quiescing, PlanOutcome::Failed(e)) => PlanAction::Refuse(
                PlanRefusal::Reported(e),
            ),
            (PlanPhase::CheckingPlan, _) => {
                self.phase = PlanPhase::Normalizing;
                PlanAction::NormalizeTargets
            },
            (PlanPhase::Normalizing, _) => {
                self.phase = PlanPhase::Validating;
                PlanAction::ValidateTargets
            },
            (PlanPhase::Validating, _) => {
                self.phase = PlanPhase::CheckingIdle;
                PlanAction::CheckIdle
            },
            (PlanPhase::CheckingIdle, _) => {
                if self.is_move {
                    self.phase = PlanPhase::ReadingMoveContext;
                    PlanAction::ReadMoveContext
                } else {
                    self.phase = PlanPhase::Quiescing;
                    PlanAction::Quiesce
                }
            },
            (PlanPhase::ReadingMoveContext, _) => {
                self.phase = PlanPhase::Quiescing;
                PlanAction::Quiesce
            },
            (PlanPhase::Quiescing, _) => {
                self.phase = PlanPhase::Queueing;
                PlanAction::Queue
            },
            (PlanPhase::Queueing, PlanOutcome::Queued { job_id }) => PlanAction::Accepted {
                job_id,
                is_move: self.is_move,
            },
            (PlanPhase::Queueing, PlanOutcome::Failed(e)) => PlanAction::ResumeAndRefuse(
                PlanRefusal::Reported(e),
            ),
            (_, _) => PlanAction::Refuse(PlanRefusal::DryRun),
        }
    }
}

/// A plan reaches the worker only after the tasks of its torrents are quiet,
/// and where it does not reach the worker the tasks go on.
pub proof fn law_plans_wait_for_quiet_tasks(plan: PlanExecution, outcome: PlanOutcome)
    ensures
        plan_step(plan, outcome).1 is Queue ==> plan.phase == PlanPhase::Quiescing && !(
        outcome is Failed),
        plan.phase == PlanPhase::Queueing && outcome is Failed ==> plan_step(plan, outcome).1
            is ResumeAndRefuse,
{
}

/// Whether a torrent was paused before it was quiesced, where it was quiesced.
pub open spec fn quiesced_of(list: Seq<(Seq<char>, bool)>, hash: Seq<char>) -> Option<bool>
    decreases list.len(),
{
    if list.len() == 0 {
        None
    } else if list[0].0 == hash {
        Some(list[0].1)
    } else {
        quiesced_of(list.skip(1), hash)
    }
}

/// Looks up whether a torrent was paused before it was quiesced.
pub fn find_quiesced(list: &[Quiesced], hash: &String) -> (r: Option<bool>)
    ensures
        r == quiesced_of(quiesced_views(list@), hash@),
{
    let ghost views = quiesced_views(list@);
    let mut i: usize = 0;
    assert(views.skip(0) =~= views);
    while i < list.len()
        invariant
            i <= list@.len(),
            views == quiesced_views(list@),
            quiesced_of(views, hash@) == quiesced_of(views.skip(i as int), hash@),
        decreases list@.len() - i,
    {
        assert(views.skip(i as int)[0] == (list@[i as int].info_hash@, list@[i as int].was_paused));
        if list[i].info_hash == *hash {
            return Some(list[i].was_paused);
        }
        assert(views.skip(i as int).skip(1) =~= views.skip(i + 1));
        i = i + 1;
    }
    None
}

/// What is done at the end of a plan that is neither a move nor a deletion.
#[derive(Debug)]
pub enum PlanEnd {
    /// Nothing: the job goes back to the queue, and the process shuts down.
    Nothing,
    /// An operator is needed, for this reason; the torrents are isolated.
    ManualRecovery { reason: String },
    /// The tasks go on, after the job is completed where `complete_job` is set.
    Resume { complete_job: bool },
}

/// Decides about the end of a plan. `marker` is what marks a stored reason as one
/// that needs an operator.
pub fn finish_storage_plan(
    terminal_state: JobState,
    succeeded: bool,
    requires_manual_recovery: bool,
    error: Option<String>,
    marker: &str,
) -> (r: PlanEnd)
    ensures
        if terminal_state == JobState::Queued {
            r is Nothing
        } else if !succeeded && requires_manual_recovery {
            r matches PlanEnd::ManualRecovery { reason } && reason@ == marked(
                marker@,
                match error {
                    Some(e) => e@,
                    None => "storage plan left filesystem state that requires manual recovery"@,
                },
            )
        } else {
            r == (PlanEnd::Resume {
                complete_job: succeeded && terminal_state == JobState::CommitPending,
            })
        },
{
    if terminal_state == JobState::Queued {
        return PlanEnd::Nothing;
    }
    if !succeeded && requires_manual_recovery {
        let error = match error {
            Some(e) => e,
            None => {
                "storage plan left filesystem state that requires manual recovery".to_owned()
            },
        };
        let reason = manual_recovery_reason(marker, error.as_str());
        return PlanEnd::ManualRecovery { reason };
    }
    PlanEnd::Resume {
        complete_job: succeeded && terminal_state == JobState::CommitPending,
    }
}

/// Whether a torrent is isolated because of a plan: not where it has been
/// replaced since the plan was made.
pub fn is_isolated(expected_handle: Option<u64>, current_handle: Option<u64>) -> (r: bool)
    ensures
        r == (expected_handle is None || expected_handle == current_handle),
{
    match expected_handle {
        None => true,
        Some(_) => expected_handle == current_handle,
    }
}

/// How a task goes on after storage work.
#[derive(Clone, Copy, Debug, PartialEq, Eq, Structural)]
pub enum ResumeStep {
    /// Nothing is done: the task was not quiesced or was paused before, or its
    /// torrent has been replaced.
    Nothing,
    /// It is told to, with the new place of its payload if that has been moved.
    /// Where `show_pending` is set, the torrent is shown as waiting for its
    /// metadata first.
    Tell { show_pending: bool },
    /// It has no task any more: the torrent is woken, and the job waits.
    Wake,
}

/// The torrent that storage work was done for is not the one that the session
/// shows now.
pub open spec fn is_replaced(expected_handle: Option<u64>, current_handle: Option<u64>) -> bool {
    expected_handle is Some && expected_handle != current_handle
}

/// Decides how a task goes on after storage work. `quiesced` tells whether the
/// task was paused before it was quiesced; a task that was stays as it is.
pub fn resume_torrent_after_storage_move(
    quiesced: Option<bool>,
    expected_handle: Option<u64>,
    current_handle: Option<u64>,
    has_task: bool,
    placeholder: bool,
) -> (r: ResumeStep)
    ensures
        r == match quiesced {
            None => ResumeStep::Nothing,
            Some(true) => ResumeStep::Nothing,
            Some(false) => if is_replaced(expected_handle, current_handle) {
                ResumeStep::Nothing
            } else if has_task {
                ResumeStep::Tell { show_pending: placeholder }
            } else {
                ResumeStep::Wake
            },
        },
{
    match quiesced {
        None => {
            return ResumeStep::Nothing;
        },
        Some(was_paused) => {
            if was_paused {
                return ResumeStep::Nothing;
            }
        },
    }
    if expected_handle.is_some() && expected_handle != current_handle {
        return ResumeStep::Nothing;
    }
    if has_task {
        ResumeStep::Tell { show_pending: placeholder }
    } else {
        ResumeStep::Wake
    }
}

/// Whether a task that stays paused is told where its payload lies now: one that
/// was quiesced for a move that has been committed. It is not resumed by that.
pub fn hands_over_save_path(
    quiesced: Option<bool>,
    expected_handle: Option<u64>,
    current_handle: Option<u64>,
    has_task: bool,
    committed: bool,
) -> (r: bool)
    ensures
        r == (quiesced == Some(true) && !is_replaced(expected_handle, current_handle) && has_task
            && committed),
{
    let was_paused = match quiesced {
        Some(was_paused) => was_paused,
        None => false,
    };
    was_paused && !(expected_handle.is_some() && expected_handle != current_handle) && has_task
        && committed
}

/// The handle that a list gives for a torrent.
pub open spec fn handle_of(list: Seq<(String, u64)>, hash: Seq<char>) -> Option<u64>
    decreases list.len(),
{
    if list.len() == 0 {
        None
    } else if list[0].0@ == hash {
        Some(list[0].1)
    } else {
        handle_of(list.skip(1), hash)
    }
}

/// Looks up the handle that a list gives for a torrent.
pub fn find_handle(list: &[(String, u64)], hash: &String) -> (r: Option<u64>)
    ensures
        r == handle_of(list@, hash@),
{
    let mut i: usize = 0;
    assert(list@.skip(0) =~= list@);
    while i < list.len()
        invariant
            i <= list@.len(),
            handle_of(list@, hash@) == handle_of(list@.skip(i as int), hash@),
        decreases list@.len() - i,
    {
        if list[i].0 == *hash {
            return Some(list[i].1);
        }
        assert(list@.skip(i as int).skip(1) =~= list@.skip(i + 1));
        i = i + 1;
    }
    None
}

/// The places of the torrents that are isolated because of a plan: those that
/// have not been replaced since the plan was made.
pub open spec fn isolated_places(
    torrents: Seq<String>,
    expected: Seq<(String, u64)>,
    current: Seq<Option<u64>>,
) -> Seq<int>
    decreases torrents.len(),
{
    if torrents.len() == 0 {
        Seq::empty()
    } else {
        let n = torrents.len() - 1;
        let before = isolated_places(torrents.drop_last(), expected, current);
        let handle = handle_of(expected, torrents[n]@);
        if handle is None || handle == current[n] {
            before.push(n)
        } else {
            before
        }
    }
}

/// Tells which torrents are isolated because of a plan. `expected` are the
/// torrents that the plan was made for, `current` those that the session shows
/// now under the hashes of the list.
pub fn torrents_to_isolate(
    torrents: &[String],
    expected: &[(String, u64)],
    current: &[Option<u64>],
) -> (r: Vec<usize>)
    requires
        torrents@.len() == current@.len(),
    ensures
        r@.map_values(|i: usize| i as int) == isolated_places(torrents@, expected@, current@),
{
    let mut r: Vec<usize> = Vec::new();
    let mut i: usize = 0;
    proof {
        assert(torrents@.take(0) =~= Seq::<String>::empty());
        assert(r@.map_values(|i: usize| i as int) =~= Seq::<int>::empty());
    }
    while i < torrents.len()
        invariant
            i <= torrents@.len(),
            torrents@.len() == current@.len(),
            r@.map_values(|i: usize| i as int) == isolated_places(
                torrents@.take(i as int),
                expected@,
                current@,
            ),
        decreases torrents@.len() - i,
    {
        proof {
            assert(torrents@.take(i + 1).drop_last() =~= torrents@.take(i as int));
        }
        if is_isolated(find_handle(expected, &torrents[i]), current[i]) {
            let ghost before = r@;
            r.push(i);
            proof {
                assert(r@.map_values(|i: usize| i as int) =~= before.map_values(
                    |i: usize| i as int,
                ).push(i as int));
            }
        }
        i = i + 1;
    }
    assert(torrents@.take(i as int) =~= torrents@);
    r
}

/// Why a task could not be quiesced.
#[derive(Debug)]
pub enum QuiesceFailure {
    /// What stood in the way, as it was reported.
    Reported(String),
    NotStored(String),
    NotRestored { error: String, resume_error: String },
}

impl QuiesceFailure {
    pub open spec fn text(self) -> Seq<char> {
        match self {
            QuiesceFailure::Reported(e) => e@,
            QuiesceFailure::NotStored(e) => "failed to persist metadata quiesce state: "@ + e@,
            QuiesceFailure::NotRestored { error, resume_error } =>
                "failed to persist metadata quiesce state: "@ + error@
                + "; failed to restore metadata task: "@ + resume_error@,
        }
    }

    /// The failure in words.
    pub fn to_text(&self) -> (r: String)
        ensures
            r@ == self.text(),
    {
        match self {
            QuiesceFailure::Reported(e) => e.clone(),
            QuiesceFailure::NotStored(e) => join2(
                "failed to persist metadata quiesce state: ",
                e.as_str(),
            ),
            QuiesceFailure::NotRestored { error, resume_error } => join4(
                "failed to persist metadata quiesce state: ",
                error.as_str(),
                "; failed to restore metadata task: ",
                resume_error.as_str(),
            ),
        }
    }
}

/// What is to be done next to quiesce a task.
#[derive(Debug)]
pub enum QuiesceAction {
    /// See whether the torrent waits for its metadata.
    LookUpPlaceholder,
    Quiesce,
    /// Store the torrent as paused: a task that fetches metadata cannot.
    StorePaused,
    /// Bring the task back to how it was.
    Restore { paused: bool },
    /// It is over: whether the task was paused before, or why it is not quiet.
    Report(Result<bool, QuiesceFailure>),
}

/// What came of an action.
#[derive(Debug)]
pub enum QuiesceOutcome {
    Done,
    Failed(String),
    Placeholder(bool),
    Quiesced { was_paused: bool },
}

/// How far quiescing has come.
#[derive(Debug)]
pub enum TaskQuiesce {
    LookingUp,
    Quiescing { placeholder: bool },
    Storing { was_paused: bool },
    Restoring { error: String },
    Over,
}

pub open spec fn quiesce_ended(r: Result<bool, QuiesceFailure>) -> (TaskQuiesce, QuiesceAction) {
    (TaskQuiesce::Over, QuiesceAction::Report(r))
}

/// The phase and the action after an outcome. One that does not belong to the
/// last action starts it over.
pub open spec fn quiesce_step(q: TaskQuiesce, outcome: QuiesceOutcome) -> (
    TaskQuiesce,
    QuiesceAction,
) {
    match (q, outcome) {
        (TaskQuiesce::LookingUp, QuiesceOutcome::Placeholder(placeholder)) => (
            TaskQuiesce::Quiescing { placeholder },
            QuiesceAction::Quiesce,
        ),
        (TaskQuiesce::LookingUp, QuiesceOutcome::Failed(e)) => quiesce_ended(
            Err(QuiesceFailure::Reported(e)),
        ),
        (TaskQuiesce::Quiescing { placeholder }, QuiesceOutcome::Quiesced { was_paused }) =>
            if placeholder {
            (TaskQuiesce::Storing { was_paused }, QuiesceAction::StorePaused)
        } else {
            quiesce_ended(Ok(was_paused))
        },
        (TaskQuiesce::Quiescing { .. }, QuiesceOutcome::Failed(e)) => quiesce_ended(
            Err(QuiesceFailure::Reported(e)),
        ),
        (TaskQuiesce::Storing { was_paused }, QuiesceOutcome::Failed(error)) => (
            TaskQuiesce::Restoring { error },
            QuiesceAction::Restore { paused: was_paused },
        ),
        (TaskQuiesce::Storing { was_paused }, _) => quiesce_ended(Ok(was_paused)),
        (TaskQuiesce::Restoring { error }, QuiesceOutcome::Failed(resume_error)) => quiesce_ended(
            Err(QuiesceFailure::NotRestored { error, resume_error }),
        ),
        (TaskQuiesce::Restoring { error }, _) => quiesce_ended(
            Err(QuiesceFailure::NotStored(error)),
        ),
        (_, _) => (TaskQuiesce::LookingUp, QuiesceAction::LookUpPlaceholder),
    }
}

impl TaskQuiesce {
    /// Starts to quiesce a task.
    pub fn begin() -> (r: (Self, QuiesceAction))
        ensures
            r.0 is LookingUp,
            r.1 is LookUpPlaceholder,
    {
        (TaskQuiesce::LookingUp, QuiesceAction::LookUpPlaceholder)
    }

    /// Takes the outcome of the last action, and tells the next one.
    pub fn next(self, outcome: QuiesceOutcome) -> (r: (Self, QuiesceAction))
        ensures
            r == quiesce_step(self, outcome),
    {
        match (self, outcome) {
            (TaskQuiesce::LookingUp, QuiesceOutcome::Placeholder(placeholder)) => (
                TaskQuiesce::Quiescing { placeholder },
                QuiesceAction::Quiesce,
            ),
            (TaskQuiesce::LookingUp, QuiesceOutcome::Failed(e)) => (
                TaskQuiesce::Over,
                QuiesceAction::Report(Err(QuiesceFailure::Reported(e))),
            ),
            (TaskQuiesce::Quiescing { placeholder }, QuiesceOutcome::Quiesced { was_paused }) => {
                if placeholder {
                    (TaskQuiesce::Storing { was_paused }, QuiesceAction::StorePaused)
                } else {
                    (TaskQuiesce::Over, QuiesceAction::Report(Ok(was_paused)))
                }
            },
            (TaskQuiesce::Quiescing { .. }, QuiesceOutcome::Failed(e)) => (
                TaskQuiesce::Over,
                QuiesceAction::Report(Err(QuiesceFailure::Reported(e))),
            ),
            (TaskQuiesce::Storing { was_paused }, QuiesceOutcome::Failed(error)) => (
                TaskQuiesce::Restoring { error },
                QuiesceAction::Restore { paused: was_paused },
            ),
            (TaskQuiesce::Storing { was_paused }, _) => (
                TaskQuiesce::Over,
                QuiesceAction::Report(Ok(was_paused)),
            ),
            (TaskQuiesce::Restoring { error }, QuiesceOutcome::Failed(resume_error)) => (
                TaskQuiesce::Over,
                QuiesceAction::Report(Err(QuiesceFailure::NotRestored { error, resume_error })),
            ),
            (TaskQuiesce::Restoring { error }, _) => (
                TaskQuiesce::Over,
                QuiesceAction::Report(Err(QuiesceFailure::NotStored(error))),
            ),
            (_, _) => (TaskQuiesce::LookingUp, QuiesceAction::LookUpPlaceholder),
        }
    }
}

/// A task that fetches metadata counts as quiet only after its torrent was
/// stored as paused, and is brought back where that fails.
pub proof fn law_quiet_metadata_tasks_are_stored_as_paused(was_paused: bool, error: String)
    ensures
        quiesce_step(
            TaskQuiesce::Quiescing { placeholder: true },
            QuiesceOutcome::Quiesced { was_paused },
        ).1 is StorePaused,
        quiesce_step(
            TaskQuiesce::Storing { was_paused },
            QuiesceOutcome::Failed(error),
        ).1 == (QuiesceAction::Restore { paused: was_paused }),
        quiesce_step(TaskQuiesce::Storing { was_paused }, QuiesceOutcome::Done).1
            == QuiesceAction::Report(Ok(was_paused)),
{
}

/// What came of quiescing one task.
#[derive(Debug)]
pub struct QuiesceResult {
    pub info_hash: String,
    pub result: Result<bool, String>,
}

/// The torrents whose tasks are quiet.
pub open spec fn quiet(results: Seq<QuiesceResult>) -> Seq<(Seq<char>, bool)>
    decreases results.len(),
{
    if results.len() == 0 {
        Seq::empty()
    } else {
        let before = quiet(results.drop_last());
        match results.last().result {
            Ok(was_paused) => before.push((results.last().info_hash@, was_paused)),
            Err(_) => before,
        }
    }
}

/// The first error.
pub open spec fn first_failure(results: Seq<QuiesceResult>) -> Option<String>
    decreases results.len(),
{
    if results.len() == 0 {
        None
    } else {
        match (first_failure(results.drop_last()), results.last().result) {
            (Some(e), _) => Some(e),
            (None, Err(e)) => Some(e),
            (None, Ok(_)) => None,
        }
    }
}

/// Parts what came of quiescing into the torrents whose tasks are quiet and the
/// first error. Where there is an error, those tasks go on and the plan is
/// refused.
pub fn collect_quiesce_results(results: Vec<QuiesceResult>) -> (r: (Vec<Quiesced>, Option<String>))
    ensures
        quiesced_views(r.0@) == quiet(results@),
        r.1 == first_failure(results@),
{
    let ghost all = results@;
    let mut rest = results;
    let mut quiesced: Vec<Quiesced> = Vec::new();
    let mut first: Option<String> = None;
    let ghost mut n: int = 0;
    proof {
        assert(all.skip(0) =~= all);
        assert(all.take(0) =~= Seq::<QuiesceResult>::empty());
        assert(quiesced_views(quiesced@) =~= Seq::<(Seq<char>, bool)>::empty());
    }
    while rest.len() > 0
        invariant
            0 <= n <= all.len(),
            rest@ == all.skip(n),
            quiesced_views(quiesced@) == quiet(all.take(n)),
            first == first_failure(all.take(n)),
        decreases rest@.len(),
    {
        let item = rest.remove(0);
        proof {
            assert(item == all[n]);
            assert(rest@ =~= all.skip(n + 1));
            assert(all.take(n + 1).drop_last() =~= all.take(n));
            assert(all.take(n + 1).last() == all[n]);
        }
        match item.result {
            Ok(was_paused) => {
                let ghost before = quiesced@;
                quiesced.push(Quiesced { info_hash: item.info_hash, was_paused });
                proof {
                    assert(quiesced_views(quiesced@) =~= quiesced_views(before).push(
                        (item.info_hash@, was_paused),
                    ));
                }
            },
            Err(error) => {
                if first.is_none() {
                    first = Some(error);
                }
            },
        }
        proof {
            n = n + 1;
        }
    }
    assert(all.take(n) =~= all);
    (quiesced, first)
}

/// What is known of a file that is to move.
pub enum PayloadProbe {
    /// It is not there: nothing moves.
    Missing,
    /// It could not be looked at.
    Failed { path: String, error: String },
    /// The plan for it.
    Planned(StoragePlan),
}

/// The first file that could not be looked at.
pub open spec fn probe_problem(probes: Seq<PayloadProbe>) -> Problem
    decreases probes.len(),
{
    if probes.len() == 0 {
        None
    } else {
        match (probe_problem(probes.drop_last()), probes.last()) {
            (Some(text), _) => Some(text),
            (None, PayloadProbe::Failed { path, error }) => Some(
                "failed to inspect payload source "@ + path@ + ": "@ + error@,
            ),
            (None, _) => None,
        }
    }
}

/// The steps of all plans, one after another.
pub open spec fn all_steps(probes: Seq<PayloadProbe>) -> Seq<StoragePlanStep>
    decreases probes.len(),
{
    if probes.len() == 0 {
        Seq::empty()
    } else {
        match probes.last() {
            PayloadProbe::Planned(plan) => all_steps(probes.drop_last()) + plan.steps@,
            _ => all_steps(probes.drop_last()),
        }
    }
}

/// The steps that undo all plans, one after another.
pub open spec fn all_rollback_steps(probes: Seq<PayloadProbe>) -> Seq<StoragePlanStep>
    decreases probes.len(),
{
    if probes.len() == 0 {
        Seq::empty()
    } else {
        match probes.last() {
            PayloadProbe::Planned(plan) => all_rollback_steps(probes.drop_last())
                + plan.rollback_steps@,
            _ => all_rollback_steps(probes.drop_last()),
        }
    }
}

/// What stands in the way of any plan.
pub open spec fn all_issues(probes: Seq<PayloadProbe>) -> Seq<PlanIssue>
    decreases probes.len(),
{
    if probes.len() == 0 {
        Seq::empty()
    } else {
        match probes.last() {
            PayloadProbe::Planned(plan) => all_issues(probes.drop_last()) + plan.issues@,
            _ => all_issues(probes.drop_last()),
        }
    }
}

proof fn lemma_probe_problem_stays(probes: Seq<PayloadProbe>, n: int)
    requires
        0 <= n <= probes.len(),
        probe_problem(probes.take(n)) is Some,
    ensures
        probe_problem(probes) == probe_problem(probes.take(n)),
    decreases probes.len() - n,
{
    if n < probes.len() {
        assert(probes.take(n + 1).drop_last() =~= probes.take(n));
        lemma_probe_problem_stays(probes, n + 1);
    } else {
        assert(probes.take(n) =~= probes);
    }
}

/// Puts the plans for the single files of a torrent together to one. It can be
/// applied where nothing stands in the way of any; without a step there is no
/// plan.
pub fn plan_torrent_payload_files(probes: Vec<PayloadProbe>) -> (r: CmdResult<Option<StoragePlan>>)
    ensures
        match probe_problem(probes@) {
            Some(text) => r matches Err(e) && e@ == text,
            None => match r {
                Err(_) => false,
                Ok(None) => all_steps(probes@).len() == 0,
                Ok(Some(plan)) => {
                    &&& all_steps(probes@).len() > 0
                    &&& plan.steps@ == all_steps(probes@)
                    &&& plan.rollback_steps@ == all_rollback_steps(probes@)
                    &&& plan.issues@ == all_issues(probes@)
                    &&& plan.can_apply == (all_issues(probes@).len() == 0)
                    &&& !plan.dry_run
                },
            },
        },
{
    let ghost all = probes@;
    let mut rest = probes;
    let mut steps: Vec<StoragePlanStep> = Vec::new();
    let mut rollback_steps: Vec<StoragePlanStep> = Vec::new();
    let mut issues: Vec<PlanIssue> = Vec::new();
    let ghost mut n: int = 0;
    proof {
        assert(all.skip(0) =~= all);
        assert(all.take(0) =~= Seq::<PayloadProbe>::empty());
    }
    while rest.len() > 0
        invariant
            0 <= n <= all.len(),
            all == probes@,
            rest@ == all.skip(n),
            probe_problem(all.take(n)) is None,
            steps@ == all_steps(all.take(n)),
            rollback_steps@ == all_rollback_steps(all.take(n)),
            issues@ == all_issues(all.take(n)),
        decreases rest@.len(),
    {
        let probe = rest.remove(0);
        proof {
            assert(probe == all[n]);
            assert(rest@ =~= all.skip(n + 1));
            assert(all.take(n + 1).drop_last() =~= all.take(n));
            assert(all.take(n + 1).last() == all[n]);
        }
        match probe {
            PayloadProbe::Missing => {},
            PayloadProbe::Failed { path, error } => {
                proof {
                    lemma_probe_problem_stays(all, n + 1);
                }
                return Err(
                    join4(
                        "failed to inspect payload source ",
                        path.as_str(),
                        ": ",
                        error.as_str(),
                    ),
                );
            },
            PayloadProbe::Planned(plan) => {
                let mut plan = plan;
                steps.append(&mut plan.steps);
                rollback_steps.append(&mut plan.rollback_steps);
                issues.append(&mut plan.issues);
            },
        }
        proof {
            n = n + 1;
        }
    }
    assert(all.take(n) =~= all);
    if steps.len() == 0 {
        return Ok(None);
    }
    let can_apply = issues.len() == 0;
    Ok(Some(StoragePlan { dry_run: false, can_apply, issues, steps, rollback_steps }))
}

impl PlanExecution {
    /// The plan after an outcome.
    pub open spec fn after(self, outcome: PlanOutcome) -> PlanExecution {
        PlanExecution { phase: plan_step(self, outcome).0, ..self }
    }

    /// The action that follows on an outcome.
    pub open spec fn told(self, outcome: PlanOutcome) -> PlanAction {
        plan_step(self, outcome).1
    }
}

/// A plan against which nothing speaks is checked, its torrents are brought into
/// order, checked and found idle, their tasks fall quiet, and then it is
/// queued and accepted under its job. Only for a move it is worked out where
/// the torrent moves.
pub proof fn law_sound_plans_are_queued(
    is_move: bool,
    checked: PlanOutcome,
    normalized: PlanOutcome,
    validated: PlanOutcome,
    idle: PlanOutcome,
    context: PlanOutcome,
    quiet: PlanOutcome,
    job_id: String,
)
    requires
        !(checked is Failed),
        !(normalized is Failed),
        !(validated is Failed),
        !(idle is Failed),
        !(context is Failed),
        !(quiet is Failed),
    ensures
        ({
            let queued = PlanOutcome::Queued { job_id };
            let m0 = PlanExecution { is_move, phase: PlanPhase::CheckingPlan };
            let m1 = m0.after(checked);
            let m2 = m1.after(normalized);
            let m3 = m2.after(validated);
            let m4 = m3.after(idle);
            let m5 = if is_move {
                m4.after(context)
            } else {
                m4
            };
            let m6 = m5.after(quiet);
            &&& m0.told(checked) is NormalizeTargets
            &&& m1.told(normalized) is ValidateTargets
            &&& m2.told(validated) is CheckIdle
            &&& is_move ==> m3.told(idle) is ReadMoveContext && m4.told(context) is Quiesce
            &&& !is_move ==> m3.told(idle) is Quiesce
            &&& m5.told(quiet) is Queue
            &&& m6.told(queued) == (PlanAction::Accepted { job_id, is_move })
            &&& m6.after(queued).phase == PlanPhase::Over
        }),
{
}

/// A plan that fails on the way is over, and what failed is told: as a plan that
/// cannot be applied, or as it was reported. Once tasks are quiet, they go on.
pub proof fn law_failed_plans_are_told(plan: PlanExecution, error: String)
    requires
        plan.phase != PlanPhase::Over,
    ensures
        plan.told(PlanOutcome::Failed(error)) == match plan.phase {
            PlanPhase::CheckingPlan => PlanAction::Refuse(PlanRefusal::CannotApply(error)),
            PlanPhase::Queueing => PlanAction::ResumeAndRefuse(PlanRefusal::Reported(error)),
            _ => PlanAction::Refuse(PlanRefusal::Reported(error)),
        },
        plan.after(PlanOutcome::Failed(error)).phase == PlanPhase::Over,
{
}

/// A task is reported quiet with how it was before, and only after it was found
/// out whether its torrent waits for its metadata. A torrent that does is
/// stored as paused first.
pub proof fn law_quiet_tasks_are_reported_as_they_were(
    placeholder: bool,
    was_paused: bool,
    stored: QuiesceOutcome,
    restored: QuiesceOutcome,
    error: String,
    resume_error: String,
)
    requires
        !(stored is Failed),
        !(restored is Failed),
    ensures
        ({
            let seen = QuiesceOutcome::Placeholder(placeholder);
            let quiet = QuiesceOutcome::Quiesced { was_paused };
            let failed = QuiesceOutcome::Failed(error);
            let (q1, a1) = quiesce_step(TaskQuiesce::LookingUp, seen);
            let (q2, a2) = quiesce_step(q1, quiet);
            &&& a1 is Quiesce
            &&& !placeholder ==> a2 == QuiesceAction::Report(Ok(was_paused))
            &&& placeholder ==> {
                let (q3, a3) = quiesce_step(q2, failed);
                &&& a2 is StorePaused
                &&& quiesce_step(q2, stored).1 == QuiesceAction::Report(Ok(was_paused))
                // A pause that cannot be stored is undone, and told.
                &&& a3 == (QuiesceAction::Restore { paused: was_paused })
                &&& quiesce_step(q3, restored).1 == QuiesceAction::Report(
                    Err(QuiesceFailure::NotStored(error)),
                )
                &&& quiesce_step(q3, QuiesceOutcome::Failed(resume_error)).1
                    == QuiesceAction::Report(
                    Err(QuiesceFailure::NotRestored { error, resume_error }),
                )
            }
            // A task that does not fall quiet is told as it was reported.
            &&& quiesce_step(TaskQuiesce::LookingUp, failed).1 == QuiesceAction::Report(
                Err(QuiesceFailure::Reported(error)),
            )
            &&& quiesce_step(q1, failed).1 == QuiesceAction::Report(
                Err(QuiesceFailure::Reported(error)),
            )
        }),
{
}

/// The tasks that are let go on after a plan are those that fell quiet, each with
/// how it was before, in order and no other.
pub proof fn law_quiet_lists_every_success(results: Seq<QuiesceResult>)
    ensures
        forall|i: int|
            0 <= i < results.len() ==> ((#[trigger] results[i]).result matches Ok(was_paused)
                ==> quiet(results).contains((results[i].info_hash@, was_paused))),
        forall|k: int|
            0 <= k < quiet(results).len() ==> exists|i: int|
                0 <= i < results.len() && (#[trigger] results[i]).info_hash@ == (
                #[trigger] quiet(results)[k]).0 && results[i].result == Ok::<bool, String>(
                    quiet(results)[k].1,
                ),
        quiet(results).len() <= results.len(),
        first_failure(results) is None ==> quiet(results).len() == results.len(),
    decreases results.len(),
{
    if results.len() > 0 {
        let before = results.drop_last();
        let n = results.len() - 1;
        law_quiet_lists_every_success(before);
        let q = quiet(results);
        assert forall|i: int| 0 <= i < results.len() implies ((#[trigger] results[i]).result matches
            Ok(was_paused) ==> q.contains((results[i].info_hash@, was_paused))) by {
            if let Ok(was_paused) = results[i].result {
                let item = (results[i].info_hash@, was_paused);
                if i < n {
                    assert(before[i] == results[i]);
                    assert(quiet(before).contains(item));
                    let k = choose|k: int| 0 <= k < quiet(before).len() && quiet(before)[k] == item;
                    assert(q[k] == item);
                } else {
                    assert(q[q.len() - 1] == item);
                }
            }
        }
        assert forall|k: int| 0 <= k < q.len() implies exists|i: int|
            0 <= i < results.len() && (#[trigger] results[i]).info_hash@ == (#[trigger] q[k]).0
                && results[i].result == Ok::<bool, String>(q[k].1) by {
            if k < quiet(before).len() {
                assert(q[k] == quiet(before)[k]);
                let i = choose|i: int|
                    0 <= i < before.len() && (#[trigger] before[i]).info_hash@ == quiet(before)[k].0
                        && before[i].result == Ok::<bool, String>(quiet(before)[k].1);
                assert(results[i] == before[i]);
            } else {
                assert(results[n].info_hash@ == q[k].0);
            }
        }
    }
}

/// The failure that a plan is refused with is the first one.
pub proof fn law_first_failure_comes_first(results: Seq<QuiesceResult>)
    ensures
        match first_failure(results) {
            Some(error) => exists|i: int|
                0 <= i < results.len() && (#[trigger] results[i]).result == Err::<bool, String>(
                    error,
                ) && forall|k: int| 0 <= k < i ==> (#[trigger] results[k]).result is Ok,
            None => forall|i: int| 0 <= i < results.len() ==> (#[trigger] results[i]).result is Ok,
        },
    decreases results.len(),
{
    if results.len() > 0 {
        let before = results.drop_last();
        let n = results.len() - 1;
        law_first_failure_comes_first(before);
        match first_failure(before) {
            Some(error) => {
                let i = choose|i: int|
                    0 <= i < before.len() && (#[trigger] before[i]).result == Err::<bool, String>(
                        error,
                    ) && forall|k: int| 0 <= k < i ==> (#[trigger] before[k]).result is Ok;
                assert(results[i] == before[i]);
                assert forall|k: int| 0 <= k < i implies (#[trigger] results[k]).result is Ok by {
                    assert(results[k] == before[k]);
                }
            },
            None => {
                assert forall|k: int| 0 <= k < n implies (#[trigger] results[k]).result is Ok by {
                    assert(results[k] == before[k]);
                }
                if results[n].result is Err {
                    assert(first_failure(results) == Some(results[n].result->Err_0));
                }
            },
        }
    }
}

/// What a list of quiesced tasks says of a torrent is the first entry for it.
pub proof fn law_quiesced_entry_is_the_torrents(list: Seq<(Seq<char>, bool)>, hash: Seq<char>)
    ensures
        match quiesced_of(list, hash) {
            Some(was_paused) => exists|i: int|
                0 <= i < list.len() && #[trigger] list[i] == (hash, was_paused) && forall|k: int|
                    0 <= k < i ==> (#[trigger] list[k]).0 != hash,
            None => forall|i: int| 0 <= i < list.len() ==> (#[trigger] list[i]).0 != hash,
        },
    decreases list.len(),
{
    if list.len() > 0 && list[0].0 != hash {
        let rest = list.skip(1);
        law_quiesced_entry_is_the_torrents(rest, hash);
        match quiesced_of(rest, hash) {
            Some(was_paused) => {
                let i = choose|i: int|
                    0 <= i < rest.len() && #[trigger] rest[i] == (hash, was_paused) && forall|k: int|
                        0 <= k < i ==> (#[trigger] rest[k]).0 != hash;
                assert(list[i + 1] == rest[i]);
                assert forall|k: int| 0 <= k < i + 1 implies (#[trigger] list[k]).0 != hash by {
                    if k > 0 {
                        assert(list[k] == rest[k - 1]);
                    }
                }
            },
            None => {
                assert forall|k: int| 0 <= k < list.len() implies (#[trigger] list[k]).0 != hash by {
                    if k > 0 {
                        assert(list[k] == rest[k - 1]);
                    }
                }
            },
        }
    } else if list.len() > 0 {
        assert(list[0] == (hash, list[0].1));
    }
}

/// The handle that a list gives for a torrent is that of the first entry for it.
pub proof fn law_handle_is_the_torrents(list: Seq<(String, u64)>, hash: Seq<char>)
    ensures
        match handle_of(list, hash) {
            Some(handle) => exists|i: int|
                0 <= i < list.len() && (#[trigger] list[i]).0@ == hash && list[i].1 == handle
                    && forall|k: int| 0 <= k < i ==> (#[trigger] list[k]).0@ != hash,
            None => forall|i: int| 0 <= i < list.len() ==> (#[trigger] list[i]).0@ != hash,
        },
    decreases list.len(),
{
    if list.len() > 0 && list[0].0@ != hash {
        let rest = list.skip(1);
        law_handle_is_the_torrents(rest, hash);
        match handle_of(rest, hash) {
            Some(handle) => {
                let i = choose|i: int|
                    0 <= i < rest.len() && (#[trigger] rest[i]).0@ == hash && rest[i].1 == handle
                        && forall|k: int| 0 <= k < i ==> (#[trigger] rest[k]).0@ != hash;
                assert(list[i + 1] == rest[i]);
                assert forall|k: int| 0 <= k < i + 1 implies (#[trigger] list[k]).0@ != hash by {
                    if k > 0 {
                        assert(list[k] == rest[k - 1]);
                    }
                }
            },
            None => {
                assert forall|k: int| 0 <= k < list.len() implies (#[trigger] list[k]).0@
                    != hash by {
                    if k > 0 {
                        assert(list[k] == rest[k - 1]);
                    }
                }
            },
        }
    } else if list.len() > 0 {
        assert(list[0].0@ == hash);
    }
}

/// A torrent is isolated because of a plan exactly where the plan was made for
/// no torrent in particular, or for the one that the session still shows.
pub proof fn law_only_unreplaced_torrents_are_isolated(
    torrents: Seq<String>,
    expected: Seq<(String, u64)>,
    current: Seq<Option<u64>>,
    i: int,
)
    requires
        torrents.len() == current.len(),
        0 <= i < torrents.len(),
    ensures
        isolated_places(torrents, expected, current).contains(i) <==> match handle_of(
            expected,
            torrents[i]@,
        ) {
            None => true,
            Some(handle) => current[i] == Some(handle),
        },
{
    lemma_isolated(torrents, expected, current, i);
}

proof fn lemma_isolated(
    torrents: Seq<String>,
    expected: Seq<(String, u64)>,
    current: Seq<Option<u64>>,
    i: int,
)
    requires
        torrents.len() <= current.len(),
    ensures
        isolated_places(torrents, expected, current).contains(i) <==> 0 <= i < torrents.len()
            && match handle_of(expected, torrents[i]@) {
            None => true,
            Some(handle) => current[i] == Some(handle),
        },
    decreases torrents.len(),
{
    if torrents.len() > 0 {
        let n = torrents.len() - 1;
        let before = isolated_places(torrents.drop_last(), expected, current);
        let after = isolated_places(torrents, expected, current);
        lemma_isolated(torrents.drop_last(), expected, current, i);
        assert(before.push(n).contains(i) <==> before.contains(i) || i == n) by {
            if before.contains(i) {
                let k = choose|k: int| 0 <= k < before.len() && before[k] == i;
                assert(before.push(n)[k] == i);
            }
            if i == n {
                assert(before.push(n)[before.len() as int] == n);
            }
        }
    }
}

/// The plan for a torrent is the plans for its files, one after another: what is
/// planned for two groups of files is what is planned for each.
pub proof fn law_plans_are_joined_in_order(a: Seq<PayloadProbe>, b: Seq<PayloadProbe>)
    ensures
        all_steps(a + b) == all_steps(a) + all_steps(b),
        all_rollback_steps(a + b) == all_rollback_steps(a) + all_rollback_steps(b),
        all_issues(a + b) == all_issues(a) + all_issues(b),
        probe_problem(a + b) == match probe_problem(a) {
            Some(text) => Some(text),
            None => probe_problem(b),
        },
    decreases b.len(),
{
    if b.len() == 0 {
        assert(a + b =~= a);
        assert(all_steps(a) + all_steps(b) =~= all_steps(a));
        assert(all_rollback_steps(a) + all_rollback_steps(b) =~= all_rollback_steps(a));
        assert(all_issues(a) + all_issues(b) =~= all_issues(a));
    } else {
        assert((a + b).drop_last() =~= a + b.drop_last());
        assert((a + b).last() == b.last());
        law_plans_are_joined_in_order(a, b.drop_last());
        assert(all_steps(a + b) =~= all_steps(a) + all_steps(b));
        assert(all_rollback_steps(a + b) =~= all_rollback_steps(a) + all_rollback_steps(b));
        assert(all_issues(a + b) =~= all_issues(a) + all_issues(b));
    }
}

/// One file brings the whole plan that was made for it, a file that is not there
/// brings nothing, and one that could not be looked at is the problem.
pub proof fn law_each_file_brings_its_plan(probe: PayloadProbe)
    ensures
        match probe {
            PayloadProbe::Missing => all_steps(seq![probe]).len() == 0 && all_rollback_steps(
                seq![probe],
            ).len() == 0 && all_issues(seq![probe]).len() == 0 && probe_problem(seq![probe])
                is None,
            PayloadProbe::Failed { path, error } => probe_problem(seq![probe]) matches Some(text)
                && error@.is_suffix_of(text),
            PayloadProbe::Planned(plan) => all_steps(seq![probe]) == plan.steps@
                && all_rollback_steps(seq![probe]) == plan.rollback_steps@ && all_issues(
                seq![probe],
            ) == plan.issues@ && probe_problem(seq![probe]) is None,
        },
{
    let one = seq![probe];
    let none = Seq::<PayloadProbe>::empty();
    assert(one.drop_last() =~= none);
    assert(one.last() == probe);
    assert(all_steps(none) =~= Seq::empty());
    assert(all_rollback_steps(none) =~= Seq::empty());
    assert(all_issues(none) =~= Seq::empty());
    assert(probe_problem(none) is None);
    assert(all_steps(one) =~= match probe {
        PayloadProbe::Planned(plan) => all_steps(none) + plan.steps@,
        _ => all_steps(none),
    });
    match probe {
        PayloadProbe::Missing => {},
        PayloadProbe::Failed { path, error } => {
            let text = "failed to inspect payload source "@ + path@ + ": "@ + error@;
            assert(probe_problem(one) == Some(text));
            assert(error@ =~= text.subrange(text.len() - error@.len(), text.len() as int));
        },
        PayloadProbe::Planned(plan) => {
            assert(all_steps(one) =~= plan.steps@);
            assert(all_rollback_steps(one) =~= plan.rollback_steps@);
            assert(all_issues(one) =~= plan.issues@);
        },
    }
}

/// After storage work a task goes on exactly where it was running before and its
/// torrent has not been replaced: one that is there is told, one that is not is
/// woken. A torrent that was paused stays paused.
pub proof fn law_only_running_tasks_go_on(
    expected: Option<u64>,
    current: Option<u64>,
    has_task: bool,
    placeholder: bool,
    unknown: ResumeStep,
    was_paused: ResumeStep,
    was_running: ResumeStep,
)
    requires
        call_ensures(
            resume_torrent_after_storage_move,
            (None::<bool>, expected, current, has_task, placeholder),
            unknown,
        ),
        call_ensures(
            resume_torrent_after_storage_move,
            (Some(true), expected, current, has_task, placeholder),
            was_paused,
        ),
        call_ensures(
            resume_torrent_after_storage_move,
            (Some(false), expected, current, has_task, placeholder),
            was_running,
        ),
    ensures
        unknown == ResumeStep::Nothing && was_paused == ResumeStep::Nothing,
        expected is Some && expected != current ==> was_running == ResumeStep::Nothing,
        expected is None || expected == current ==> if has_task {
            was_running == (ResumeStep::Tell { show_pending: placeholder })
        } else {
            was_running == ResumeStep::Wake
        },
{
}

/// A paused task is handed its new place exactly where the move took place and the
/// task is still that of the torrent.
pub proof fn law_paused_tasks_learn_their_new_place(
    quiesced: Option<bool>,
    expected: Option<u64>,
    current: Option<u64>,
    has_task: bool,
    committed: bool,
    r: bool,
)
    requires
        call_ensures(hands_over_save_path, (quiesced, expected, current, has_task, committed), r),
    ensures
        r ==> committed && has_task && quiesced == Some(true),
        expected is Some && expected != current ==> !r,
        committed && has_task && quiesced == Some(true) && (expected is None || expected
            == current) ==> r,
{
}

/// A torrent that was replaced is not isolated.
pub proof fn law_replaced_torrents_are_spared(
    expected: u64,
    current: Option<u64>,
    named: bool,
    any: bool,
)
    requires
        call_ensures(is_isolated, (Some(expected), current), named),
        call_ensures(is_isolated, (None::<u64>, current), any),
    ensures
        any,
        named <==> current == Some(expected),
{
}

/// What a plan waits for is what was last asked for, and it is over exactly when it is
/// accepted or refused.
pub proof fn law_plans_wait_for_what_they_ask(plan: PlanExecution, outcome: PlanOutcome)
    ensures
        ({
            let told = plan.told(outcome);
            let after = plan.after(outcome).phase;
            &&& told is CheckPlan <==> after is CheckingPlan
            &&& told is NormalizeTargets <==> after is Normalizing
            &&& told is ValidateTargets <==> after is Validating
            &&& told is CheckIdle <==> after is CheckingIdle
            &&& told is ReadMoveContext <==> after is ReadingMoveContext
            &&& told is Quiesce <==> after is Quiescing
            &&& told is Queue <==> after is Queueing
            &&& after is Over <==> told is Accepted || told is Refuse || told is ResumeAndRefuse
        }),
{
}

/// What the quieting of a task waits for is what was last asked for, and it is over
/// exactly when it is reported.
pub proof fn law_quieting_waits_for_what_it_asks(q: TaskQuiesce, outcome: QuiesceOutcome)
    ensures
        ({
            let told = quiesce_step(q, outcome).1;
            let after = quiesce_step(q, outcome).0;
            &&& told is LookUpPlaceholder <==> after is LookingUp
            &&& told is Quiesce <==> after is Quiescing
            &&& told is StorePaused <==> after is Storing
            &&& told is Restore <==> after is Restoring
            &&& after is Over <==> told is Report
        }),
{
}

/// A torrent is isolated exactly where it has not been replaced since the plan was made.
pub proof fn law_isolated_torrents_are_listed_in_order(
    torrents: Seq<String>,
    torrent: String,
    expected: Seq<(String, u64)>,
    current: Seq<Option<u64>>,
)
    ensures
        isolated_places(Seq::<String>::empty(), expected, current).len() == 0,
        ({
            let handle = handle_of(expected, torrent@);
            let before = isolated_places(torrents, expected, current);
            isolated_places(torrents.push(torrent), expected, current) == if handle is None || handle
                == current[torrents.len() as int] {
                before.push(torrents.len() as int)
            } else {
                before
            }
        }),
{
    assert(torrents.push(torrent).drop_last() =~= torrents);
}

} // verus!
