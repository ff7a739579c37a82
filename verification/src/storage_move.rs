//! What becomes of a storage move once the worker is done with the files: the
//! session shows the new place only after the filesystem does, and a job is
//! complete only after the session is.

use vstd::prelude::*;

use crate::job::JobState;
use crate::manual_recovery::{manual_recovery_reason, marked};
use crate::problem::CmdResult;
use crate::text::join3;

verus! {

/// What the worker reports of a move.
#[derive(Debug)]
pub struct MoveCompletion {
    pub info_hash: String,
    pub name: Option<String>,
    pub save_path: String,
    /// Whether the torrent was paused before its task was quiesced; nothing
    /// where it had no task.
    pub quiesced: Option<bool>,
    /// The torrent for which the move was made.
    pub torrent_handle: Option<u64>,
    pub succeeded: bool,
    pub terminal_state: JobState,
    pub error: Option<String>,
    pub requires_manual_recovery: bool,
    /// What marks a stored reason as one that needs an operator.
    pub manual_recovery_marker: String,
}

/// What is written to the event log at the end of a move.
#[derive(Clone, Copy, Debug, PartialEq, Eq, Structural)]
pub enum MoveEvent {
    /// The move needs an operator; the torrent's task is stopped.
    ManualRecoveryRequired,
    /// The move failed; the save path is unchanged.
    Failed,
    /// The files are moved, but the new path could not be stored.
    FilesystemCommittedDbFailed,
    /// The new path is stored, but the task did not take it.
    CommittedTaskHandoffFailed,
    /// The task has the new path, but the job could not be completed.
    CommittedJobCompletionFailed,
    Completed,
}

/// What is done, in this order, at the end of a move; then the result is
/// returned.
#[derive(Debug)]
pub struct MoveClosing {
    /// The state of the job to store, with its error.
    pub persist_terminal: Option<(JobState, Option<String>)>,
    /// The task takes up its work again unless it was paused before, under the
    /// path that is given or the old one. Failure is not an error any more.
    pub resume: Option<Option<String>>,
    /// The end of the move is tried again later.
    pub schedule_retry: bool,
    pub event: Option<MoveEvent>,
    pub result: CmdResult<()>,
}

/// What is to be done next.
#[derive(Debug)]
pub enum MoveAction {
    /// Look up which torrent is filed under the hash.
    LookUpHandle,
    /// Mark the job complete.
    CompleteJob,
    /// Stop the torrent's task, and store why an operator is needed.
    StopAndPersistManualRecovery { reason: String },
    /// Store the failed job where `fallback` is given, and show the torrent
    /// as one that needs an operator.
    MarkManualRecovery { reason: String, fallback: Option<String> },
    /// Show the new path in the session, and the new name where there is one.
    Publish { name: Option<String>, save_path: String },
    /// Store the new name and path.
    PersistProjection,
    /// Hand the new path to the torrent's task, and let the task go on unless it
    /// was paused before.
    HandOver { save_path: String },
    /// The move is over.
    Close(MoveClosing),
}

/// What came of an action.
#[derive(Debug)]
pub enum MoveOutcome {
    Handle(Option<u64>),
    Done,
    Failed(String),
    /// The torrent is not in the session any more.
    Missing,
}

/// How far the end of a move has come.
#[derive(Debug)]
pub enum MovePhase {
    LookingUp,
    /// The torrent was replaced; only the job is still completed.
    CompletingStale,
    PersistingManual { reason: String },
    MarkingManual,
    Publishing,
    Persisting,
    HandingOver,
    CompletingJob,
    Closed,
}

/// The end of a move.
pub struct StorageMoveFinish {
    completion: MoveCompletion,
    phase: MovePhase,
}

/// How far the end of a move has come, as a mathematical value.
pub enum Stage {
    LookingUp,
    CompletingStale,
    PersistingManual(Seq<char>),
    MarkingManual,
    Publishing,
    Persisting,
    HandingOver,
    CompletingJob,
    Closed,
}

/// An action as a mathematical value.
pub enum Act {
    LookUpHandle,
    CompleteJob,
    StopAndPersistManualRecovery(Seq<char>),
    MarkManualRecovery(Seq<char>, Option<Seq<char>>),
    Publish(Option<Seq<char>>, Seq<char>),
    PersistProjection,
    HandOver(Seq<char>),
    Close(Closing),
}

/// The end of a move as a mathematical value.
pub struct Closing {
    pub persist_terminal: Option<(JobState, Option<Seq<char>>)>,
    pub resume: Option<Option<Seq<char>>>,
    pub schedule_retry: bool,
    pub event: Option<MoveEvent>,
    pub result: Result<(), Seq<char>>,
}

/// The view of an optional text.
pub open spec fn text_view(text: Option<String>) -> Option<Seq<char>> {
    match text {
        Some(text) => Some(text@),
        None => None,
    }
}

/// The view of a result.
pub open spec fn result_view(r: CmdResult<()>) -> Result<(), Seq<char>> {
    match r {
        Ok(()) => Ok(()),
        Err(e) => Err(e@),
    }
}

impl View for MoveClosing {
    type V = Closing;

    open spec fn view(&self) -> Closing {
        Closing {
            persist_terminal: match self.persist_terminal {
                Some((state, error)) => Some((state, text_view(error))),
                None => None,
            },
            resume: match self.resume {
                Some(path) => Some(text_view(path)),
                None => None,
            },
            schedule_retry: self.schedule_retry,
            event: self.event,
            result: result_view(self.result),
        }
    }
}

impl View for MoveAction {
    type V = Act;

    open spec fn view(&self) -> Act {
        match self {
            MoveAction::LookUpHandle => Act::LookUpHandle,
            MoveAction::CompleteJob => Act::CompleteJob,
            MoveAction::StopAndPersistManualRecovery { reason } =>
                Act::StopAndPersistManualRecovery(reason@),
            MoveAction::MarkManualRecovery { reason, fallback } => Act::MarkManualRecovery(
                reason@,
                text_view(*fallback),
            ),
            MoveAction::Publish { name, save_path } => Act::Publish(text_view(*name), save_path@),
            MoveAction::PersistProjection => Act::PersistProjection,
            MoveAction::HandOver { save_path } => Act::HandOver(save_path@),
            MoveAction::Close(closing) => Act::Close(closing@),
        }
    }
}

impl MovePhase {
    pub open spec fn stage(self) -> Stage {
        match self {
            MovePhase::LookingUp => Stage::LookingUp,
            MovePhase::CompletingStale => Stage::CompletingStale,
            MovePhase::PersistingManual { reason } => Stage::PersistingManual(reason@),
            MovePhase::MarkingManual => Stage::MarkingManual,
            MovePhase::Publishing => Stage::Publishing,
            MovePhase::Persisting => Stage::Persisting,
            MovePhase::HandingOver => Stage::HandingOver,
            MovePhase::CompletingJob => Stage::CompletingJob,
            MovePhase::Closed => Stage::Closed,
        }
    }
}

/// Nothing but the result.
pub open spec fn closing(result: Result<(), Seq<char>>) -> Closing {
    Closing {
        persist_terminal: None,
        resume: None,
        schedule_retry: false,
        event: None,
        result,
    }
}

/// What the job is stored as: only a cancelled or failed job is stored here.
pub open spec fn terminal(state: JobState, error: Option<Seq<char>>) -> Option<
    (JobState, Option<Seq<char>>),
> {
    if state == JobState::Cancelled || state == JobState::Failed {
        Some((state, error))
    } else {
        None
    }
}

/// The worker reports a move whose files are in place, and whose job waits for
/// the session.
pub open spec fn is_commit(c: MoveCompletion) -> bool {
    c.succeeded && c.terminal_state == JobState::CommitPending
}

/// What is done for the torrent that the move was made for.
pub open spec fn proceed(c: MoveCompletion) -> (Stage, Act) {
    if c.terminal_state == JobState::Paused {
        // The job may go on: the torrent stays quiet.
        (Stage::Closed, Act::Close(closing(Ok(()))))
    } else if !c.succeeded && c.requires_manual_recovery {
        let reason = marked(
            c.manual_recovery_marker@,
            match c.error {
                Some(error) => error@,
                None => "storage move requires manual recovery"@,
            },
        );
        (Stage::PersistingManual(reason), Act::StopAndPersistManualRecovery(reason))
    } else if !c.succeeded {
        (
            Stage::Closed,
            Act::Close(
                Closing {
                    persist_terminal: terminal(c.terminal_state, text_view(c.error)),
                    resume: Some(None),
                    event: Some(MoveEvent::Failed),
                    ..closing(Ok(()))
                },
            ),
        )
    } else {
        (Stage::Publishing, Act::Publish(text_view(c.name), c.save_path@))
    }
}

/// The first action. A job that goes back to the queue is left alone: the
/// process is shutting down.
pub open spec fn first_step(c: MoveCompletion) -> (Stage, Act) {
    if c.terminal_state == JobState::Queued {
        (Stage::Closed, Act::Close(closing(Ok(()))))
    } else if c.torrent_handle is Some {
        (Stage::LookingUp, Act::LookUpHandle)
    } else {
        proceed(c)
    }
}

/// A failure after the files are in place: the rest is tried again later.
pub open spec fn committed_failure(error: Seq<char>, event: MoveEvent) -> Closing {
    Closing { schedule_retry: true, event: Some(event), ..closing(Err(error)) }
}

/// The action after an outcome.
pub open spec fn next_step(c: MoveCompletion, stage: Stage, outcome: MoveOutcome) -> (Stage, Act) {
    match (stage, outcome) {
        (Stage::LookingUp, MoveOutcome::Handle(current)) => if current == c.torrent_handle {
            proceed(c)
        } else if is_commit(c) {
            (Stage::CompletingStale, Act::CompleteJob)
        } else {
            (
                Stage::Closed,
                Act::Close(
                    Closing {
                        persist_terminal: if c.succeeded {
                            None
                        } else {
                            terminal(c.terminal_state, text_view(c.error))
                        },
                        ..closing(Ok(()))
                    },
                ),
            )
        },
        (Stage::CompletingStale, MoveOutcome::Failed(error)) => (
            Stage::Closed,
            Act::Close(Closing { schedule_retry: true, ..closing(Err(error@)) }),
        ),
        (Stage::CompletingStale, _) => (Stage::Closed, Act::Close(closing(Ok(())))),
        (Stage::PersistingManual(reason), MoveOutcome::Failed(error)) => (
            Stage::MarkingManual,
            Act::MarkManualRecovery(
                reason,
                Some(reason + "; failed to persist manual-recovery marker: "@ + error@),
            ),
        ),
        (Stage::PersistingManual(reason), _) => (
            Stage::MarkingManual,
            Act::MarkManualRecovery(reason, None),
        ),
        (Stage::MarkingManual, MoveOutcome::Failed(_)) => (
            Stage::Closed,
            Act::Close(closing(Ok(()))),
        ),
        (Stage::MarkingManual, _) => (
            Stage::Closed,
            Act::Close(
                Closing { event: Some(MoveEvent::ManualRecoveryRequired), ..closing(Ok(())) },
            ),
        ),
        (Stage::Publishing, MoveOutcome::Missing) => (
            Stage::Closed,
            Act::Close(
                Closing {
                    resume: Some(None),
                    ..closing(
                        Err("torrent "@ + c.info_hash@ + " disappeared during storage move"@),
                    )
                },
            ),
        ),
        (Stage::Publishing, _) => (Stage::Persisting, Act::PersistProjection),
        (Stage::Persisting, MoveOutcome::Failed(error)) => (
            Stage::Closed,
            Act::Close(
                Closing {
                    resume: Some(Some(c.save_path@)),
                    ..committed_failure(error@, MoveEvent::FilesystemCommittedDbFailed)
                },
            ),
        ),
        (Stage::Persisting, _) => (Stage::HandingOver, Act::HandOver(c.save_path@)),
        (Stage::HandingOver, MoveOutcome::Failed(error)) => (
            Stage::Closed,
            Act::Close(committed_failure(error@, MoveEvent::CommittedTaskHandoffFailed)),
        ),
        (Stage::HandingOver, _) => (Stage::CompletingJob, Act::CompleteJob),
        (Stage::CompletingJob, MoveOutcome::Failed(error)) => (
            Stage::Closed,
            Act::Close(committed_failure(error@, MoveEvent::CommittedJobCompletionFailed)),
        ),
        (Stage::CompletingJob, _) => (
            Stage::Closed,
            Act::Close(Closing { event: Some(MoveEvent::Completed), ..closing(Ok(())) }),
        ),
        (_, _) => (Stage::Closed, Act::Close(closing(Ok(())))),
    }
}

fn close(result: CmdResult<()>) -> (r: MoveClosing)
    ensures
        r@ == closing(result_view(result)),
{
    MoveClosing {
        persist_terminal: None,
        resume: None,
        schedule_retry: false,
        event: None,
        result,
    }
}

fn close_committed(error: String, event: MoveEvent) -> (r: MoveClosing)
    ensures
        r@ == committed_failure(error@, event),
{
    MoveClosing {
        persist_terminal: None,
        resume: None,
        schedule_retry: true,
        event: Some(event),
        result: Err(error),
    }
}

/// What a job is stored as at the end: only a cancelled or failed job.
pub fn terminal_state(state: JobState, error: &Option<String>) -> (r: Option<
    (JobState, Option<String>),
>)
    ensures
        match terminal(state, text_view(*error)) {
            Some((s, e)) => r matches Some((t, f)) && t == s && text_view(f) == e,
            None => r is None,
        },
{
    if state == JobState::Cancelled || state == JobState::Failed {
        Some((state, error.clone()))
    } else {
        None
    }
}

impl StorageMoveFinish {
    pub closed spec fn completion(&self) -> MoveCompletion {
        self.completion
    }

    pub closed spec fn stage(&self) -> Stage {
        self.phase.stage()
    }

    /// Starts on the end of a move.
    pub fn begin(completion: MoveCompletion) -> (r: (Self, MoveAction))
        ensures
            r.0.completion() == completion,
            (r.0.stage(), r.1@) == first_step(completion),
    {
        let mut finish = StorageMoveFinish { completion, phase: MovePhase::Closed };
        if finish.completion.terminal_state == JobState::Queued {
            return (finish, MoveAction::Close(close(Ok(()))));
        }
        if finish.completion.torrent_handle.is_some() {
            finish.phase = MovePhase::LookingUp;
            return (finish, MoveAction::LookUpHandle);
        }
        let action = finish.proceed();
        (finish, action)
    }

    fn proceed(&mut self) -> (r: MoveAction)
        ensures
            final(self).completion() == old(self).completion(),
            (final(self).stage(), r@) == proceed(old(self).completion()),
    {
        if self.completion.terminal_state == JobState::Paused {
            self.phase = MovePhase::Closed;
            return MoveAction::Close(close(Ok(())));
        }
        if !self.completion.succeeded {
            if self.completion.requires_manual_recovery {
                let error = match &self.completion.error {
                    Some(error) => error.as_str(),
                    None => "storage move requires manual recovery",
                };
                let reason = manual_recovery_reason(
                    self.completion.manual_recovery_marker.as_str(),
                    error,
                );
                self.phase = MovePhase::PersistingManual { reason: reason.clone() };
                return MoveAction::StopAndPersistManualRecovery { reason };
            }
            self.phase = MovePhase::Closed;
            return MoveAction::Close(
                MoveClosing {
                    persist_terminal: terminal_state(
                        self.completion.terminal_state,
                        &self.completion.error,
                    ),
                    resume: Some(None),
                    schedule_retry: false,
                    event: Some(MoveEvent::Failed),
                    result: Ok(()),
                },
            );
        }
        self.phase = MovePhase::Publishing;
        MoveAction::Publish {
            name: self.completion.name.clone(),
            save_path: self.completion.save_path.clone(),
        }
    }

    /// Takes the outcome of the last action, and tells the next one.
    pub fn next(&mut self, outcome: MoveOutcome) -> (r: MoveAction)
        ensures
            final(self).completion() == old(self).completion(),
            (final(self).stage(), r@) == next_step(
                old(self).completion(),
                old(self).stage(),
                outcome,
            ),
    {
        let mut phase = MovePhase::Closed;
        std::mem::swap(&mut phase, &mut self.phase);
        match (phase, outcome) {
            (MovePhase::LookingUp, MoveOutcome::Handle(current)) => {
                if current == self.completion.torrent_handle {
                    return self.proceed();
                }
                if self.completion.succeeded && self.completion.terminal_state
                    == JobState::CommitPending {
                    self.phase = MovePhase::CompletingStale;
                    return MoveAction::CompleteJob;
                }
                MoveAction::Close(
                    MoveClosing {
                        persist_terminal: if self.completion.succeeded {
                            None
                        } else {
                            terminal_state(self.completion.terminal_state, &self.completion.error)
                        },
                        resume: None,
                        schedule_retry: false,
                        event: None,
                        result: Ok(()),
                    },
                )
            },
            (MovePhase::CompletingStale, MoveOutcome::Failed(error)) => MoveAction::Close(
                MoveClosing {
                    persist_terminal: None,
                    resume: None,
                    schedule_retry: true,
                    event: None,
                    result: Err(error),
                },
            ),
            (MovePhase::CompletingStale, _) => MoveAction::Close(close(Ok(()))),
            (MovePhase::PersistingManual { reason }, MoveOutcome::Failed(error)) => {
                self.phase = MovePhase::MarkingManual;
                let fallback = join3(
                    reason.as_str(),
                    "; failed to persist manual-recovery marker: ",
                    error.as_str(),
                );
                MoveAction::MarkManualRecovery { reason, fallback: Some(fallback) }
            },
            (MovePhase::PersistingManual { reason }, _) => {
                self.phase = MovePhase::MarkingManual;
                MoveAction::MarkManualRecovery { reason, fallback: None }
            },
            (MovePhase::MarkingManual, MoveOutcome::Failed(_)) => MoveAction::Close(close(Ok(()))),
            (MovePhase::MarkingManual, _) => MoveAction::Close(
                MoveClosing {
                    persist_terminal: None,
                    resume: None,
                    schedule_retry: false,
                    event: Some(MoveEvent::ManualRecoveryRequired),
                    result: Ok(()),
                },
            ),
            (MovePhase::Publishing, MoveOutcome::Missing) => MoveAction::Close(
                MoveClosing {
                    persist_terminal: None,
                    resume: Some(None),
                    schedule_retry: false,
                    event: None,
                    result: Err(
                        join3(
                            "torrent ",
                            self.completion.info_hash.as_str(),
                            " disappeared during storage move",
                        ),
                    ),
                },
            ),
            (MovePhase::Publishing, _) => {
                self.phase = MovePhase::Persisting;
                MoveAction::PersistProjection
            },
            (MovePhase::Persisting, MoveOutcome::Failed(error)) => MoveAction::Close(
                MoveClosing {
                    persist_terminal: None,
                    resume: Some(Some(self.completion.save_path.clone())),
                    schedule_retry: true,
                    event: Some(MoveEvent::FilesystemCommittedDbFailed),
                    result: Err(error),
                },
            ),
            (MovePhase::Persisting, _) => {
                self.phase = MovePhase::HandingOver;
                MoveAction::HandOver { save_path: self.completion.save_path.clone() }
            },
            (MovePhase::HandingOver, MoveOutcome::Failed(error)) => MoveAction::Close(
                close_committed(error, MoveEvent::CommittedTaskHandoffFailed),
            ),
            (MovePhase::HandingOver, _) => {
                self.phase = MovePhase::CompletingJob;
                MoveAction::CompleteJob
            },
            (MovePhase::CompletingJob, MoveOutcome::Failed(error)) => MoveAction::Close(
                close_committed(error, MoveEvent::CommittedJobCompletionFailed),
            ),
            (MovePhase::CompletingJob, _) => MoveAction::Close(
                MoveClosing {
                    persist_terminal: None,
                    resume: None,
                    schedule_retry: false,
                    event: Some(MoveEvent::Completed),
                    result: Ok(()),
                },
            ),
            (_, _) => MoveAction::Close(close(Ok(()))),
        }
    }
}

/// Where the end of a move stands after a run of outcomes.
pub open spec fn stage_after(c: MoveCompletion, outcomes: Seq<MoveOutcome>) -> Stage
    decreases outcomes.len(),
{
    if outcomes.len() == 0 {
        first_step(c).0
    } else {
        next_step(c, stage_after(c, outcomes.drop_last()), outcomes.last()).0
    }
}

proof fn lemma_stages(c: MoveCompletion, outcomes: Seq<MoveOutcome>)
    ensures
        ({
            let n = outcomes.len();
            let stage = stage_after(c, outcomes);
            &&& (stage is Publishing ==> c.succeeded)
            &&& (stage is Persisting ==> c.succeeded && n >= 1 && !(outcomes[n - 1] is Missing))
            &&& (stage is HandingOver ==> c.succeeded && n >= 2 && !(outcomes[n - 2] is Missing)
                && !(outcomes[n - 1] is Failed))
            &&& (stage is CompletingJob ==> c.succeeded && n >= 3 && !(outcomes[n - 3] is Missing)
                && !(outcomes[n - 2] is Failed) && !(outcomes[n - 1] is Failed))
            &&& (stage is CompletingStale ==> is_commit(c))
        }),
    decreases outcomes.len(),
{
    if outcomes.len() > 0 {
        let front = outcomes.drop_last();
        lemma_stages(c, front);
        assert(outcomes.last() == outcomes[outcomes.len() - 1]);
    }
}

/// A job is marked complete only once everything before it has succeeded: the
/// session shows the new place, the database stores it, and the task has it.
/// The one other case is a move whose torrent was replaced: there is nothing
/// left to show.
pub proof fn law_job_completes_last(c: MoveCompletion, outcomes: Seq<MoveOutcome>)
    ensures
        stage_after(c, outcomes) is CompletingJob ==> {
            let n = outcomes.len();
            &&& c.succeeded
            &&& n >= 3
            &&& !(outcomes[n - 3] is Missing)
            &&& !(outcomes[n - 2] is Failed)
            &&& !(outcomes[n - 1] is Failed)
        },
        stage_after(c, outcomes) is CompletingStale ==> is_commit(c),
{
    lemma_stages(c, outcomes);
}

/// A move that did not succeed never shows a new path: nothing is published,
/// stored or handed over, and no task is resumed under it.
pub proof fn law_failed_move_keeps_the_old_path(
    c: MoveCompletion,
    outcomes: Seq<MoveOutcome>,
    outcome: MoveOutcome,
)
    requires
        !c.succeeded,
    ensures
        ({
            let act = next_step(c, stage_after(c, outcomes), outcome).1;
            &&& !(act is Publish) && !(act is PersistProjection) && !(act is HandOver) && !(
            act is CompleteJob)
            &&& act matches Act::Close(end) ==> !(end.resume matches Some(Some(_)))
                && !end.schedule_retry
        }),
{
    lemma_stages(c, outcomes);
}

/// Once the files are in place, a failure is never final: the rest is tried
/// again, and the failure is reported.
pub proof fn law_committed_move_is_retried(
    c: MoveCompletion,
    stage: Stage,
    error: String,
)
    requires
        stage is Persisting || stage is HandingOver || stage is CompletingJob || stage
            is CompletingStale,
    ensures
        next_step(c, stage, MoveOutcome::Failed(error)).1 matches Act::Close(end)
            && end.schedule_retry && end.result == Err::<(), Seq<char>>(error@),
{
}

/// The completion of a move whose torrent was replaced touches neither the
/// session nor a task.
pub proof fn law_stale_move_touches_nothing(c: MoveCompletion, current: Option<u64>)
    requires
        c.torrent_handle is Some,
        current != c.torrent_handle,
    ensures
        next_step(c, Stage::LookingUp, MoveOutcome::Handle(current)).1 matches Act::CompleteJob
            || (next_step(c, Stage::LookingUp, MoveOutcome::Handle(current)).1 matches Act::Close(
            end,
        ) && end.resume is None && end.event is None),
{
}

/// Every step of the end of a move that names a place names the place that the
/// move was made to: what is shown, what the task is told, and what it goes on
/// with. The name that is shown is the one that the move was made with.
pub proof fn law_one_destination(c: MoveCompletion, stage: Stage, outcome: MoveOutcome)
    ensures
        ({
            let act = next_step(c, stage, outcome).1;
            &&& act matches Act::HandOver(path) ==> path == c.save_path@
            &&& act matches Act::Publish(name, path) ==> path == c.save_path@ && (match c.name {
                Some(given) => name == Some(given@),
                None => name is None,
            })
            &&& act matches Act::Close(end) ==> (end.resume matches Some(Some(path)) ==> path
                == c.save_path@)
        }),
        ({
            let act = first_step(c).1;
            &&& !(act is HandOver)
            &&& act matches Act::Publish(name, path) ==> path == c.save_path@ && (match c.name {
                Some(given) => name == Some(given@),
                None => name is None,
            })
            &&& act matches Act::Close(end) ==> !(end.resume matches Some(Some(_)))
        }),
{
}

/// A move whose files are in place, of a torrent that is still the one it was
/// made for, is shown, stored, handed to the task and only then completed; its
/// place is the same all along.
pub proof fn law_committed_move_runs_to_its_end(
    c: MoveCompletion,
    shown: MoveOutcome,
    stored: MoveOutcome,
    told: MoveOutcome,
    completed: MoveOutcome,
)
    requires
        c.succeeded,
        c.terminal_state == JobState::CommitPending || c.terminal_state == JobState::Completed,
        c.torrent_handle is Some,
        !(shown is Missing),
        !(stored is Failed),
        !(told is Failed),
        !(completed is Failed),
    ensures
        ({
            let same = MoveOutcome::Handle(c.torrent_handle);
            let s0 = first_step(c).0;
            let s1 = next_step(c, s0, same).0;
            let s2 = next_step(c, s1, shown).0;
            let s3 = next_step(c, s2, stored).0;
            let s4 = next_step(c, s3, told).0;
            &&& first_step(c).1 is LookUpHandle
            &&& next_step(c, s0, same).1 matches Act::Publish(_, path) && path == c.save_path@
            &&& next_step(c, s1, shown).1 is PersistProjection
            &&& next_step(c, s2, stored).1 matches Act::HandOver(path) && path == c.save_path@
            &&& next_step(c, s3, told).1 is CompleteJob
            &&& next_step(c, s4, completed).1 matches Act::Close(end) && end.result is Ok
                && end.event == Some(MoveEvent::Completed) && !end.schedule_retry
                && end.persist_terminal is None && end.resume is None
            &&& next_step(c, s4, completed).0 is Closed
        }),
{
}

/// Where a move whose files are in place fails afterwards, what failed is told,
/// the end is tried again, and the task goes on in the new place if it does at
/// all. Each step has its own event.
pub proof fn law_late_failures_are_retried(c: MoveCompletion, error: String)
    ensures
        ({
            let failed = MoveOutcome::Failed(error);
            &&& next_step(c, Stage::Persisting, failed).1 matches Act::Close(end) && end.result
                == Err::<(), Seq<char>>(error@) && end.schedule_retry && end.event == Some(
                MoveEvent::FilesystemCommittedDbFailed,
            ) && end.resume == Some(Some(c.save_path@)) && end.persist_terminal is None
            &&& next_step(c, Stage::HandingOver, failed).1 matches Act::Close(end) && end.result
                == Err::<(), Seq<char>>(error@) && end.schedule_retry && end.event == Some(
                MoveEvent::CommittedTaskHandoffFailed,
            ) && end.resume is None && end.persist_terminal is None
            &&& next_step(c, Stage::CompletingJob, failed).1 matches Act::Close(end) && end.result
                == Err::<(), Seq<char>>(error@) && end.schedule_retry && end.event == Some(
                MoveEvent::CommittedJobCompletionFailed,
            ) && end.resume is None && end.persist_terminal is None
            &&& next_step(c, Stage::CompletingStale, failed).1 matches Act::Close(end)
                && end.result == Err::<(), Seq<char>>(error@) && end.schedule_retry && end.event
                is None && end.resume is None && end.persist_terminal is None
        }),
{
}

/// A move that failed leaves the torrent where it was: its task goes on in the
/// old place, the failure is noted, and a job that failed or was cancelled is
/// stored so with its error.
pub proof fn law_failed_move_lets_the_task_go_on(c: MoveCompletion)
    requires
        !c.succeeded,
        !c.requires_manual_recovery,
        c.terminal_state != JobState::Queued,
        c.terminal_state != JobState::Paused,
        c.torrent_handle is Some,
    ensures
        ({
            let act = next_step(c, first_step(c).0, MoveOutcome::Handle(c.torrent_handle)).1;
            act matches Act::Close(end) && {
                &&& end.resume == Some(None::<Seq<char>>)
                &&& end.event == Some(MoveEvent::Failed)
                &&& end.result is Ok
                &&& !end.schedule_retry
                &&& (c.terminal_state == JobState::Failed || c.terminal_state
                    == JobState::Cancelled) ==> (end.persist_terminal matches Some((state, text))
                    && state == c.terminal_state && match c.error {
                    Some(error) => text == Some(error@),
                    None => text is None,
                })
                &&& !(c.terminal_state == JobState::Failed || c.terminal_state
                    == JobState::Cancelled) ==> end.persist_terminal is None
            }
        }),
{
}

/// A job that may still go on keeps the torrent quiet: nothing is done and no
/// task goes on while it waits in the queue or is paused.
pub proof fn law_waiting_moves_keep_quiet(c: MoveCompletion)
    requires
        c.terminal_state == JobState::Queued || c.terminal_state == JobState::Paused,
    ensures
        ({
            let act = if c.terminal_state == JobState::Paused && c.torrent_handle is Some {
                next_step(c, first_step(c).0, MoveOutcome::Handle(c.torrent_handle)).1
            } else {
                first_step(c).1
            };
            act matches Act::Close(end) && end.resume is None && end.persist_terminal is None
                && end.event is None && !end.schedule_retry && end.result is Ok
        }),
{
}

/// A move that left files that nobody can vouch for stops the torrent, stores
/// why under the operators' mark, shows it, and never lets the task go on.
pub proof fn law_ambiguous_move_calls_an_operator(
    c: MoveCompletion,
    stored: MoveOutcome,
    shown: MoveOutcome,
    error: String,
)
    requires
        !c.succeeded,
        c.requires_manual_recovery,
        c.terminal_state != JobState::Queued,
        c.terminal_state != JobState::Paused,
        c.torrent_handle is None,
        !(stored is Failed),
        !(shown is Failed),
    ensures
        ({
            let (s0, a0) = first_step(c);
            let failed = MoveOutcome::Failed(error);
            &&& a0 matches Act::StopAndPersistManualRecovery(reason) && {
                &&& c.manual_recovery_marker@.is_prefix_of(reason)
                &&& c.error matches Some(why) ==> why@.is_suffix_of(reason)
                &&& next_step(c, s0, stored).1 == Act::MarkManualRecovery(reason, None)
                &&& next_step(c, s0, failed).1 matches Act::MarkManualRecovery(again, Some(text))
                    && again == reason && reason.is_prefix_of(text) && error@.is_suffix_of(text)
            }
            &&& next_step(c, next_step(c, s0, stored).0, shown).1 matches Act::Close(end)
                && end.event == Some(MoveEvent::ManualRecoveryRequired) && end.resume is None
                && end.result is Ok && !end.schedule_retry
            &&& next_step(c, next_step(c, s0, stored).0, failed).1 matches Act::Close(end)
                && end.event is None && end.resume is None && end.result is Ok
        }),
{
    let (s0, a0) = first_step(c);
    let why = match c.error {
        Some(error) => error@,
        None => "storage move requires manual recovery"@,
    };
    let reason = c.manual_recovery_marker@ + why;
    assert(a0 == Act::StopAndPersistManualRecovery(reason));
    assert(c.manual_recovery_marker@ =~= reason.subrange(
        0,
        c.manual_recovery_marker@.len() as int,
    ));
    assert(why =~= reason.subrange(reason.len() - why.len(), reason.len() as int));
    let text = reason + "; failed to persist manual-recovery marker: "@ + error@;
    assert(reason =~= text.subrange(0, reason.len() as int));
    assert(error@ =~= text.subrange(text.len() - error@.len(), text.len() as int));
}

/// A torrent that is gone from the session when its move is to be shown is told
/// so, and its task goes on as before.
pub proof fn law_vanished_torrents_are_told(c: MoveCompletion)
    ensures
        next_step(c, Stage::Publishing, MoveOutcome::Missing).1 matches Act::Close(end)
            && end.result is Err && end.resume == Some(None::<Seq<char>>) && end.event is None
            && !end.schedule_retry && end.persist_terminal is None,
{
}

/// The move of a torrent that has been replaced only has its job settled: a
/// commit is completed, a failure is stored, and nothing else happens.
pub proof fn law_replaced_torrents_only_settle_the_job(c: MoveCompletion, current: Option<u64>)
    requires
        c.torrent_handle is Some,
        current != c.torrent_handle,
        c.terminal_state != JobState::Queued,
    ensures
        ({
            let (stage, act) = next_step(c, Stage::LookingUp, MoveOutcome::Handle(current));
            let commit = c.succeeded && c.terminal_state == JobState::CommitPending;
            &&& commit ==> act is CompleteJob
            &&& commit ==> (next_step(c, stage, MoveOutcome::Done).1 matches Act::Close(end)
                && end.result is Ok && end.resume is None && end.event is None
                && end.persist_terminal is None && !end.schedule_retry)
            &&& !commit ==> (act matches Act::Close(end) && end.result is Ok && end.resume is None
                && end.event is None && !end.schedule_retry && (end.persist_terminal is Some
                <==> !c.succeeded && (c.terminal_state == JobState::Failed || c.terminal_state
                == JobState::Cancelled)))
        }),
{
}

/// What the end of a move waits for is what was last asked for, and it is over exactly
/// when it is closed.
pub proof fn law_finished_moves_wait_for_what_they_ask(c: MoveCompletion, stage: Stage, outcome: MoveOutcome)
    ensures
        ({
            let told = next_step(c, stage, outcome).1;
            let after = next_step(c, stage, outcome).0;
            &&& told is LookUpHandle <==> after is LookingUp
            &&& told is CompleteJob <==> after is CompletingStale || after is CompletingJob
            &&& told is StopAndPersistManualRecovery <==> after is PersistingManual
            &&& told is MarkManualRecovery <==> after is MarkingManual
            &&& told is Publish <==> after is Publishing
            &&& told is PersistProjection <==> after is Persisting
            &&& told is HandOver <==> after is HandingOver
            &&& after is Closed <==> told is Close
        }),
{
}

/// Every phase has a stage of its own, and every action is told as what it is: what
/// is handed over and published are the paths and names of the action itself.
pub proof fn law_stages_and_actions_are_told_as_they_are(phase: MovePhase, action: MoveAction)
    ensures
        phase is LookingUp <==> phase.stage() is LookingUp,
        phase is CompletingStale <==> phase.stage() is CompletingStale,
        phase is PersistingManual <==> phase.stage() is PersistingManual,
        phase is MarkingManual <==> phase.stage() is MarkingManual,
        phase is Publishing <==> phase.stage() is Publishing,
        phase is Persisting <==> phase.stage() is Persisting,
        phase is HandingOver <==> phase.stage() is HandingOver,
        phase is CompletingJob <==> phase.stage() is CompletingJob,
        phase is Closed <==> phase.stage() is Closed,
        phase matches MovePhase::PersistingManual { reason } ==> phase.stage()
            == Stage::PersistingManual(reason@),
        action is LookUpHandle <==> action@ is LookUpHandle,
        action is CompleteJob <==> action@ is CompleteJob,
        action is PersistProjection <==> action@ is PersistProjection,
        action is MarkManualRecovery <==> action@ is MarkManualRecovery,
        action is StopAndPersistManualRecovery <==> action@ is StopAndPersistManualRecovery,
        action is Close <==> action@ is Close,
        action matches MoveAction::HandOver { save_path } ==> action@ == Act::HandOver(save_path@),
        action matches MoveAction::Publish { name, save_path } ==> (action@ matches Act::Publish(
            n,
            p,
        ) && p == save_path@ && (name matches Some(given) ==> n == Some(given@)) && (name is None
            ==> n is None)),
{
}

/// A move hands over and publishes the place that its completion names, and goes on
/// with the same completion.
pub proof fn law_moves_end_where_they_were_sent(outcome: MoveOutcome)
    ensures
        forall|m: &mut StorageMoveFinish, r: MoveAction| #[trigger]
            call_ensures(StorageMoveFinish::next, (m, outcome), r) ==> {
                &&& final(m).completion() == m.completion()
                &&& r matches MoveAction::HandOver { save_path } ==> save_path@
                    == m.completion().save_path@
                &&& r matches MoveAction::Publish { save_path, .. } ==> save_path@
                    == m.completion().save_path@
            },
{
}

} // verus!
