//! What becomes of a torrent once the worker is done deleting its payload: the
//! torrent disappears from the session only after its payload and its
//! metadata are gone.

use vstd::prelude::*;

use crate::job::JobState;
use crate::manual_recovery::{manual_recovery_reason, marked};
use crate::problem::CmdResult;
use crate::storage_move::{result_view, terminal, terminal_state, text_view};
use crate::text::{join2, join3};

verus! {

/// What the worker reports of a deletion.
#[derive(Debug)]
pub struct StorageDeleteCompletion {
    pub succeeded: bool,
    pub terminal_state: JobState,
    pub error: Option<String>,
    pub requires_manual_recovery: bool,
    /// What marks a stored reason as one that needs an operator.
    pub manual_recovery_marker: String,
    /// The torrent whose payload was to be deleted.
    pub quiesced_handle: Option<u64>,
}

/// What is done, in this order, at the end of a deletion; then the result is
/// returned.
#[derive(Debug)]
pub struct DeleteClosing {
    /// Commands to the torrent are accepted again.
    pub release_guard: bool,
    /// The state of the job to store, with its error.
    pub persist_terminal: Option<(JobState, Option<String>)>,
    /// The tasks that were quiesced take up their work again.
    pub resume: bool,
    /// The failed removal is written to the event log.
    pub report_failure: bool,
    /// The end of the deletion is tried again later.
    pub schedule_retry: bool,
    pub result: CmdResult<()>,
}

/// What is to be done next.
#[derive(Debug)]
pub enum DeleteAction {
    /// Look up which torrent is filed under the hash.
    LookUpHandle,
    /// Accept commands to the torrent that took the place, and mark the job
    /// complete.
    ReleaseAndCompleteJob,
    /// Stop the torrent's task, and store why an operator is needed.
    StopAndPersistManualRecovery { reason: String },
    /// Store the failed job where `fallback` is given, and show the torrent
    /// as one that needs an operator.
    MarkManualRecovery { reason: String, fallback: Option<String> },
    /// Accept commands again, stop the task, and delete the torrent's
    /// metadata.
    DeleteMetadata,
    /// Store why an operator is needed: the metadata could not be deleted.
    PersistManualRecovery { reason: String },
    /// Take the torrent out of the session, and mark the job complete where
    /// `complete_job` is set.
    Forget { complete_job: bool },
    /// The deletion is over.
    Close(DeleteClosing),
}

/// What came of an action.
#[derive(Debug)]
pub enum DeleteOutcome {
    Handle(Option<u64>),
    Done,
    Failed(String),
}

/// How far the end of a deletion has come.
#[derive(Debug)]
pub enum DeletePhase {
    LookingUp,
    CompletingStale,
    PersistingManual { reason: String },
    MarkingManual,
    DeletingMetadata,
    /// The metadata could not be deleted; an operator is called.
    PersistingCleanup { reason: String, error: String },
    MarkingCleanup { error: String },
    Forgetting,
    Closed,
}

/// The end of a deletion.
pub struct StorageDeleteFinish {
    completion: StorageDeleteCompletion,
    phase: DeletePhase,
}

/// How far the end of a deletion has come, as a mathematical value.
pub enum DeleteStage {
    LookingUp,
    CompletingStale,
    PersistingManual(Seq<char>),
    MarkingManual,
    DeletingMetadata,
    PersistingCleanup(Seq<char>, Seq<char>),
    MarkingCleanup(Seq<char>),
    Forgetting,
    Closed,
}

/// An action as a mathematical value.
pub enum DeleteAct {
    LookUpHandle,
    ReleaseAndCompleteJob,
    StopAndPersistManualRecovery(Seq<char>),
    MarkManualRecovery(Seq<char>, Option<Seq<char>>),
    DeleteMetadata,
    PersistManualRecovery(Seq<char>),
    Forget(bool),
    Close(DeleteEnd),
}

/// The end of a deletion as a mathematical value.
pub struct DeleteEnd {
    pub release_guard: bool,
    pub persist_terminal: Option<(JobState, Option<Seq<char>>)>,
    pub resume: bool,
    pub report_failure: bool,
    pub schedule_retry: bool,
    pub result: Result<(), Seq<char>>,
}

impl View for DeleteClosing {
    type V = DeleteEnd;

    open spec fn view(&self) -> DeleteEnd {
        DeleteEnd {
            release_guard: self.release_guard,
            persist_terminal: match self.persist_terminal {
                Some((state, error)) => Some((state, text_view(error))),
                None => None,
            },
            resume: self.resume,
            report_failure: self.report_failure,
            schedule_retry: self.schedule_retry,
            result: result_view(self.result),
        }
    }
}

impl View for DeleteAction {
    type V = DeleteAct;

    open spec fn view(&self) -> DeleteAct {
        match self {
            DeleteAction::LookUpHandle => DeleteAct::LookUpHandle,
            DeleteAction::ReleaseAndCompleteJob => DeleteAct::ReleaseAndCompleteJob,
            DeleteAction::StopAndPersistManualRecovery { reason } =>
                DeleteAct::StopAndPersistManualRecovery(reason@),
            DeleteAction::MarkManualRecovery { reason, fallback } => DeleteAct::MarkManualRecovery(
                reason@,
                text_view(*fallback),
            ),
            DeleteAction::DeleteMetadata => DeleteAct::DeleteMetadata,
            DeleteAction::PersistManualRecovery { reason } => DeleteAct::PersistManualRecovery(
                reason@,
            ),
            DeleteAction::Forget { complete_job } => DeleteAct::Forget(*complete_job),
            DeleteAction::Close(closing) => DeleteAct::Close(closing@),
        }
    }
}

impl DeletePhase {
    pub open spec fn stage(self) -> DeleteStage {
        match self {
            DeletePhase::LookingUp => DeleteStage::LookingUp,
            DeletePhase::CompletingStale => DeleteStage::CompletingStale,
            DeletePhase::PersistingManual { reason } => DeleteStage::PersistingManual(reason@),
            DeletePhase::MarkingManual => DeleteStage::MarkingManual,
            DeletePhase::DeletingMetadata => DeleteStage::DeletingMetadata,
            DeletePhase::PersistingCleanup { reason, error } => DeleteStage::PersistingCleanup(
                reason@,
                error@,
            ),
            DeletePhase::MarkingCleanup { error } => DeleteStage::MarkingCleanup(error@),
            DeletePhase::Forgetting => DeleteStage::Forgetting,
            DeletePhase::Closed => DeleteStage::Closed,
        }
    }
}

/// Nothing but the result.
pub open spec fn delete_end(result: Result<(), Seq<char>>) -> DeleteEnd {
    DeleteEnd {
        release_guard: false,
        persist_terminal: None,
        resume: false,
        report_failure: false,
        schedule_retry: false,
        result,
    }
}

/// The payload is gone.
pub open spec fn payload_is_gone(c: StorageDeleteCompletion) -> bool {
    c.succeeded && (c.terminal_state == JobState::Completed || c.terminal_state
        == JobState::CommitPending)
}

/// What is done for the torrent whose payload was to be deleted.
pub open spec fn delete_proceed(c: StorageDeleteCompletion) -> (DeleteStage, DeleteAct) {
    if c.terminal_state == JobState::Paused {
        // The job may go on: the torrent stays quiet and guarded.
        (DeleteStage::Closed, DeleteAct::Close(delete_end(Ok(()))))
    } else if payload_is_gone(c) {
        (DeleteStage::DeletingMetadata, DeleteAct::DeleteMetadata)
    } else if c.requires_manual_recovery {
        let reason = marked(
            c.manual_recovery_marker@,
            match c.error {
                Some(error) => error@,
                None => "payload delete requires manual recovery"@,
            },
        );
        (
            DeleteStage::PersistingManual(reason),
            DeleteAct::StopAndPersistManualRecovery(reason),
        )
    } else {
        (
            DeleteStage::Closed,
            DeleteAct::Close(
                DeleteEnd {
                    release_guard: true,
                    persist_terminal: terminal(c.terminal_state, text_view(c.error)),
                    resume: true,
                    report_failure: true,
                    ..delete_end(Ok(()))
                },
            ),
        )
    }
}

/// The first action. A job that goes back to the queue is left alone: the
/// process is shutting down.
pub open spec fn delete_first_step(c: StorageDeleteCompletion) -> (DeleteStage, DeleteAct) {
    if c.terminal_state == JobState::Queued {
        (DeleteStage::Closed, DeleteAct::Close(delete_end(Ok(()))))
    } else if c.quiesced_handle is Some {
        (DeleteStage::LookingUp, DeleteAct::LookUpHandle)
    } else {
        delete_proceed(c)
    }
}

/// The action after an outcome.
pub open spec fn delete_next_step(
    c: StorageDeleteCompletion,
    stage: DeleteStage,
    outcome: DeleteOutcome,
) -> (DeleteStage, DeleteAct) {
    let over = |end: DeleteEnd| (DeleteStage::Closed, DeleteAct::Close(end));
    let unmarked = "; failed to persist manual-recovery marker: "@;
    match (stage, outcome) {
        (DeleteStage::LookingUp, DeleteOutcome::Handle(current)) => if current
            == c.quiesced_handle {
            delete_proceed(c)
        } else if c.succeeded && c.terminal_state == JobState::CommitPending {
            (DeleteStage::CompletingStale, DeleteAct::ReleaseAndCompleteJob)
        } else {
            over(
                DeleteEnd {
                    release_guard: true,
                    persist_terminal: if c.succeeded {
                        None
                    } else {
                        terminal(c.terminal_state, text_view(c.error))
                    },
                    ..delete_end(Ok(()))
                },
            )
        },
        (DeleteStage::CompletingStale, DeleteOutcome::Failed(error)) => over(
            DeleteEnd { schedule_retry: true, ..delete_end(Err(error@)) },
        ),
        (DeleteStage::CompletingStale, _) => over(delete_end(Ok(()))),
        (DeleteStage::PersistingManual(reason), DeleteOutcome::Failed(error)) => (
            DeleteStage::MarkingManual,
            DeleteAct::MarkManualRecovery(reason, Some(reason + unmarked + error@)),
        ),
        (DeleteStage::PersistingManual(reason), _) => (
            DeleteStage::MarkingManual,
            DeleteAct::MarkManualRecovery(reason, None),
        ),
        (DeleteStage::MarkingManual, DeleteOutcome::Failed(_)) => over(delete_end(Ok(()))),
        (DeleteStage::MarkingManual, _) => over(
            DeleteEnd { release_guard: true, ..delete_end(Ok(())) },
        ),
        (DeleteStage::DeletingMetadata, DeleteOutcome::Failed(error)) => {
            let reason = marked(
                c.manual_recovery_marker@,
                "payload deleted but metadata cleanup failed: "@ + error@,
            );
            (
                DeleteStage::PersistingCleanup(reason, error@),
                DeleteAct::PersistManualRecovery(reason),
            )
        },
        (DeleteStage::DeletingMetadata, _) => (
            DeleteStage::Forgetting,
            DeleteAct::Forget(c.terminal_state == JobState::CommitPending),
        ),
        (DeleteStage::PersistingCleanup(reason, cause), DeleteOutcome::Failed(error)) => (
            DeleteStage::MarkingCleanup(cause),
            DeleteAct::MarkManualRecovery(reason, Some(reason + unmarked + error@)),
        ),
        (DeleteStage::PersistingCleanup(reason, cause), _) => (
            DeleteStage::MarkingCleanup(cause),
            DeleteAct::MarkManualRecovery(reason, None),
        ),
        (DeleteStage::MarkingCleanup(cause), _) => over(delete_end(Err(cause))),
        (DeleteStage::Forgetting, DeleteOutcome::Failed(error)) => over(
            DeleteEnd { schedule_retry: true, ..delete_end(Err(error@)) },
        ),
        (_, _) => over(delete_end(Ok(()))),
    }
}

fn close(result: CmdResult<()>, schedule_retry: bool, release_guard: bool) -> (r: DeleteAction)
    ensures
        r@ == DeleteAct::Close(
            DeleteEnd { schedule_retry, release_guard, ..delete_end(result_view(result)) },
        ),
{
    DeleteAction::Close(
        DeleteClosing {
            release_guard,
            persist_terminal: None,
            resume: false,
            report_failure: false,
            schedule_retry,
            result,
        },
    )
}

impl StorageDeleteFinish {
    pub closed spec fn completion(&self) -> StorageDeleteCompletion {
        self.completion
    }

    pub closed spec fn stage(&self) -> DeleteStage {
        self.phase.stage()
    }

    /// Starts on the end of a deletion.
    pub fn begin(completion: StorageDeleteCompletion) -> (r: (Self, DeleteAction))
        ensures
            r.0.completion() == completion,
            (r.0.stage(), r.1@) == delete_first_step(completion),
    {
        let mut finish = StorageDeleteFinish { completion, phase: DeletePhase::Closed };
        if finish.completion.terminal_state == JobState::Queued {
            return (finish, close(Ok(()), false, false));
        }
        if finish.completion.quiesced_handle.is_some() {
            finish.phase = DeletePhase::LookingUp;
            return (finish, DeleteAction::LookUpHandle);
        }
        let action = finish.proceed();
        (finish, action)
    }

    fn proceed(&mut self) -> (r: DeleteAction)
        ensures
            final(self).completion() == old(self).completion(),
            (final(self).stage(), r@) == delete_proceed(old(self).completion()),
    {
        self.phase = DeletePhase::Closed;
        if self.completion.terminal_state == JobState::Paused {
            return close(Ok(()), false, false);
        }
        if self.completion.succeeded && (self.completion.terminal_state == JobState::Completed
            || self.completion.terminal_state == JobState::CommitPending) {
            self.phase = DeletePhase::DeletingMetadata;
            return DeleteAction::DeleteMetadata;
        }
        if self.completion.requires_manual_recovery {
            let error = match &self.completion.error {
                Some(error) => error.as_str(),
                None => "payload delete requires manual recovery",
            };
            let reason = manual_recovery_reason(
                self.completion.manual_recovery_marker.as_str(),
                error,
            );
            self.phase = DeletePhase::PersistingManual { reason: reason.clone() };
            return DeleteAction::StopAndPersistManualRecovery { reason };
        }
        DeleteAction::Close(
            DeleteClosing {
                release_guard: true,
                persist_terminal: terminal_state(
                    self.completion.terminal_state,
                    &self.completion.error,
                ),
                resume: true,
                report_failure: true,
                schedule_retry: false,
                result: Ok(()),
            },
        )
    }

    /// Takes the outcome of the last action, and tells the next one.
    pub fn next(&mut self, outcome: DeleteOutcome) -> (r: DeleteAction)
        ensures
            final(self).completion() == old(self).completion(),
            (final(self).stage(), r@) == delete_next_step(
                old(self).completion(),
                old(self).stage(),
                outcome,
            ),
    {
        let mut phase = DeletePhase::Closed;
        std::mem::swap(&mut phase, &mut self.phase);
        match (phase, outcome) {
            (DeletePhase::LookingUp, DeleteOutcome::Handle(current)) => {
                if current == self.completion.quiesced_handle {
                    return self.proceed();
                }
                if self.completion.succeeded && self.completion.terminal_state
                    == JobState::CommitPending {
                    self.phase = DeletePhase::CompletingStale;
                    return DeleteAction::ReleaseAndCompleteJob;
                }
                DeleteAction::Close(
                    DeleteClosing {
                        release_guard: true,
                        persist_terminal: if self.completion.succeeded {
                            None
                        } else {
                            terminal_state(self.completion.terminal_state, &self.completion.error)
                        },
                        resume: false,
                        report_failure: false,
                        schedule_retry: false,
                        result: Ok(()),
                    },
                )
            },
            (DeletePhase::CompletingStale, DeleteOutcome::Failed(error)) => close(
                Err(error),
                true,
                false,
            ),
            (DeletePhase::CompletingStale, _) => close(Ok(()), false, false),
            (DeletePhase::PersistingManual { reason }, DeleteOutcome::Failed(error)) => {
                self.phase = DeletePhase::MarkingManual;
                let fallback = join3(
                    reason.as_str(),
                    "; failed to persist manual-recovery marker: ",
                    error.as_str(),
                );
                DeleteAction::MarkManualRecovery { reason, fallback: Some(fallback) }
            },
            (DeletePhase::PersistingManual { reason }, _) => {
                self.phase = DeletePhase::MarkingManual;
                DeleteAction::MarkManualRecovery { reason, fallback: None }
            },
            (DeletePhase::MarkingManual, DeleteOutcome::Failed(_)) => close(Ok(()), false, false),
            (DeletePhase::MarkingManual, _) => close(Ok(()), false, true),
            (DeletePhase::DeletingMetadata, DeleteOutcome::Failed(error)) => {
                let failure = join2(
                    "payload deleted but metadata cleanup failed: ",
                    error.as_str(),
                );
                let reason = manual_recovery_reason(
                    self.completion.manual_recovery_marker.as_str(),
                    failure.as_str(),
                );
                self.phase = DeletePhase::PersistingCleanup { reason: reason.clone(), error };
                DeleteAction::PersistManualRecovery { reason }
            },
            (DeletePhase::DeletingMetadata, _) => {
                self.phase = DeletePhase::Forgetting;
                DeleteAction::Forget {
                    complete_job: self.completion.terminal_state == JobState::CommitPending,
                }
            },
            (DeletePhase::PersistingCleanup { reason, error: cause }, DeleteOutcome::Failed(
                error,
            )) => {
                self.phase = DeletePhase::MarkingCleanup { error: cause };
                let fallback = join3(
                    reason.as_str(),
                    "; failed to persist manual-recovery marker: ",
                    error.as_str(),
                );
                DeleteAction::MarkManualRecovery { reason, fallback: Some(fallback) }
            },
            (DeletePhase::PersistingCleanup { reason, error: cause }, _) => {
                self.phase = DeletePhase::MarkingCleanup { error: cause };
                DeleteAction::MarkManualRecovery { reason, fallback: None }
            },
            (DeletePhase::MarkingCleanup { error: cause }, _) => close(Err(cause), false, false),
            (DeletePhase::Forgetting, DeleteOutcome::Failed(error)) => close(
                Err(error),
                true,
                false,
            ),
            (_, _) => close(Ok(()), false, false),
        }
    }
}

/// Where the end of a deletion stands after a run of outcomes.
pub open spec fn delete_stage_after(
    c: StorageDeleteCompletion,
    outcomes: Seq<DeleteOutcome>,
) -> DeleteStage
    decreases outcomes.len(),
{
    if outcomes.len() == 0 {
        delete_first_step(c).0
    } else {
        delete_next_step(c, delete_stage_after(c, outcomes.drop_last()), outcomes.last()).0
    }
}

/// A torrent leaves the session only after its payload was deleted and its
/// metadata was deleted after it.
pub proof fn law_torrent_is_forgotten_last(
    c: StorageDeleteCompletion,
    outcomes: Seq<DeleteOutcome>,
)
    ensures
        delete_stage_after(c, outcomes) is DeletingMetadata ==> payload_is_gone(c),
        delete_stage_after(c, outcomes) is Forgetting ==> payload_is_gone(c) && outcomes.len() >= 1
            && !(outcomes.last() is Failed),
    decreases outcomes.len(),
{
    if outcomes.len() > 0 {
        law_torrent_is_forgotten_last(c, outcomes.drop_last());
    }
}

/// A deletion that did not come to an end, and needs no operator, gives the
/// torrent back: commands are accepted, and its tasks go on.
pub proof fn law_failed_deletion_gives_the_torrent_back(c: StorageDeleteCompletion)
    requires
        !payload_is_gone(c),
        !c.requires_manual_recovery,
        c.terminal_state != JobState::Queued,
        c.terminal_state != JobState::Paused,
    ensures
        delete_proceed(c).1 matches DeleteAct::Close(end) && end.release_guard && end.resume
            && end.result is Ok,
{
}

/// A replaced torrent is never touched by the completion for the one before
/// it, and never stays guarded because of it.
pub proof fn law_replaced_torrent_stays_operable(
    c: StorageDeleteCompletion,
    current: Option<u64>,
)
    requires
        current != c.quiesced_handle,
    ensures
        ({
            let act = delete_next_step(
                c,
                DeleteStage::LookingUp,
                DeleteOutcome::Handle(current),
            ).1;
            act == DeleteAct::ReleaseAndCompleteJob || (act matches DeleteAct::Close(end)
                && end.release_guard && !end.resume)
        }),
{
}

/// A torrent whose payload is gone loses its metadata and then its place in the
/// session; its job is completed there exactly where it still waits for that.
pub proof fn law_deleted_payload_takes_the_torrent_along(
    c: StorageDeleteCompletion,
    deleted: DeleteOutcome,
    forgotten: DeleteOutcome,
    error: String,
)
    requires
        c.succeeded,
        c.terminal_state == JobState::Completed || c.terminal_state == JobState::CommitPending,
        !(deleted is Failed),
        !(forgotten is Failed),
    ensures
        ({
            let s0 = if c.quiesced_handle is Some {
                delete_next_step(
                    c,
                    delete_first_step(c).0,
                    DeleteOutcome::Handle(c.quiesced_handle),
                )
            } else {
                delete_first_step(c)
            };
            let s1 = delete_next_step(c, s0.0, deleted);
            let failed = DeleteOutcome::Failed(error);
            &&& c.quiesced_handle is Some ==> delete_first_step(c).1 is LookUpHandle
            &&& s0.1 is DeleteMetadata
            &&& s1.1 == DeleteAct::Forget(c.terminal_state == JobState::CommitPending)
            &&& delete_next_step(c, s1.0, forgotten).1 matches DeleteAct::Close(end) && end.result
                is Ok && !end.schedule_retry && !end.resume && !end.report_failure
                && end.persist_terminal is None
            // A job that cannot be completed is tried again, and told.
            &&& delete_next_step(c, s1.0, failed).1 matches DeleteAct::Close(end) && end.result
                == Err::<(), Seq<char>>(error@) && end.schedule_retry && !end.resume
        }),
{
}

/// Metadata that cannot be deleted after the payload is gone calls an operator:
/// the reason is stored under the operators' mark, the torrent is shown so, and
/// what failed is told in the end.
pub proof fn law_left_over_metadata_calls_an_operator(
    c: StorageDeleteCompletion,
    stored: DeleteOutcome,
    shown: DeleteOutcome,
    error: String,
    again: String,
)
    requires
        !(stored is Failed),
    ensures
        ({
            let s1 = delete_next_step(c, DeleteStage::DeletingMetadata, DeleteOutcome::Failed(error));
            let s2 = delete_next_step(c, s1.0, stored);
            let s3 = delete_next_step(c, s1.0, DeleteOutcome::Failed(again));
            &&& s1.1 matches DeleteAct::PersistManualRecovery(reason) && {
                &&& c.manual_recovery_marker@.is_prefix_of(reason)
                &&& error@.is_suffix_of(reason)
                &&& s2.1 == DeleteAct::MarkManualRecovery(reason, None)
                &&& s3.1 matches DeleteAct::MarkManualRecovery(told, Some(text)) && told == reason
                    && reason.is_prefix_of(text) && again@.is_suffix_of(text)
            }
            &&& delete_next_step(c, s2.0, shown).1 matches DeleteAct::Close(end) && end.result
                == Err::<(), Seq<char>>(error@) && !end.release_guard && !end.resume
                && !end.schedule_retry
        }),
{
    let marker = c.manual_recovery_marker@;
    let why = "payload deleted but metadata cleanup failed: "@ + error@;
    let reason = marker + why;
    assert(marker =~= reason.subrange(0, marker.len() as int));
    assert(error@ =~= reason.subrange(reason.len() - error@.len(), reason.len() as int));
    let text = reason + "; failed to persist manual-recovery marker: "@ + again@;
    assert(reason =~= text.subrange(0, reason.len() as int));
    assert(again@ =~= text.subrange(text.len() - again@.len(), text.len() as int));
}

/// A deletion that failed gives the torrent back: commands are accepted again,
/// its task goes on, the failure is reported, and a job that failed or was
/// cancelled is stored so.
pub proof fn law_failed_deletion_is_undone(c: StorageDeleteCompletion)
    requires
        !c.succeeded,
        !c.requires_manual_recovery,
        c.terminal_state != JobState::Queued,
        c.terminal_state != JobState::Paused,
    ensures
        ({
            let act = if c.quiesced_handle is Some {
                delete_next_step(
                    c,
                    delete_first_step(c).0,
                    DeleteOutcome::Handle(c.quiesced_handle),
                ).1
            } else {
                delete_first_step(c).1
            };
            act matches DeleteAct::Close(end) && {
                &&& end.release_guard && end.resume && end.report_failure
                &&& !end.schedule_retry
                &&& end.result is Ok
                &&& match end.persist_terminal {
                    Some((state, text)) => state == c.terminal_state && (state == JobState::Failed
                        || state == JobState::Cancelled) && (match c.error {
                        Some(error) => text == Some(error@),
                        None => text is None,
                    }),
                    None => c.terminal_state != JobState::Failed && c.terminal_state
                        != JobState::Cancelled,
                }
            }
        }),
{
}

/// A job that may still go on keeps the torrent guarded and quiet.
pub proof fn law_waiting_deletions_keep_the_guard(c: StorageDeleteCompletion)
    requires
        c.terminal_state == JobState::Queued || (c.terminal_state == JobState::Paused
            && c.quiesced_handle is None),
    ensures
        delete_first_step(c).1 matches DeleteAct::Close(end) && !end.release_guard && !end.resume
            && !end.report_failure && !end.schedule_retry && end.persist_terminal is None
            && end.result is Ok,
{
}

/// A deletion that left files that nobody can vouch for stops the torrent and
/// calls an operator. Commands are accepted again only once it is shown so,
/// and its task does not go on.
pub proof fn law_ambiguous_deletion_calls_an_operator(
    c: StorageDeleteCompletion,
    stored: DeleteOutcome,
    shown: DeleteOutcome,
    error: String,
)
    requires
        !c.succeeded,
        c.requires_manual_recovery,
        c.terminal_state != JobState::Queued,
        c.terminal_state != JobState::Paused,
        c.quiesced_handle is None,
        !(stored is Failed),
        !(shown is Failed),
    ensures
        ({
            let (s0, a0) = delete_first_step(c);
            let failed = DeleteOutcome::Failed(error);
            let s1 = delete_next_step(c, s0, stored);
            let s2 = delete_next_step(c, s0, failed);
            &&& a0 matches DeleteAct::StopAndPersistManualRecovery(reason) && {
                &&& c.manual_recovery_marker@.is_prefix_of(reason)
                &&& c.error matches Some(why) ==> why@.is_suffix_of(reason)
                &&& s1.1 == DeleteAct::MarkManualRecovery(reason, None)
                &&& s2.1 matches DeleteAct::MarkManualRecovery(again, Some(text)) && again
                    == reason && reason.is_prefix_of(text) && error@.is_suffix_of(text)
            }
            &&& delete_next_step(c, s1.0, shown).1 matches DeleteAct::Close(end)
                && end.release_guard && !end.resume && !end.report_failure && end.result is Ok
            &&& delete_next_step(c, s1.0, failed).1 matches DeleteAct::Close(end)
                && !end.release_guard && !end.resume && end.result is Ok
        }),
{
    let (s0, a0) = delete_first_step(c);
    let marker = c.manual_recovery_marker@;
    let why = match c.error {
        Some(error) => error@,
        None => "payload delete requires manual recovery"@,
    };
    let reason = marker + why;
    assert(a0 == DeleteAct::StopAndPersistManualRecovery(reason));
    assert(marker =~= reason.subrange(0, marker.len() as int));
    assert(why =~= reason.subrange(reason.len() - why.len(), reason.len() as int));
    let text = reason + "; failed to persist manual-recovery marker: "@ + error@;
    assert(reason =~= text.subrange(0, reason.len() as int));
    assert(error@ =~= text.subrange(text.len() - error@.len(), text.len() as int));
}

/// A deletion for a torrent that has been replaced only has its job settled, and
/// the replacement accepts commands.
pub proof fn law_replacements_are_released(c: StorageDeleteCompletion, current: Option<u64>)
    requires
        c.quiesced_handle is Some,
        current != c.quiesced_handle,
    ensures
        ({
            let (stage, act) = delete_next_step(
                c,
                DeleteStage::LookingUp,
                DeleteOutcome::Handle(current),
            );
            let commit = c.succeeded && c.terminal_state == JobState::CommitPending;
            &&& commit ==> act is ReleaseAndCompleteJob
            &&& commit ==> (delete_next_step(c, stage, DeleteOutcome::Done).1 matches
                DeleteAct::Close(end) && end.result is Ok && !end.resume && !end.schedule_retry)
            &&& !commit ==> (act matches DeleteAct::Close(end) && end.release_guard && !end.resume
                && !end.report_failure && !end.schedule_retry && end.result is Ok && (
            end.persist_terminal is Some <==> !c.succeeded && (c.terminal_state == JobState::Failed
                || c.terminal_state == JobState::Cancelled)))
        }),
{
}

/// What the end of a deletion waits for is what was last asked for, and it is over
/// exactly when it is closed.
pub proof fn law_finished_deletions_wait_for_what_they_ask(c: StorageDeleteCompletion, stage: DeleteStage, outcome: DeleteOutcome)
    ensures
        ({
            let told = delete_next_step(c, stage, outcome).1;
            let after = delete_next_step(c, stage, outcome).0;
            &&& told is LookUpHandle <==> after is LookingUp
            &&& told is ReleaseAndCompleteJob <==> after is CompletingStale
            &&& told is StopAndPersistManualRecovery <==> after is PersistingManual
            &&& told is MarkManualRecovery <==> after is MarkingManual || after is MarkingCleanup
            &&& told is DeleteMetadata <==> after is DeletingMetadata
            &&& told is PersistManualRecovery <==> after is PersistingCleanup
            &&& told is Forget <==> after is Forgetting
            &&& after is Closed <==> told is Close
        }),
{
}

/// Every phase has a stage of its own, and every action is told as what it is.
pub proof fn law_stages_and_actions_are_told_as_they_are(phase: DeletePhase, action: DeleteAction)
    ensures
        phase is LookingUp <==> phase.stage() is LookingUp,
        phase is CompletingStale <==> phase.stage() is CompletingStale,
        phase is PersistingManual <==> phase.stage() is PersistingManual,
        phase is MarkingManual <==> phase.stage() is MarkingManual,
        phase is DeletingMetadata <==> phase.stage() is DeletingMetadata,
        phase is PersistingCleanup <==> phase.stage() is PersistingCleanup,
        phase is MarkingCleanup <==> phase.stage() is MarkingCleanup,
        phase is Forgetting <==> phase.stage() is Forgetting,
        phase is Closed <==> phase.stage() is Closed,
        action is LookUpHandle <==> action@ is LookUpHandle,
        action is ReleaseAndCompleteJob <==> action@ is ReleaseAndCompleteJob,
        action is StopAndPersistManualRecovery <==> action@ is StopAndPersistManualRecovery,
        action is MarkManualRecovery <==> action@ is MarkManualRecovery,
        action is DeleteMetadata <==> action@ is DeleteMetadata,
        action is PersistManualRecovery <==> action@ is PersistManualRecovery,
        action is Close <==> action@ is Close,
        action matches DeleteAction::Forget { complete_job } ==> action@ == DeleteAct::Forget(
            complete_job,
        ),
{
}

} // verus!
