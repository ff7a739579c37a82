//! Rechecking a torrent that has no SHA-1 identity: its payload is verified
//! apart from its task, and what comes of it counts only for the run that is
//! current.

use vstd::prelude::*;

use crate::job::{JobKind, JobState, TorrentState};
use crate::text::{join2, join3};
use crate::torrent_state::{changed, Lifecycle, StateChange};

verus! {

/// A torrent that is filed under a SHA-256 digest has no SHA-1 identity.
pub fn is_pure_v2_torrent(info_hash: &str) -> (r: bool)
    ensures
        r == (crate::text::byte_len(info_hash@) == 64),
{
    info_hash.len() == 64
}

/// Why a recheck was not started.
#[derive(Debug)]
pub enum RecheckRefusal {
    /// What stood in the way, as it was reported.
    Reported(String),
    Capacity,
    NotFound { info_hash: String },
    NotRunning(String),
}

impl RecheckRefusal {
    pub open spec fn text(self) -> Seq<char> {
        match self {
            RecheckRefusal::Reported(e) => e@,
            RecheckRefusal::Capacity => "pure v2 recheck capacity exhausted; retry later"@,
            RecheckRefusal::NotFound { info_hash } => "torrent "@ + info_hash@ + " not found"@,
            RecheckRefusal::NotRunning(e) => "failed to mark pure v2 recheck running: "@ + e@,
        }
    }

    /// The refusal in words.
    pub fn to_text(&self) -> (r: String)
        ensures
            r@ == self.text(),
    {
        match self {
            RecheckRefusal::Reported(e) => e.clone(),
            RecheckRefusal::Capacity => {
                "pure v2 recheck capacity exhausted; retry later".to_owned()
            },
            RecheckRefusal::NotFound { info_hash } => join3(
                "torrent ",
                info_hash.as_str(),
                " not found",
            ),
            RecheckRefusal::NotRunning(e) => join2(
                "failed to mark pure v2 recheck running: ",
                e.as_str(),
            ),
        }
    }
}

/// What is to be done next to start a recheck.
#[derive(Debug)]
pub enum StartAction {
    /// See that no storage work is under way.
    CheckIdle,
    /// Take one of the slots for rechecks.
    TakeSlot,
    LookUpTorrent,
    /// See that the payload lies below a storage root.
    Authorize,
    /// Show the torrent as checking.
    ShowChecking,
    /// Mark the job as running, under a token of its own.
    MarkRunning,
    /// Show the torrent as it was, mark the job as failed, and refuse.
    RollBack { state: TorrentState, refusal: RecheckRefusal },
    /// Verify the payload; afterwards the torrent goes back to `restore`.
    Verify { restore: Option<TorrentState> },
    Refuse(RecheckRefusal),
}

/// What came of an action.
#[derive(Debug)]
pub enum StartOutcome {
    Done,
    Failed(String),
    Slot { taken: bool },
    Found { state: TorrentState },
    NotFound { info_hash: String },
}

/// How far starting a recheck has come.
#[derive(Clone, Copy, Debug, PartialEq, Eq, Structural)]
pub enum StartPhase {
    CheckingIdle,
    TakingSlot,
    LookingUp,
    Authorizing { state: TorrentState },
    Showing { state: TorrentState },
    MarkingRunning { state: TorrentState },
    Over,
}

/// A recheck that is being started.
#[derive(Clone, Copy, Debug, PartialEq, Eq, Structural)]
pub struct RecheckStart {
    /// A job asks for the recheck.
    pub has_job: bool,
    pub phase: StartPhase,
}

/// The state that a torrent goes back to after a recheck, where it does.
pub open spec fn restored_state(state: TorrentState) -> Option<TorrentState> {
    if state == TorrentState::Paused || state == TorrentState::Stopped {
        Some(state)
    } else {
        None
    }
}

/// The action after an outcome.
pub open spec fn start_step(start: RecheckStart, outcome: StartOutcome) -> (StartPhase, StartAction) {
    match (start.phase, outcome) {
        (StartPhase::CheckingIdle, StartOutcome::Failed(e)) => (
            StartPhase::Over,
            StartAction::Refuse(RecheckRefusal::Reported(e)),
        ),
        (StartPhase::CheckingIdle, _) => (StartPhase::TakingSlot, StartAction::TakeSlot),
        (StartPhase::TakingSlot, StartOutcome::Slot { taken: true }) => (
            StartPhase::LookingUp,
            StartAction::LookUpTorrent,
        ),
        (StartPhase::TakingSlot, _) => (
            StartPhase::Over,
            StartAction::Refuse(RecheckRefusal::Capacity),
        ),
        (StartPhase::LookingUp, StartOutcome::Found { state }) => (
            StartPhase::Authorizing { state },
            StartAction::Authorize,
        ),
        (StartPhase::LookingUp, StartOutcome::NotFound { info_hash }) => (
            StartPhase::Over,
            StartAction::Refuse(RecheckRefusal::NotFound { info_hash }),
        ),
        (StartPhase::Authorizing { .. }, StartOutcome::Failed(e)) => (
            StartPhase::Over,
            StartAction::Refuse(RecheckRefusal::Reported(e)),
        ),
        (StartPhase::Authorizing { state }, _) => (
            StartPhase::Showing { state },
            StartAction::ShowChecking,
        ),
        (StartPhase::Showing { .. }, StartOutcome::Failed(e)) => (
            StartPhase::Over,
            StartAction::Refuse(RecheckRefusal::Reported(e)),
        ),
        (StartPhase::Showing { state }, _) => if start.has_job {
            (StartPhase::MarkingRunning { state }, StartAction::MarkRunning)
        } else {
            (StartPhase::Over, StartAction::Verify { restore: restored_state(state) })
        },
        (StartPhase::MarkingRunning { state }, StartOutcome::Failed(e)) => (
            StartPhase::Over,
            StartAction::RollBack { state, refusal: RecheckRefusal::NotRunning(e) },
        ),
        (StartPhase::MarkingRunning { state }, _) => (
            StartPhase::Over,
            StartAction::Verify { restore: restored_state(state) },
        ),
        (_, _) => (StartPhase::Over, StartAction::Refuse(RecheckRefusal::Capacity)),
    }
}

fn restore_state(state: TorrentState) -> (r: Option<TorrentState>)
    ensures
        r == restored_state(state),
{
    if state == TorrentState::Paused || state == TorrentState::Stopped {
        Some(state)
    } else {
        None
    }
}

impl RecheckStart {
    pub fn begin(has_job: bool) -> (r: (Self, StartAction))
        ensures
            r.0 == (RecheckStart { has_job, phase: StartPhase::CheckingIdle }),
            r.1 is CheckIdle,
    {
        (RecheckStart { has_job, phase: StartPhase::CheckingIdle }, StartAction::CheckIdle)
    }

    /// Takes the outcome of the last action, and tells the next one.
    pub fn next(&mut self, outcome: StartOutcome) -> (r: StartAction)
        ensures
            final(self).has_job == old(self).has_job,
            (final(self).phase, r) == start_step(*old(self), outcome),
    {
        let phase = self.phase;
        self.phase = StartPhase::Over;
        match (phase, outcome) {
            (StartPhase::CheckingIdle, StartOutcome::Failed(e)) => StartAction::Refuse(
                RecheckRefusal::Reported(e),
            ),
            (StartPhase::CheckingIdle, _) => {
                self.phase = StartPhase::TakingSlot;
                StartAction::TakeSlot
            },
            (StartPhase::TakingSlot, StartOutcome::Slot { taken: true }) => {
                self.phase = StartPhase::LookingUp;
                StartAction::LookUpTorrent
            },
            (StartPhase::TakingSlot, _) => StartAction::Refuse(RecheckRefusal::Capacity),
            (StartPhase::LookingUp, StartOutcome::Found { state }) => {
                self.phase = StartPhase::Authorizing { state };
                StartAction::Authorize
            },
            (StartPhase::LookingUp, StartOutcome::NotFound { info_hash }) => StartAction::Refuse(
                RecheckRefusal::NotFound { info_hash },
            ),
            (StartPhase::Authorizing { .. }, StartOutcome::Failed(e)) => StartAction::Refuse(
                RecheckRefusal::Reported(e),
            ),
            (StartPhase::Authorizing { state }, _) => {
                self.phase = StartPhase::Showing { state };
                StartAction::ShowChecking
            },
            (StartPhase::Showing { .. }, StartOutcome::Failed(e)) => StartAction::Refuse(
                RecheckRefusal::Reported(e),
            ),
            (StartPhase::Showing { state }, _) => {
                if self.has_job {
                    self.phase = StartPhase::MarkingRunning { state };
                    StartAction::MarkRunning
                } else {
                    StartAction::Verify { restore: restore_state(state) }
                }
            },
            (StartPhase::MarkingRunning { state }, StartOutcome::Failed(e)) =>
                StartAction::RollBack {
                state,
                refusal: RecheckRefusal::NotRunning(e),
            },
            (StartPhase::MarkingRunning { state }, _) => StartAction::Verify {
                restore: restore_state(state),
            },
            (_, _) => StartAction::Refuse(RecheckRefusal::Capacity),
        }
    }
}

/// Whether a job is handed to its torrent again after a restart: a recheck that
/// was stored but not handed over yet. One that was paused stays paused.
pub fn is_redispatched(kind: JobKind, state: JobState) -> (r: bool)
    ensures
        r == (kind == JobKind::Recheck && state == JobState::Queued),
{
    kind == JobKind::Recheck && state == JobState::Queued
}

/// What the verifier reports.
#[derive(Debug)]
pub struct PureV2RecheckCompletion {
    /// The job that asked for the recheck.
    pub job_id: Option<String>,
    pub run_token: Option<u64>,
    /// The state that the torrent goes back to, where it does.
    pub restore_state: Option<TorrentState>,
    pub total_length: u64,
    pub amount_left: u64,
    /// Files whose payload is not what it should be.
    pub invalid_files: usize,
    pub error: Option<String>,
}

/// How the torrent is shown at the end.
#[derive(Clone, Copy, Debug, PartialEq, Eq, Structural)]
pub enum FinalState {
    /// The verification was overtaken; the torrent is paused.
    Discarded,
    Failed,
    /// All payload is there.
    Complete { total_length: u64 },
    /// The torrent goes to this state with the payload that is there.
    Verified { state: TorrentState, total_length: u64, amount_left: u64 },
}

/// The change of the torrent's state that an end stands for. A torrent with all
/// its payload seeds, and is complete; one whose verification was overtaken is
/// paused, and one whose verification failed is in error, both with the
/// progress that they had.
pub open spec fn change_of(end: FinalState) -> StateChange {
    match end {
        FinalState::Complete { total_length } => StateChange {
            state: TorrentState::Seeding,
            completed_length: Some(total_length),
            verified_progress: None,
        },
        FinalState::Verified { state, total_length, amount_left } => StateChange {
            state,
            completed_length: None,
            verified_progress: Some((total_length, amount_left)),
        },
        FinalState::Discarded => StateChange {
            state: TorrentState::Paused,
            completed_length: None,
            verified_progress: None,
        },
        FinalState::Failed => StateChange {
            state: TorrentState::Error,
            completed_length: None,
            verified_progress: None,
        },
    }
}

/// Tells the change of the torrent's state that an end stands for.
pub fn state_change(end: FinalState) -> (r: StateChange)
    ensures
        r == change_of(end),
{
    match end {
        FinalState::Complete { total_length } => StateChange {
            state: TorrentState::Seeding,
            completed_length: Some(total_length),
            verified_progress: None,
        },
        FinalState::Verified { state, total_length, amount_left } => StateChange {
            state,
            completed_length: None,
            verified_progress: Some((total_length, amount_left)),
        },
        FinalState::Discarded => StateChange {
            state: TorrentState::Paused,
            completed_length: None,
            verified_progress: None,
        },
        FinalState::Failed => StateChange {
            state: TorrentState::Error,
            completed_length: None,
            verified_progress: None,
        },
    }
}

/// What is to be done next to finish a recheck.
#[derive(Debug)]
pub enum FinishAction {
    /// Look up which job the torrent has.
    LookUpActiveJob,
    /// Look up the token of the job's current run.
    LookUpRunToken,
    /// See whether the torrent is being removed.
    CheckRemoval,
    /// Mark the job as cancelled: the torrent is being removed.
    CancelJob,
    LoadJobState,
    /// Mark the job as failed with the verifier's error.
    FailJob,
    /// Store what was verified with the job.
    StoreProgress,
    /// Show the torrent as it is at the end.
    ShowFinal { end: FinalState, change: StateChange },
    /// It is over; where `fail_closed` is given, the job is marked as failed and
    /// the torrent shown so first, even where that cannot be stored.
    Close { fail_closed: Option<StateChange>, result: Result<(), String> },
}

/// What came of an action.
#[derive(Debug)]
pub enum FinishOutcome {
    Done,
    Failed(String),
    /// The job of the torrent, if it has one, and what it does.
    ActiveJob(Option<(String, JobKind)>),
    RunToken(Option<u64>),
    Removal { under_way: bool },
    JobState(JobState),
}

/// How far finishing a recheck has come.
#[derive(Clone, Copy, Debug, PartialEq, Eq, Structural)]
pub enum FinishPhase {
    LookingUpJob,
    LookingUpToken,
    CheckingRemoval,
    Cancelling,
    LoadingState,
    FailingJob,
    StoringProgress,
    Showing,
    Over,
}

/// A recheck that is being finished.
pub struct RecheckFinish {
    pub completion: PureV2RecheckCompletion,
    pub phase: FinishPhase,
}

/// The torrent is shown as it is at the end.
pub open spec fn shows(end: FinalState) -> (FinishPhase, FinishAction) {
    (FinishPhase::Showing, FinishAction::ShowFinal { end, change: change_of(end) })
}

pub open spec fn ended(r: Result<(), String>) -> (FinishPhase, FinishAction) {
    (FinishPhase::Over, FinishAction::Close { fail_closed: None, result: r })
}

pub open spec fn failed_closed(e: String) -> (FinishPhase, FinishAction) {
    (
        FinishPhase::Over,
        FinishAction::Close { fail_closed: Some(change_of(FinalState::Failed)), result: Err(e) },
    )
}

/// How the torrent is shown where nothing has overtaken the verification.
pub open spec fn final_state(c: PureV2RecheckCompletion) -> FinalState {
    if c.error is Some {
        FinalState::Failed
    } else {
        match c.restore_state {
            Some(state) => FinalState::Verified {
                state,
                total_length: c.total_length,
                amount_left: c.amount_left,
            },
            None => if c.invalid_files == 0 {
                FinalState::Complete { total_length: c.total_length }
            } else {
                FinalState::Verified {
                    state: TorrentState::Paused,
                    total_length: c.total_length,
                    amount_left: c.amount_left,
                }
            },
        }
    }
}

/// The job of the torrent is the one that asked for the recheck.
pub open spec fn is_current_job(
    c: PureV2RecheckCompletion,
    active: Option<(String, JobKind)>,
) -> bool {
    match (c.job_id, active) {
        (Some(id), Some((current, kind))) => current@ == id@ && kind == JobKind::Recheck,
        _ => false,
    }
}

/// What follows once the torrent is known not to be removed.
pub open spec fn after_removal_check(c: PureV2RecheckCompletion) -> (FinishPhase, FinishAction) {
    if c.job_id is Some {
        (FinishPhase::LoadingState, FinishAction::LoadJobState)
    } else {
        shows(final_state(c))
    }
}

/// The job has been settled by someone else: what the verifier found does not
/// count. A failed verification does not count for a completed job either.
pub open spec fn is_overtaken(state: JobState, failed: bool) -> bool {
    state == JobState::Paused || state == JobState::Cancelled || state == JobState::Failed || (
    failed && state == JobState::Completed)
}

/// The action after an outcome.
pub open spec fn finish_step(finish: RecheckFinish, outcome: FinishOutcome) -> (
    FinishPhase,
    FinishAction,
) {
    let c = finish.completion;
    match (finish.phase, outcome) {
        (FinishPhase::LookingUpJob, FinishOutcome::Failed(e)) => ended(Err(e)),
        (FinishPhase::LookingUpJob, FinishOutcome::ActiveJob(active)) => if !is_current_job(
            c,
            active,
        ) {
            ended(Ok(()))
        } else if c.run_token is Some {
            (FinishPhase::LookingUpToken, FinishAction::LookUpRunToken)
        } else {
            (FinishPhase::CheckingRemoval, FinishAction::CheckRemoval)
        },
        (FinishPhase::LookingUpJob, _) => ended(Ok(())),
        (FinishPhase::LookingUpToken, FinishOutcome::Failed(e)) => ended(Err(e)),
        (FinishPhase::LookingUpToken, FinishOutcome::RunToken(current)) => if current
            == c.run_token {
            (FinishPhase::CheckingRemoval, FinishAction::CheckRemoval)
        } else {
            ended(Ok(()))
        },
        (FinishPhase::CheckingRemoval, FinishOutcome::Removal { under_way: true }) => if c.job_id
            is Some {
            (FinishPhase::Cancelling, FinishAction::CancelJob)
        } else {
            ended(Ok(()))
        },
        (FinishPhase::CheckingRemoval, _) => after_removal_check(c),
        (FinishPhase::Cancelling, FinishOutcome::Failed(e)) => failed_closed(e),
        (FinishPhase::Cancelling, _) => ended(Ok(())),
        (FinishPhase::LoadingState, FinishOutcome::Failed(e)) => failed_closed(e),
        (FinishPhase::LoadingState, FinishOutcome::JobState(state)) => if is_overtaken(
            state,
            c.error is Some,
        ) {
            shows(FinalState::Discarded)
        } else if c.error is Some {
            (FinishPhase::FailingJob, FinishAction::FailJob)
        } else {
            (FinishPhase::StoringProgress, FinishAction::StoreProgress)
        },
        (FinishPhase::FailingJob, FinishOutcome::Failed(e)) => failed_closed(e),
        (FinishPhase::FailingJob, _) => shows(final_state(c)),
        (FinishPhase::StoringProgress, FinishOutcome::Failed(e)) => failed_closed(e),
        (FinishPhase::StoringProgress, _) => shows(final_state(c)),
        (FinishPhase::Showing, FinishOutcome::Failed(e)) => failed_closed(e),
        (_, _) => ended(Ok(())),
    }
}

fn show_final(end: FinalState) -> (r: FinishAction)
    ensures
        r == shows(end).1,
{
    FinishAction::ShowFinal { end, change: state_change(end) }
}

impl RecheckFinish {
    /// Starts on what the verifier reports.
    pub fn begin(completion: PureV2RecheckCompletion) -> (r: (Self, FinishAction))
        ensures
            r.0.completion == completion,
            (r.0.phase, r.1) == if completion.job_id is Some {
                (FinishPhase::LookingUpJob, FinishAction::LookUpActiveJob)
            } else {
                (FinishPhase::CheckingRemoval, FinishAction::CheckRemoval)
            },
    {
        if completion.job_id.is_some() {
            (
                RecheckFinish { completion, phase: FinishPhase::LookingUpJob },
                FinishAction::LookUpActiveJob,
            )
        } else {
            (
                RecheckFinish { completion, phase: FinishPhase::CheckingRemoval },
                FinishAction::CheckRemoval,
            )
        }
    }

    fn final_state(&self) -> (r: FinalState)
        ensures
            r == final_state(self.completion),
    {
        if self.completion.error.is_some() {
            return FinalState::Failed;
        }
        match self.completion.restore_state {
            Some(state) => FinalState::Verified {
                state,
                total_length: self.completion.total_length,
                amount_left: self.completion.amount_left,
            },
            None => if self.completion.invalid_files == 0 {
                FinalState::Complete { total_length: self.completion.total_length }
            } else {
                FinalState::Verified {
                    state: TorrentState::Paused,
                    total_length: self.completion.total_length,
                    amount_left: self.completion.amount_left,
                }
            },
        }
    }

    fn is_current(&self, active: &Option<(String, JobKind)>) -> (r: bool)
        ensures
            r == is_current_job(self.completion, *active),
    {
        match (&self.completion.job_id, active) {
            (Some(id), Some(job)) => job.0 == *id && job.1 == JobKind::Recheck,
            _ => false,
        }
    }

    /// Takes the outcome of the last action, and tells the next one.
    pub fn next(&mut self, outcome: FinishOutcome) -> (r: FinishAction)
        ensures
            final(self).completion == old(self).completion,
            (final(self).phase, r) == finish_step(*old(self), outcome),
    {
        let phase = self.phase;
        self.phase = FinishPhase::Over;
        let has_job = self.completion.job_id.is_some();
        let failed = self.completion.error.is_some();
        match (phase, outcome) {
            (FinishPhase::LookingUpJob, FinishOutcome::Failed(e))
            | (FinishPhase::LookingUpToken, FinishOutcome::Failed(e)) => FinishAction::Close {
                fail_closed: None,
                result: Err(e),
            },
            (FinishPhase::LookingUpJob, FinishOutcome::ActiveJob(active)) => {
                if !self.is_current(&active) {
                    FinishAction::Close { fail_closed: None, result: Ok(()) }
                } else if self.completion.run_token.is_some() {
                    self.phase = FinishPhase::LookingUpToken;
                    FinishAction::LookUpRunToken
                } else {
                    self.phase = FinishPhase::CheckingRemoval;
                    FinishAction::CheckRemoval
                }
            },
            (FinishPhase::LookingUpToken, FinishOutcome::RunToken(current)) => {
                if current == self.completion.run_token {
                    self.phase = FinishPhase::CheckingRemoval;
                    FinishAction::CheckRemoval
                } else {
                    FinishAction::Close { fail_closed: None, result: Ok(()) }
                }
            },
            (FinishPhase::CheckingRemoval, FinishOutcome::Removal { under_way: true }) => {
                if has_job {
                    self.phase = FinishPhase::Cancelling;
                    FinishAction::CancelJob
                } else {
                    FinishAction::Close { fail_closed: None, result: Ok(()) }
                }
            },
            (FinishPhase::CheckingRemoval, _) => {
                if has_job {
                    self.phase = FinishPhase::LoadingState;
                    FinishAction::LoadJobState
                } else {
                    self.phase = FinishPhase::Showing;
                    show_final(self.final_state())
                }
            },
            (FinishPhase::Cancelling, FinishOutcome::Failed(e))
            | (FinishPhase::LoadingState, FinishOutcome::Failed(e))
            | (FinishPhase::FailingJob, FinishOutcome::Failed(e))
            | (FinishPhase::StoringProgress, FinishOutcome::Failed(e))
            | (FinishPhase::Showing, FinishOutcome::Failed(e)) => FinishAction::Close {
                fail_closed: Some(state_change(FinalState::Failed)),
                result: Err(e),
            },
            (FinishPhase::LoadingState, FinishOutcome::JobState(state)) => {
                if state == JobState::Paused || state == JobState::Cancelled || state
                    == JobState::Failed || (failed && state == JobState::Completed) {
                    self.phase = FinishPhase::Showing;
                    show_final(FinalState::Discarded)
                } else if failed {
                    self.phase = FinishPhase::FailingJob;
                    FinishAction::FailJob
                } else {
                    self.phase = FinishPhase::StoringProgress;
                    FinishAction::StoreProgress
                }
            },
            (FinishPhase::FailingJob, _) | (FinishPhase::StoringProgress, _) => {
                self.phase = FinishPhase::Showing;
                show_final(self.final_state())
            },
            (_, _) => FinishAction::Close { fail_closed: None, result: Ok(()) },
        }
    }
}

/// A completion of another run, or for another job, changes nothing.
pub proof fn law_stale_verification_changes_nothing(
    finish: RecheckFinish,
    outcome: FinishOutcome,
)
    requires
        finish.phase == FinishPhase::LookingUpJob || finish.phase == FinishPhase::LookingUpToken,
        finish.phase == FinishPhase::LookingUpJob ==> (outcome matches FinishOutcome::ActiveJob(
            active,
        ) && !is_current_job(finish.completion, active)),
        finish.phase == FinishPhase::LookingUpToken ==> (outcome matches FinishOutcome::RunToken(
            current,
        ) && current != finish.completion.run_token),
    ensures
        finish_step(finish, outcome) == ended(Ok(())),
{
}

/// A job that was paused, cancelled or failed in the meantime is not brought
/// back to life by the verifier: the torrent is paused, and nothing that was
/// verified is stored.
pub proof fn law_settled_job_is_not_revived(finish: RecheckFinish, state: JobState)
    requires
        finish.phase == FinishPhase::LoadingState,
        state == JobState::Paused || state == JobState::Cancelled || state == JobState::Failed,
    ensures
        finish_step(finish, FinishOutcome::JobState(state)) == shows(FinalState::Discarded),
{
}

/// A torrent is shown as complete only where every file was as it should be.
pub proof fn law_complete_means_every_file_is_valid(c: PureV2RecheckCompletion)
    ensures
        final_state(c) is Complete ==> c.error is None && c.invalid_files == 0 && c.restore_state
            is None,
{
}

/// What a verification without an error makes of a torrent: one that was halted
/// goes back to where it was, one with all its payload seeds and misses
/// nothing, any other is paused. The length is the verified one, no more is
/// missing than there is, and only a torrent that is shown as complete is
/// noted to be so.
pub proof fn law_verification_decides_the_state(
    c: PureV2RecheckCompletion,
    before: Lifecycle,
    now: u64,
)
    requires
        c.error is None,
    ensures
        ({
            let after = changed(before, change_of(final_state(c)), now);
            let complete = c.restore_state is None && c.invalid_files == 0;
            &&& after.state == match c.restore_state {
                Some(state) => state,
                None => if c.invalid_files == 0 {
                    TorrentState::Seeding
                } else {
                    TorrentState::Paused
                },
            }
            &&& after.progress.total_length == c.total_length
            &&& after.progress.amount_left == if complete {
                0
            } else if c.amount_left > c.total_length {
                c.total_length
            } else {
                c.amount_left
            }
            &&& complete ==> after.progress.completed_at is Some
            &&& !complete ==> after.progress.completed_at == before.progress.completed_at
        }),
{
}

/// A verification that failed or was overtaken leaves the progress of the
/// torrent as it was.
pub proof fn law_useless_verification_keeps_progress(
    end: FinalState,
    before: Lifecycle,
    now: u64,
)
    requires
        end is Discarded || end is Failed,
    ensures
        changed(before, change_of(end), now) == (Lifecycle {
            state: if end is Discarded {
                TorrentState::Paused
            } else {
                TorrentState::Error
            },
            progress: before.progress,
        }),
{
}

/// A failure after the verification was found to be current fails closed: the
/// torrent never stays in checking.
pub proof fn law_finish_fails_closed(finish: RecheckFinish, e: String)
    requires
        finish.phase == FinishPhase::Cancelling || finish.phase == FinishPhase::LoadingState
            || finish.phase == FinishPhase::FailingJob || finish.phase
            == FinishPhase::StoringProgress || finish.phase == FinishPhase::Showing,
    ensures
        finish_step(finish, FinishOutcome::Failed(e)) == failed_closed(e),
{
}

/// The progress that is shown of a torrent.
#[derive(Clone, Copy, Debug, PartialEq, Eq, Structural)]
pub struct Progress {
    pub total_length: u64,
    pub amount_left: u64,
    pub completed_at: Option<u64>,
}

impl Progress {
    /// The torrent is complete with `total` bytes. The time of its first
    /// completion is kept.
    pub open spec fn completed(self, total: u64, now: u64) -> Progress {
        Progress {
            total_length: total,
            amount_left: 0,
            completed_at: match self.completed_at {
                Some(at) => Some(at),
                None => Some(now),
            },
        }
    }

    /// The torrent has `total` bytes, of which `left` are missing; it is not
    /// thereby complete.
    pub open spec fn verified(self, total: u64, left: u64) -> Progress {
        Progress {
            total_length: total,
            amount_left: if left > total {
                total
            } else {
                left
            },
            ..self
        }
    }

    /// Brings the progress up to date with a change of state.
    pub fn update(
        &mut self,
        completed_length: Option<u64>,
        verified_progress: Option<(u64, u64)>,
        now: u64,
    )
        ensures
            *final(self) == ({
                let first = match completed_length {
                    Some(total) => old(self).completed(total, now),
                    None => *old(self),
                };
                match verified_progress {
                    Some((total, left)) => first.verified(total, left),
                    None => first,
                }
            }),
    {
        if let Some(total) = completed_length {
            self.total_length = total;
            self.amount_left = 0;
            if self.completed_at.is_none() {
                self.completed_at = Some(now);
            }
        }
        if let Some((total, left)) = verified_progress {
            self.total_length = total;
            self.amount_left =
            if left > total {
                total
            } else {
                left
            };
        }
    }
}

/// What a verification leaves missing is never more than there is.
pub proof fn law_amount_left_is_bounded(before: Progress, total: u64, left: u64, now: u64)
    ensures
        before.verified(total, left).amount_left <= total,
        before.verified(total, left).completed_at == before.completed_at,
        before.completed(total, now).amount_left == 0,
{
}

/// A JSON value.
#[verifier::external_type_specification]
#[verifier::external_body]
pub struct ExJsonValue(serde_json::Value);

/// The value that a JSON text stands for, or what is wrong with the text.
pub uninterp spec fn json_value(text: Seq<char>) -> Result<serde_json::Value, Seq<char>>;

/// Calls `serde_json::from_str`: the value that `text` stands for, or the error
/// in words where `text` is not JSON.
#[verifier::external_body]
fn parse_json(text: &str) -> (r: Result<serde_json::Value, String>)
    ensures
        match json_value(text@) {
            Ok(value) => r == Ok::<serde_json::Value, String>(value),
            Err(problem) => r matches Err(e) && e@ == problem,
        },
{
    serde_json::from_str::<serde_json::Value>(text).map_err(|error| error.to_string())
}

/// What a JSON value holds under a key, if it is an object and holds something
/// there.
pub uninterp spec fn json_member(value: serde_json::Value, key: Seq<char>) -> Option<
    serde_json::Value,
>;

/// Calls `serde_json::Value::get` with a text as the index: what the value holds
/// under `key`, nothing where it is not an object or holds nothing there.
#[verifier::external_body]
fn get_member<'a>(value: &'a serde_json::Value, key: &str) -> (r: Option<&'a serde_json::Value>)
    ensures
        match json_member(*value, key@) {
            Some(member) => r matches Some(found) && *found == member,
            None => r is None,
        },
{
    value.get(key)
}

/// The number that a JSON value is, if it is one that 64 bits without a sign
/// hold.
pub uninterp spec fn json_u64(value: serde_json::Value) -> Option<u64>;

/// `serde_json::Value::as_u64` depends on the value alone: the number that it is,
/// nothing where it is something else or does not fit.
pub assume_specification[ serde_json::Value::as_u64 ](value: &serde_json::Value) -> (r: Option<u64>)
    ensures
        r == json_u64(*value),
;

/// The number under `key` in a JSON object, or what is wrong with the text.
pub open spec fn json_number(payload: Seq<char>, key: Seq<char>) -> Result<
    Option<u64>,
    Seq<char>,
> {
    match json_value(payload) {
        Ok(value) => Ok(
            match json_member(value, key) {
                Some(member) => json_u64(member),
                None => None,
            },
        ),
        Err(problem) => Err(problem),
    }
}

/// Reads the number under `key` in a JSON object.
fn read_json_number(payload: &str, key: &str) -> (r: Result<Option<u64>, String>)
    ensures
        match json_number(payload@, key@) {
            Ok(n) => r == Ok::<Option<u64>, String>(n),
            Err(text) => r matches Err(e) && e@ == text,
        },
{
    match parse_json(payload) {
        Ok(value) => match get_member(&value, key) {
            Some(member) => Ok(member.as_u64()),
            None => Ok(None),
        },
        Err(error) => Err(error),
    }
}

/// The token that the start of a run was noted with, given what its note
/// holds.
pub open spec fn token_in(number: Result<Option<u64>, Seq<char>>) -> Result<u64, Seq<char>> {
    match number {
        Ok(Some(token)) => Ok(token),
        Ok(None) => Err("pure v2 recheck start event has no run token"@),
        Err(e) => Err("pure v2 recheck start event has invalid payload: "@ + e),
    }
}

/// Reads the token from what a note holds.
pub fn run_token_from(number: Result<Option<u64>, String>) -> (r: Result<u64, String>)
    ensures
        ({
            let seen = match number {
                Ok(n) => Ok(n),
                Err(e) => Err(e@),
            };
            match token_in(seen) {
                Ok(token) => r == Ok::<u64, String>(token),
                Err(text) => r matches Err(e) && e@ == text,
            }
        }),
{
    match number {
        Ok(Some(token)) => Ok(token),
        Ok(None) => Err("pure v2 recheck start event has no run token".to_owned()),
        Err(e) => Err(
            join2("pure v2 recheck start event has invalid payload: ", e.as_str()),
        ),
    }
}

/// A note in the log of a job.
#[derive(Debug)]
pub struct JobEvent {
    pub kind: String,
    pub payload: String,
}

/// The place of the newest note that a check was started.
pub open spec fn newest_start(events: Seq<JobEvent>) -> Option<int>
    decreases events.len(),
{
    if events.len() == 0 {
        None
    } else if events[0].kind@ == "check_started"@ {
        Some(0)
    } else {
        match newest_start(events.skip(1)) {
            Some(i) => Some(i + 1),
            None => None,
        }
    }
}

/// The token of the run that is current: that of the newest start in the log,
/// whose notes come newest first. No token where no start is noted.
pub fn current_pure_v2_recheck_run_token(events: &[JobEvent]) -> (r: Result<Option<u64>, String>)
    ensures
        match newest_start(events@) {
            None => r == Ok::<Option<u64>, String>(None),
            Some(i) => match token_in(json_number(events@[i].payload@, "run_token"@)) {
                Ok(token) => r == Ok::<Option<u64>, String>(Some(token)),
                Err(text) => r matches Err(e) && e@ == text,
            },
        },
{
    let mut i: usize = 0;
    assert(events@.skip(0) =~= events@);
    while i < events.len() && events[i].kind != "check_started".to_owned()
        invariant
            i <= events@.len(),
            newest_start(events@) == match newest_start(events@.skip(i as int)) {
                Some(k) => Some(k + i),
                None => None,
            },
        decreases events@.len() - i,
    {
        assert(events@.skip(i as int).skip(1) =~= events@.skip(i + 1));
        i = i + 1;
    }
    if i == events.len() {
        return Ok(None);
    }
    assert(newest_start(events@) == Some(i as int));
    let token = run_token_from(read_json_number(events[i].payload.as_str(), "run_token"))?;
    Ok(Some(token))
}

impl RecheckStart {
    /// The start after an outcome.
    pub open spec fn after(self, outcome: StartOutcome) -> RecheckStart {
        RecheckStart { phase: start_step(self, outcome).0, ..self }
    }

    /// The action that follows on an outcome.
    pub open spec fn told(self, outcome: StartOutcome) -> StartAction {
        start_step(self, outcome).1
    }
}

/// A recheck against which nothing speaks comes to verify the payload, and
/// remembers how the torrent was found: one that was paused or stopped goes
/// back to that, any other to what the verification finds. The torrent is
/// shown as checking before, and a job is marked as running before.
pub proof fn law_recheck_remembers_halted_torrents(
    has_job: bool,
    state: TorrentState,
    idle: StartOutcome,
    authorized: StartOutcome,
    shown: StartOutcome,
    marked: StartOutcome,
    error: String,
)
    requires
        !(idle is Failed),
        !(authorized is Failed),
        !(shown is Failed),
        !(marked is Failed),
    ensures
        ({
            let taken = StartOutcome::Slot { taken: true };
            let found = StartOutcome::Found { state };
            let restore = match state {
                TorrentState::Paused => Some(TorrentState::Paused),
                TorrentState::Stopped => Some(TorrentState::Stopped),
                TorrentState::Queued => None,
                TorrentState::MetadataPending => None,
                TorrentState::Checking => None,
                TorrentState::Downloading => None,
                TorrentState::Seeding => None,
                TorrentState::Error => None,
            };
            let m0 = RecheckStart { has_job, phase: StartPhase::CheckingIdle };
            let m1 = m0.after(idle);
            let m2 = m1.after(taken);
            let m3 = m2.after(found);
            let m4 = m3.after(authorized);
            let m5 = m4.after(shown);
            &&& m0.told(idle) is TakeSlot
            &&& m1.told(taken) is LookUpTorrent
            &&& m2.told(found) is Authorize
            &&& m3.told(authorized) is ShowChecking
            &&& !has_job ==> m4.told(shown) == (StartAction::Verify { restore }) && m5.phase
                == StartPhase::Over
            &&& has_job ==> {
                &&& m4.told(shown) is MarkRunning
                &&& m5.told(marked) == (StartAction::Verify { restore })
                &&& m5.after(marked).phase == StartPhase::Over
                // A job that cannot be marked as running shows the torrent as
                // it was found.
                &&& m5.told(StartOutcome::Failed(error)) == (StartAction::RollBack {
                    state,
                    refusal: RecheckRefusal::NotRunning(error),
                })
                &&& m5.after(StartOutcome::Failed(error)).phase == StartPhase::Over
            }
        }),
{
}

/// Whatever happens, a torrent is verified only after it was found, and goes
/// back only to a pause or a stop that it was found in.
pub proof fn law_verification_restores_what_was_found(start: RecheckStart, outcome: StartOutcome)
    ensures
        start.told(outcome) matches StartAction::Verify { restore } ==> {
            &&& start.phase is Showing || start.phase is MarkingRunning
            &&& ({
                let found = match start.phase {
                    StartPhase::Showing { state } => state,
                    StartPhase::MarkingRunning { state } => state,
                    _ => arbitrary(),
                };
                &&& restore matches Some(state) ==> state == found
                &&& restore is Some <==> (found == TorrentState::Paused || found
                    == TorrentState::Stopped)
            })
        },
        start.phase == StartPhase::LookingUp ==> (outcome matches StartOutcome::Found { state }
            ==> start.after(outcome).phase == (StartPhase::Authorizing { state })),
        start.after(outcome).has_job == start.has_job,
{
}

/// A recheck that cannot be started is refused with what stood in the way, and
/// nothing is verified.
pub proof fn law_refused_rechecks_are_told(
    start: RecheckStart,
    error: String,
    info_hash: String,
)
    ensures
        (start.phase == StartPhase::CheckingIdle || start.phase is Authorizing || start.phase
            is Showing) ==> start.told(StartOutcome::Failed(error)) == StartAction::Refuse(
            RecheckRefusal::Reported(error),
        ) && start.after(StartOutcome::Failed(error)).phase == StartPhase::Over,
        start.phase == StartPhase::TakingSlot ==> start.told(
            (StartOutcome::Slot { taken: false }),
        ) == StartAction::Refuse(RecheckRefusal::Capacity) && start.after(
            (StartOutcome::Slot { taken: false }),
        ).phase == StartPhase::Over,
        start.phase == StartPhase::LookingUp ==> start.told(
            (StartOutcome::NotFound { info_hash }),
        ) == StartAction::Refuse((RecheckRefusal::NotFound { info_hash })) && start.after(
            (StartOutcome::NotFound { info_hash }),
        ).phase == StartPhase::Over,
{
}

impl RecheckFinish {
    /// The finish after an outcome.
    pub open spec fn after(self, outcome: FinishOutcome) -> RecheckFinish {
        RecheckFinish { phase: finish_step(self, outcome).0, ..self }
    }

    /// The action that follows on an outcome.
    pub open spec fn told(self, outcome: FinishOutcome) -> FinishAction {
        finish_step(self, outcome).1
    }
}

/// What the verifier reports of the current run of a torrent's job, where the
/// torrent stays and the job goes on: the job is checked, what was verified is
/// stored, and then the torrent is shown. A torrent that was halted goes back
/// to where it was, one with all its payload seeds, any other is paused.
pub proof fn law_current_verification_counts(
    completion: PureV2RecheckCompletion,
    active: String,
    state: JobState,
    stored: FinishOutcome,
    shown: FinishOutcome,
)
    requires
        completion.job_id matches Some(id) && id@ == active@,
        completion.run_token is Some,
        completion.error is None,
        state == JobState::Queued || state == JobState::Running || state == JobState::Cancelling
            || state == JobState::Completed || state == JobState::CommitPending,
        !(stored is Failed),
        !(shown is Failed),
    ensures
        ({
            let job = FinishOutcome::ActiveJob(Some((active, JobKind::Recheck)));
            let token = FinishOutcome::RunToken(completion.run_token);
            let stays = FinishOutcome::Removal { under_way: false };
            let goes_on = FinishOutcome::JobState(state);
            let m0 = RecheckFinish { completion, phase: FinishPhase::LookingUpJob };
            let m1 = m0.after(job);
            let m2 = m1.after(token);
            let m3 = m2.after(stays);
            let m4 = m3.after(goes_on);
            let m5 = m4.after(stored);
            &&& m0.told(job) is LookUpRunToken
            &&& m1.told(token) is CheckRemoval
            &&& m2.told(stays) is LoadJobState
            &&& m3.told(goes_on) is StoreProgress
            &&& m4.told(stored) matches FinishAction::ShowFinal { change, .. } && {
                &&& completion.restore_state matches Some(before) ==> change == (StateChange {
                    state: before,
                    completed_length: None,
                    verified_progress: Some((completion.total_length, completion.amount_left)),
                })
                &&& completion.restore_state is None && completion.invalid_files == 0 ==> change
                    == (StateChange {
                    state: TorrentState::Seeding,
                    completed_length: Some(completion.total_length),
                    verified_progress: None,
                })
                &&& completion.restore_state is None && completion.invalid_files > 0 ==> change
                    == (StateChange {
                    state: TorrentState::Paused,
                    completed_length: None,
                    verified_progress: Some((completion.total_length, completion.amount_left)),
                })
            }
            &&& m5.told(shown) == (FinishAction::Close { fail_closed: None, result: Ok(()) })
            &&& m5.after(shown).phase == FinishPhase::Over
        }),
{
}

/// A verification that failed fails its job and shows the torrent in error, with
/// the progress that it had, unless the job is settled.
pub proof fn law_failed_verification_is_shown(
    completion: PureV2RecheckCompletion,
    state: JobState,
    failed: FinishOutcome,
)
    requires
        completion.error is Some,
        completion.job_id is Some,
        state == JobState::Queued || state == JobState::Running || state == JobState::Cancelling
            || state == JobState::CommitPending,
        !(failed is Failed),
    ensures
        ({
            let m0 = RecheckFinish { completion, phase: FinishPhase::LoadingState };
            let m1 = m0.after(FinishOutcome::JobState(state));
            &&& m0.told(FinishOutcome::JobState(state)) is FailJob
            &&& m1.told(failed) matches FinishAction::ShowFinal { change, .. } && change == (
            StateChange {
                state: TorrentState::Error,
                completed_length: None,
                verified_progress: None,
            })
        }),
{
}

/// A job that was paused, cancelled or failed meanwhile leaves the torrent
/// paused with the progress that it had; so does a failed verification of a
/// completed job. Nothing is stored with the job then.
pub proof fn law_overtaken_verification_pauses(
    completion: PureV2RecheckCompletion,
    state: JobState,
)
    requires
        state == JobState::Paused || state == JobState::Cancelled || state == JobState::Failed || (
        state == JobState::Completed && completion.error is Some),
    ensures
        ({
            let m0 = RecheckFinish { completion, phase: FinishPhase::LoadingState };
            m0.told(FinishOutcome::JobState(state)) matches FinishAction::ShowFinal { change, .. }
                && change == (StateChange {
                state: TorrentState::Paused,
                completed_length: None,
                verified_progress: None,
            })
        }),
{
}

/// A torrent that is being removed is not shown again: its job is cancelled,
/// where it has one, and that is the end.
pub proof fn law_removal_ends_the_verification(
    completion: PureV2RecheckCompletion,
    cancelled: FinishOutcome,
)
    requires
        !(cancelled is Failed),
    ensures
        ({
            let removal = FinishOutcome::Removal { under_way: true };
            let over = FinishAction::Close { fail_closed: None, result: Ok(()) };
            let m0 = RecheckFinish { completion, phase: FinishPhase::CheckingRemoval };
            &&& completion.job_id is Some ==> {
                &&& m0.told(removal) is CancelJob
                &&& m0.after(removal).told(cancelled) == over
                &&& m0.after(removal).after(cancelled).phase == FinishPhase::Over
            }
            &&& completion.job_id is None ==> m0.told(removal) == over && m0.after(removal).phase
                == FinishPhase::Over
        }),
{
}

/// A recheck without a job is shown as it was verified as soon as the torrent is
/// known to stay.
pub proof fn law_verification_without_job_is_shown(completion: PureV2RecheckCompletion)
    requires
        completion.job_id is None,
    ensures
        ({
            let m0 = RecheckFinish { completion, phase: FinishPhase::CheckingRemoval };
            m0.told((FinishOutcome::Removal { under_way: false })) matches FinishAction::ShowFinal {
                change,
                ..
            } && {
                &&& completion.error is Some ==> change.state == TorrentState::Error
                &&& completion.error is None ==> (match completion.restore_state {
                    Some(before) => change.state == before,
                    None => change.state == if completion.invalid_files == 0 {
                        TorrentState::Seeding
                    } else {
                        TorrentState::Paused
                    },
                })
            }
        }),
{
}

/// The report of another job, or of another run, is dropped, and a look-up that
/// fails is told; in both cases nothing is shown.
pub proof fn law_other_runs_do_not_count(
    completion: PureV2RecheckCompletion,
    active: Option<(String, JobKind)>,
    token: Option<u64>,
    error: String,
)
    requires
        completion.job_id is Some,
        completion.run_token is Some,
    ensures
        ({
            let dropped = FinishAction::Close { fail_closed: None, result: Ok(()) };
            let told = FinishAction::Close { fail_closed: None, result: Err(error) };
            let m0 = RecheckFinish { completion, phase: FinishPhase::LookingUpJob };
            let m1 = RecheckFinish { completion, phase: FinishPhase::LookingUpToken };
            let ours = match active {
                Some((id, kind)) => id@ == (completion.job_id->0)@ && kind == JobKind::Recheck,
                None => false,
            };
            &&& !ours ==> m0.told(FinishOutcome::ActiveJob(active)) == dropped
            &&& ours ==> m0.told(FinishOutcome::ActiveJob(active)) is LookUpRunToken
            &&& token != completion.run_token ==> m1.told(FinishOutcome::RunToken(token))
                == dropped
            &&& token == completion.run_token ==> m1.told(FinishOutcome::RunToken(token))
                is CheckRemoval
            &&& m0.told(FinishOutcome::Failed(error)) == told
            &&& m1.told(FinishOutcome::Failed(error)) == told
        }),
{
}

/// What fails once the report counts is told, and the torrent is shown in error
/// with the progress that it had.
pub proof fn law_broken_finish_is_shown_in_error(finish: RecheckFinish, error: String)
    requires
        finish.phase == FinishPhase::Cancelling || finish.phase == FinishPhase::LoadingState
            || finish.phase == FinishPhase::FailingJob || finish.phase
            == FinishPhase::StoringProgress || finish.phase == FinishPhase::Showing,
    ensures
        finish.told(FinishOutcome::Failed(error)) matches FinishAction::Close {
            fail_closed: Some(change),
            result,
        } && result == Err::<(), String>(error) && change.state == TorrentState::Error
            && change.completed_length is None && change.verified_progress is None,
        finish.after(FinishOutcome::Failed(error)).phase == FinishPhase::Over,
{
}

/// A note that holds a token gives that token, one without is refused, and one
/// that cannot be read is refused with what is wrong with it.
pub proof fn law_tokens_are_read_as_noted(token: u64, problem: Seq<char>)
    ensures
        token_in(Ok(Some(token))) == Ok::<u64, Seq<char>>(token),
        token_in(Ok(None)) is Err,
        token_in(Err(problem)) matches Err(text) && problem.is_suffix_of(text),
{
    let text = "pure v2 recheck start event has invalid payload: "@ + problem;
    assert(problem =~= text.subrange(text.len() - problem.len(), text.len() as int));
}

/// Of the notes in a log, newest first, the newest start counts: it is a start,
/// and no note before it is.
pub proof fn law_newest_start_counts(events: Seq<JobEvent>)
    ensures
        match newest_start(events) {
            Some(i) => 0 <= i < events.len() && events[i].kind@ == "check_started"@ && forall|k: int|
                0 <= k < i ==> (#[trigger] events[k]).kind@ != "check_started"@,
            None => forall|k: int|
                0 <= k < events.len() ==> (#[trigger] events[k]).kind@ != "check_started"@,
        },
    decreases events.len(),
{
    if events.len() > 0 && events[0].kind@ != "check_started"@ {
        let rest = events.skip(1);
        law_newest_start_counts(rest);
        match newest_start(rest) {
            Some(i) => {
                assert(rest[i] == events[i + 1]);
                assert forall|k: int| 0 <= k < i + 1 implies (#[trigger] events[k]).kind@
                    != "check_started"@ by {
                    if k > 0 {
                        assert(rest[k - 1] == events[k]);
                    }
                }
            },
            None => {
                assert forall|k: int| 0 <= k < events.len() implies (#[trigger] events[k]).kind@
                    != "check_started"@ by {
                    if k > 0 {
                        assert(rest[k - 1] == events[k]);
                    }
                }
            },
        }
    }
}

/// Only a recheck that still waits is begun on again.
pub proof fn law_waiting_rechecks_are_begun_again(kind: JobKind, state: JobState, r: bool)
    requires
        call_ensures(is_redispatched, (kind, state), r),
    ensures
        r <==> kind == JobKind::Recheck && state == JobState::Queued,
{
}

/// A recheck begins with the question whether the torrent is idle; what comes of a
/// verification begins with its job, where it has one.
pub proof fn law_rechecks_begin_with_a_question(
    has_job: bool,
    started: (RecheckStart, StartAction),
    completion: PureV2RecheckCompletion,
    finished: (RecheckFinish, FinishAction),
)
    requires
        call_ensures(RecheckStart::begin, (has_job,), started),
        call_ensures(RecheckFinish::begin, (completion,), finished),
    ensures
        started.0.has_job == has_job && started.0.phase == StartPhase::CheckingIdle && started.1
            is CheckIdle,
        finished.0.completion == completion,
        completion.job_id is Some ==> finished.0.phase == FinishPhase::LookingUpJob && finished.1
            is LookUpActiveJob,
        completion.job_id is None ==> finished.0.phase == FinishPhase::CheckingRemoval
            && finished.1 is CheckRemoval,
{
}

/// What a recheck waits for is what was last asked for, and it is over exactly when
/// the torrent is verified or the recheck refused.
pub proof fn law_rechecks_wait_for_what_they_ask(start: RecheckStart, outcome: StartOutcome)
    ensures
        ({
            let told = start.told(outcome);
            let after = start.after(outcome).phase;
            &&& told is CheckIdle <==> after is CheckingIdle
            &&& told is TakeSlot <==> after is TakingSlot
            &&& told is LookUpTorrent <==> after is LookingUp
            &&& told is Authorize <==> after is Authorizing
            &&& told is ShowChecking <==> after is Showing
            &&& told is MarkRunning <==> after is MarkingRunning
            &&& after is Over <==> told is RollBack || told is Verify || told is Refuse
        }),
{
}

/// What the end of a verification waits for is what was last asked for, and it is over
/// exactly when it is closed.
pub proof fn law_finished_rechecks_wait_for_what_they_ask(finish: RecheckFinish, outcome: FinishOutcome)
    ensures
        ({
            let told = finish.told(outcome);
            let after = finish.after(outcome).phase;
            &&& told is LookUpActiveJob <==> after is LookingUpJob
            &&& told is LookUpRunToken <==> after is LookingUpToken
            &&& told is CheckRemoval <==> after is CheckingRemoval
            &&& told is CancelJob <==> after is Cancelling
            &&& told is LoadJobState <==> after is LoadingState
            &&& told is FailJob <==> after is FailingJob
            &&& told is StoreProgress <==> after is StoringProgress
            &&& told is ShowFinal <==> after is Showing
            &&& after is Over <==> told is Close
        }),
{
}

} // verus!
