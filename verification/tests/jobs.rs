use rt_engine::job::{
    complete_storage_plan_job, recover_interrupted_job, recovered_state, JobKind, JobRow, JobState,
    Retry, RetryPolicy, TorrentState, JOB_RECOVERED_KIND, JOB_RECOVERED_MESSAGE,
};
use rt_engine::manual_recovery::{is_brought_back_in_error, waiting_torrents, FailedJob};
use rt_engine::task_join::{
    fail_rechecks_of, reap_finished_torrent_task, reap_reason, shutdown_step,
    task_join_error_summary, tasks_to_abort, JoinFailure, ReapAction, ReapOutcome, ReapPhase,
    ShutdownStep,
};

fn job(kind: JobKind, state: JobState) -> JobRow {
    JobRow {
        job_id: "j".to_owned(),
        kind,
        state,
        error: None,
        done: 0,
        checkpoint: 0,
        file_index: None,
        byte_offset: Some(9),
        updated_at: 1,
        finished_at: None,
        affected_torrents: vec!["aa".to_owned()],
    }
}

#[test]
fn interrupted_jobs_are_taken_up_again() {
    assert_eq!(recovered_state(JobKind::StoragePlan, JobState::Running), Some(JobState::Queued));
    assert_eq!(
        recovered_state(JobKind::StoragePlan, JobState::Cancelling),
        Some(JobState::Cancelling)
    );
    assert_eq!(recovered_state(JobKind::Recheck, JobState::Running), Some(JobState::Paused));
    assert_eq!(recovered_state(JobKind::Recheck, JobState::Completed), None);
    let mut row = job(JobKind::Recheck, JobState::Running);
    let recovery = recover_interrupted_job(
        &mut row,
        &[Some(TorrentState::Seeding), Some(TorrentState::Checking), None],
        7,
    )
    .unwrap();
    assert_eq!(recovery.paused, vec![1]);
    assert_eq!(recovery.event.job_id, "j");
    assert_eq!(recovery.event.occurred_at, 7);
    assert_eq!(recovery.event.state, JobState::Paused);
    assert_eq!(recovery.event.previous_state, JobState::Running);
    assert_eq!(JOB_RECOVERED_KIND, "job_recovered");
    assert_eq!(JOB_RECOVERED_MESSAGE, "job recovered after engine restart");
    assert_eq!(row.state, JobState::Paused);
    assert_eq!(row.updated_at, 7);
    let mut idle = job(JobKind::Recheck, JobState::Queued);
    assert!(recover_interrupted_job(&mut idle, &[Some(TorrentState::Checking)], 7).is_none());
    assert_eq!(idle.updated_at, 1);
    let mut plan = job(JobKind::StoragePlan, JobState::Cancelling);
    let kept = recover_interrupted_job(&mut plan, &[Some(TorrentState::Checking)], 8).unwrap();
    assert!(kept.paused.is_empty());
    assert_eq!(kept.event.state, JobState::Cancelling);
    assert_eq!(kept.event.previous_state, JobState::Cancelling);
}

#[test]
fn a_completed_commit_wins_over_a_late_cancellation() {
    let mut row = job(JobKind::StoragePlan, JobState::Cancelled);
    assert_eq!(complete_storage_plan_job(&mut row, 3, None, 5), Ok(true));
    assert_eq!(row.state, JobState::Completed);
    assert_eq!(row.done, 3);
    assert_eq!(row.checkpoint, 3);
    assert_eq!(row.file_index, Some(3));
    assert_eq!(row.byte_offset, Some(9));
    assert_eq!(row.finished_at, Some(5));
    assert_eq!(complete_storage_plan_job(&mut row, 1, Some(2), 6), Ok(false));
    assert_eq!(row.done, 3);
    let mut other = job(JobKind::Recheck, JobState::Running);
    assert_eq!(
        complete_storage_plan_job(&mut other, 1, None, 5).unwrap_err(),
        "job j is not a storage plan"
    );
}

#[test]
fn retries_grow_and_end() {
    let policy = RetryPolicy { max_retries: 6, base_delay: 1_000 };
    assert_eq!(policy.schedule(0), Some(Retry { delay: 1_000, attempt: 1 }));
    assert_eq!(policy.schedule(3), Some(Retry { delay: 8_000, attempt: 4 }));
    assert_eq!(policy.schedule(5), Some(Retry { delay: 16_000, attempt: 6 }));
    assert_eq!(policy.schedule(6), None);
    let again = policy
        .retry_terminal_state(JobState::Failed, None, "disk full".to_owned(), 0)
        .unwrap();
    assert_eq!(again.error.as_deref(), Some("disk full"));
    let again = policy
        .retry_terminal_state(JobState::Failed, Some("own".to_owned()), "disk full".to_owned(), 0)
        .unwrap();
    assert_eq!(again.error.as_deref(), Some("own"));
}

#[test]
fn torrents_of_failed_jobs_wait_for_an_operator() {
    let waiting = waiting_torrents(&[
        FailedJob {
            job_id: "one".to_owned(),
            affected_torrents: vec!["aa".to_owned(), "bb".to_owned()],
            context_torrent: Some("zz".to_owned()),
        },
        FailedJob {
            job_id: "two".to_owned(),
            affected_torrents: Vec::new(),
            context_torrent: Some("aa".to_owned()),
        },
        FailedJob {
            job_id: "three".to_owned(),
            affected_torrents: Vec::new(),
            context_torrent: None,
        },
    ]);
    assert_eq!(waiting.len(), 2);
    let a = waiting.iter().find(|w| w.info_hash == "aa").unwrap();
    assert_eq!(a.job_ids, vec!["one".to_owned(), "two".to_owned()]);
    let b = waiting.iter().find(|w| w.info_hash == "bb").unwrap();
    assert_eq!(b.job_ids, vec!["one".to_owned()]);
    assert!(is_brought_back_in_error(Some(TorrentState::Paused)));
    assert!(!is_brought_back_in_error(Some(TorrentState::Error)));
    assert!(!is_brought_back_in_error(None));
}

#[test]
fn join_failures_are_told_without_their_payload() {
    assert_eq!(task_join_error_summary("worker", JoinFailure::Panicked), "worker panicked");
    assert_eq!(task_join_error_summary("worker", JoinFailure::Cancelled), "worker was cancelled");
    assert_eq!(reap_reason(None), "torrent task exited unexpectedly");
    assert_eq!(reap_reason(Some(JoinFailure::Panicked)), "torrent task panicked");
}

#[test]
fn a_task_that_does_not_end_is_aborted_once() {
    assert_eq!(shutdown_step(Some(None), false), ShutdownStep::Ended);
    assert_eq!(shutdown_step(None, false), ShutdownStep::Abort);
    assert_eq!(shutdown_step(None, true), ShutdownStep::GiveUp);
    assert_eq!(shutdown_step(Some(Some(JoinFailure::Cancelled)), true), ShutdownStep::Ended);
    assert_eq!(shutdown_step(Some(Some(JoinFailure::Panicked)), true), ShutdownStep::EndedBadly);
    assert_eq!(tasks_to_abort(&[true, false, true, false]), vec![1, 3]);
}

#[test]
fn a_dead_task_is_isolated() {
    let (phase, action) = reap_finished_torrent_task(
        ReapPhase::Forgetting,
        "torrent task panicked".to_owned(),
        ReapOutcome::Done,
    );
    assert!(matches!(action, ReapAction::ShowError { reason } if reason == "torrent task panicked"));
    let (phase, action) = reap_finished_torrent_task(phase, String::new(), ReapOutcome::Done);
    assert!(matches!(action, ReapAction::Persist));
    let (phase, action) = reap_finished_torrent_task(phase, String::new(), ReapOutcome::Failed);
    assert!(matches!(action, ReapAction::Demote));
    let (_, action) = reap_finished_torrent_task(phase, String::new(), ReapOutcome::Done);
    assert!(matches!(action, ReapAction::Finish));
    let mut jobs = vec![
        job(JobKind::Recheck, JobState::Running),
        job(JobKind::StoragePlan, JobState::Running),
    ];
    fail_rechecks_of(&mut jobs, &"aa".to_owned(), &"gone".to_owned(), 4);
    assert_eq!(jobs[0].state, JobState::Failed);
    assert_eq!(jobs[0].error.as_deref(), Some("gone"));
    assert_eq!(jobs[0].finished_at, Some(4));
    assert_eq!(jobs[1].state, JobState::Running);
}
