use rt_engine::fields_update::{
    FieldsAction, FieldsOutcome, FieldsRefusal, FieldsUpdate, MoveAction as PlannedAction,
    MoveOutcome as PlannedOutcome, PreparedMove, ShownTorrent, TorrentFields,
};
use rt_engine::job::{JobKind, JobState};
use rt_engine::manual_recovery::manual_recovery_reason;
use rt_engine::pending_moves::PendingStorageMoves;
use rt_engine::storage_control::{
    collect_quiesce_results, find_handle, find_quiesced, finish_storage_plan,
    hands_over_save_path, is_isolated, normalize_operation, plan_torrent_payload_files,
    resume_torrent_after_storage_move, torrents_to_isolate, PayloadProbe, PlanAction, PlanEnd,
    PlanExecution, PlanOutcome, QuiesceAction, QuiesceOutcome, QuiesceResult, ResumeStep,
    TaskQuiesce,
};
use rt_engine::storage_delete::{
    DeleteAction, DeleteOutcome, StorageDeleteCompletion, StorageDeleteFinish,
};
use rt_engine::storage_move::{
    MoveAction, MoveCompletion, MoveEvent, MoveOutcome, StorageMoveFinish,
};
use rt_engine::storage_path::StoragePath;
use rt_engine::storage_plan::{
    PlanIssue, PlanPath, PlannedStorageAction, StoragePlan, StoragePlanStep,
};
use rt_engine::storage_recovery::{
    choose_record, compare_move_path, merge_quiesced, recoverable, recovered_checkpoint, Finisher,
    Isolated, LoggedPlan, PathMatch, PlanOperation, Quiesced, RecordChoice, RecordedTorrents,
    RecoveredJob, RecoveryAction, RecoveryFacts, RecoveryFailure, RecoveryOutcome, Source,
    Submission, Targets,
};
use rt_engine::torrent_blob::{
    delete_persisted_torrent, publish_torrent_blob, FileRemoval, ForgetAction, ForgetPhase,
    PublishAction, PublishPhase,
};

const MARKER: &str = "operator: ";

fn path(text: &str) -> StoragePath {
    StoragePath {
        absolute: text.starts_with('/'),
        components: text
            .split('/')
            .filter(|c| !c.is_empty())
            .map(|c| c.as_bytes().to_vec())
            .collect(),
        text: text.to_owned(),
    }
}

fn shown(handle: u64, name: &str, at: &str) -> ShownTorrent {
    ShownTorrent { handle, name: name.to_owned(), save_path: path(at) }
}

fn hash() -> String {
    "aa".to_owned()
}

#[test]
fn a_torrent_has_one_move_at_a_time() {
    let mut pending = PendingStorageMoves::new();
    assert!(pending.try_reserve_storage_move(&hash(), 7));
    assert!(!pending.try_reserve_storage_move(&hash(), 8));
    assert_eq!(pending.get(&hash()).unwrap().torrent_handle, 7);
    pending.record_storage_move_quiescence(&hash(), Some(true));
    assert_eq!(pending.get(&hash()).unwrap().quiesced, Some(true));
    assert_eq!(
        pending.storage_move_pending_error(&hash()).unwrap(),
        "torrent aa has a storage move being prepared; retry later"
    );
    assert_eq!(
        pending
            .ensure_storage_move_not_pending(&["bb".to_owned(), hash()])
            .unwrap_err(),
        "torrent aa has a storage move being prepared; retry later"
    );
    pending.release_storage_move_reservation(&hash());
    assert!(pending.ensure_storage_move_not_pending(&[hash()]).is_ok());
    assert!(pending.try_reserve_storage_move(&hash(), 8));
    let (taken, _) = pending.take_one().unwrap();
    assert_eq!(taken, "aa");
    assert!(pending.take_one().is_none());
}

#[test]
fn a_change_of_place_prepares_a_move() {
    let mut pending = PendingStorageMoves::new();
    let (mut update, first) = FieldsUpdate::begin(hash(), Some(path("/new")));
    assert!(matches!(first, FieldsAction::CheckIdle));
    assert!(matches!(update.next(FieldsOutcome::Done, &mut pending), FieldsAction::LookUp));
    assert!(matches!(
        update.next(FieldsOutcome::Found(shown(1, "n", "/old")), &mut pending),
        FieldsAction::LoadRoots
    ));
    assert!(matches!(update.next(FieldsOutcome::Done, &mut pending), FieldsAction::LoadFiles));
    assert!(matches!(update.next(FieldsOutcome::Done, &mut pending), FieldsAction::TakeSlot));
    assert!(matches!(
        update.next(FieldsOutcome::Slot { taken: true }, &mut pending),
        FieldsAction::Quiesce
    ));
    assert!(pending.get(&hash()).is_some());
    assert!(matches!(
        update.next(FieldsOutcome::Quiesced(Some(false)), &mut pending),
        FieldsAction::Plan
    ));
    assert_eq!(pending.get(&hash()).unwrap().quiesced, Some(false));
}

#[test]
fn a_change_without_a_move_is_only_stored() {
    let mut pending = PendingStorageMoves::new();
    for target in [None, Some(path("/old"))] {
        let (mut update, _) = FieldsUpdate::begin(hash(), target);
        update.next(FieldsOutcome::Done, &mut pending);
        assert!(matches!(
            update.next(FieldsOutcome::Found(shown(1, "n", "/old")), &mut pending),
            FieldsAction::Persist
        ));
    }
}

#[test]
fn a_task_that_is_not_quiet_does_not_move() {
    let mut pending = PendingStorageMoves::new();
    let (mut update, _) = FieldsUpdate::begin(hash(), Some(path("/new")));
    update.next(FieldsOutcome::Done, &mut pending);
    update.next(FieldsOutcome::Found(shown(1, "n", "/old")), &mut pending);
    update.next(FieldsOutcome::Done, &mut pending);
    update.next(FieldsOutcome::Done, &mut pending);
    update.next(FieldsOutcome::Slot { taken: true }, &mut pending);
    let action = update.next(FieldsOutcome::Failed("busy".to_owned()), &mut pending);
    match action {
        FieldsAction::Refuse(refusal) => assert_eq!(
            refusal.to_text(),
            "torrent aa could not be quiesced for storage move: busy"
        ),
        other => panic!("{other:?}"),
    }
    assert!(pending.get(&hash()).is_none());
    assert_eq!(
        FieldsRefusal::Capacity.to_text(),
        "storage move planning capacity exhausted; retry later"
    );
    assert_eq!(
        FieldsRefusal::AlreadyMoving.to_text(),
        "torrent already has a storage move being prepared; retry later"
    );
}

#[test]
fn a_planned_move_is_queued_only_for_the_same_torrent() {
    let mut pending = PendingStorageMoves::new();
    pending.try_reserve_storage_move(&hash(), 1);
    let (mut planned, _) = PreparedMove::begin(hash(), shown(1, "n", "/old"), Ok(true));
    assert!(matches!(planned.next(PlannedOutcome::Done, &mut pending), PlannedAction::LookUp));
    assert!(matches!(
        planned.next(PlannedOutcome::Found(shown(1, "n", "/old")), &mut pending),
        PlannedAction::CheckPlan { has_plan: true }
    ));
    assert!(matches!(planned.next(PlannedOutcome::Done, &mut pending), PlannedAction::CheckIdle));
    assert!(matches!(planned.next(PlannedOutcome::Done, &mut pending), PlannedAction::Queue));
    assert!(pending.get(&hash()).is_some());
    assert!(matches!(
        planned.next(PlannedOutcome::Queued { job_id: "j".to_owned() }, &mut pending),
        PlannedAction::Accepted { job_id } if job_id == "j"
    ));
    assert!(pending.get(&hash()).is_none());

    pending.try_reserve_storage_move(&hash(), 1);
    let (mut planned, _) = PreparedMove::begin(hash(), shown(1, "n", "/old"), Ok(true));
    planned.next(PlannedOutcome::Done, &mut pending);
    match planned.next(PlannedOutcome::Found(shown(2, "n", "/old")), &mut pending) {
        PlannedAction::ResumeAndRefuse(refusal) => assert_eq!(
            refusal.to_text(),
            "torrent aa changed while its storage move was being planned; retry"
        ),
        other => panic!("{other:?}"),
    }
    assert!(pending.get(&hash()).is_none());
}

#[test]
fn fields_that_were_not_stored_are_shown_as_before() {
    let mut fields = TorrentFields { name: "old".to_owned(), save_path: "/old".to_owned() };
    let previous = fields.change(Some("new".to_owned()), None);
    assert_eq!(fields.name, "new");
    assert_eq!(fields.save_path, "/old");
    assert_eq!(
        fields.settle(previous, &hash(), Ok(false)).unwrap_err(),
        "torrent aa is missing from the database"
    );
    assert_eq!(fields.name, "old");
}

#[test]
fn a_plan_waits_for_quiet_tasks() {
    assert_eq!(normalize_operation("  MoVe\n"), "move");
    let (_, action) = PlanExecution::begin("move", true);
    match action {
        PlanAction::Refuse(refusal) => assert_eq!(
            refusal.to_text(),
            "storage execution received a dry-run plan; use the preview endpoint first"
        ),
        other => panic!("{other:?}"),
    }
    let (mut plan, action) = PlanExecution::begin(" Move ", false);
    assert!(plan.is_move);
    assert!(matches!(action, PlanAction::CheckPlan));
    assert!(matches!(plan.next(PlanOutcome::Done), PlanAction::NormalizeTargets));
    assert!(matches!(plan.next(PlanOutcome::Done), PlanAction::ValidateTargets));
    assert!(matches!(plan.next(PlanOutcome::Done), PlanAction::CheckIdle));
    assert!(matches!(plan.next(PlanOutcome::Done), PlanAction::ReadMoveContext));
    assert!(matches!(plan.next(PlanOutcome::Done), PlanAction::Quiesce));
    assert!(matches!(plan.next(PlanOutcome::Done), PlanAction::Queue));
    assert!(matches!(
        plan.next(PlanOutcome::Failed("full".to_owned())),
        PlanAction::ResumeAndRefuse(_)
    ));
    let (mut plan, _) = PlanExecution::begin("delete", false);
    match plan.next(PlanOutcome::Failed("issues".to_owned())) {
        PlanAction::Refuse(refusal) => {
            assert_eq!(refusal.to_text(), "storage plan cannot apply: issues")
        }
        other => panic!("{other:?}"),
    }
}

#[test]
fn the_end_of_a_plan_depends_on_how_it_ended() {
    assert!(matches!(
        finish_storage_plan(JobState::Queued, false, true, None, MARKER),
        PlanEnd::Nothing
    ));
    assert!(matches!(
        finish_storage_plan(JobState::Failed, false, true, None, MARKER),
        PlanEnd::ManualRecovery { reason }
            if reason == "operator: storage plan left filesystem state that requires manual recovery"
    ));
    assert!(matches!(
        finish_storage_plan(JobState::CommitPending, true, false, None, MARKER),
        PlanEnd::Resume { complete_job: true }
    ));
    assert!(matches!(
        finish_storage_plan(JobState::Failed, false, false, Some("x".to_owned()), MARKER),
        PlanEnd::Resume { complete_job: false }
    ));
    assert!(is_isolated(None, None));
    assert!(is_isolated(Some(1), Some(1)));
    assert!(!is_isolated(Some(1), Some(2)));
    assert!(!is_isolated(Some(1), None));
}

#[test]
fn a_task_goes_on_as_it_was() {
    assert_eq!(
        resume_torrent_after_storage_move(None, None, None, true, false),
        ResumeStep::Nothing
    );
    assert_eq!(
        resume_torrent_after_storage_move(Some(false), Some(1), Some(2), true, false),
        ResumeStep::Nothing
    );
    assert_eq!(
        resume_torrent_after_storage_move(Some(false), Some(1), Some(1), true, true),
        ResumeStep::Tell { show_pending: true }
    );
    assert_eq!(
        resume_torrent_after_storage_move(Some(true), Some(1), Some(1), true, true),
        ResumeStep::Nothing
    );
    assert_eq!(
        resume_torrent_after_storage_move(Some(false), None, None, false, false),
        ResumeStep::Wake
    );
    assert_eq!(
        resume_torrent_after_storage_move(Some(true), None, None, false, false),
        ResumeStep::Nothing
    );
}

#[test]
fn a_paused_task_only_hears_of_a_new_place() {
    assert!(hands_over_save_path(Some(true), Some(1), Some(1), true, true));
    assert!(!hands_over_save_path(Some(true), Some(1), Some(1), true, false));
    assert!(!hands_over_save_path(Some(true), Some(1), Some(2), true, true));
    assert!(!hands_over_save_path(Some(true), None, None, false, true));
    assert!(!hands_over_save_path(Some(false), Some(1), Some(1), true, true));
    assert!(!hands_over_save_path(None, Some(1), Some(1), true, true));
}

#[test]
fn quiescing_a_metadata_task_stores_the_pause() {
    let (task, action) = TaskQuiesce::begin();
    assert!(matches!(action, QuiesceAction::LookUpPlaceholder));
    let (task, action) = task.next(QuiesceOutcome::Placeholder(true));
    assert!(matches!(action, QuiesceAction::Quiesce));
    let (task, action) = task.next(QuiesceOutcome::Quiesced { was_paused: false });
    assert!(matches!(action, QuiesceAction::StorePaused));
    let (task, action) = task.next(QuiesceOutcome::Failed("db".to_owned()));
    assert!(matches!(action, QuiesceAction::Restore { paused: false }));
    match task.next(QuiesceOutcome::Failed("gone".to_owned())).1 {
        QuiesceAction::Report(Err(failure)) => assert_eq!(
            failure.to_text(),
            "failed to persist metadata quiesce state: db; failed to restore metadata task: gone"
        ),
        other => panic!("{other:?}"),
    }
    let (task, _) = TaskQuiesce::begin();
    let (task, _) = task.next(QuiesceOutcome::Placeholder(false));
    assert!(matches!(
        task.next(QuiesceOutcome::Quiesced { was_paused: true }).1,
        QuiesceAction::Report(Ok(true))
    ));
}

#[test]
fn the_first_quiesce_error_counts() {
    let result = |hash: &str, result: Result<bool, String>| QuiesceResult {
        info_hash: hash.to_owned(),
        result,
    };
    let (quiet, error) = collect_quiesce_results(vec![
        result("a", Ok(true)),
        result("b", Err("first".to_owned())),
        result("c", Ok(false)),
        result("d", Err("second".to_owned())),
    ]);
    assert_eq!(error.as_deref(), Some("first"));
    assert_eq!(quiet.len(), 2);
    assert_eq!(find_quiesced(&quiet, &"a".to_owned()), Some(true));
    assert_eq!(find_quiesced(&quiet, &"b".to_owned()), None);
    assert_eq!(find_handle(&[("a".to_owned(), 4)], &"a".to_owned()), Some(4));
    assert_eq!(
        torrents_to_isolate(
            &["a".to_owned(), "b".to_owned(), "c".to_owned()],
            &[("a".to_owned(), 4), ("b".to_owned(), 5)],
            &[Some(4), Some(6), None],
        ),
        vec![0, 2]
    );
}

#[test]
fn plans_for_files_become_one() {
    let step = |source: &str| StoragePlanStep {
        action: PlannedStorageAction::Move,
        source: Some(PlanPath::Utf8(source.to_owned())),
        destination: None,
        bytes: 1,
    };
    let plan = |source: &str, issues: Vec<PlanIssue>| StoragePlan {
        dry_run: false,
        can_apply: issues.is_empty(),
        issues,
        steps: vec![step(source)],
        rollback_steps: vec![step(source)],
    };
    let merged = plan_torrent_payload_files(vec![
        PayloadProbe::Planned(plan("a", vec![])),
        PayloadProbe::Missing,
        PayloadProbe::Planned(plan("b", vec![PlanIssue::DeleteRequiresDryRunApproval])),
    ])
    .unwrap()
    .unwrap();
    assert_eq!(merged.steps.len(), 2);
    assert_eq!(merged.rollback_steps.len(), 2);
    assert!(!merged.can_apply);
    assert!(plan_torrent_payload_files(vec![PayloadProbe::Missing]).unwrap().is_none());
    assert_eq!(
        plan_torrent_payload_files(vec![PayloadProbe::Failed {
            path: "/p".to_owned(),
            error: "denied".to_owned(),
        }])
        .unwrap_err(),
        "failed to inspect payload source /p: denied"
    );
}

fn moved(succeeded: bool, terminal_state: JobState) -> MoveCompletion {
    MoveCompletion {
        info_hash: hash(),
        name: None,
        save_path: "/new".to_owned(),
        quiesced: Some(false),
        torrent_handle: Some(1),
        succeeded,
        terminal_state,
        error: None,
        requires_manual_recovery: false,
        manual_recovery_marker: MARKER.to_owned(),
    }
}

#[test]
fn a_committed_move_is_shown_stored_and_handed_over() {
    let (mut finish, action) = StorageMoveFinish::begin(moved(true, JobState::CommitPending));
    assert!(matches!(action, MoveAction::LookUpHandle));
    assert!(matches!(
        finish.next(MoveOutcome::Handle(Some(1))),
        MoveAction::Publish { save_path, .. } if save_path == "/new"
    ));
    assert!(matches!(finish.next(MoveOutcome::Done), MoveAction::PersistProjection));
    assert!(matches!(finish.next(MoveOutcome::Done), MoveAction::HandOver { .. }));
    assert!(matches!(finish.next(MoveOutcome::Done), MoveAction::CompleteJob));
    match finish.next(MoveOutcome::Done) {
        MoveAction::Close(closing) => {
            assert_eq!(closing.event, Some(MoveEvent::Completed));
            assert!(closing.result.is_ok());
        }
        other => panic!("{other:?}"),
    }
}

#[test]
fn a_move_of_a_replaced_torrent_touches_nothing() {
    let (mut finish, _) = StorageMoveFinish::begin(moved(false, JobState::Failed));
    match finish.next(MoveOutcome::Handle(Some(2))) {
        MoveAction::Close(closing) => {
            assert!(matches!(closing.persist_terminal, Some((JobState::Failed, None))));
            assert!(closing.resume.is_none());
            assert_eq!(closing.event, None);
        }
        other => panic!("{other:?}"),
    }
    let (mut finish, _) = StorageMoveFinish::begin(moved(true, JobState::CommitPending));
    assert!(matches!(finish.next(MoveOutcome::Handle(None)), MoveAction::CompleteJob));
}

#[test]
fn a_failed_move_keeps_the_old_place() {
    let (mut finish, _) = StorageMoveFinish::begin(moved(false, JobState::Failed));
    match finish.next(MoveOutcome::Handle(Some(1))) {
        MoveAction::Close(closing) => {
            assert!(matches!(closing.resume, Some(None)));
            assert_eq!(closing.event, Some(MoveEvent::Failed));
        }
        other => panic!("{other:?}"),
    }
    let (mut finish, _) = StorageMoveFinish::begin(moved(true, JobState::CommitPending));
    finish.next(MoveOutcome::Handle(Some(1)));
    match finish.next(MoveOutcome::Missing) {
        MoveAction::Close(closing) => assert_eq!(
            closing.result.unwrap_err(),
            "torrent aa disappeared during storage move"
        ),
        other => panic!("{other:?}"),
    }
    let manual = MoveCompletion {
        requires_manual_recovery: true,
        torrent_handle: None,
        ..moved(false, JobState::Failed)
    };
    let (mut finish, action) = StorageMoveFinish::begin(manual);
    assert!(matches!(
        action,
        MoveAction::StopAndPersistManualRecovery { reason }
            if reason == "operator: storage move requires manual recovery"
    ));
    assert!(matches!(
        finish.next(MoveOutcome::Failed("db".to_owned())),
        MoveAction::MarkManualRecovery { fallback: Some(text), .. }
            if text == "operator: storage move requires manual recovery; failed to persist manual-recovery marker: db"
    ));
}

fn deleted(succeeded: bool, terminal_state: JobState) -> StorageDeleteCompletion {
    StorageDeleteCompletion {
        succeeded,
        terminal_state,
        error: None,
        requires_manual_recovery: false,
        manual_recovery_marker: MARKER.to_owned(),
        quiesced_handle: None,
    }
}

#[test]
fn a_torrent_is_forgotten_after_its_payload_and_its_metadata() {
    let (mut finish, action) = StorageDeleteFinish::begin(deleted(true, JobState::CommitPending));
    assert!(matches!(action, DeleteAction::DeleteMetadata));
    assert!(matches!(
        finish.next(DeleteOutcome::Done),
        DeleteAction::Forget { complete_job: true }
    ));
    assert!(matches!(
        finish.next(DeleteOutcome::Done),
        DeleteAction::Close(closing) if closing.result.is_ok()
    ));
    let (mut finish, _) = StorageDeleteFinish::begin(deleted(true, JobState::Completed));
    assert!(matches!(
        finish.next(DeleteOutcome::Failed("db".to_owned())),
        DeleteAction::PersistManualRecovery { reason }
            if reason == "operator: payload deleted but metadata cleanup failed: db"
    ));
}

#[test]
fn a_deletion_that_needs_an_operator_is_marked() {
    let manual = StorageDeleteCompletion {
        requires_manual_recovery: true,
        error: Some("torn".to_owned()),
        ..deleted(false, JobState::Failed)
    };
    let (mut finish, action) = StorageDeleteFinish::begin(manual);
    assert!(matches!(
        action,
        DeleteAction::StopAndPersistManualRecovery { reason } if reason == "operator: torn"
    ));
    assert!(matches!(
        finish.next(DeleteOutcome::Failed("db".to_owned())),
        DeleteAction::MarkManualRecovery { reason, fallback: Some(text) }
            if reason == "operator: torn"
                && text == "operator: torn; failed to persist manual-recovery marker: db"
    ));
    assert_eq!(manual_recovery_reason(MARKER, "torn"), "operator: torn");
}

#[test]
fn a_failed_deletion_gives_the_torrent_back() {
    let (_, action) = StorageDeleteFinish::begin(deleted(false, JobState::Cancelled));
    match action {
        DeleteAction::Close(closing) => {
            assert!(closing.release_guard);
            assert!(closing.resume);
            assert!(closing.report_failure);
        }
        other => panic!("{other:?}"),
    }
    let (_, action) = StorageDeleteFinish::begin(deleted(false, JobState::Paused));
    assert!(matches!(action, DeleteAction::Close(closing) if !closing.release_guard));
}

fn facts(state: JobState, operation: PlanOperation) -> RecoveryFacts {
    RecoveryFacts { state, operation, steps: 2, affected: 1, context_names_torrent: false }
}

#[test]
fn records_are_read_from_the_newest_entry() {
    let entry = |steps: Option<usize>| LoggedPlan {
        operation: PlanOperation::Move,
        steps,
        context_hash: None,
    };
    assert_eq!(
        choose_record(&Some(entry(None)), &Some(entry(Some(2)))),
        Some(RecordChoice { entry: Source::Latest, plan: Source::First })
    );
    assert_eq!(
        choose_record(&None, &Some(entry(Some(2)))),
        Some(RecordChoice { entry: Source::First, plan: Source::First })
    );
    assert_eq!(choose_record(&Some(entry(None)), &None), None);
    assert!(recoverable(JobKind::StoragePlan, JobState::CommitPending));
    assert!(!recoverable(JobKind::StoragePlan, JobState::Running));
    assert!(!recoverable(JobKind::Recheck, JobState::Queued));
    assert_eq!(recovered_checkpoint(3, 3, 3, vec![2]), vec![0, 1, 2]);
    assert_eq!(recovered_checkpoint(1, 1, 3, vec![2]), vec![2]);
    assert_eq!(recovered_checkpoint(-1, 3, 3, vec![2]), vec![2]);
}

#[test]
fn a_queued_job_is_submitted_after_its_tasks_are_quiet() {
    let (mut job, action) = RecoveredJob::begin(facts(JobState::Paused, PlanOperation::Move));
    assert!(matches!(action, RecoveryAction::ValidatePlan));
    assert!(matches!(job.next(RecoveryOutcome::Done), RecoveryAction::ReadQuiesced));
    assert!(matches!(job.next(RecoveryOutcome::Done), RecoveryAction::ReadCheckpoint));
    assert!(matches!(job.next(RecoveryOutcome::Done), RecoveryAction::ResolveRoots));
    assert!(matches!(job.next(RecoveryOutcome::Done), RecoveryAction::ReadMoveContext));
    assert!(matches!(job.next(RecoveryOutcome::Done), RecoveryAction::CheckMoveSource));
    assert!(matches!(job.next(RecoveryOutcome::Done), RecoveryAction::ReadDeleteTarget));
    assert!(matches!(
        job.next(RecoveryOutcome::DeleteTarget { some: false }),
        RecoveryAction::Quiesce { guard_delete: false }
    ));
    assert!(matches!(
        job.next(RecoveryOutcome::Done),
        RecoveryAction::Submit(Submission::Paused)
    ));
    assert!(matches!(job.next(RecoveryOutcome::Done), RecoveryAction::Watch(Finisher::Move)));
}

#[test]
fn an_incomplete_commit_is_isolated() {
    let (mut job, _) =
        RecoveredJob::begin(facts(JobState::CommitPending, PlanOperation::PayloadDelete));
    job.next(RecoveryOutcome::Done);
    job.next(RecoveryOutcome::Done);
    job.next(RecoveryOutcome::Done);
    assert!(matches!(job.next(RecoveryOutcome::Done), RecoveryAction::Reconcile));
    assert!(matches!(
        job.next(RecoveryOutcome::Reconciled { steps: 1 }),
        RecoveryAction::ReadDeleteTarget
    ));
    job.next(RecoveryOutcome::DeleteTarget { some: true });
    match job.next(RecoveryOutcome::Done) {
        RecoveryAction::Isolate { who: Isolated::Quiesced, why, release_guard: true } => {
            assert_eq!(
                why.reason(),
                "storage job claimed commit pending but filesystem reconciliation found 1/2 steps"
            );
            assert_eq!(
                why.note(),
                "storage plan commit-pending recovery found incomplete filesystem state"
            );
        }
        other => panic!("{other:?}"),
    }
    match RecoveredJob::without_plan(true) {
        RecoveryAction::Isolate {
            who: Isolated::Recovery(Targets::ContextTorrent),
            why: RecoveryFailure::MissingPlan,
            ..
        } => {}
        other => panic!("{other:?}"),
    }
}

#[test]
fn recovery_names_its_torrents() {
    let torrents = RecordedTorrents {
        affected: vec!["a".to_owned(), "b".to_owned()],
        context: Some("c".to_owned()),
        deleted: Some("d".to_owned()),
    };
    assert_eq!(torrents.isolated(Isolated::Recovery(Targets::ContextTorrent)), vec!["c"]);
    assert_eq!(torrents.isolated(Isolated::Recovery(Targets::Affected)), vec!["a", "b"]);
    assert_eq!(torrents.isolated(Isolated::MoveTorrent), vec!["a"]);
    assert_eq!(torrents.isolated(Isolated::Quiesced), vec!["d"]);
    assert_eq!(torrents.quiesce_targets(), vec!["d"]);
    let merged = merge_quiesced(
        vec![
            Quiesced { info_hash: "a".to_owned(), was_paused: true },
            Quiesced { info_hash: "b".to_owned(), was_paused: true },
        ],
        vec![Quiesced { info_hash: "a".to_owned(), was_paused: false }],
    );
    assert_eq!(merged.len(), 2);
    assert_eq!(find_quiesced(&merged, &"a".to_owned()), Some(false));
    assert!(matches!(compare_move_path(&path("/o"), &path("/o"), &path("/n")), PathMatch::Old));
    assert!(matches!(compare_move_path(&path("/n"), &path("/o"), &path("/n")), PathMatch::New));
    assert!(matches!(
        compare_move_path(&path("/x"), &path("/o"), &path("/n")),
        PathMatch::Neither { current, .. } if current == "/x"
    ));
}

#[test]
fn a_description_is_published_durably() {
    let (phase, action) = publish_torrent_blob(PublishPhase::Renaming, "/s", "/d", true, Ok(()));
    assert!(matches!(action, PublishAction::SyncDirectory));
    match publish_torrent_blob(phase, "/s", "/d", true, Err("io".to_owned())).1 {
        PublishAction::Close { remove_staged: false, result } => assert_eq!(
            result.unwrap_err(),
            "publishing torrent metadata blob /d was not durably committed: io"
        ),
        other => panic!("{other:?}"),
    }
    match publish_torrent_blob(PublishPhase::Renaming, "/s", "/d", true, Err("io".to_owned())).1 {
        PublishAction::Close { remove_staged: true, result } => assert_eq!(
            result.unwrap_err(),
            "publishing torrent metadata blob /s failed: io"
        ),
        other => panic!("{other:?}"),
    }
}

#[test]
fn the_row_of_a_torrent_goes_last() {
    let (phase, action) =
        delete_persisted_torrent(ForgetPhase::RemovingBlob, FileRemoval::NotThere);
    assert!(matches!(action, ForgetAction::RemoveResume));
    let (_, refused) = delete_persisted_torrent(phase, FileRemoval::Failed("busy".to_owned()));
    assert!(matches!(refused, ForgetAction::Finish(Err(e)) if e == "busy"));
    let (phase, action) = delete_persisted_torrent(phase, FileRemoval::Removed);
    assert!(matches!(action, ForgetAction::DeleteRow));
    let (_, action) = delete_persisted_torrent(phase, FileRemoval::Removed);
    assert!(matches!(action, ForgetAction::Finish(Ok(()))));
}
