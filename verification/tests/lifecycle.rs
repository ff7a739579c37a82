use rt_engine::fields_update::{settle_fields, show_fields};
use rt_engine::job::{JobKind, JobState, TorrentState};
use rt_engine::magnet_completion::{
    completed_entry, Cleanup, CompletionAction, CompletionFailure, CompletionOutcome,
    MagnetCompletion,
};
use rt_engine::peer_routing::{
    plan_rollback, rollback_error, PeerRoute, RouteAction, RouteFailure, RouteOutcome,
};
use rt_engine::recheck::{
    current_pure_v2_recheck_run_token, is_pure_v2_torrent, run_token_from, state_change,
    FinalState, FinishAction, FinishOutcome, JobEvent, Progress, PureV2RecheckCompletion, RecheckFinish,
    RecheckRefusal, RecheckStart, StartAction, StartOutcome,
};
use rt_engine::restore::{
    dormant_note, signed_text, starts_paused, RestoreAction, RestoreFailure, RestoreOutcome,
    RestoreRow, StoredTorrent,
};
use rt_engine::storage_path::StoragePath;
use rt_engine::storage_plan::PlannedStorageAction;
use rt_engine::tiering::{
    demoted_state, demoted_wakeup, may_reconcile, promote_due_tracker_torrent,
    reconcile_activity_tier, Activity, DueStep, DueTorrent, IdleStep, Wakeup,
};
use rt_engine::torrent_add::{
    torrent_entry, AddAction, AddFailure, AddOutcome, Added, Presence, TorrentAdd,
};
use rt_engine::torrent_removal::{
    plan_torrent_payload_delete, PayloadFile, RemovalAction, RemovalOutcome, TorrentRemoval,
};
use rt_engine::torrent_state::{
    force_error, settle_state_change, show_state_change, Lifecycle, ShownEntry, StateChange,
};

fn hash() -> String {
    "aa".to_owned()
}

fn stored() -> StoredTorrent {
    StoredTorrent {
        authorized: true,
        state: TorrentState::Seeding,
        tiers_enabled: true,
        needed_at_once: false,
        registers_dht: true,
        placeholder: false,
        hash_len: 40,
        piece_count: 3,
        has_deadline: true,
    }
}

#[test]
fn dormant_torrents_stay_on_disk() {
    let (_, action) = RestoreRow::begin(stored());
    assert!(matches!(action, RestoreAction::ShowDormant { schedule: true }));
    let (_, action) = RestoreRow::begin(StoredTorrent { authorized: false, ..stored() });
    assert!(matches!(action, RestoreAction::Skip));
    let (_, action) = RestoreRow::begin(StoredTorrent {
        needed_at_once: true,
        piece_count: -1,
        ..stored()
    });
    assert!(matches!(action, RestoreAction::ShowDormant { .. }));
    assert_eq!(dormant_note(0), None);
    assert_eq!(dormant_note(4), Some(4));
}

#[test]
fn a_needed_torrent_is_read_and_started() {
    let (mut row, action) = RestoreRow::begin(StoredTorrent { needed_at_once: true, ..stored() });
    assert!(matches!(action, RestoreAction::ReservePieceIndex { piece_count: 3 }));
    assert!(matches!(row.next(RestoreOutcome::Done), RestoreAction::ReserveParser));
    assert!(matches!(row.next(RestoreOutcome::Done), RestoreAction::ReadBlob));
    assert!(matches!(row.next(RestoreOutcome::Done), RestoreAction::ParseBlob));
    assert!(matches!(
        row.next(RestoreOutcome::Parsed { pieces: 3, private: true, v2_only: false }),
        RestoreAction::RepairFiles
    ));
    assert!(matches!(
        row.next(RestoreOutcome::Hash { found: hash(), filed: hash() }),
        RestoreAction::ReserveMetainfo
    ));
    assert!(matches!(row.next(RestoreOutcome::Reserved { held: true }), RestoreAction::Show));
    assert!(matches!(
        row.next(RestoreOutcome::Done),
        RestoreAction::SpawnTask { paused: false, register_dht: false }
    ));
    assert!(matches!(
        row.next(RestoreOutcome::Done),
        RestoreAction::NoteRestored { state: TorrentState::Seeding, private: true, v2_only: false }
    ));
}

#[test]
fn a_torrent_that_does_not_match_its_row_is_in_error() {
    let needed = StoredTorrent { needed_at_once: true, ..stored() };
    let (mut row, _) = RestoreRow::begin(needed);
    row.next(RestoreOutcome::Done);
    row.next(RestoreOutcome::Done);
    row.next(RestoreOutcome::Done);
    match row.next(RestoreOutcome::Parsed { pieces: 4, private: false, v2_only: false }) {
        RestoreAction::ShowError(why) => {
            assert_eq!(why.reason(), "persisted piece count 4 does not match row 3");
            assert!(!why.is_runtime_fault());
            assert!(!why.is_blob_unusable());
        }
        other => panic!("{other:?}"),
    }
    assert!(matches!(
        row.next(RestoreOutcome::Failed("db".to_owned())),
        RestoreAction::Abort(e) if e == "db"
    ));
    let (mut row, _) = RestoreRow::begin(needed);
    row.next(RestoreOutcome::Done);
    row.next(RestoreOutcome::Done);
    row.next(RestoreOutcome::Done);
    row.next(RestoreOutcome::Parsed { pieces: 3, private: false, v2_only: false });
    match row.next(RestoreOutcome::Hash { found: "bb".to_owned(), filed: hash() }) {
        RestoreAction::ShowError(why) => {
            assert_eq!(why.reason(), "persisted torrent hash bb does not match row aa");
            assert!(why.is_blob_unusable());
        }
        other => panic!("{other:?}"),
    }
    let memory = RestoreFailure::ParserMemory("full".to_owned());
    assert!(memory.is_runtime_fault());
    assert_eq!(memory.reason(), "torrent parser memory admission was unavailable: full");
    assert_eq!(signed_text(i64::MIN), "-9223372036854775808");
    assert_eq!(signed_text(-1), "-1");
    assert!(starts_paused(TorrentState::Queued));
    assert!(!starts_paused(TorrentState::Seeding));
}

#[test]
fn a_placeholder_comes_back_with_its_task() {
    let (mut row, action) = RestoreRow::begin(StoredTorrent {
        placeholder: true,
        state: TorrentState::MetadataPending,
        needed_at_once: true,
        ..stored()
    });
    assert!(matches!(action, RestoreAction::ShowPlaceholder { active: true }));
    assert!(matches!(row.next(RestoreOutcome::Done), RestoreAction::ReserveMetadataTask));
    assert!(matches!(
        row.next(RestoreOutcome::Done),
        RestoreAction::SpawnMetadataTask { paused: false, register_dht: true }
    ));
    assert!(matches!(row.next(RestoreOutcome::Done), RestoreAction::NotePlaceholder));
}

#[test]
fn a_recheck_is_rolled_back_where_its_job_cannot_run() {
    let (mut start, action) = RecheckStart::begin(true);
    assert!(matches!(action, StartAction::CheckIdle));
    assert!(matches!(start.next(StartOutcome::Done), StartAction::TakeSlot));
    assert!(matches!(start.next(StartOutcome::Slot { taken: true }), StartAction::LookUpTorrent));
    assert!(matches!(
        start.next(StartOutcome::Found { state: TorrentState::Paused }),
        StartAction::Authorize
    ));
    assert!(matches!(start.next(StartOutcome::Done), StartAction::ShowChecking));
    assert!(matches!(start.next(StartOutcome::Done), StartAction::MarkRunning));
    match start.next(StartOutcome::Failed("db".to_owned())) {
        StartAction::RollBack { state: TorrentState::Paused, refusal } => {
            assert_eq!(refusal.to_text(), "failed to mark pure v2 recheck running: db")
        }
        other => panic!("{other:?}"),
    }
    assert_eq!(
        RecheckRefusal::Capacity.to_text(),
        "pure v2 recheck capacity exhausted; retry later"
    );
    assert!(is_pure_v2_torrent(&"a".repeat(64)));
    assert!(!is_pure_v2_torrent(&"a".repeat(40)));
}

fn checked(invalid_files: usize, restore: Option<TorrentState>) -> PureV2RecheckCompletion {
    PureV2RecheckCompletion {
        job_id: Some("j".to_owned()),
        run_token: Some(5),
        restore_state: restore,
        total_length: 10,
        amount_left: 4,
        invalid_files,
        error: None,
    }
}

#[test]
fn a_current_recheck_is_shown() {
    let (mut finish, action) = RecheckFinish::begin(checked(0, None));
    assert!(matches!(action, FinishAction::LookUpActiveJob));
    assert!(matches!(
        finish.next(FinishOutcome::ActiveJob(Some(("j".to_owned(), JobKind::Recheck)))),
        FinishAction::LookUpRunToken
    ));
    assert!(matches!(
        finish.next(FinishOutcome::RunToken(Some(5))),
        FinishAction::CheckRemoval
    ));
    assert!(matches!(
        finish.next(FinishOutcome::Removal { under_way: false }),
        FinishAction::LoadJobState
    ));
    assert!(matches!(
        finish.next(FinishOutcome::JobState(JobState::Running)),
        FinishAction::StoreProgress
    ));
    assert!(matches!(
        finish.next(FinishOutcome::Done),
        FinishAction::ShowFinal { end: FinalState::Complete { total_length: 10 }, .. }
    ));
    assert!(matches!(
        finish.next(FinishOutcome::Failed("db".to_owned())),
        FinishAction::Close { fail_closed: Some(_), .. }
    ));
}

#[test]
fn a_stale_recheck_changes_nothing() {
    let (mut finish, _) = RecheckFinish::begin(checked(0, None));
    assert!(matches!(
        finish.next(FinishOutcome::ActiveJob(Some(("k".to_owned(), JobKind::Recheck)))),
        FinishAction::Close { fail_closed: None, result: Ok(()) }
    ));
    let (mut finish, _) = RecheckFinish::begin(checked(1, None));
    finish.next(FinishOutcome::ActiveJob(Some(("j".to_owned(), JobKind::Recheck))));
    assert!(matches!(
        finish.next(FinishOutcome::RunToken(Some(6))),
        FinishAction::Close { fail_closed: None, result: Ok(()) }
    ));
    let (mut finish, _) = RecheckFinish::begin(checked(1, None));
    finish.next(FinishOutcome::ActiveJob(Some(("j".to_owned(), JobKind::Recheck))));
    finish.next(FinishOutcome::RunToken(Some(5)));
    finish.next(FinishOutcome::Removal { under_way: false });
    assert!(matches!(
        finish.next(FinishOutcome::JobState(JobState::Cancelled)),
        FinishAction::ShowFinal { end: FinalState::Discarded, .. }
    ));
}

#[test]
fn run_tokens_are_read_from_the_newest_start() {
    let event = |kind: &str, payload: &str| JobEvent {
        kind: kind.to_owned(),
        payload: payload.to_owned(),
    };
    assert_eq!(
        current_pure_v2_recheck_run_token(&[
            event("other", "{"),
            event("check_started", "{\"run_token\": 7}"),
            event("check_started", "{\"run_token\": 6}"),
        ]),
        Ok(Some(7))
    );
    assert_eq!(current_pure_v2_recheck_run_token(&[]), Ok(None));
    assert_eq!(
        current_pure_v2_recheck_run_token(&[event("check_started", "{}")]).unwrap_err(),
        "pure v2 recheck start event has no run token"
    );
    assert!(current_pure_v2_recheck_run_token(&[event("check_started", "{")])
        .unwrap_err()
        .starts_with("pure v2 recheck start event has invalid payload: "));
    assert_eq!(run_token_from(Ok(Some(3))), Ok(3));
}

#[test]
fn progress_keeps_the_first_completion() {
    let mut progress = Progress { total_length: 1, amount_left: 1, completed_at: Some(4) };
    progress.update(Some(9), None, 8);
    assert_eq!((progress.total_length, progress.amount_left), (9, 0));
    assert_eq!(progress.completed_at, Some(4));
    progress.update(None, Some((5, 7)), 9);
    assert_eq!((progress.total_length, progress.amount_left), (5, 5));
}

#[test]
fn a_state_that_was_not_stored_is_shown_as_before() {
    let before = Lifecycle {
        state: TorrentState::Downloading,
        progress: Progress { total_length: 9, amount_left: 3, completed_at: None },
    };
    let change = StateChange {
        state: TorrentState::Seeding,
        completed_length: Some(9),
        verified_progress: None,
    };
    let mut shown = Some(before);
    let previous =
        show_state_change(&mut shown, &hash(), Ok(()), Ok(()), change, 6).unwrap();
    assert_eq!(shown.unwrap().state, TorrentState::Seeding);
    assert_eq!(shown.unwrap().progress.completed_at, Some(6));
    assert_eq!(
        settle_state_change(&mut shown, previous, &hash(), Ok(false)).unwrap_err(),
        "torrent aa is missing from the database"
    );
    assert_eq!(shown.unwrap().state, TorrentState::Downloading);
    let mut none = None;
    assert_eq!(
        show_state_change(&mut none, &hash(), Ok(()), Ok(()), change, 6).unwrap_err(),
        "torrent aa not found"
    );
    assert_eq!(
        show_state_change(&mut shown, &hash(), Err("removing".to_owned()), Ok(()), change, 6)
            .unwrap_err(),
        "removing"
    );
}

#[test]
fn a_torrent_is_added_shown_stored_and_started() {
    let unknown = Presence { has_task: false, being_added: false, shown: false };
    let (mut add, action) = TorrentAdd::begin(Added::Torrent { private: true }, false);
    assert!(matches!(action, AddAction::Reserve));
    assert!(matches!(
        add.next(AddOutcome::Reserved { piece_index: true, metainfo: true }),
        AddAction::LookUp
    ));
    assert!(matches!(
        add.next(AddOutcome::Presence { info_hash: hash(), presence: unknown }),
        AddAction::Authorize
    ));
    assert!(matches!(
        add.next(AddOutcome::Done),
        AddAction::Show { state: TorrentState::Downloading }
    ));
    assert!(matches!(add.next(AddOutcome::Done), AddAction::Persist));
    assert!(matches!(
        add.next(AddOutcome::Done),
        AddAction::Spawn { paused: false, register_dht: false, .. }
    ));
    let (mut add, _) = TorrentAdd::begin(Added::Magnet, true);
    add.next(AddOutcome::Reserved { piece_index: false, metainfo: true });
    let known = Presence { shown: true, ..unknown };
    match add.next(AddOutcome::Presence { info_hash: hash(), presence: known }) {
        AddAction::Refuse { take_back: false, why } => {
            assert_eq!(why.to_text(), "torrent aa already added")
        }
        other => panic!("{other:?}"),
    }
    let (mut add, _) = TorrentAdd::begin(Added::Torrent { private: false }, false);
    add.next(AddOutcome::Reserved { piece_index: false, metainfo: true });
    add.next(AddOutcome::Presence { info_hash: hash(), presence: unknown });
    add.next(AddOutcome::Done);
    add.next(AddOutcome::Done);
    assert!(matches!(
        add.next(AddOutcome::Done),
        AddAction::Refuse { take_back: false, why: AddFailure::LostPieceIndex }
    ));
}

#[test]
fn a_magnet_link_becomes_a_torrent() {
    let (mut magnet, action) = MagnetCompletion::begin(true, true, true);
    assert!(matches!(action, CompletionAction::CheckRemoval));
    assert!(matches!(
        magnet.next(CompletionOutcome::Removal { under_way: false, info_hash: hash() }),
        CompletionAction::CheckTrackers
    ));
    assert!(matches!(magnet.next(CompletionOutcome::Done), CompletionAction::CheckIdle));
    assert!(matches!(magnet.next(CompletionOutcome::Done), CompletionAction::CompareHash));
    assert!(matches!(
        magnet.next(CompletionOutcome::Hash { fetched: hash(), expected: hash() }),
        CompletionAction::Reserve
    ));
    assert!(matches!(
        magnet.next(CompletionOutcome::Reserved { piece_index: true, metainfo: true }),
        CompletionAction::LookUpMagnet
    ));
    assert!(matches!(
        magnet.next(CompletionOutcome::Magnet { state: TorrentState::Paused }),
        CompletionAction::Authorize
    ));
    assert!(matches!(
        magnet.next(CompletionOutcome::Done),
        CompletionAction::Show { state: TorrentState::Paused }
    ));
    assert!(matches!(magnet.next(CompletionOutcome::Done), CompletionAction::Publish));
    assert!(matches!(magnet.next(CompletionOutcome::Done), CompletionAction::Sync));
    assert!(matches!(magnet.next(CompletionOutcome::Done), CompletionAction::Persist));
    assert!(matches!(
        magnet.next(CompletionOutcome::Done),
        CompletionAction::EndMetadataTask { unregister_dht: true }
    ));
    assert!(matches!(
        magnet.next(CompletionOutcome::Done),
        CompletionAction::Start { paused: true, register_dht: false, .. }
    ));
    let (mut magnet, _) = MagnetCompletion::begin(true, true, false);
    magnet.next(CompletionOutcome::Removal { under_way: false, info_hash: hash() });
    magnet.next(CompletionOutcome::Done);
    magnet.next(CompletionOutcome::Done);
    match magnet.next(CompletionOutcome::Hash { fetched: "bb".to_owned(), expected: hash() }) {
        CompletionAction::GiveUp { restore: false, cleanup: Cleanup::Candidate, why } => {
            assert_eq!(why.to_text(), "fetched metadata hash bb does not match magnet aa")
        }
        other => panic!("{other:?}"),
    }
    assert_eq!(
        CompletionFailure::BeingRemoved { info_hash: hash() }.to_text(),
        "torrent aa is being removed; wait for payload cleanup"
    );
}

#[test]
fn a_torrent_is_removed_with_its_payload() {
    let (mut removal, action) = TorrentRemoval::begin(hash(), true);
    assert!(matches!(action, RemovalAction::CheckIdle));
    assert!(matches!(removal.next(RemovalOutcome::Done), RemovalAction::LookUp));
    assert!(matches!(removal.next(RemovalOutcome::Done), RemovalAction::LoadFiles));
    assert!(matches!(
        removal.next(RemovalOutcome::Files { any: true }),
        RemovalAction::PlanDelete
    ));
    assert!(matches!(
        removal.next(RemovalOutcome::Plan { some: true }),
        RemovalAction::Quiesce
    ));
    match removal.next(RemovalOutcome::Failed("busy".to_owned())) {
        RemovalAction::Refuse(why) => assert_eq!(
            why.to_text(),
            "torrent aa could not be quiesced for payload cleanup: busy"
        ),
        other => panic!("{other:?}"),
    }
    let (mut removal, _) = TorrentRemoval::begin(hash(), true);
    removal.next(RemovalOutcome::Done);
    removal.next(RemovalOutcome::Done);
    removal.next(RemovalOutcome::Files { any: false });
    match removal.next(RemovalOutcome::Placeholder { yes: false }) {
        RemovalAction::Refuse(why) => assert_eq!(
            why.to_text(),
            "cannot prepare payload cleanup for torrent aa: durable file metadata is missing"
        ),
        other => panic!("{other:?}"),
    }
    let (mut removal, _) = TorrentRemoval::begin(hash(), false);
    removal.next(RemovalOutcome::Done);
    assert!(matches!(removal.next(RemovalOutcome::Done), RemovalAction::DeleteMetadata));
    assert!(matches!(removal.next(RemovalOutcome::Done), RemovalAction::Forget));
    assert!(matches!(removal.next(RemovalOutcome::Done), RemovalAction::Removed));
}

#[test]
fn inner_directories_are_pruned_first() {
    let file = |components: &[&str], bytes: u64| PayloadFile {
        path: components.iter().map(|c| (*c).to_owned()).collect(),
        bytes,
    };
    let root = StoragePath {
        absolute: true,
        components: vec![b"srv".to_vec(), b"dl".to_vec()],
        text: "/srv/dl".to_owned(),
    };
    let files = vec![
        file(&["t", "a", "x"], 1),
        file(&["t", "y"], 2),
        file(&["t", "a", "b", "z"], 3),
    ];
    let plan = plan_torrent_payload_delete(Ok(()), &root, files).unwrap().unwrap();
    assert!(plan.can_apply && !plan.dry_run);
    assert!(plan.issues.is_empty() && plan.rollback_steps.is_empty());
    let steps = plan.steps;
    let paths: Vec<String> = steps.iter().map(|s| s.path.join("/")).collect();
    assert_eq!(paths, vec!["t/a/x", "t/y", "t/a/b/z", "t/a/b", "t/a", "t"]);
    assert_eq!(steps[2].bytes, 3);
    assert_eq!(steps[2].action, PlannedStorageAction::SafeDeleteIfPresent);
    assert!(steps[2].destination.is_none());
    assert_eq!(steps[3].action, PlannedStorageAction::PruneEmptyDirs);
    for step in &steps[3..] {
        let destination = step.destination.as_ref().unwrap();
        assert!(destination.same_as(&root));
        assert_eq!(destination.text, "/srv/dl");
        assert_eq!(step.bytes, 0);
    }
    assert!(plan_torrent_payload_delete(Ok(()), &root, Vec::new()).unwrap().is_none());
    assert_eq!(
        plan_torrent_payload_delete(Err("outside".to_owned()), &root, Vec::new()).unwrap_err(),
        "outside"
    );
}

fn entry(state: TorrentState) -> ShownEntry {
    ShownEntry {
        name: "aa".to_owned(),
        total_length: 0,
        amount_left: 0,
        state,
        category: Some("tv".to_owned()),
        tags: vec!["x".to_owned()],
        save_path: "/srv/dl".to_owned(),
    }
}

#[test]
fn a_completed_magnet_keeps_what_the_user_chose() {
    let shown = completed_entry(entry(TorrentState::MetadataPending), "name".to_owned(), 7);
    assert_eq!(shown.name, "name");
    assert_eq!((shown.total_length, shown.amount_left), (7, 7));
    assert_eq!(shown.state, TorrentState::Downloading);
    assert_eq!(shown.category.as_deref(), Some("tv"));
    assert_eq!(shown.tags, vec!["x"]);
    assert_eq!(shown.save_path, "/srv/dl");
    let stopped = completed_entry(entry(TorrentState::Stopped), "name".to_owned(), 7);
    assert_eq!(stopped.state, TorrentState::Stopped);
}

#[test]
fn a_new_name_or_place_is_shown_and_taken_back() {
    let mut shown = Some(entry(TorrentState::Seeding));
    let previous =
        show_fields(&mut shown, &hash(), Ok(()), Some("new".to_owned()), None).unwrap();
    assert_eq!((previous.name.as_str(), previous.save_path.as_str()), ("aa", "/srv/dl"));
    let now = shown.as_ref().unwrap();
    assert_eq!((now.name.as_str(), now.save_path.as_str()), ("new", "/srv/dl"));
    assert_eq!(
        settle_fields(&mut shown, previous, &hash(), Ok(false)).unwrap_err(),
        "torrent aa is missing from the database"
    );
    assert_eq!(shown.as_ref().unwrap().name, "aa");
    let previous =
        show_fields(&mut shown, &hash(), Ok(()), None, Some("/mnt".to_owned())).unwrap();
    assert!(settle_fields(&mut shown, previous, &hash(), Ok(true)).is_ok());
    assert_eq!(shown.as_ref().unwrap().save_path, "/mnt");
    assert_eq!(
        show_fields(&mut shown, &hash(), Err("busy".to_owned()), None, None).unwrap_err(),
        "busy"
    );
    assert_eq!(
        show_fields(&mut None, &hash(), Ok(()), None, None).unwrap_err(),
        "torrent aa not found"
    );
}

#[test]
fn an_added_torrent_misses_all_of_its_payload() {
    let shown = torrent_entry(
        "name".to_owned(),
        9,
        None,
        "/srv/dl".to_owned(),
        None,
        Vec::new(),
        true,
    );
    assert_eq!((shown.total_length, shown.amount_left), (9, 9));
    assert_eq!(shown.state, TorrentState::Paused);
    assert_eq!(shown.save_path, "/srv/dl");
}

#[test]
fn the_end_of_a_recheck_decides_the_state() {
    let complete = state_change(FinalState::Complete { total_length: 10 });
    assert_eq!(complete.state, TorrentState::Seeding);
    assert_eq!(complete.completed_length, Some(10));
    assert_eq!(complete.verified_progress, None);
    let verified = state_change(FinalState::Verified {
        state: TorrentState::Stopped,
        total_length: 10,
        amount_left: 4,
    });
    assert_eq!(verified.state, TorrentState::Stopped);
    assert_eq!(verified.completed_length, None);
    assert_eq!(verified.verified_progress, Some((10, 4)));
    assert_eq!(state_change(FinalState::Discarded).state, TorrentState::Paused);
    assert_eq!(state_change(FinalState::Failed).state, TorrentState::Error);
    let before = Lifecycle {
        state: TorrentState::Checking,
        progress: Progress { total_length: 10, amount_left: 10, completed_at: None },
    };
    let mut shown = Some(before);
    show_state_change(&mut shown, &hash(), Ok(()), Ok(()), complete, 3).unwrap();
    let after = shown.unwrap();
    assert_eq!(after.state, TorrentState::Seeding);
    assert_eq!((after.progress.total_length, after.progress.amount_left), (10, 0));
    force_error(&mut shown);
    assert_eq!(shown.unwrap().state, TorrentState::Error);
    assert_eq!(shown.unwrap().progress.amount_left, 0);
}

#[test]
fn a_peer_wakes_a_placeholder_and_a_failure_undoes_it() {
    let (mut route, action) = PeerRoute::begin(true);
    assert!(matches!(action, RouteAction::Resolve));
    assert!(matches!(route.next(RouteOutcome::Done), RouteAction::CheckBan));
    assert!(matches!(route.next(RouteOutcome::Ban { banned: false }), RouteAction::CheckIdle));
    assert!(matches!(route.next(RouteOutcome::Done), RouteAction::LookUpTask));
    assert!(matches!(
        route.next(RouteOutcome::Task { present: false }),
        RouteAction::CheckPlaceholder
    ));
    assert!(matches!(
        route.next(RouteOutcome::Placeholder { yes: true, shown: true }),
        RouteAction::ShowPending
    ));
    assert!(matches!(route.next(RouteOutcome::Done), RouteAction::EnsureMetadataTask));
    assert!(matches!(route.next(RouteOutcome::Done), RouteAction::FindTask));
    assert!(matches!(route.next(RouteOutcome::Done), RouteAction::ResumeMetadataTask));
    assert!(matches!(route.next(RouteOutcome::Done), RouteAction::Deliver));
    match route.next(RouteOutcome::Failed("gone".to_owned())) {
        RouteAction::RollBack(why) => assert_eq!(
            why.to_text(),
            "promoted torrent task stopped before peer delivery: gone"
        ),
        other => panic!("{other:?}"),
    }
    let (mut route, _) = PeerRoute::begin(true);
    route.next(RouteOutcome::Done);
    assert!(matches!(route.next(RouteOutcome::Ban { banned: true }), RouteAction::Routed));
    assert_eq!(
        RouteFailure::NoTask { info_hash: hash() }.to_text(),
        "torrent aa has no runtime task"
    );
    let plan = plan_rollback(TorrentState::Paused, None, true, false, true, true);
    assert!(plan.stop_task && plan.demote && !plan.pause_task && !plan.restore_session);
    assert_eq!(plan.tier_state, Some(TorrentState::Paused));
    assert_eq!(
        rollback_error("e", &Some("f".to_owned())),
        "e; failed to restore metadata placeholder state: f"
    );
}

#[test]
fn only_idle_seeds_sleep_and_due_announces_wake_them() {
    let due = DueTorrent {
        has_task: false,
        jobs_idle: true,
        state: Some(TorrentState::Seeding),
        deadline: Ok(Some(10)),
    };
    assert_eq!(promote_due_tracker_torrent(due, 10), DueStep::Promote);
    assert_eq!(promote_due_tracker_torrent(due, 9), DueStep::Reschedule { at: 10 });
    assert_eq!(
        promote_due_tracker_torrent(DueTorrent { jobs_idle: false, ..due }, 10),
        DueStep::RetryLater
    );
    assert_eq!(
        promote_due_tracker_torrent(DueTorrent { deadline: Err(()), ..due }, 10),
        DueStep::RetryLater
    );
    assert_eq!(
        promote_due_tracker_torrent(DueTorrent { has_task: true, ..due }, 10),
        DueStep::Ignore
    );
    let idle = Activity { connected_peers: 0, outstanding_requests: 0 };
    assert_eq!(
        reconcile_activity_tier(Some(idle), true, TorrentState::Seeding),
        IdleStep::Demote { touch: false }
    );
    assert_eq!(
        reconcile_activity_tier(Some(idle), true, TorrentState::Downloading),
        IdleStep::Keep { touch: false }
    );
    assert_eq!(
        reconcile_activity_tier(None, true, TorrentState::Seeding),
        IdleStep::RetryLater
    );
    assert!(may_reconcile(false, true, true));
    assert!(!may_reconcile(true, true, true));
    assert_eq!(demoted_wakeup(Ok(Some(5)), true), Wakeup::At { deadline: 5 });
    assert_eq!(demoted_wakeup(Ok(Some(5)), false), Wakeup::RetryLater);
    assert_eq!(demoted_wakeup(Ok(None), true), Wakeup::Never);
    assert_eq!(demoted_wakeup(Err(()), true), Wakeup::RetryLater);
    assert_eq!(demoted_state(None), TorrentState::Seeding);
}
