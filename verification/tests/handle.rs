use rt_engine::handle::{
    aborts_session, await_engine_reply, send_command, time_left, wait_for_peer_listener_shutdown,
    Awaited, EngineCmd, EngineDatabaseWorkerStats, EngineHandle, JobRequest, ListenerEnd,
    QueueMove, ReplyOutcome, SendOutcome, SessionRequest, TorrentRequest, MAX_USER_AGENT_BYTES,
};
use rt_engine::limits::{EngineLimits, MAX_TORRENT_BYTES};
use rt_engine::metainfo::MagnetLink;
use rt_engine::net::{PeerAddr, PeerIp};
use rt_engine::peer_ingress::PeerIngressStats;
use rt_engine::storage_authority::ConfiguredRoot;
use rt_engine::storage_plan::StoragePlan;
use rt_engine::torrent_add::AddOptions;
use rt_engine::validation::EngineTorrentLimits;

fn handle() -> EngineHandle {
    EngineHandle {
        alive: true,
        queue_closed: false,
        listener_healthy: None,
        ingress: None,
        database_worker: EngineDatabaseWorkerStats {
            queued: 3,
            completed: 2,
            failed: 1,
            latency_nanos: 7,
        },
        limits: EngineLimits {
            active_peer_torrents: 4,
            peer_snapshot_items: 4,
            label_bytes: 16,
            mutation_items: 3,
            storage_plan_path_bytes: 16,
            storage_plan_total_path_bytes: 32,
            storage_plan_items: 2,
            storage_plan_serialized_bytes: 100,
            info_hash_bytes: 64,
            info_hash_list_bytes: 100,
            category_bytes: 8,
            save_path_bytes: 16,
            tracker_url_bytes: 32,
            tracker_bytes: 64,
            meta_tracker_tiers: 4,
            meta_webseeds: 2,
            meta_webseed_bytes: 32,
            meta_files: 3,
            meta_path_bytes: 16,
            meta_path_total_bytes: 32,
            name_bytes: 16,
            metadata_text_bytes: 16,
            meta_pieces: 8,
            magnet_peers: 2,
            job_id_bytes: 8,
            storage_operation_bytes: 8,
            storage_plan_affected_torrents: 2,
            event_filter_items: 2,
            event_filter_value_bytes: 8,
            event_filter_bytes: 12,
            live_stats: 2,
            banned_peers: 2,
            manual_peer_addresses: 2,
            setting_key_bytes: 8,
            setting_value_bytes: 8,
            torrent_file_path_bytes: 8,
            category_definition_bytes: 12,
        },
    }
}

fn texts(values: &[&str]) -> Vec<String> {
    values.iter().map(|v| (*v).to_owned()).collect()
}

fn options() -> AddOptions {
    AddOptions { save_path: None, paused: false, category: None, tags: Vec::new() }
}

#[test]
fn a_session_is_alive_while_it_takes_commands() {
    assert!(handle().is_alive());
    assert!(!EngineHandle { alive: false, ..handle() }.is_alive());
    assert!(!EngineHandle { queue_closed: true, ..handle() }.is_alive());
}

#[test]
fn without_a_listener_nothing_is_wrong_with_it() {
    assert!(handle().peer_listener_healthy());
    assert!(!EngineHandle { listener_healthy: Some(false), ..handle() }.peer_listener_healthy());
    assert_eq!(handle().peer_ingress_stats(), PeerIngressStats::default());
    let counted = PeerIngressStats { accepted: 5, ..PeerIngressStats::default() };
    assert_eq!(
        EngineHandle { ingress: Some(counted), ..handle() }.peer_ingress_stats().accepted,
        5
    );
    assert_eq!(handle().database_worker_stats().queued, 3);
}

#[test]
fn torrents_are_asked_under_their_canonical_hash() {
    assert!(matches!(
        handle().pause_torrent("ABCD".to_owned()),
        Ok(EngineCmd::Torrent { info_hash, request: TorrentRequest::Pause }) if info_hash == "abcd"
    ));
    assert!(matches!(
        handle().resume_torrent("ab".to_owned()),
        Ok(EngineCmd::Torrent { request: TorrentRequest::Resume, .. })
    ));
    assert!(matches!(
        handle().recheck_torrent("ab".to_owned()),
        Ok(EngineCmd::Torrent { request: TorrentRequest::Recheck, .. })
    ));
    assert!(matches!(
        handle().diagnose_torrent("ab".to_owned()),
        Ok(EngineCmd::Torrent { request: TorrentRequest::Diagnose, .. })
    ));
    assert_eq!(
        handle().reannounce_torrent("a".repeat(65)).unwrap_err(),
        "info hash contains 65 bytes; maximum is 64"
    );
    assert!(matches!(
        handle().remove_torrent("AB".to_owned(), true),
        Ok(EngineCmd::RemoveTorrent { info_hash, delete_files: true }) if info_hash == "ab"
    ));
}

#[test]
fn jobs_are_asked_by_their_identifier() {
    assert!(matches!(
        handle().cancel_job("job".to_owned()),
        Ok(EngineCmd::Job { job_id, job_request: JobRequest::Cancel }) if job_id == "job"
    ));
    assert_eq!(
        handle().pause_job("123456789".to_owned()).unwrap_err(),
        "job id contains 9 bytes; maximum is 8"
    );
    assert!(handle().resume_job("12345678".to_owned()).is_ok());
}

#[test]
fn blobs_are_read_up_to_the_largest_torrent_file() {
    assert!(matches!(
        handle().torrent_blob("AB".to_owned()),
        Ok(EngineCmd::GetTorrentBlob { info_hash, max_bytes: MAX_TORRENT_BYTES })
            if info_hash == "ab"
    ));
    assert_eq!(
        handle().torrent_blob_limited("ab".to_owned(), MAX_TORRENT_BYTES + 1).unwrap_err(),
        "torrent blob read limit is 67108865 bytes; maximum is 67108864"
    );
}

#[test]
fn tracker_filters_lose_their_white_space() {
    assert!(matches!(
        handle().torrent_hashes_by_tracker("  http://t \n".to_owned()),
        Ok(EngineCmd::ListTorrentHashesByTracker { tracker }) if tracker == "http://t"
    ));
    assert!(matches!(
        handle().torrent_hashes_by_tracker_snapshot_size("t".to_owned()),
        Ok(EngineCmd::GetTorrentHashesByTrackerSnapshotSize { .. })
    ));
    assert_eq!(
        handle().torrent_hashes_by_tracker("x".repeat(33)).unwrap_err(),
        "tracker filter contains 33 bytes; maximum is 32"
    );
}

#[test]
fn settings_are_bounded() {
    assert!(handle().get_setting("key".to_owned()).is_ok());
    assert_eq!(
        handle().get_setting("123456789".to_owned()).unwrap_err(),
        "setting key contains 9 bytes; maximum is 8"
    );
    assert_eq!(
        handle().set_setting("key".to_owned(), "123456789".to_owned()).unwrap_err(),
        "setting value contains 9 bytes; maximum is 8"
    );
}

#[test]
fn plans_are_checked_before_they_are_queued() {
    let plan = || StoragePlan {
        dry_run: false,
        can_apply: true,
        issues: Vec::new(),
        steps: Vec::new(),
        rollback_steps: Vec::new(),
    };
    assert!(matches!(
        handle().execute_storage_plan("move".to_owned(), texts(&["AB"]), plan(), vec![0], Ok(2)),
        Ok(EngineCmd::ExecuteStoragePlan { affected_torrents, .. })
            if affected_torrents == texts(&["ab"])
    ));
    assert_eq!(
        handle()
            .execute_storage_plan("move".to_owned(), texts(&["a", "b", "c"]), plan(), vec![], Ok(2))
            .unwrap_err(),
        "storage plan torrent list contains 3 items; maximum is 2"
    );
    assert_eq!(
        handle()
            .execute_storage_plan("move".to_owned(), vec![], plan(), vec![0, 1, 2, 3], Ok(2))
            .unwrap_err(),
        "storage plan checkpoint list contains 4 items; maximum is 3"
    );
    assert_eq!(
        handle()
            .execute_storage_plan("relocate!".to_owned(), vec![], plan(), vec![], Ok(2))
            .unwrap_err(),
        "storage operation contains 9 bytes; maximum is 8"
    );
    assert!(handle()
        .execute_storage_plan("move".to_owned(), vec!["a".repeat(65)], plan(), vec![], Ok(2))
        .is_err());
}

#[test]
fn events_are_filtered_within_bounds() {
    assert!(matches!(
        handle().session_events(Some("AB".to_owned()), 10),
        Ok(EngineCmd::ListSessionEvents { filter_hash: Some(hash), limit: 10, .. }) if hash == "ab"
    ));
    assert_eq!(
        handle()
            .session_events_filtered(None, None, texts(&["a", "b", "c"]), None, 1)
            .unwrap_err(),
        "event level list contains 3 items; maximum is 2"
    );
    assert_eq!(
        handle()
            .session_events_filtered(None, Some("123456789".to_owned()), vec![], Some(4), 1)
            .unwrap_err(),
        "event kind contains 9 bytes; maximum is 8"
    );
}

#[test]
fn labels_are_checked_before_the_hash() {
    assert!(matches!(
        handle().update_torrent_labels(
            "AB".to_owned(),
            Some(Some("tv".to_owned())),
            texts(&["x"]),
            vec![]
        ),
        Ok(EngineCmd::UpdateTorrentLabels { info_hash, .. }) if info_hash == "ab"
    ));
    assert_eq!(
        handle()
            .update_torrent_labels(
                "a".repeat(65),
                None,
                vec![],
                texts(&["a", "b", "c", "d"])
            )
            .unwrap_err(),
        "torrent tag removal list contains 4 items; maximum is 3"
    );
    assert!(handle().create_category("tv".to_owned(), None).is_ok());
    assert_eq!(
        handle().create_category("tv".to_owned(), Some("x".repeat(17))).unwrap_err(),
        "category save path contains 17 bytes; maximum is 16"
    );
    assert_eq!(
        handle().rename_category("tv".to_owned(), "123456789".to_owned(), None).unwrap_err(),
        "new category name contains 9 bytes; maximum is 8"
    );
    assert_eq!(
        handle().remove_categories(texts(&["12345678", "12345"])).unwrap_err(),
        "category list contains 13 bytes; maximum is 12"
    );
    assert!(handle().create_tags(texts(&["a"])).is_ok());
    assert!(handle().remove_tags(texts(&["a", "b", "c", "d"])).is_err());
}

#[test]
fn peers_and_files_are_bounded() {
    let peer = PeerAddr { ip: PeerIp { bits: 1, v6: true }, port: 1 };
    assert!(handle().ban_peers(vec![peer; 2]).is_ok());
    assert_eq!(
        handle().ban_peers(vec![peer; 3]).unwrap_err(),
        "peer ban list contains 3 addresses; maximum is 2"
    );
    assert_eq!(
        handle().add_peers("ab".to_owned(), vec![peer; 3]).unwrap_err(),
        "manual peer list contains 3 addresses; maximum is 2"
    );
    assert_eq!(
        handle().update_file_priorities("ab".to_owned(), vec![1; 4], 0).unwrap_err(),
        "file ID list contains 4 items; maximum is 3"
    );
    assert_eq!(
        handle().rename_file_path("ab".to_owned(), 1, "123456789".to_owned()).unwrap_err(),
        "file path contains 9 bytes; maximum is 8"
    );
    assert_eq!(
        handle()
            .rename_folder_path("ab".to_owned(), "a".to_owned(), "123456789".to_owned())
            .unwrap_err(),
        "new folder path contains 9 bytes; maximum is 8"
    );
}

#[test]
fn torrents_are_changed_within_bounds() {
    assert!(matches!(
        handle().update_torrent_fields_with_job("AB".to_owned(), None, Some("/x".to_owned())),
        Ok(EngineCmd::UpdateTorrentFields { with_job: true, .. })
    ));
    assert_eq!(
        handle()
            .update_torrent_fields("AB".to_owned(), Some("x".repeat(17)), None)
            .unwrap_err(),
        "torrent name contains 17 bytes; maximum is 16"
    );
    assert_eq!(
        handle().update_torrent_trackers("ab".to_owned(), vec![], false).unwrap_err(),
        "torrent tracker update capacity exhausted"
    );
    assert!(handle().update_torrent_trackers("ab".to_owned(), texts(&["http://t"]), true).is_ok());
    let limits = EngineTorrentLimits { seed_ratio_bits: Some(f64::NAN.to_bits()) };
    assert_eq!(
        handle().update_torrent_limits("ab".to_owned(), limits).unwrap_err(),
        "torrent seed ratio limit must be finite"
    );
    assert!(matches!(
        handle().update_queue_order(texts(&["A", "B"]), QueueMove::Top),
        Ok(EngineCmd::UpdateQueueOrder { info_hashes, queue_move: QueueMove::Top })
            if info_hashes == texts(&["a", "b"])
    ));
    assert_eq!(
        handle().torrent_live_stats(texts(&["a", "b", "c"])).unwrap_err(),
        "live torrent hash list contains 3 items; maximum is 2"
    );
}

#[test]
fn additions_need_a_slot_and_memory() {
    let magnet = || MagnetLink {
        info_hash_v1: Some([1; 20]),
        info_hash_v2: None,
        display_name: None,
        trackers: Vec::new(),
        peer_addresses: Vec::new(),
    };
    assert!(handle().add_magnet_with_labels(magnet(), options(), true, Ok(())).is_ok());
    assert_eq!(
        handle().add_magnet_with_labels(magnet(), options(), false, Ok(())).unwrap_err(),
        "torrent add preparation capacity exhausted"
    );
    assert_eq!(
        handle()
            .add_torrent_raw_with_labels(vec![0; 8], options(), true, Err("full".to_owned()))
            .unwrap_err(),
        "full"
    );
    assert!(matches!(
        handle().add_torrent_raw_with_labels(vec![0; 8], options(), true, Ok(())),
        Ok(EngineCmd::AddTorrentRaw { raw, .. }) if raw.len() == 8
    ));
}

#[test]
fn ports_and_agents_are_checked() {
    assert_eq!(
        handle().update_listen_port(0).unwrap_err(),
        "listen_port must be between 1 and 65535"
    );
    assert!(matches!(
        handle().update_listen_port(65535),
        Ok(EngineCmd::UpdateListenPort { port: 65535 })
    ));
    assert!(handle().set_user_agent("x".repeat(MAX_USER_AGENT_BYTES)).is_ok());
    assert_eq!(
        handle().set_user_agent("x".repeat(257)).unwrap_err(),
        "user agent contains 257 bytes; maximum is 256"
    );
    assert!(matches!(handle().list_jobs(), EngineCmd::Session(SessionRequest::ListJobs)));
    assert!(matches!(handle().stats(), EngineCmd::Session(SessionRequest::Stats)));
}

#[test]
fn configured_roots_must_resolve() {
    assert_eq!(
        handle().configured_storage_roots(Vec::new()).err().unwrap(),
        "no configured storage roots are available for execution"
    );
    assert_eq!(
        handle()
            .configured_storage_roots(vec![ConfiguredRoot {
                path: "/gone".to_owned(),
                canonical: Err("missing".to_owned()),
            }])
            .err()
            .unwrap(),
        "invalid configured storage root /gone: missing"
    );
}

#[test]
fn what_happens_to_a_command_is_told() {
    assert!(send_command(SendOutcome::Sent).is_ok());
    assert_eq!(send_command(SendOutcome::Closed).unwrap_err(), "engine shut down");
    assert_eq!(
        send_command(SendOutcome::TimedOut).unwrap_err(),
        "engine command queue timed out"
    );
    assert_eq!(await_engine_reply(ReplyOutcome::Answered(Ok(4)), Awaited::Command), Ok(4));
    assert_eq!(
        await_engine_reply::<u8>(ReplyOutcome::Dropped, Awaited::Stats).unwrap_err(),
        "engine dropped reply"
    );
    assert_eq!(
        await_engine_reply::<u8>(ReplyOutcome::TimedOut, Awaited::Command).unwrap_err(),
        "engine command timed out"
    );
    assert_eq!(
        await_engine_reply::<u8>(ReplyOutcome::TimedOut, Awaited::Stats).unwrap_err(),
        "engine stats command timed out"
    );
    assert_eq!(
        await_engine_reply::<u8>(ReplyOutcome::TimedOut, Awaited::Health).unwrap_err(),
        "engine health command timed out"
    );
}

#[test]
fn a_session_that_does_not_end_is_aborted() {
    assert_eq!(time_left(10, 4), 6);
    assert_eq!(time_left(4, 10), 0);
    assert!(!aborts_session(SendOutcome::Sent, true));
    assert!(aborts_session(SendOutcome::Sent, false));
    assert!(!aborts_session(SendOutcome::Closed, false));
    assert!(aborts_session(SendOutcome::TimedOut, true));
    assert_eq!(wait_for_peer_listener_shutdown(None, 5, 1), ListenerEnd::Nothing);
    assert_eq!(wait_for_peer_listener_shutdown(Some(true), 5, 1), ListenerEnd::Nothing);
    assert_eq!(
        wait_for_peer_listener_shutdown(Some(false), 5, 1),
        ListenerEnd::Wait { nanos: 4 }
    );
    assert_eq!(wait_for_peer_listener_shutdown(Some(false), 1, 5), ListenerEnd::Abort);
}
