use rt_engine::limits::EngineLimits;
use rt_engine::metainfo::{
    MagnetLink, MetaFields, MetaFile, MetaKind, SafeRelPath, TorrentMeta, TorrentMetaV1,
};
use rt_engine::net::{PeerAddr, PeerIp};
use rt_engine::storage_plan::{
    PlanIssue, PlanPath, PlannedStorageAction, StoragePlan, StoragePlanStep,
};
use rt_engine::torrent_add::{
    begin_torrent_add, magnet_entry, plan_magnet, validate_add_magnet, validate_add_raw, validate_add_torrent,
    AddFailure, AddOptions, Presence,
};
use rt_engine::validation::{
    canonical_info_hash, validation_canonical_info_hash_checked,
    validation_canonical_info_hash_list, validation_tracker_urls_bytes,
    validation_validate_active_peer_torrent_count, validation_validate_category_value,
    validation_validate_command_item_len, validation_validate_global_tag_set,
    validation_validate_label_bytes, validation_validate_magnet_input,
    validation_validate_meta_files, validation_validate_peer_command_len,
    validation_validate_peer_snapshot_total, validation_validate_save_path_value,
    validation_validate_storage_plan, validation_validate_text_bytes,
    validation_validate_text_list_bytes, validation_validate_torrent_limits,
    validation_validate_torrent_meta, validation_validate_tracker_urls, EngineTorrentLimits,
    FileSpan,
};

fn limits() -> EngineLimits {
    EngineLimits {
        active_peer_torrents: 4,
        peer_snapshot_items: 4,
        label_bytes: 16,
        mutation_items: 3,
        storage_plan_path_bytes: 16,
        storage_plan_total_path_bytes: 32,
        storage_plan_items: 2,
        storage_plan_serialized_bytes: 100,
        info_hash_bytes: 64,
        info_hash_list_bytes: 100,
        category_bytes: 8,
        save_path_bytes: 16,
        tracker_url_bytes: 32,
        tracker_bytes: 64,
        meta_tracker_tiers: 4,
        meta_webseeds: 2,
        meta_webseed_bytes: 32,
        meta_files: 3,
        meta_path_bytes: 16,
        meta_path_total_bytes: 32,
        name_bytes: 16,
        metadata_text_bytes: 16,
        meta_pieces: 8,
        magnet_peers: 2,
        job_id_bytes: 8,
        storage_operation_bytes: 8,
        storage_plan_affected_torrents: 2,
        event_filter_items: 2,
        event_filter_value_bytes: 8,
        event_filter_bytes: 12,
        live_stats: 2,
        banned_peers: 2,
        manual_peer_addresses: 2,
        setting_key_bytes: 8,
        setting_value_bytes: 8,
        torrent_file_path_bytes: 8,
        category_definition_bytes: 12,
    }
}

fn texts(values: &[&str]) -> Vec<String> {
    values.iter().map(|v| (*v).to_owned()).collect()
}

fn file(components: &[&str], length: u64, offset: u64) -> MetaFile {
    MetaFile {
        path: SafeRelPath { components: texts(components) },
        length,
        offset,
        pad: false,
    }
}

fn v1(files: Vec<MetaFile>, piece_length: u64, pieces: usize) -> TorrentMeta {
    TorrentMeta {
        raw: vec![0; 10],
        kind: MetaKind::V1(TorrentMetaV1 {
            info_hash: [1; 20],
            fields: MetaFields {
                name: "name".to_owned(),
                comment: None,
                created_by: None,
                webseeds: Vec::new(),
                announce: Some("http://t/a".to_owned()),
                announce_list: Vec::new(),
                files,
                piece_length,
                private: false,
            },
            pieces: vec![[2; 20]; pieces],
        }),
    }
}

fn options() -> AddOptions {
    AddOptions { save_path: None, paused: false, category: None, tags: Vec::new() }
}

fn magnet() -> MagnetLink {
    MagnetLink {
        info_hash_v1: Some([0x31; 20]),
        info_hash_v2: Some([0x72; 32]),
        display_name: None,
        trackers: texts(&["http://t/a"]),
        peer_addresses: Vec::new(),
    }
}

#[test]
fn counts_and_texts_are_bounded_with_their_message() {
    assert_eq!(
        validation_validate_peer_command_len(3, 2, "peer ban list").unwrap_err(),
        "peer ban list contains 3 addresses; maximum is 2"
    );
    assert_eq!(
        validation_validate_command_item_len(4, 3, "tag list").unwrap_err(),
        "tag list contains 4 items; maximum is 3"
    );
    assert_eq!(
        validation_validate_text_bytes("\u{e9}", 1, "job id").unwrap_err(),
        "job id contains 2 bytes; maximum is 1"
    );
    assert!(validation_validate_text_bytes("\u{e9}", 2, "job id").is_ok());
    assert!(validation_validate_active_peer_torrent_count(&limits(), 5).is_err());
    assert!(validation_validate_active_peer_torrent_count(&limits(), 4).is_ok());
    assert!(validation_validate_peer_snapshot_total(&limits(), 5).is_err());
    assert!(validation_validate_peer_snapshot_total(&limits(), 4).is_ok());
}

#[test]
fn lists_of_texts_are_bounded_one_by_one_and_together() {
    let values = texts(&["abc", "defgh"]);
    assert!(validation_validate_text_list_bytes(&values, 5, 8, "event level list").is_ok());
    assert_eq!(
        validation_validate_text_list_bytes(&values, 4, 8, "event level list").unwrap_err(),
        "event level list item at index 1 contains 5 bytes; maximum is 4"
    );
    assert_eq!(
        validation_validate_text_list_bytes(&values, 5, 7, "event level list").unwrap_err(),
        "event level list contains 8 bytes; maximum is 7"
    );
    assert!(validation_validate_text_list_bytes(&[], 0, 0, "event level list").is_ok());
    assert!(validation_validate_label_bytes(&limits(), &texts(&["0123456789abcdefg"]), "tag list")
        .is_err());
    assert!(validation_validate_global_tag_set(&limits(), &texts(&["a", "b"])).is_ok());
}

#[test]
fn info_hashes_take_their_canonical_form() {
    assert_eq!(canonical_info_hash("ABcd\u{c9}".to_owned()), "abcd\u{c9}");
    assert_eq!(
        canonical_info_hash("@ABCDEFGHIJKLMNOPQRSTUVWXYZ[".to_owned()),
        "@abcdefghijklmnopqrstuvwxyz["
    );
    let once = validation_canonical_info_hash_checked(&limits(), "AB".to_owned()).unwrap();
    assert_eq!(validation_canonical_info_hash_checked(&limits(), once.clone()).unwrap(), once);
    assert_eq!(
        validation_canonical_info_hash_checked(&limits(), "a".repeat(65)).unwrap_err(),
        "info hash contains 65 bytes; maximum is 64"
    );
    assert_eq!(
        validation_canonical_info_hash_list(&limits(), texts(&["A", "b"])).unwrap(),
        texts(&["a", "b"])
    );
    assert_eq!(
        validation_canonical_info_hash_list(&limits(), vec!["a".repeat(60), "b".repeat(60)])
            .unwrap_err(),
        "torrent hash list contains 120 bytes; maximum is 100"
    );
    assert!(validation_canonical_info_hash_list(&limits(), texts(&["a", "b", "c", "d"])).is_err());
}

#[test]
fn labels_paths_and_trackers_are_bounded() {
    assert!(validation_validate_category_value(&limits(), None).is_ok());
    assert_eq!(
        validation_validate_category_value(&limits(), Some("123456789")).unwrap_err(),
        "category contains 9 bytes; maximum is 8"
    );
    assert_eq!(
        validation_validate_save_path_value(&limits(), Some("/0123456789abcdef")).unwrap_err(),
        "save path contains 17 bytes; maximum is 16"
    );
    assert!(validation_validate_tracker_urls(&limits(), &texts(&["http://a", "http://b"])).is_ok());
    assert!(validation_validate_tracker_urls(&limits(), &["x".repeat(33)]).is_err());
    assert_eq!(validation_tracker_urls_bytes(&texts(&[" ab ", "c"])), 3);
}

#[test]
fn a_seed_ratio_must_be_finite() {
    let with = |ratio: f64| EngineTorrentLimits { seed_ratio_bits: Some(ratio.to_bits()) };
    assert!(validation_validate_torrent_limits(&EngineTorrentLimits { seed_ratio_bits: None })
        .is_ok());
    assert!(validation_validate_torrent_limits(&with(-0.0)).is_ok());
    assert!(validation_validate_torrent_limits(&with(f64::MAX)).is_ok());
    assert_eq!(
        validation_validate_torrent_limits(&with(f64::NAN)).unwrap_err(),
        "torrent seed ratio limit must be finite"
    );
    assert!(validation_validate_torrent_limits(&with(f64::INFINITY)).is_err());
    assert!(validation_validate_torrent_limits(&with(f64::NEG_INFINITY)).is_err());
}

#[test]
fn files_must_follow_one_another() {
    let span = |index: usize, length: u64, offset: u64| FileSpan {
        index,
        path_bytes: 4,
        length,
        offset,
    };
    assert_eq!(
        validation_validate_meta_files(&limits(), &[span(0, 5, 0), span(1, 7, 5)]).unwrap(),
        12
    );
    assert_eq!(
        validation_validate_meta_files(&limits(), &[span(0, 5, 0), span(1, 7, 6)]).unwrap_err(),
        "metainfo file offset 6 at index 1 does not match expected 5"
    );
    assert_eq!(
        validation_validate_meta_files(&limits(), &[span(1, 5, 0)]).unwrap_err(),
        "metainfo file index 1 is not the expected index 0"
    );
    assert_eq!(
        validation_validate_meta_files(&limits(), &[span(0, u64::MAX, 0), span(1, 1, u64::MAX)])
            .unwrap_err(),
        "metainfo file lengths overflow the engine's unsigned total"
    );
    assert_eq!(
        validation_validate_meta_files(
            &limits(),
            &[span(0, 1, 0), span(1, 1, 1), span(2, 1, 2), span(3, 1, 3)]
        )
        .unwrap_err(),
        "metainfo file list contains more than 3 items"
    );
}

#[test]
fn piece_hashes_must_cover_the_payload() {
    let two = || vec![file(&["a"], 5, 0), file(&["b", "c"], 7, 5)];
    assert!(validation_validate_torrent_meta(&limits(), &v1(two(), 4, 3)).is_ok());
    assert_eq!(
        validation_validate_torrent_meta(&limits(), &v1(two(), 4, 2)).unwrap_err(),
        "torrent piece count 2 does not match expected 3"
    );
    assert_eq!(
        validation_validate_torrent_meta(&limits(), &v1(two(), 0, 3)).unwrap_err(),
        "torrent piece length 0 is outside the engine range"
    );
    assert_eq!(
        validation_validate_torrent_meta(&limits(), &v1(two(), 1, 12)).unwrap_err(),
        "torrent contains 12 pieces; maximum is 8"
    );
    assert_eq!(
        validation_validate_torrent_meta(&limits(), &v1(vec![file(&["a"], 0, 0)], 4, 0))
            .unwrap_err(),
        "torrent total length must be greater than zero"
    );
}

#[test]
fn storage_plans_are_bounded_and_consistent() {
    let step = |path: &str| StoragePlanStep {
        action: PlannedStorageAction::Move,
        source: Some(PlanPath::Utf8(path.to_owned())),
        destination: None,
        bytes: 1,
    };
    let plan = |can_apply: bool, issues: Vec<PlanIssue>, steps: Vec<StoragePlanStep>| StoragePlan {
        dry_run: false,
        can_apply,
        issues,
        steps,
        rollback_steps: Vec::new(),
    };
    assert!(validation_validate_storage_plan(&limits(), &plan(true, vec![], vec![step("/a")]), Ok(50))
        .is_ok());
    assert_eq!(
        validation_validate_storage_plan(
            &limits(),
            &plan(true, vec![PlanIssue::AtomicNoReplaceRenameUnavailable], vec![]),
            Ok(50)
        )
        .unwrap_err(),
        "storage plan cannot_apply state conflicts with its issues"
    );
    assert_eq!(
        validation_validate_storage_plan(&limits(), &plan(true, vec![], vec![step("/a")]), Ok(101))
            .unwrap_err(),
        "storage plan serialization contains 101 bytes; maximum is 100"
    );
    assert_eq!(
        validation_validate_storage_plan(
            &limits(),
            &plan(true, vec![], vec![step("/a")]),
            Err("no".to_owned())
        )
        .unwrap_err(),
        "storage plan cannot be serialized: no"
    );
    assert!(validation_validate_storage_plan(
        &limits(),
        &plan(true, vec![], vec![step("/0123456789abcdef")]),
        Ok(50)
    )
    .is_err());
    let not_utf8 = StoragePlanStep {
        action: PlannedStorageAction::Move,
        source: Some(PlanPath::NotUtf8),
        destination: None,
        bytes: 1,
    };
    assert!(validation_validate_storage_plan(&limits(), &plan(true, vec![], vec![not_utf8]), Ok(5))
        .is_err());
}

#[test]
fn additions_are_checked_in_order() {
    let meta = v1(vec![file(&["a"], 5, 0)], 4, 2);
    assert!(validate_add_torrent(&limits(), &meta, &options()).is_ok());
    let tagged = AddOptions { tags: texts(&["a", "b", "c", "d"]), ..options() };
    assert_eq!(
        validate_add_torrent(&limits(), &meta, &tagged).unwrap_err(),
        "torrent tag list contains 4 items; maximum is 3"
    );
    assert_eq!(
        validate_add_raw(&limits(), 64 * 1024 * 1024 + 1, &options()).unwrap_err(),
        "torrent metainfo contains 67108865 bytes; maximum is 67108864"
    );
    assert!(validate_add_raw(&limits(), 64 * 1024 * 1024, &options()).is_ok());
    assert!(validate_add_magnet(&limits(), &magnet(), &options()).is_ok());
    let crowded = MagnetLink {
        peer_addresses: vec![
            PeerAddr { ip: PeerIp { bits: 1, v6: false }, port: 1 };
            3
        ],
        ..magnet()
    };
    assert!(validation_validate_magnet_input(&limits(), &crowded).is_err());
    let portless = MagnetLink {
        peer_addresses: vec![PeerAddr { ip: PeerIp { bits: 1, v6: false }, port: 0 }],
        ..magnet()
    };
    assert!(validation_validate_magnet_input(&limits(), &portless).is_err());
}

#[test]
fn a_magnet_link_is_filed_under_its_first_hash() {
    let plan = plan_magnet(&limits(), magnet(), &options(), 100).unwrap();
    assert_eq!(plan.info_hash, "31".repeat(20));
    assert_eq!(plan.name, plan.info_hash);
    assert_eq!(plan.expected_v2, Some([0x72; 32]));
    let v2_only = MagnetLink { info_hash_v1: None, ..magnet() };
    let plan = plan_magnet(&limits(), v2_only, &options(), 100).unwrap();
    assert_eq!(plan.info_hash, "72".repeat(32));
    assert_eq!(plan.expected_v2, None);
    let shown = magnet_entry(
        &plan,
        Some("/here".to_owned()),
        "/srv/dl".to_owned(),
        Some("tv".to_owned()),
        vec!["x".to_owned()],
    );
    assert_eq!(shown.name, plan.name);
    assert_eq!((shown.total_length, shown.amount_left), (0, 0));
    assert_eq!(shown.state, plan.state);
    assert_eq!(shown.save_path, "/here");
    assert_eq!(shown.category.as_deref(), Some("tv"));
    assert_eq!(shown.tags, vec!["x"]);
    let nameless = MagnetLink { info_hash_v1: None, info_hash_v2: None, ..magnet() };
    assert!(plan_magnet(&limits(), nameless, &options(), 100).is_err());
}

#[test]
fn a_known_torrent_is_not_prepared() {
    let unknown = Presence { has_task: false, being_added: false, shown: false };
    assert!(begin_torrent_add("aa".to_owned(), unknown, Ok(()), true).is_ok());
    let known = Presence { being_added: true, ..unknown };
    let refused = begin_torrent_add("aa".to_owned(), known, Ok(()), true).unwrap_err();
    assert_eq!(refused.to_text(), "torrent aa already added");
    assert!(matches!(
        begin_torrent_add("aa".to_owned(), unknown, Ok(()), false),
        Err(AddFailure::Capacity)
    ));
    assert!(matches!(
        begin_torrent_add("aa".to_owned(), unknown, Err("bad".to_owned()), false),
        Err(AddFailure::Reported(e)) if e == "bad"
    ));
}
