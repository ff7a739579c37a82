use rt_engine::job::TorrentState;
use rt_engine::read_model::{
    asks_each_task, diagnose_torrent, engine_stats, engine_subsystem_health, fast_engine_stats,
    finalize_resources, request_engine_stats, tier_updates, ClassUsage, DhtProbe, DhtStats,
    RegistryStats, ResourceUsage, RunningTorrent, RuntimeBytes, StatsCache, StatsService,
    StorageJobStats, TaskReport, TierCounts, TorrentFacts, TrackerCounts,
};
use rt_engine::tiering::Activity;

fn registry() -> RegistryStats {
    RegistryStats {
        torrents_total: 10,
        torrents_seeding: 3,
        torrents_downloading: 2,
        torrents_stopped: 1,
        torrents_paused: 2,
        torrents_checking: 0,
        torrents_queued: 0,
        torrents_error: 1,
        torrents_metadata_pending: 1,
        bytes_uploaded: 5,
        bytes_downloaded: 6,
        bytes_left: 7,
    }
}

fn jobs() -> StorageJobStats {
    StorageJobStats { inflight: 1, queue_depth: 2, capacity: 3, workers: 4, healthy: true }
}

fn dht() -> DhtStats {
    DhtStats {
        routing_nodes: 2,
        announced_peer_sets: 0,
        announced_peers: 3,
        tracked_torrents: 0,
        tracked_torrents_cap: 0,
        tracked_torrents_rejected: 0,
        outstanding_requests: 5,
        queried_nodes: 4,
    }
}

fn trackers(total: u64, warning: u64, error: u64) -> TrackerCounts {
    TrackerCounts { total, working: 0, warning, error }
}

#[test]
fn statistics_are_served_from_memory() {
    let mut cache: Option<StatsCache> = None;
    assert_eq!(
        request_engine_stats(&mut cache, 100, 10, 50),
        StatsService { build_fast: true, start_refresh: true }
    );
    assert_eq!(
        request_engine_stats(&mut cache, 105, 10, 50),
        StatsService { build_fast: false, start_refresh: false }
    );
    assert_eq!(
        request_engine_stats(&mut cache, 120, 10, 50),
        StatsService { build_fast: false, start_refresh: false }
    );
    assert_eq!(
        request_engine_stats(&mut cache, 151, 10, 50),
        StatsService { build_fast: false, start_refresh: true }
    );
    assert!(asks_each_task(4, 4));
    assert!(!asks_each_task(5, 4));
}

#[test]
fn torrents_that_no_tier_knows_sleep() {
    let tiers = TierCounts { dormant: 1, warm: 2, hot: 3 };
    let stats = engine_stats(registry(), 1, jobs(), trackers(4, 1, 1), dht(), 5, tiers, 9);
    assert_eq!(stats.torrents_paused, 3);
    assert_eq!(stats.torrents_activity_dormant, 5);
    assert_eq!(stats.torrents_activity_warm, 2);
    assert_eq!(stats.torrents_activity_hot, 3);
    assert_eq!(stats.torrent_tasks_active, 5);
    let fast = fast_engine_stats(registry(), jobs(), tiers, 9);
    assert_eq!(fast.jobs_active, 0);
    assert_eq!(fast.torrents_activity_dormant, 5);
    assert_eq!((fast.trackers.total, fast.trackers.working), (0, 0));
    assert_eq!((fast.dht.routing_nodes, fast.dht.queried_nodes), (0, 0));
}

#[test]
fn memory_is_not_counted_twice() {
    let class = |used_bytes: u64| ClassUsage { cap_bytes: 100, used_bytes, denied_allocations: 0 };
    let mut resources = ResourceUsage {
        storage_frame: class(1),
        piece_assembly: class(10),
        peer_buffer: class(5),
        tracker_peers: class(3),
        dht_table: class(0),
        queued_disk: class(0),
        others: vec![class(2)],
        total_used_bytes: 0,
    };
    let runtime = RuntimeBytes {
        piece_assembly: 8,
        peer_rx_buffers: 1,
        peer_tx_buffers: 2,
        peer_command_queues: 3,
        tracker_peer_caches: 4,
        storage_queued_disk: 6,
    };
    finalize_resources(&mut resources, Some(class(7)), runtime, dht());
    assert_eq!(resources.storage_frame.used_bytes, 7);
    assert_eq!(resources.piece_assembly.used_bytes, 10);
    assert_eq!(resources.peer_buffer.used_bytes, 11);
    assert_eq!(resources.tracker_peers.used_bytes, 4);
    assert_eq!(resources.dht_table.used_bytes, 2 * 64 + 3 * 32 + 4 * 32 + 5 * 64);
    assert_eq!(resources.queued_disk.used_bytes, 6);
    assert_eq!(resources.total_used_bytes, 7 + 10 + 11 + 4 + 672 + 6 + 2);
}

#[test]
fn silence_changes_no_tier() {
    let running = |hash: &str, in_a_tier: bool| RunningTorrent {
        info_hash: hash.to_owned(),
        state: TorrentState::Seeding,
        in_a_tier,
    };
    let report = |hash: &str, activity: Option<Activity>| TaskReport {
        info_hash: hash.to_owned(),
        activity,
    };
    let busy = Activity { connected_peers: 2, outstanding_requests: 1 };
    let updates = tier_updates(
        vec![running("a", true), running("b", true), running("c", false), running("d", true)],
        vec![report("b", Some(busy)), report("x", Some(busy)), report("a", None)],
    );
    let told: Vec<(String, Activity)> =
        updates.into_iter().map(|u| (u.info_hash, u.activity)).collect();
    let idle = Activity { connected_peers: 0, outstanding_requests: 0 };
    assert_eq!(told, vec![("b".to_owned(), busy), ("c".to_owned(), idle)]);
}

#[test]
fn what_is_switched_off_is_not_unwell() {
    let health = engine_subsystem_health(true, false, DhtProbe::Disabled);
    assert!(health.dht_healthy && !health.dht_enabled && !health.storage_workers_healthy);
    assert!(!engine_subsystem_health(true, true, DhtProbe::Silent).dht_healthy);
    assert!(engine_subsystem_health(true, true, DhtProbe::Answered).dht_healthy);
}

#[test]
fn a_torrent_is_diagnosed() {
    let facts = TorrentFacts {
        state: TorrentState::Downloading,
        bytes_left: 12,
        is_private: true,
        trackers: trackers(0, 1, 2),
        active_jobs: 1,
    };
    let diagnosis = diagnose_torrent(facts);
    assert_eq!(
        diagnosis.reasons,
        vec![
            "12 bytes are still missing",
            "1 active job(s) affect this torrent",
            "2 tracker(s) are in error state",
            "1 tracker(s) reported warnings",
            "private torrent has no persisted trackers",
        ]
    );
    assert_eq!(
        diagnosis.next_actions,
        vec![
            "check tracker failure_reason values",
            "add a private tracker before expecting peers",
        ]
    );
    let seeding = diagnose_torrent(TorrentFacts {
        state: TorrentState::Seeding,
        bytes_left: 0,
        ..facts
    });
    assert_eq!(seeding.reasons, vec!["torrent is already seeding"]);
    assert!(seeding.next_actions.is_empty());
    let queued = diagnose_torrent(TorrentFacts {
        state: TorrentState::Queued,
        is_private: false,
        trackers: trackers(1, 0, 0),
        ..facts
    });
    assert_eq!(queued.next_actions, vec!["inspect torrent files, trackers, and active jobs"]);
}
