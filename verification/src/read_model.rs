//! What the engine tells of itself: statistics, health and diagnoses.
//!
//! Times are nanoseconds on one monotonic clock.

use vstd::prelude::*;

use crate::job::TorrentState;
use crate::text::{count_text, decimal, decimal_text, join2};
use crate::tiering::Activity;

verus! {

/// The age of the statistics that are at hand.
#[derive(Clone, Copy, Debug, PartialEq, Eq, Structural)]
pub struct StatsCache {
    pub generated_at: u128,
    /// When new ones were begun on, where they are not there yet.
    pub refresh_started_at: Option<u128>,
}

/// How a request for statistics is served.
#[derive(Clone, Copy, Debug, PartialEq, Eq, Structural)]
pub struct StatsService {
    /// Nothing is at hand: what can be told at once is told, and kept.
    pub build_fast: bool,
    /// New statistics are begun on.
    pub start_refresh: bool,
}

/// The time that has passed.
pub open spec fn age(since: u128, now: u128) -> nat {
    if now >= since {
        (now - since) as nat
    } else {
        0
    }
}

/// New statistics are on their way, and not for so long that they are given
/// up.
pub open spec fn refresh_is_live(cache: StatsCache, now: u128, stale_after: u128) -> bool {
    cache.refresh_started_at matches Some(started) && age(started, now) <= stale_after
}

pub open spec fn serve(cache: Option<StatsCache>, now: u128, ttl: u128, stale_after: u128) -> (
    StatsService,
    StatsCache,
) {
    match cache {
        Some(cache) => if age(cache.generated_at, now) <= ttl {
            (StatsService { build_fast: false, start_refresh: false }, cache)
        } else if refresh_is_live(cache, now, stale_after) {
            (StatsService { build_fast: false, start_refresh: false }, cache)
        } else {
            (
                StatsService { build_fast: false, start_refresh: true },
                StatsCache { refresh_started_at: Some(now), ..cache },
            )
        },
        None => (
            StatsService { build_fast: true, start_refresh: true },
            StatsCache { generated_at: now, refresh_started_at: Some(now) },
        ),
    }
}

/// Serves a request for statistics from what is at hand, and begins on new
/// ones where those are old and none are on their way. A request never waits.
pub fn request_engine_stats(cache: &mut Option<StatsCache>, now: u128, ttl: u128, stale_after: u128) -> (r:
    StatsService)
    ensures
        *final(cache) == Some(serve(*old(cache), now, ttl, stale_after).1),
        r == serve(*old(cache), now, ttl, stale_after).0,
{
    match *cache {
        Some(known) => {
            if now.saturating_sub(known.generated_at) <= ttl {
                return StatsService { build_fast: false, start_refresh: false };
            }
            if let Some(started) = known.refresh_started_at {
                if now.saturating_sub(started) <= stale_after {
                    return StatsService { build_fast: false, start_refresh: false };
                }
            }
            *cache = Some(
                StatsCache {
                    generated_at: known.generated_at,
                    refresh_started_at: Some(now),
                },
            );
            StatsService { build_fast: false, start_refresh: true }
        },
        None => {
            *cache = Some(StatsCache { generated_at: now, refresh_started_at: Some(now) });
            StatsService { build_fast: true, start_refresh: true }
        },
    }
}

/// Whether each task is asked for its own figures: only where there are not
/// too many.
pub fn asks_each_task(task_count: usize, maximum: usize) -> (r: bool)
    ensures
        r == (task_count <= maximum),
{
    task_count <= maximum
}

/// What the session counts.
#[derive(Clone, Copy, Debug, PartialEq, Eq, Structural)]
pub struct RegistryStats {
    pub torrents_total: u64,
    pub torrents_seeding: u64,
    pub torrents_downloading: u64,
    pub torrents_stopped: u64,
    pub torrents_paused: u64,
    pub torrents_checking: u64,
    pub torrents_queued: u64,
    pub torrents_error: u64,
    pub torrents_metadata_pending: u64,
    pub bytes_uploaded: u64,
    pub bytes_downloaded: u64,
    pub bytes_left: u64,
}

/// How many torrents the tiers know, by how much they are used.
#[derive(Clone, Copy, Debug, PartialEq, Eq, Structural)]
pub struct TierCounts {
    pub dormant: usize,
    pub warm: usize,
    pub hot: usize,
}

/// What the storage workers count.
#[derive(Clone, Copy, Debug, PartialEq, Eq, Structural)]
pub struct StorageJobStats {
    pub inflight: u64,
    pub queue_depth: u64,
    pub capacity: u64,
    pub workers: u64,
    pub healthy: bool,
}

/// What the distributed hash table counts.
#[derive(Clone, Copy, Debug, PartialEq, Eq, Structural)]
pub struct DhtStats {
    pub routing_nodes: u64,
    pub announced_peer_sets: u64,
    pub announced_peers: u64,
    pub tracked_torrents: u64,
    pub tracked_torrents_cap: u64,
    pub tracked_torrents_rejected: u64,
    pub outstanding_requests: u64,
    pub queried_nodes: u64,
}

/// Trackers by how they answer.
#[derive(Clone, Copy, Debug, PartialEq, Eq, Structural)]
pub struct TrackerCounts {
    pub total: u64,
    pub working: u64,
    pub warning: u64,
    pub error: u64,
}

/// What the tasks of all torrents keep in memory, in bytes.
#[derive(Clone, Copy, Debug, PartialEq, Eq, Structural)]
pub struct RuntimeBytes {
    pub piece_assembly: u64,
    pub peer_rx_buffers: u64,
    pub peer_tx_buffers: u64,
    pub peer_command_queues: u64,
    pub tracker_peer_caches: u64,
    pub storage_queued_disk: u64,
}

/// The statistics of the engine.
#[derive(Clone, Copy, Debug, PartialEq, Eq, Structural)]
pub struct EngineStats {
    pub torrents_total: u64,
    pub torrents_seeding: u64,
    pub torrents_downloading: u64,
    /// Paused and stopped ones.
    pub torrents_paused: u64,
    pub torrents_checking: u64,
    pub torrents_queued: u64,
    pub torrents_error: u64,
    pub torrents_metadata_pending: u64,
    pub bytes_uploaded: u64,
    pub bytes_downloaded: u64,
    pub bytes_left: u64,
    pub jobs_active: u64,
    pub storage_jobs: StorageJobStats,
    pub trackers: TrackerCounts,
    pub dht: DhtStats,
    pub torrent_tasks_active: u64,
    pub torrents_activity_dormant: u64,
    pub torrents_activity_warm: u64,
    pub torrents_activity_hot: u64,
    pub dormant_runtime_heap_bytes: u64,
}

/// A sum, held at the largest number.
pub open spec fn held(n: nat) -> u64 {
    if n > u64::MAX {
        u64::MAX
    } else {
        n as u64
    }
}

/// What the engine's statistics say of the torrents: one that no tier knows
/// sleeps.
pub open spec fn dormant_count(tiers: TierCounts, torrents_total: u64) -> nat {
    let known = held(
        held(tiers.dormant as nat + tiers.warm as nat) as nat + tiers.hot as nat,
    );
    tiers.dormant as nat + if torrents_total > known {
        (torrents_total - known) as nat
    } else {
        0
    }
}

/// Puts the statistics of the engine together.
pub fn engine_stats(
    registry: RegistryStats,
    jobs_active: u64,
    storage_jobs: StorageJobStats,
    trackers: TrackerCounts,
    dht: DhtStats,
    torrent_tasks: u64,
    tiers: TierCounts,
    dormant_runtime_heap_bytes: u64,
) -> (r: EngineStats)
    ensures
        r == (EngineStats {
            torrents_total: registry.torrents_total,
            torrents_seeding: registry.torrents_seeding,
            torrents_downloading: registry.torrents_downloading,
            torrents_paused: held(
                registry.torrents_stopped as nat + registry.torrents_paused as nat,
            ),
            torrents_checking: registry.torrents_checking,
            torrents_queued: registry.torrents_queued,
            torrents_error: registry.torrents_error,
            torrents_metadata_pending: registry.torrents_metadata_pending,
            bytes_uploaded: registry.bytes_uploaded,
            bytes_downloaded: registry.bytes_downloaded,
            bytes_left: registry.bytes_left,
            jobs_active,
            storage_jobs,
            trackers,
            dht,
            torrent_tasks_active: torrent_tasks,
            torrents_activity_dormant: dormant_count(tiers, registry.torrents_total) as u64,
            torrents_activity_warm: tiers.warm as u64,
            torrents_activity_hot: tiers.hot as u64,
            dormant_runtime_heap_bytes,
        }),
{
    let known: u64 = (tiers.dormant as u64).saturating_add(tiers.warm as u64).saturating_add(
        tiers.hot as u64,
    );
    let unknown: u64 = registry.torrents_total.saturating_sub(known);
    EngineStats {
        torrents_total: registry.torrents_total,
        torrents_seeding: registry.torrents_seeding,
        torrents_downloading: registry.torrents_downloading,
        torrents_paused: registry.torrents_stopped.saturating_add(registry.torrents_paused),
        torrents_checking: registry.torrents_checking,
        torrents_queued: registry.torrents_queued,
        torrents_error: registry.torrents_error,
        torrents_metadata_pending: registry.torrents_metadata_pending,
        bytes_uploaded: registry.bytes_uploaded,
        bytes_downloaded: registry.bytes_downloaded,
        bytes_left: registry.bytes_left,
        jobs_active,
        storage_jobs,
        trackers,
        dht,
        torrent_tasks_active: torrent_tasks,
        torrents_activity_dormant: tiers.dormant as u64 + unknown,
        torrents_activity_warm: tiers.warm as u64,
        torrents_activity_hot: tiers.hot as u64,
        dormant_runtime_heap_bytes,
    }
}

/// The statistics that can be told at once, without asking anybody.
pub fn fast_engine_stats(
    registry: RegistryStats,
    storage_jobs: StorageJobStats,
    tiers: TierCounts,
    dormant_runtime_heap_bytes: u64,
) -> (r: EngineStats)
    ensures
        r == (EngineStats {
            torrents_total: registry.torrents_total,
            torrents_seeding: registry.torrents_seeding,
            torrents_downloading: registry.torrents_downloading,
            torrents_paused: held(
                registry.torrents_stopped as nat + registry.torrents_paused as nat,
            ),
            torrents_checking: registry.torrents_checking,
            torrents_queued: registry.torrents_queued,
            torrents_error: registry.torrents_error,
            torrents_metadata_pending: registry.torrents_metadata_pending,
            bytes_uploaded: registry.bytes_uploaded,
            bytes_downloaded: registry.bytes_downloaded,
            bytes_left: registry.bytes_left,
            jobs_active: 0,
            storage_jobs,
            trackers: TrackerCounts { total: 0, working: 0, warning: 0, error: 0 },
            dht: DhtStats {
                routing_nodes: 0,
                announced_peer_sets: 0,
                announced_peers: 0,
                tracked_torrents: 0,
                tracked_torrents_cap: 0,
                tracked_torrents_rejected: 0,
                outstanding_requests: 0,
                queried_nodes: 0,
            },
            torrent_tasks_active: 0,
            torrents_activity_dormant: dormant_count(tiers, registry.torrents_total) as u64,
            torrents_activity_warm: tiers.warm as u64,
            torrents_activity_hot: tiers.hot as u64,
            dormant_runtime_heap_bytes,
        }),
{
    let trackers = TrackerCounts { total: 0, working: 0, warning: 0, error: 0 };
    let dht = DhtStats {
        routing_nodes: 0,
        announced_peer_sets: 0,
        announced_peers: 0,
        tracked_torrents: 0,
        tracked_torrents_cap: 0,
        tracked_torrents_rejected: 0,
        outstanding_requests: 0,
        queried_nodes: 0,
    };
    engine_stats(
        registry,
        0,
        storage_jobs,
        trackers,
        dht,
        0,
        tiers,
        dormant_runtime_heap_bytes,
    )
}

/// The memory of one purpose, in bytes.
#[derive(Clone, Copy, Debug, PartialEq, Eq, Structural)]
pub struct ClassUsage {
    pub cap_bytes: u64,
    pub used_bytes: u64,
    pub denied_allocations: u64,
}

/// The memory of the engine by what it is for.
#[derive(Debug)]
pub struct ResourceUsage {
    pub storage_frame: ClassUsage,
    pub piece_assembly: ClassUsage,
    pub peer_buffer: ClassUsage,
    pub tracker_peers: ClassUsage,
    pub dht_table: ClassUsage,
    pub queued_disk: ClassUsage,
    /// Whatever else is accounted for.
    pub others: Vec<ClassUsage>,
    pub total_used_bytes: u64,
}

/// The bytes in use of a list.
pub open spec fn used_bytes(classes: Seq<ClassUsage>) -> nat
    decreases classes.len(),
{
    if classes.len() == 0 {
        0
    } else {
        used_bytes(classes.drop_last()) + classes.last().used_bytes as nat
    }
}

/// The bytes in use for all purposes.
pub open spec fn all_used_bytes(r: ResourceUsage) -> nat {
    r.storage_frame.used_bytes as nat + r.piece_assembly.used_bytes as nat
        + r.peer_buffer.used_bytes as nat + r.tracker_peers.used_bytes as nat
        + r.dht_table.used_bytes as nat + r.queued_disk.used_bytes as nat + used_bytes(r.others@)
}

/// An estimate of what the distributed hash table keeps.
pub open spec fn dht_bytes(dht: DhtStats) -> nat {
    dht.routing_nodes as nat * 64 + dht.announced_peers as nat * 32 + dht.queried_nodes as nat * 32
        + dht.outstanding_requests as nat * 64
}

fn times(n: u64, factor: u64) -> (r: u64)
    ensures
        r == held(n as nat * factor as nat),
{
    match n.checked_mul(factor) {
        Some(product) => product,
        None => u64::MAX,
    }
}

fn larger(a: u64, b: u64) -> (r: u64)
    ensures
        r == if a > b {
            a
        } else {
            b
        },
{
    if a > b {
        a
    } else {
        b
    }
}

/// `class` with the larger of its own figure and `seen`.
pub open spec fn at_least(class: ClassUsage, seen: u64) -> ClassUsage {
    ClassUsage {
        used_bytes: if class.used_bytes > seen {
            class.used_bytes
        } else {
            seen
        },
        ..class
    }
}

/// Brings the account of memory up to date with what the tasks report. What is
/// accounted for already is never counted twice: the larger figure counts.
pub fn finalize_resources(
    resources: &mut ResourceUsage,
    storage_frame: Option<ClassUsage>,
    runtime: RuntimeBytes,
    dht: DhtStats,
)
    ensures
        final(resources).storage_frame == match storage_frame {
            Some(class) => class,
            None => old(resources).storage_frame,
        },
        final(resources).piece_assembly == at_least(
            old(resources).piece_assembly,
            runtime.piece_assembly,
        ),
        final(resources).peer_buffer == (ClassUsage {
            used_bytes: held(
                old(resources).peer_buffer.used_bytes as nat + runtime.peer_rx_buffers as nat
                    + runtime.peer_tx_buffers as nat + runtime.peer_command_queues as nat,
            ),
            ..old(resources).peer_buffer
        }),
        final(resources).tracker_peers == at_least(
            old(resources).tracker_peers,
            runtime.tracker_peer_caches,
        ),
        final(resources).dht_table == (ClassUsage {
            used_bytes: held(dht_bytes(dht)),
            ..old(resources).dht_table
        }),
        final(resources).queued_disk == (ClassUsage {
            used_bytes: runtime.storage_queued_disk,
            ..old(resources).queued_disk
        }),
        final(resources).others == old(resources).others,
        final(resources).total_used_bytes == held(all_used_bytes(*final(resources))),
{
    if let Some(class) = storage_frame {
        resources.storage_frame = class;
    }
    resources.piece_assembly.used_bytes =
    larger(resources.piece_assembly.used_bytes, runtime.piece_assembly);
    resources.peer_buffer.used_bytes =
    resources.peer_buffer.used_bytes.saturating_add(runtime.peer_rx_buffers).saturating_add(
        runtime.peer_tx_buffers,
    ).saturating_add(runtime.peer_command_queues);
    resources.tracker_peers.used_bytes =
    larger(resources.tracker_peers.used_bytes, runtime.tracker_peer_caches);
    resources.dht_table.used_bytes =
    times(dht.routing_nodes, 64).saturating_add(times(dht.announced_peers, 32)).saturating_add(
        times(dht.queried_nodes, 32),
    ).saturating_add(times(dht.outstanding_requests, 64));
    resources.queued_disk.used_bytes = runtime.storage_queued_disk;
    let mut others: u64 = 0;
    let mut i: usize = 0;
    assert(resources.others@.take(0) =~= Seq::<ClassUsage>::empty());
    while i < resources.others.len()
        invariant
            i <= resources.others@.len(),
            others == held(used_bytes(resources.others@.take(i as int))),
        decreases resources.others@.len() - i,
    {
        assert(resources.others@.take(i + 1).drop_last() =~= resources.others@.take(i as int));
        others = others.saturating_add(resources.others[i].used_bytes);
        i = i + 1;
    }
    assert(resources.others@.take(i as int) =~= resources.others@);
    resources.total_used_bytes =
    resources.storage_frame.used_bytes.saturating_add(
        resources.piece_assembly.used_bytes,
    ).saturating_add(resources.peer_buffer.used_bytes).saturating_add(
        resources.tracker_peers.used_bytes,
    ).saturating_add(resources.dht_table.used_bytes).saturating_add(
        resources.queued_disk.used_bytes,
    ).saturating_add(others);
}

/// What is known of the distributed hash table.
#[derive(Clone, Copy, Debug, PartialEq, Eq, Structural)]
pub enum DhtProbe {
    Disabled,
    /// Nobody serves it any more.
    Closed,
    /// It could not be asked.
    NotAsked,
    Answered,
    /// It did not answer in time.
    Silent,
}

/// How the parts of the engine are.
#[derive(Clone, Copy, Debug, PartialEq, Eq, Structural)]
pub struct EngineSubsystemHealth {
    pub db_worker_healthy: bool,
    pub storage_workers_healthy: bool,
    pub dht_enabled: bool,
    pub dht_healthy: bool,
}

/// Tells how the parts of the engine are. What is switched off is not unwell.
pub fn engine_subsystem_health(db_worker_healthy: bool, storage_workers_healthy: bool, dht: DhtProbe) -> (r:
    EngineSubsystemHealth)
    ensures
        r == (EngineSubsystemHealth {
            db_worker_healthy,
            storage_workers_healthy,
            dht_enabled: dht != DhtProbe::Disabled,
            dht_healthy: dht == DhtProbe::Disabled || dht == DhtProbe::Answered,
        }),
{
    EngineSubsystemHealth {
        db_worker_healthy,
        storage_workers_healthy,
        dht_enabled: dht != DhtProbe::Disabled,
        dht_healthy: dht == DhtProbe::Disabled || dht == DhtProbe::Answered,
    }
}

/// What is known of a torrent that is to be diagnosed.
#[derive(Clone, Copy, Debug, PartialEq, Eq, Structural)]
pub struct TorrentFacts {
    pub state: TorrentState,
    pub bytes_left: u64,
    pub is_private: bool,
    pub trackers: TrackerCounts,
    pub active_jobs: usize,
}

/// Why a torrent does not go on, and what can be done about it.
#[derive(Debug)]
pub struct TorrentDiagnostic {
    pub tracker_errors: usize,
    pub tracker_warnings: usize,
    pub reasons: Vec<String>,
    pub next_actions: Vec<String>,
}

/// The texts of a list.
pub open spec fn texts(list: Seq<String>) -> Seq<Seq<char>> {
    list.map_values(|s: String| s@)
}

/// A count as far as the machine can hold it.
pub open spec fn machine_count(n: u64) -> nat {
    if n > usize::MAX {
        usize::MAX as nat
    } else {
        n as nat
    }
}

/// The torrent has all it needs.
pub open spec fn is_fine(f: TorrentFacts) -> bool {
    f.state == TorrentState::Seeding && f.bytes_left == 0
}

/// A line that is there on a condition.
pub open spec fn line(condition: bool, text: Seq<char>) -> Seq<Seq<char>> {
    if condition {
        seq![text]
    } else {
        seq![]
    }
}

/// What the state of a torrent says about why it does not go on.
pub open spec fn state_reasons(f: TorrentFacts) -> Seq<Seq<char>> {
    match f.state {
        TorrentState::Paused | TorrentState::Stopped => seq!["torrent is paused or stopped"@],
        TorrentState::Checking => seq!["torrent is currently checking pieces"@],
        TorrentState::MetadataPending => seq!["torrent is waiting for metadata"@],
        TorrentState::Downloading | TorrentState::Queued => seq![
            decimal(f.bytes_left as nat) + " bytes are still missing"@,
        ],
        TorrentState::Error => seq!["torrent is in an error state"@],
        TorrentState::Seeding => seq![],
    }
}

/// What the state of a torrent says about what can be done.
pub open spec fn state_actions(f: TorrentFacts) -> Seq<Seq<char>> {
    match f.state {
        TorrentState::Paused | TorrentState::Stopped => seq!["resume the torrent"@],
        TorrentState::Checking => seq!["wait for the active recheck job to finish"@],
        TorrentState::MetadataPending => seq![
            "wait for metadata peers or add the .torrent file"@,
        ],
        TorrentState::Downloading | TorrentState::Queued => seq![],
        TorrentState::Error => seq!["inspect tracker and storage errors"@],
        TorrentState::Seeding => seq![],
    }
}

/// Why a torrent does not go on.
pub open spec fn reasons_for(f: TorrentFacts) -> Seq<Seq<char>> {
    if is_fine(f) {
        seq!["torrent is already seeding"@]
    } else {
        state_reasons(f) + line(
            f.active_jobs > 0,
            decimal(f.active_jobs as nat) + " active job(s) affect this torrent"@,
        ) + line(
            f.trackers.error > 0,
            decimal(machine_count(f.trackers.error)) + " tracker(s) are in error state"@,
        ) + line(
            f.trackers.warning > 0,
            decimal(machine_count(f.trackers.warning)) + " tracker(s) reported warnings"@,
        ) + line(
            f.is_private && f.trackers.total == 0,
            "private torrent has no persisted trackers"@,
        )
    }
}

/// What can be done about it, before the general advice.
pub open spec fn specific_actions(f: TorrentFacts) -> Seq<Seq<char>> {
    if is_fine(f) {
        seq![]
    } else {
        state_actions(f) + line(f.trackers.error > 0, "check tracker failure_reason values"@) + line(
            f.is_private && f.trackers.total == 0,
            "add a private tracker before expecting peers"@,
        )
    }
}

/// What can be done about it.
pub open spec fn actions_for(f: TorrentFacts) -> Seq<Seq<char>> {
    specific_actions(f) + line(
        specific_actions(f).len() == 0 && f.state != TorrentState::Seeding,
        "inspect torrent files, trackers, and active jobs"@,
    )
}

fn add_line(list: &mut Vec<String>, text: String)
    ensures
        texts(final(list)@) == texts(old(list)@) + seq![text@],
{
    let ghost before = list@;
    list.push(text);
    assert(texts(list@) =~= texts(before) + seq![text@]);
}

fn to_count(n: u64) -> (r: usize)
    ensures
        r == machine_count(n),
{
    if n > usize::MAX as u64 {
        usize::MAX
    } else {
        n as usize
    }
}

/// Tells why a torrent does not go on, and what can be done about it.
pub fn diagnose_torrent(f: TorrentFacts) -> (r: TorrentDiagnostic)
    ensures
        r.tracker_errors == machine_count(f.trackers.error),
        r.tracker_warnings == machine_count(f.trackers.warning),
        texts(r.reasons@) == reasons_for(f),
        texts(r.next_actions@) == actions_for(f),
{
    let tracker_errors: usize = to_count(f.trackers.error);
    let tracker_warnings: usize = to_count(f.trackers.warning);
    let mut reasons: Vec<String> = Vec::new();
    let mut next_actions: Vec<String> = Vec::new();
    assert(texts(reasons@) =~= Seq::<Seq<char>>::empty());
    assert(texts(next_actions@) =~= Seq::<Seq<char>>::empty());
    if f.state == TorrentState::Seeding && f.bytes_left == 0 {
        add_line(&mut reasons, "torrent is already seeding".to_owned());
    } else {
        match f.state {
            TorrentState::Paused | TorrentState::Stopped => {
                add_line(&mut reasons, "torrent is paused or stopped".to_owned());
                add_line(&mut next_actions, "resume the torrent".to_owned());
            },
            TorrentState::Checking => {
                add_line(&mut reasons, "torrent is currently checking pieces".to_owned());
                add_line(
                    &mut next_actions,
                    "wait for the active recheck job to finish".to_owned(),
                );
            },
            TorrentState::MetadataPending => {
                add_line(&mut reasons, "torrent is waiting for metadata".to_owned());
                add_line(
                    &mut next_actions,
                    "wait for metadata peers or add the .torrent file".to_owned(),
                );
            },
            TorrentState::Downloading | TorrentState::Queued => {
                let left = decimal_text(f.bytes_left);
                add_line(&mut reasons, join2(left.as_str(), " bytes are still missing"));
            },
            TorrentState::Error => {
                add_line(&mut reasons, "torrent is in an error state".to_owned());
                add_line(&mut next_actions, "inspect tracker and storage errors".to_owned());
            },
            TorrentState::Seeding => {},
        }
        assert(texts(reasons@) =~= state_reasons(f));
        assert(texts(next_actions@) =~= state_actions(f));
        if f.active_jobs > 0 {
            let jobs = count_text(f.active_jobs);
            add_line(&mut reasons, join2(jobs.as_str(), " active job(s) affect this torrent"));
        }
        if tracker_errors > 0 {
            let n = count_text(tracker_errors);
            add_line(&mut reasons, join2(n.as_str(), " tracker(s) are in error state"));
            add_line(&mut next_actions, "check tracker failure_reason values".to_owned());
        }
        if tracker_warnings > 0 {
            let n = count_text(tracker_warnings);
            add_line(&mut reasons, join2(n.as_str(), " tracker(s) reported warnings"));
        }
        if f.is_private && f.trackers.total == 0 {
            add_line(&mut reasons, "private torrent has no persisted trackers".to_owned());
            add_line(
                &mut next_actions,
                "add a private tracker before expecting peers".to_owned(),
            );
        }
    }
    assert(texts(reasons@) =~= reasons_for(f));
    assert(texts(next_actions@) =~= specific_actions(f));
    if next_actions.len() == 0 && f.state != TorrentState::Seeding {
        add_line(
            &mut next_actions,
            "inspect torrent files, trackers, and active jobs".to_owned(),
        );
    }
    assert(texts(next_actions@) =~= actions_for(f));
    TorrentDiagnostic { tracker_errors, tracker_warnings, reasons, next_actions }
}

/// A torrent that is not seeding is never left without advice.
pub proof fn law_diagnosis_gives_advice(f: TorrentFacts)
    requires
        f.state != TorrentState::Seeding,
    ensures
        actions_for(f).len() > 0,
{
}

/// At most one refresh is under way at a time, unless one has been given up.
pub proof fn law_one_refresh_at_a_time(cache: StatsCache, now: u128, ttl: u128, stale_after: u128)
    requires
        refresh_is_live(cache, now, stale_after),
    ensures
        !serve(Some(cache), now, ttl, stale_after).0.start_refresh,
{
}

/// A torrent that has a task.
#[derive(Debug)]
pub struct RunningTorrent {
    pub info_hash: String,
    pub state: TorrentState,
    /// A tier knows it.
    pub in_a_tier: bool,
}

/// What a task reports of its use; nothing where it did not answer in time.
#[derive(Debug)]
pub struct TaskReport {
    pub info_hash: String,
    pub activity: Option<Activity>,
}

/// What the tiers are told of a torrent.
#[derive(Debug)]
pub struct TierUpdate {
    pub info_hash: String,
    pub state: TorrentState,
    pub activity: Activity,
}

/// What the tiers are told of a torrent, as a mathematical value.
pub struct Told {
    pub info_hash: Seq<char>,
    pub state: TorrentState,
    pub activity: Activity,
}

pub open spec fn told(updates: Seq<TierUpdate>) -> Seq<Told> {
    updates.map_values(
        |u: TierUpdate| Told { info_hash: u.info_hash@, state: u.state, activity: u.activity },
    )
}

/// A torrent that nobody uses.
pub open spec fn unused() -> Activity {
    Activity { connected_peers: 0, outstanding_requests: 0 }
}

/// Where a list names a torrent first.
pub open spec fn place_of(torrents: Seq<RunningTorrent>, hash: Seq<char>) -> Option<int>
    decreases torrents.len(),
{
    if torrents.len() == 0 {
        None
    } else if torrents[0].info_hash@ == hash {
        Some(0)
    } else {
        match place_of(torrents.skip(1), hash) {
            Some(i) => Some(i + 1),
            None => None,
        }
    }
}

/// A torrent that did not answer is told of only where no tier knows it yet.
pub open spec fn told_of_silent(torrent: RunningTorrent) -> Seq<Told> {
    if torrent.in_a_tier {
        seq![]
    } else {
        seq![Told { info_hash: torrent.info_hash@, state: torrent.state, activity: unused() }]
    }
}

pub open spec fn told_of_all_silent(torrents: Seq<RunningTorrent>) -> Seq<Told>
    decreases torrents.len(),
{
    if torrents.len() == 0 {
        seq![]
    } else {
        told_of_silent(torrents[0]) + told_of_all_silent(torrents.skip(1))
    }
}

/// What the tiers are told of a torrent, given its report.
pub open spec fn told_of(torrent: RunningTorrent, report: TaskReport) -> Seq<Told> {
    match report.activity {
        Some(activity) => seq![
            Told { info_hash: torrent.info_hash@, state: torrent.state, activity },
        ],
        None => told_of_silent(torrent),
    }
}

/// What the tiers are told: first what the reports say, in their order, then of
/// the torrents that nobody reported. A report of a torrent that is not running
/// counts for nothing.
pub open spec fn told_of_reports(torrents: Seq<RunningTorrent>, reports: Seq<TaskReport>) -> Seq<
    Told,
>
    decreases reports.len(),
{
    if reports.len() == 0 {
        told_of_all_silent(torrents)
    } else {
        match place_of(torrents, reports[0].info_hash@) {
            None => told_of_reports(torrents, reports.skip(1)),
            Some(i) => told_of(torrents[i], reports[0]) + told_of_reports(
                torrents.remove(i),
                reports.skip(1),
            ),
        }
    }
}

fn find_running(torrents: &Vec<RunningTorrent>, hash: &String) -> (r: Option<usize>)
    ensures
        match place_of(torrents@, hash@) {
            Some(i) => r matches Some(k) && k == i && k < torrents@.len(),
            None => r is None,
        },
{
    let mut i: usize = 0;
    assert(torrents@.skip(0) =~= torrents@);
    while i < torrents.len()
        invariant
            i <= torrents@.len(),
            place_of(torrents@, hash@) == match place_of(torrents@.skip(i as int), hash@) {
                Some(k) => Some(k + i),
                None => None,
            },
        decreases torrents@.len() - i,
    {
        if torrents[i].info_hash == *hash {
            assert(torrents@.skip(i as int)[0] == torrents@[i as int]);
            return Some(i);
        }
        assert(torrents@.skip(i as int).skip(1) =~= torrents@.skip(i + 1));
        i = i + 1;
    }
    None
}

fn tell(updates: &mut Vec<TierUpdate>, torrent: RunningTorrent, activity: Activity)
    ensures
        told(final(updates)@) == told(old(updates)@) + seq![
            Told { info_hash: torrent.info_hash@, state: torrent.state, activity },
        ],
{
    let ghost before = updates@;
    updates.push(TierUpdate { info_hash: torrent.info_hash, state: torrent.state, activity });
    assert(told(updates@) =~= told(before) + seq![
        Told { info_hash: torrent.info_hash@, state: torrent.state, activity },
    ]);
}

/// Works out what the tiers are told after the tasks were asked for their use.
pub fn tier_updates(torrents: Vec<RunningTorrent>, reports: Vec<TaskReport>) -> (r: Vec<TierUpdate>)
    ensures
        told(r@) == told_of_reports(torrents@, reports@),
{
    let ghost goal = told_of_reports(torrents@, reports@);
    let mut torrents = torrents;
    let mut reports = reports;
    let mut updates: Vec<TierUpdate> = Vec::new();
    assert(told(updates@) =~= Seq::<Told>::empty());
    assert(goal =~= told(updates@) + told_of_reports(torrents@, reports@));
    while reports.len() > 0
        invariant
            goal == told(updates@) + told_of_reports(torrents@, reports@),
        decreases reports@.len(),
    {
        let ghost running = torrents@;
        let ghost asked = reports@;
        let ghost so_far = told(updates@);
        let report = reports.remove(0);
        assert(reports@ =~= asked.skip(1));
        if let Some(i) = find_running(&torrents, &report.info_hash) {
            let torrent = torrents.remove(i);
            assert(torrents@ =~= running.remove(i as int));
            match report.activity {
                Some(activity) => {
                    tell(&mut updates, torrent, activity);
                },
                None => {
                    if !torrent.in_a_tier {
                        tell(
                            &mut updates,
                            torrent,
                            Activity { connected_peers: 0, outstanding_requests: 0 },
                        );
                    }
                },
            }
            proof {
                assert(told(updates@) =~= so_far + told_of(running[i as int], report));
                assert(goal =~= told(updates@) + told_of_reports(torrents@, reports@));
            }
        }
    }
    while torrents.len() > 0
        invariant
            goal == told(updates@) + told_of_all_silent(torrents@),
        decreases torrents@.len(),
    {
        let ghost running = torrents@;
        let ghost so_far = told(updates@);
        let torrent = torrents.remove(0);
        assert(torrents@ =~= running.skip(1));
        if !torrent.in_a_tier {
            tell(
                &mut updates,
                torrent,
                Activity { connected_peers: 0, outstanding_requests: 0 },
            );
        }
        proof {
            assert(told(updates@) =~= so_far + told_of_silent(running[0]));
            assert(goal =~= told(updates@) + told_of_all_silent(torrents@));
        }
    }
    assert(goal =~= told(updates@));
    updates
}

/// Silence is no evidence: a torrent that a tier knows keeps its place where its
/// task does not answer.
pub proof fn law_silence_changes_no_tier(torrent: RunningTorrent, report: TaskReport)
    requires
        torrent.in_a_tier,
        report.activity is None,
    ensures
        told_of(torrent, report).len() == 0,
{
}

/// Statistics that are young enough are served as they are. Old ones are served too,
/// and renewed, unless that is under way; where there are none, some are made at
/// once, and renewed.
pub proof fn law_old_statistics_are_renewed(
    cache: StatsCache,
    now: u128,
    ttl: u128,
    stale_after: u128,
)
    ensures
        ({
            let (service, after) = serve(Some(cache), now, ttl, stale_after);
            let young = now <= cache.generated_at || now - cache.generated_at <= ttl;
            let under_way = cache.refresh_started_at matches Some(t) && (now <= t || now - t
                <= stale_after);
            &&& !service.build_fast
            &&& service.start_refresh <==> !young && !under_way
            &&& after.generated_at == cache.generated_at
            &&& service.start_refresh ==> after.refresh_started_at == Some(now)
            &&& !service.start_refresh ==> after == cache
        }),
        ({
            let (service, after) = serve(None, now, ttl, stale_after);
            &&& service.build_fast && service.start_refresh
            &&& after.generated_at == now && after.refresh_started_at == Some(now)
        }),
{
}

/// Once a renewal was begun, no other is begun until it has taken too long.
pub proof fn law_renewals_are_not_repeated(
    cache: Option<StatsCache>,
    now: u128,
    later: u128,
    ttl: u128,
    stale_after: u128,
)
    requires
        serve(cache, now, ttl, stale_after).0.start_refresh,
        later >= now,
    ensures
        ({
            let again = serve(
                Some(serve(cache, now, ttl, stale_after).1),
                later,
                ttl,
                stale_after,
            ).0;
            &&& later - now <= stale_after ==> !again.start_refresh
            &&& later - now > stale_after && later - now > ttl ==> again.start_refresh
            &&& !again.build_fast
        }),
{
}

/// Paused torrents are told together with stopped ones, every torrent is counted in
/// one tier, and what the session, the jobs and the outside report is told as it is.
pub proof fn law_statistics_add_up(
    registry: RegistryStats,
    jobs_active: u64,
    storage_jobs: StorageJobStats,
    trackers: TrackerCounts,
    dht: DhtStats,
    torrent_tasks: u64,
    tiers: TierCounts,
    heap: u64,
    full: EngineStats,
    fast: EngineStats,
)
    requires
        call_ensures(
            engine_stats,
            (registry, jobs_active, storage_jobs, trackers, dht, torrent_tasks, tiers, heap),
            full,
        ),
        call_ensures(fast_engine_stats, (registry, storage_jobs, tiers, heap), fast),
    ensures
        registry.torrents_stopped + registry.torrents_paused <= u64::MAX ==> full.torrents_paused
            == registry.torrents_stopped + registry.torrents_paused,
        tiers.dormant + tiers.warm + tiers.hot <= registry.torrents_total
            ==> full.torrents_activity_dormant + full.torrents_activity_warm
            + full.torrents_activity_hot == full.torrents_total,
        tiers.dormant + tiers.warm + tiers.hot >= registry.torrents_total
            ==> full.torrents_activity_dormant == tiers.dormant,
        full.torrents_total == registry.torrents_total,
        full.torrents_seeding == registry.torrents_seeding,
        full.torrents_downloading == registry.torrents_downloading,
        full.torrents_checking == registry.torrents_checking,
        full.torrents_queued == registry.torrents_queued,
        full.torrents_error == registry.torrents_error,
        full.torrents_metadata_pending == registry.torrents_metadata_pending,
        full.bytes_uploaded == registry.bytes_uploaded,
        full.bytes_downloaded == registry.bytes_downloaded,
        full.bytes_left == registry.bytes_left,
        full.jobs_active == jobs_active && full.storage_jobs == storage_jobs && full.trackers
            == trackers && full.dht == dht && full.torrent_tasks_active == torrent_tasks,
        full.dormant_runtime_heap_bytes == heap,
        fast == (EngineStats {
            jobs_active: 0,
            trackers: fast.trackers,
            dht: fast.dht,
            torrent_tasks_active: 0,
            ..full
        }),
        fast.trackers.total == 0 && fast.dht.routing_nodes == 0,
{
}

/// What is switched off is not unwell; what does not answer is.
pub proof fn law_silence_is_unwell(
    db: bool,
    storage: bool,
    off: EngineSubsystemHealth,
    well: EngineSubsystemHealth,
    silent: EngineSubsystemHealth,
)
    requires
        call_ensures(engine_subsystem_health, (db, storage, DhtProbe::Disabled), off),
        call_ensures(engine_subsystem_health, (db, storage, DhtProbe::Answered), well),
        call_ensures(engine_subsystem_health, (db, storage, DhtProbe::Silent), silent),
    ensures
        !off.dht_enabled && off.dht_healthy,
        well.dht_enabled && well.dht_healthy,
        silent.dht_enabled && !silent.dht_healthy,
        off.db_worker_healthy == db && well.db_worker_healthy == db && silent.db_worker_healthy
            == db,
        off.storage_workers_healthy == storage && well.storage_workers_healthy == storage
            && silent.storage_workers_healthy == storage,
{
}

/// Each part of the distributed hash table takes its own memory, and a sum is exact
/// as long as it can be held.
pub proof fn law_memory_is_added_up(dht: DhtStats, n: nat, class: ClassUsage, seen: u64, classes: Seq<
    ClassUsage,
>)
    ensures
        dht_bytes(dht) == 64 * (dht.routing_nodes + dht.outstanding_requests) + 32 * (
        dht.announced_peers + dht.queried_nodes),
        held(n) <= n,
        n <= u64::MAX ==> held(n) == n,
        n > u64::MAX ==> held(n) == u64::MAX,
        at_least(class, seen).used_bytes >= class.used_bytes,
        at_least(class, seen).used_bytes >= seen,
        at_least(class, seen).used_bytes == class.used_bytes || at_least(class, seen).used_bytes
            == seen,
        at_least(class, seen).cap_bytes == class.cap_bytes,
        at_least(class, seen).denied_allocations == class.denied_allocations,
        used_bytes(classes.push(class)) == used_bytes(classes) + class.used_bytes,
        used_bytes(Seq::<ClassUsage>::empty()) == 0,
{
    assert(classes.push(class).drop_last() =~= classes);
}

/// A diagnosis begins with what the state of the torrent tells, and names each thing
/// that stands in its way, and no other.
pub proof fn law_diagnosis_names_every_reason(f: TorrentFacts)
    ensures
        ({
            let reasons = reasons_for(f);
            let fine = f.state == TorrentState::Seeding && f.bytes_left == 0;
            &&& fine ==> reasons == seq!["torrent is already seeding"@]
            &&& !fine ==> {
                &&& f.state == TorrentState::Paused || f.state == TorrentState::Stopped
                    ==> reasons[0] == "torrent is paused or stopped"@
                &&& f.state == TorrentState::Checking ==> reasons[0]
                    == "torrent is currently checking pieces"@
                &&& f.state == TorrentState::MetadataPending ==> reasons[0]
                    == "torrent is waiting for metadata"@
                &&& f.state == TorrentState::Downloading || f.state == TorrentState::Queued
                    ==> reasons[0] == decimal(f.bytes_left as nat) + " bytes are still missing"@
                &&& f.state == TorrentState::Error ==> reasons[0]
                    == "torrent is in an error state"@
                &&& f.active_jobs > 0 ==> reasons.contains(
                    decimal(f.active_jobs as nat) + " active job(s) affect this torrent"@,
                )
                &&& f.trackers.error > 0 ==> reasons.contains(
                    decimal(machine_count(f.trackers.error)) + " tracker(s) are in error state"@,
                )
                &&& f.trackers.warning > 0 ==> reasons.contains(
                    decimal(machine_count(f.trackers.warning)) + " tracker(s) reported warnings"@,
                )
                &&& f.is_private && f.trackers.total == 0 ==> reasons.contains(
                    "private torrent has no persisted trackers"@,
                )
                &&& reasons.len() == (if f.state == TorrentState::Seeding {
                    0int
                } else {
                    1
                }) + (if f.active_jobs > 0 {
                    1int
                } else {
                    0
                }) + (if f.trackers.error > 0 {
                    1int
                } else {
                    0
                }) + (if f.trackers.warning > 0 {
                    1int
                } else {
                    0
                }) + (if f.is_private && f.trackers.total == 0 {
                    1int
                } else {
                    0
                })
            }
        }),
{
    let a = state_reasons(f);
    let b = line(
        f.active_jobs > 0,
        decimal(f.active_jobs as nat) + " active job(s) affect this torrent"@,
    );
    let c = line(
        f.trackers.error > 0,
        decimal(machine_count(f.trackers.error)) + " tracker(s) are in error state"@,
    );
    let d = line(
        f.trackers.warning > 0,
        decimal(machine_count(f.trackers.warning)) + " tracker(s) reported warnings"@,
    );
    if !is_fine(f) {
        let all = reasons_for(f);
        if f.active_jobs > 0 {
            assert(all[a.len() as int] == b[0]);
        }
        if f.trackers.error > 0 {
            assert(all[(a.len() + b.len()) as int] == c[0]);
        }
        if f.trackers.warning > 0 {
            assert(all[(a.len() + b.len() + c.len()) as int] == d[0]);
        }
        if f.is_private && f.trackers.total == 0 {
            assert(all[(a.len() + b.len() + c.len() + d.len()) as int]
                == "private torrent has no persisted trackers"@);
        }
    }
}

/// The advice fits the reasons.
pub proof fn law_advice_fits_the_state(f: TorrentFacts)
    ensures
        ({
            let actions = actions_for(f);
            &&& f.state == TorrentState::Seeding && f.bytes_left == 0 ==> actions.len() == 0
            &&& f.state == TorrentState::Paused || f.state == TorrentState::Stopped ==> actions[0]
                == "resume the torrent"@
            &&& f.state == TorrentState::Checking ==> actions[0]
                == "wait for the active recheck job to finish"@
            &&& f.state == TorrentState::MetadataPending ==> actions[0]
                == "wait for metadata peers or add the .torrent file"@
            &&& f.state == TorrentState::Error ==> actions[0]
                == "inspect tracker and storage errors"@
            &&& (f.state == TorrentState::Downloading || f.state == TorrentState::Queued)
                && f.trackers.error > 0 ==> actions[0] == "check tracker failure_reason values"@
            &&& (f.state == TorrentState::Downloading || f.state == TorrentState::Queued)
                && f.trackers.error == 0 && !(f.is_private && f.trackers.total == 0) ==> actions
                == seq!["inspect torrent files, trackers, and active jobs"@]
            &&& f.state != TorrentState::Seeding && f.is_private && f.trackers.total == 0
                ==> actions.last() == "add a private tracker before expecting peers"@
        }),
{
    assert(line(false, "inspect torrent files, trackers, and active jobs"@).len() == 0);
    let specific = specific_actions(f);
    if (f.state == TorrentState::Downloading || f.state == TorrentState::Queued)
        && f.trackers.error == 0 && !(f.is_private && f.trackers.total == 0) {
        assert(specific.len() == 0);
        assert(actions_for(f) =~= seq!["inspect torrent files, trackers, and active jobs"@]);
    }
}

/// A torrent is found at its first mention.
pub proof fn law_torrents_are_found_at_their_first_mention(
    torrents: Seq<RunningTorrent>,
    hash: Seq<char>,
)
    ensures
        match place_of(torrents, hash) {
            Some(i) => 0 <= i < torrents.len() && torrents[i].info_hash@ == hash && (forall|k: int|
                0 <= k < i ==> (#[trigger] torrents[k]).info_hash@ != hash),
            None => forall|k: int|
                0 <= k < torrents.len() ==> (#[trigger] torrents[k]).info_hash@ != hash,
        },
    decreases torrents.len(),
{
    if torrents.len() > 0 && torrents[0].info_hash@ != hash {
        let rest = torrents.skip(1);
        law_torrents_are_found_at_their_first_mention(rest, hash);
        assert forall|k: int| 0 < k < torrents.len() implies #[trigger] torrents[k] == rest[k
            - 1] by {}
    }
}

/// What a task reports is told of its torrent, with the state that it is in; of a
/// torrent that nobody heard of only that nobody uses it, and only where no tier
/// knows it.
pub proof fn law_reports_are_told_of_their_torrents(
    torrents: Seq<RunningTorrent>,
    torrent: RunningTorrent,
    report: TaskReport,
    reports: Seq<TaskReport>,
)
    requires
        reports.len() > 0,
    ensures
        report.activity matches Some(activity) ==> told_of(torrent, report) == seq![
            (Told { info_hash: torrent.info_hash@, state: torrent.state, activity }),
        ],
        report.activity is None && !torrent.in_a_tier ==> told_of(torrent, report).len() == 1
            && told_of(torrent, report)[0].info_hash == torrent.info_hash@ && told_of(
            torrent,
            report,
        )[0].state == torrent.state && told_of(
            torrent,
            report,
        )[0].activity.connected_peers == 0 && told_of(
            torrent,
            report,
        )[0].activity.outstanding_requests == 0,
        told_of_reports(torrents, Seq::<TaskReport>::empty()) == told_of_all_silent(torrents),
        (forall|k: int|
            0 <= k < torrents.len() ==> (#[trigger] torrents[k]).info_hash@
                != reports[0].info_hash@) ==> told_of_reports(torrents, reports)
            == told_of_reports(torrents, reports.skip(1)),
        torrents.len() > 0 && torrents[0].info_hash@ == reports[0].info_hash@ ==> told_of_reports(
            torrents,
            reports,
        ) == told_of(torrents[0], reports[0]) + told_of_reports(
            torrents.remove(0),
            reports.skip(1),
        ),
{
    law_torrents_are_found_at_their_first_mention(torrents, reports[0].info_hash@);
}

/// Torrents that nobody reported are told of in their order.
pub proof fn law_unheard_torrents_are_told_in_order(a: Seq<RunningTorrent>, b: Seq<RunningTorrent>)
    ensures
        told_of_all_silent(a + b) == told_of_all_silent(a) + told_of_all_silent(b),
    decreases a.len(),
{
    if a.len() == 0 {
        assert(a + b =~= b);
        assert(told_of_all_silent(a) + told_of_all_silent(b) =~= told_of_all_silent(b));
    } else {
        assert((a + b).skip(1) =~= a.skip(1) + b);
        assert((a + b)[0] == a[0]);
        law_unheard_torrents_are_told_in_order(a.skip(1), b);
        assert(told_of_all_silent(a + b) =~= told_of_all_silent(a) + told_of_all_silent(b));
    }
}

/// Tasks are asked one by one exactly where there are not too many.
pub proof fn law_few_tasks_are_asked(task_count: usize, maximum: usize, r: bool)
    requires
        call_ensures(asks_each_task, (task_count, maximum), r),
    ensures
        r <==> task_count <= maximum,
{
}

/// The account of memory takes the larger of what is accounted for and what is
/// reported, adds the buffers of peers, and leaves every bound as it is; the total is
/// that of its parts.
pub proof fn law_memory_is_accounted_for_once(
    frame: Option<ClassUsage>,
    runtime: RuntimeBytes,
    dht: DhtStats,
)
    ensures
        forall|r: &mut ResourceUsage| #[trigger]
            call_ensures(finalize_resources, (r, frame, runtime, dht), ()) ==> {
                let after = *final(r);
                &&& after.piece_assembly.used_bytes >= r.piece_assembly.used_bytes
                &&& after.piece_assembly.used_bytes >= runtime.piece_assembly
                &&& after.tracker_peers.used_bytes >= r.tracker_peers.used_bytes
                &&& after.tracker_peers.used_bytes >= runtime.tracker_peer_caches
                &&& after.queued_disk.used_bytes == runtime.storage_queued_disk
                &&& after.peer_buffer.used_bytes == u64::MAX || after.peer_buffer.used_bytes
                    == r.peer_buffer.used_bytes + runtime.peer_rx_buffers + runtime.peer_tx_buffers
                    + runtime.peer_command_queues
                &&& frame matches Some(class) ==> after.storage_frame == class
                &&& frame is None ==> after.storage_frame == r.storage_frame
                &&& after.piece_assembly.cap_bytes == r.piece_assembly.cap_bytes
                &&& after.peer_buffer.cap_bytes == r.peer_buffer.cap_bytes
                &&& after.tracker_peers.cap_bytes == r.tracker_peers.cap_bytes
                &&& after.dht_table.cap_bytes == r.dht_table.cap_bytes
                &&& after.queued_disk.cap_bytes == r.queued_disk.cap_bytes
                &&& after.others == r.others
                &&& after.total_used_bytes == u64::MAX || after.total_used_bytes
                    == after.storage_frame.used_bytes + after.piece_assembly.used_bytes
                    + after.peer_buffer.used_bytes + after.tracker_peers.used_bytes
                    + after.dht_table.used_bytes + after.queued_disk.used_bytes + used_bytes(
                    after.others@,
                )
            },
{
}

} // verus!
