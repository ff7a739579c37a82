//! The commands that a session takes. A command is checked before it reaches
//! the session's queue: one that is out of bounds is refused at once, and the
//! others carry their info hashes in canonical form.

use vstd::prelude::*;

use crate::fields_update::{fields_problem, validate_fields};
use crate::limits::{EngineLimits, MAX_TORRENT_BYTES};
use crate::metainfo::{MagnetLink, TorrentMeta};
use crate::net::PeerAddr;
use crate::peer_ingress::{no_stats, PeerIngressStats};
use crate::problem::{
    either, first_problem, lemma_first_problem_stays, lemma_first_problem_step, CmdResult, Problem,
};
use crate::storage_authority::{
    distinct_roots, first_invalid_root, path_views, refusal_text, ConfiguredRoot, Refusal,
    ServerStorageRoots,
};
use crate::storage_path::StoragePath;
use crate::storage_plan::StoragePlan;
use crate::text::{count_text, decimal, join4, trim, trimmed};
use crate::torrent_add::{
    add_magnet_problem, add_raw_problem, add_torrent_problem, validate_add_magnet,
    validate_add_raw, validate_add_torrent, AddOptions,
};
use crate::validation::{
    are_canonical_forms, canonical_hash, category_problem, hash_list_problem, info_hash_problem,
    item_count_problem, label_problem, optional_text_problem, owned_text, peer_command_problem,
    storage_plan_problem, tag_list_problem, text_list_problem, text_problem, torrent_limits_problem,
    tracker_list_problem, validate_owned_text, validate_tag_list,
    validation_canonical_info_hash_checked, validation_canonical_info_hash_list,
    validation_validate_command_item_len, validation_validate_label_bytes,
    validation_validate_peer_command_len, validation_validate_storage_plan,
    validation_validate_text_bytes, validation_validate_text_list_bytes,
    validation_validate_torrent_limits, validation_validate_tracker_urls, EngineTorrentLimits,
};

verus! {

/// The longest user agent, in bytes.
pub const MAX_USER_AGENT_BYTES: usize = 256;

/// What is asked of one torrent.
#[derive(Clone, Copy, Debug, PartialEq, Eq, Structural)]
pub enum TorrentRequest {
    Pause,
    Resume,
    Recheck,
    Reannounce,
    Metadata,
    BlobSize,
    Trackers,
    TrackerProjection,
    TrackerUrls,
    TrackerSnapshotSize,
    Diagnose,
    Limits,
    Peers,
    Webseeds,
    QueuePriority,
}

/// What is asked of one job.
#[derive(Clone, Copy, Debug, PartialEq, Eq, Structural)]
pub enum JobRequest {
    Pause,
    Resume,
    Cancel,
}

/// What is asked of the session as a whole.
#[derive(Clone, Copy, Debug, PartialEq, Eq, Structural)]
pub enum SessionRequest {
    TrackerHealth,
    TrackerHealthSnapshotSize,
    ListJobs,
    ListStorageRoots,
    Stats,
    SubsystemHealth,
    ListCategories,
    ListTags,
    BannedPeers,
    ActiveTorrentPeers,
    GlobalLimits,
    NetworkFeatures,
    ListenPort,
}

/// Where torrents go in the queue.
#[derive(Clone, Copy, Debug, PartialEq, Eq, Structural)]
pub enum QueueMove {
    Up,
    Down,
    Top,
    Bottom,
}

/// A command in the session's queue.
#[derive(Debug)]
pub enum EngineCmd {
    AddTorrent { meta: TorrentMeta, options: AddOptions },
    AddTorrentRaw { raw: Vec<u8>, options: AddOptions },
    AddMagnet { magnet: MagnetLink, options: AddOptions },
    RemoveTorrent { info_hash: String, delete_files: bool },
    Torrent { info_hash: String, request: TorrentRequest },
    Job { job_id: String, job_request: JobRequest },
    Session(SessionRequest),
    GetTorrentBlob { info_hash: String, max_bytes: usize },
    ListTorrentHashesByTracker { tracker: String },
    GetTorrentHashesByTrackerSnapshotSize { tracker: String },
    GetSetting { key: String },
    SetSetting { key: String, value: String },
    ExecuteStoragePlan {
        operation: String,
        affected_torrents: Vec<String>,
        plan: StoragePlan,
        completed_steps: Vec<usize>,
    },
    ListSessionEvents {
        filter_hash: Option<String>,
        kind: Option<String>,
        levels: Vec<String>,
        last_known_id: Option<i64>,
        limit: usize,
    },
    UpdateTorrentLabels {
        info_hash: String,
        category: Option<Option<String>>,
        add_tags: Vec<String>,
        remove_tags: Vec<String>,
    },
    CreateCategory { name: String, save_path: Option<String> },
    RenameCategory { old_name: String, new_name: String, save_path: Option<String> },
    RemoveCategories { names: Vec<String> },
    CreateTags { names: Vec<String> },
    RemoveTags { names: Vec<String> },
    BanPeers { peers: Vec<PeerAddr> },
    UpdateTorrentFields {
        info_hash: String,
        torrent_name: Option<String>,
        save_path: Option<String>,
        with_job: bool,
    },
    UpdateTorrentTrackers { info_hash: String, trackers: Vec<String> },
    UpdateTorrentLimits { info_hash: String, limits: EngineTorrentLimits },
    UpdateFilePriorities { info_hash: String, file_ids: Vec<u32>, priority: i64 },
    RenameFilePath { info_hash: String, file_id: u32, new_path: String },
    RenameFolderPath { info_hash: String, old_path: String, new_path: String },
    AddPeers { info_hash: String, peers: Vec<PeerAddr> },
    GetTorrentLiveStats { info_hashes: Vec<String> },
    UpdateListenPort { port: u16 },
    SetUserAgent { user_agent: String },
    UpdateQueueOrder { info_hashes: Vec<String>, queue_move: QueueMove },
}

/// Counters of the worker that owns the database.
#[derive(Clone, Copy, Debug, PartialEq, Eq, Structural)]
pub struct EngineDatabaseWorkerStats {
    pub queued: u64,
    pub completed: u64,
    pub failed: u64,
    pub latency_nanos: u128,
}

/// What a holder of the session can see of it without asking, and the bounds of
/// the commands that it takes.
#[derive(Clone, Copy, Debug)]
pub struct EngineHandle {
    /// The session's task is running.
    pub alive: bool,
    /// Its queue takes no more commands.
    pub queue_closed: bool,
    /// Whether the listener takes connections; nothing where there is none.
    pub listener_healthy: Option<bool>,
    /// What the listener has counted; nothing where there is none.
    pub ingress: Option<PeerIngressStats>,
    pub database_worker: EngineDatabaseWorkerStats,
    pub limits: EngineLimits,
}

/// The command asks this of the torrent, under its canonical hash; a hash that
/// is too long is refused.
pub open spec fn asks_torrent(
    r: CmdResult<EngineCmd>,
    limits: EngineLimits,
    hash: Seq<char>,
    request: TorrentRequest,
) -> bool {
    match info_hash_problem(limits, hash) {
        Some(text) => r matches Err(e) && e@ == text,
        None => r matches Ok(EngineCmd::Torrent { info_hash, request: q }) && q == request
            && info_hash@ == canonical_hash(hash),
    }
}

/// The command asks this of the job; an identifier that is too long is
/// refused.
pub open spec fn asks_job(
    r: CmdResult<EngineCmd>,
    limits: EngineLimits,
    id: String,
    request: JobRequest,
) -> bool {
    match text_problem(id@, limits.job_id_bytes as nat, "job id"@) {
        Some(text) => r matches Err(e) && e@ == text,
        None => r == Ok::<EngineCmd, String>(EngineCmd::Job { job_id: id, job_request: request }),
    }
}

pub open spec fn hash_check(limits: EngineLimits) -> spec_fn(Seq<String>, String) -> Problem {
    |before: Seq<String>, info_hash: String| info_hash_problem(limits, info_hash@)
}

/// What is wrong with a command to carry out a plan.
pub open spec fn execute_problem(
    limits: EngineLimits,
    operation: Seq<char>,
    affected: Seq<String>,
    plan: StoragePlan,
    serialized: Result<usize, String>,
    completed: nat,
) -> Problem {
    either(
        storage_plan_problem(limits, plan, serialized),
        either(
            text_problem(
                operation,
                limits.storage_operation_bytes as nat,
                "storage operation"@,
            ),
            either(
                item_count_problem(
                    affected.len(),
                    limits.storage_plan_affected_torrents as nat,
                    "storage plan torrent list"@,
                ),
                either(
                    item_count_problem(
                        completed,
                        limits.mutation_items as nat,
                        "storage plan checkpoint list"@,
                    ),
                    first_problem(affected, hash_check(limits)),
                ),
            ),
        ),
    )
}

/// What is wrong with a question for events.
pub open spec fn events_problem(
    limits: EngineLimits,
    info_hash: Option<Seq<char>>,
    kind: Option<Seq<char>>,
    levels: Seq<String>,
) -> Problem {
    either(
        item_count_problem(levels.len(), limits.event_filter_items as nat, "event level list"@),
        either(
            text_list_problem(
                levels,
                limits.event_filter_value_bytes as nat,
                limits.event_filter_bytes as nat,
                "event level list"@ + " item at index "@,
                "event level list"@,
            ),
            either(
                optional_text_problem(
                    kind,
                    limits.event_filter_value_bytes as nat,
                    "event kind"@,
                ),
                match info_hash {
                    Some(hash) => info_hash_problem(limits, hash),
                    None => None,
                },
            ),
        ),
    )
}

/// The category that labels are changed to, where they are changed to one.
pub open spec fn new_category(category: Option<Option<String>>) -> Option<Seq<char>> {
    match category {
        Some(Some(name)) => Some(name@),
        _ => None,
    }
}

/// What is wrong with a change of labels.
pub open spec fn labels_problem(
    limits: EngineLimits,
    hash: Seq<char>,
    category: Option<Option<String>>,
    add_tags: Seq<String>,
    remove_tags: Seq<String>,
) -> Problem {
    either(
        category_problem(limits, new_category(category)),
        either(
            item_count_problem(
                add_tags.len(),
                limits.mutation_items as nat,
                "torrent tag list"@,
            ),
            either(
                item_count_problem(
                    remove_tags.len(),
                    limits.mutation_items as nat,
                    "torrent tag removal list"@,
                ),
                either(
                    label_problem(limits, add_tags, "torrent tag list"@),
                    either(
                        label_problem(limits, remove_tags, "torrent tag removal list"@),
                        info_hash_problem(limits, hash),
                    ),
                ),
            ),
        ),
    )
}

/// What is wrong with the place of a category.
pub open spec fn category_path_problem(limits: EngineLimits, path: Option<Seq<char>>) -> Problem {
    optional_text_problem(path, limits.save_path_bytes as nat, "category save path"@)
}

/// What is wrong with a limit on how much of a description is read.
pub open spec fn blob_limit_problem(max_bytes: usize) -> Problem {
    if max_bytes > MAX_TORRENT_BYTES {
        Some(
            "torrent blob read limit is "@ + decimal(max_bytes as nat) + " bytes; maximum is "@
                + decimal(MAX_TORRENT_BYTES as nat),
        )
    } else {
        None
    }
}

/// A command that needs a slot is refused where none is left.
pub open spec fn slot_problem(granted: bool, text: Seq<char>) -> Problem {
    if granted {
        None
    } else {
        Some(text)
    }
}

/// A command that needs memory is refused where there is none.
pub open spec fn memory_problem(memory: CmdResult<()>) -> Problem {
    match memory {
        Ok(()) => None,
        Err(error) => Some(error@),
    }
}

impl EngineHandle {
    /// Whether the session is running and takes commands.
    pub fn is_alive(&self) -> (r: bool)
        ensures
            r == (self.alive && !self.queue_closed),
    {
        self.alive && !self.queue_closed
    }

    /// Whether connections are taken. Without a listener nothing is wrong with
    /// it.
    pub fn peer_listener_healthy(&self) -> (r: bool)
        ensures
            r == match self.listener_healthy {
                Some(healthy) => healthy,
                None => true,
            },
    {
        match self.listener_healthy {
            Some(healthy) => healthy,
            None => true,
        }
    }

    /// What became of inbound connections. Without a listener there were none.
    pub fn peer_ingress_stats(&self) -> (r: PeerIngressStats)
        ensures
            r == match self.ingress {
                Some(stats) => stats,
                None => no_stats(),
            },
    {
        match self.ingress {
            Some(stats) => stats,
            None => PeerIngressStats::default(),
        }
    }

    /// The counters of the worker that owns the database.
    pub fn database_worker_stats(&self) -> (r: EngineDatabaseWorkerStats)
        ensures
            r == self.database_worker,
    {
        self.database_worker
    }

    fn torrent_command(&self, info_hash: String, request: TorrentRequest) -> (r: CmdResult<
        EngineCmd,
    >)
        ensures
            asks_torrent(r, self.limits, info_hash@, request),
    {
        let info_hash = validation_canonical_info_hash_checked(&self.limits, info_hash)?;
        Ok(EngineCmd::Torrent { info_hash, request })
    }

    fn job_command(&self, job_id: String, request: JobRequest) -> (r: CmdResult<EngineCmd>)
        ensures
            asks_job(r, self.limits, job_id, request),
    {
        validation_validate_text_bytes(job_id.as_str(), self.limits.job_id_bytes, "job id")?;
        Ok(EngineCmd::Job { job_id, job_request: request })
    }

    /// Pauses a torrent.
    pub fn pause_torrent(&self, info_hash: String) -> (r: CmdResult<EngineCmd>)
        ensures
            asks_torrent(r, self.limits, info_hash@, TorrentRequest::Pause),
    {
        self.torrent_command(info_hash, TorrentRequest::Pause)
    }

    /// Lets a torrent go on.
    pub fn resume_torrent(&self, info_hash: String) -> (r: CmdResult<EngineCmd>)
        ensures
            asks_torrent(r, self.limits, info_hash@, TorrentRequest::Resume),
    {
        self.torrent_command(info_hash, TorrentRequest::Resume)
    }

    /// Verifies what is there of a torrent.
    pub fn recheck_torrent(&self, info_hash: String) -> (r: CmdResult<EngineCmd>)
        ensures
            asks_torrent(r, self.limits, info_hash@, TorrentRequest::Recheck),
    {
        self.torrent_command(info_hash, TorrentRequest::Recheck)
    }

    /// Announces a torrent at once.
    pub fn reannounce_torrent(&self, info_hash: String) -> (r: CmdResult<EngineCmd>)
        ensures
            asks_torrent(r, self.limits, info_hash@, TorrentRequest::Reannounce),
    {
        self.torrent_command(info_hash, TorrentRequest::Reannounce)
    }

    /// Asks what is known of a torrent.
    pub fn torrent_metadata(&self, info_hash: String) -> (r: CmdResult<EngineCmd>)
        ensures
            asks_torrent(r, self.limits, info_hash@, TorrentRequest::Metadata),
    {
        self.torrent_command(info_hash, TorrentRequest::Metadata)
    }

    /// Asks how large the description of a torrent is.
    pub fn torrent_blob_size(&self, info_hash: String) -> (r: CmdResult<EngineCmd>)
        ensures
            asks_torrent(r, self.limits, info_hash@, TorrentRequest::BlobSize),
    {
        self.torrent_command(info_hash, TorrentRequest::BlobSize)
    }

    /// Asks for the trackers of a torrent.
    pub fn torrent_trackers(&self, info_hash: String) -> (r: CmdResult<EngineCmd>)
        ensures
            asks_torrent(r, self.limits, info_hash@, TorrentRequest::Trackers),
    {
        self.torrent_command(info_hash, TorrentRequest::Trackers)
    }

    /// Asks which tracker of a torrent is shown.
    pub fn torrent_tracker_projection(&self, info_hash: String) -> (r: CmdResult<EngineCmd>)
        ensures
            asks_torrent(r, self.limits, info_hash@, TorrentRequest::TrackerProjection),
    {
        self.torrent_command(info_hash, TorrentRequest::TrackerProjection)
    }

    /// Asks for the URLs of the trackers of a torrent.
    pub fn torrent_tracker_urls(&self, info_hash: String) -> (r: CmdResult<EngineCmd>)
        ensures
            asks_torrent(r, self.limits, info_hash@, TorrentRequest::TrackerUrls),
    {
        self.torrent_command(info_hash, TorrentRequest::TrackerUrls)
    }

    /// Asks how large the list of the trackers of a torrent is.
    pub fn torrent_tracker_snapshot_size(&self, info_hash: String) -> (r: CmdResult<EngineCmd>)
        ensures
            asks_torrent(r, self.limits, info_hash@, TorrentRequest::TrackerSnapshotSize),
    {
        self.torrent_command(info_hash, TorrentRequest::TrackerSnapshotSize)
    }

    /// Asks what is wrong with a torrent.
    pub fn diagnose_torrent(&self, info_hash: String) -> (r: CmdResult<EngineCmd>)
        ensures
            asks_torrent(r, self.limits, info_hash@, TorrentRequest::Diagnose),
    {
        self.torrent_command(info_hash, TorrentRequest::Diagnose)
    }

    /// Asks for the limits of a torrent.
    pub fn torrent_limits(&self, info_hash: String) -> (r: CmdResult<EngineCmd>)
        ensures
            asks_torrent(r, self.limits, info_hash@, TorrentRequest::Limits),
    {
        self.torrent_command(info_hash, TorrentRequest::Limits)
    }

    /// Asks for the peers of a torrent.
    pub fn torrent_peers(&self, info_hash: String) -> (r: CmdResult<EngineCmd>)
        ensures
            asks_torrent(r, self.limits, info_hash@, TorrentRequest::Peers),
    {
        self.torrent_command(info_hash, TorrentRequest::Peers)
    }

    /// Asks for the web seeds of a torrent.
    pub fn torrent_webseeds(&self, info_hash: String) -> (r: CmdResult<EngineCmd>)
        ensures
            asks_torrent(r, self.limits, info_hash@, TorrentRequest::Webseeds),
    {
        self.torrent_command(info_hash, TorrentRequest::Webseeds)
    }

    /// Asks where a torrent stands in the queue.
    pub fn queue_priority(&self, info_hash: String) -> (r: CmdResult<EngineCmd>)
        ensures
            asks_torrent(r, self.limits, info_hash@, TorrentRequest::QueuePriority),
    {
        self.torrent_command(info_hash, TorrentRequest::QueuePriority)
    }

    /// Pauses a job.
    pub fn pause_job(&self, job_id: String) -> (r: CmdResult<EngineCmd>)
        ensures
            asks_job(r, self.limits, job_id, JobRequest::Pause),
    {
        self.job_command(job_id, JobRequest::Pause)
    }

    /// Lets a job go on.
    pub fn resume_job(&self, job_id: String) -> (r: CmdResult<EngineCmd>)
        ensures
            asks_job(r, self.limits, job_id, JobRequest::Resume),
    {
        self.job_command(job_id, JobRequest::Resume)
    }

    /// Cancels a job.
    pub fn cancel_job(&self, job_id: String) -> (r: CmdResult<EngineCmd>)
        ensures
            asks_job(r, self.limits, job_id, JobRequest::Cancel),
    {
        self.job_command(job_id, JobRequest::Cancel)
    }

    /// Asks how the trackers do.
    pub fn tracker_health(&self) -> (r: EngineCmd)
        ensures
            r == EngineCmd::Session(SessionRequest::TrackerHealth),
    {
        EngineCmd::Session(SessionRequest::TrackerHealth)
    }

    /// Asks how large the answer on the trackers is.
    pub fn tracker_health_snapshot_size(&self) -> (r: EngineCmd)
        ensures
            r == EngineCmd::Session(SessionRequest::TrackerHealthSnapshotSize),
    {
        EngineCmd::Session(SessionRequest::TrackerHealthSnapshotSize)
    }

    /// Asks for the jobs.
    pub fn list_jobs(&self) -> (r: EngineCmd)
        ensures
            r == EngineCmd::Session(SessionRequest::ListJobs),
    {
        EngineCmd::Session(SessionRequest::ListJobs)
    }

    /// Asks for the storage roots.
    pub fn list_storage_roots(&self) -> (r: EngineCmd)
        ensures
            r == EngineCmd::Session(SessionRequest::ListStorageRoots),
    {
        EngineCmd::Session(SessionRequest::ListStorageRoots)
    }

    /// Asks for the counters of the session.
    pub fn stats(&self) -> (r: EngineCmd)
        ensures
            r == EngineCmd::Session(SessionRequest::Stats),
    {
        EngineCmd::Session(SessionRequest::Stats)
    }

    /// Asks how the parts of the session do.
    pub fn subsystem_health(&self) -> (r: EngineCmd)
        ensures
            r == EngineCmd::Session(SessionRequest::SubsystemHealth),
    {
        EngineCmd::Session(SessionRequest::SubsystemHealth)
    }

    /// Asks for the categories.
    pub fn list_categories(&self) -> (r: EngineCmd)
        ensures
            r == EngineCmd::Session(SessionRequest::ListCategories),
    {
        EngineCmd::Session(SessionRequest::ListCategories)
    }

    /// Asks for the tags.
    pub fn list_tags(&self) -> (r: EngineCmd)
        ensures
            r == EngineCmd::Session(SessionRequest::ListTags),
    {
        EngineCmd::Session(SessionRequest::ListTags)
    }

    /// Asks for the peers that are banned.
    pub fn banned_peers(&self) -> (r: EngineCmd)
        ensures
            r == EngineCmd::Session(SessionRequest::BannedPeers),
    {
        EngineCmd::Session(SessionRequest::BannedPeers)
    }

    /// Asks for the peers of all running torrents.
    pub fn active_torrent_peers(&self) -> (r: EngineCmd)
        ensures
            r == EngineCmd::Session(SessionRequest::ActiveTorrentPeers),
    {
        EngineCmd::Session(SessionRequest::ActiveTorrentPeers)
    }

    /// Asks for the limits of the session.
    pub fn global_limits(&self) -> (r: EngineCmd)
        ensures
            r == EngineCmd::Session(SessionRequest::GlobalLimits),
    {
        EngineCmd::Session(SessionRequest::GlobalLimits)
    }

    /// Asks which features of the network are in use.
    pub fn network_features(&self) -> (r: EngineCmd)
        ensures
            r == EngineCmd::Session(SessionRequest::NetworkFeatures),
    {
        EngineCmd::Session(SessionRequest::NetworkFeatures)
    }

    /// Asks for the port of the listener.
    pub fn listen_port(&self) -> (r: EngineCmd)
        ensures
            r == EngineCmd::Session(SessionRequest::ListenPort),
    {
        EngineCmd::Session(SessionRequest::ListenPort)
    }

    /// Adds a torrent. `slot` tells whether one of the slots for adding is left.
    pub fn add_torrent_with_labels(
        &self,
        meta: TorrentMeta,
        options: AddOptions,
        slot: bool,
    ) -> (r: CmdResult<EngineCmd>)
        ensures
            match either(
                add_torrent_problem(self.limits, meta, options),
                slot_problem(slot, "torrent add preparation capacity exhausted"@),
            ) {
                Some(text) => r matches Err(e) && e@ == text,
                None => r == Ok::<EngineCmd, String>(EngineCmd::AddTorrent { meta, options }),
            },
    {
        validate_add_torrent(&self.limits, &meta, &options)?;
        if !slot {
            return Err("torrent add preparation capacity exhausted".to_owned());
        }
        Ok(EngineCmd::AddTorrent { meta, options })
    }

    /// Adds a torrent without labels.
    pub fn add_torrent(
        &self,
        meta: TorrentMeta,
        save_path: Option<String>,
        paused: bool,
        slot: bool,
    ) -> (r: CmdResult<EngineCmd>)
        ensures
            exists|options: AddOptions|
                {
                    &&& options.save_path == save_path
                    &&& options.paused == paused
                    &&& options.category is None
                    &&& options.tags@ == Seq::<String>::empty()
                    &&& match #[trigger] either(
                        add_torrent_problem(self.limits, meta, options),
                        slot_problem(slot, "torrent add preparation capacity exhausted"@),
                    ) {
                        Some(text) => r matches Err(e) && e@ == text,
                        None => r == Ok::<EngineCmd, String>(
                            EngineCmd::AddTorrent { meta, options },
                        ),
                    }
                },
    {
        let options = AddOptions { save_path, paused, category: None, tags: Vec::new() };
        self.add_torrent_with_labels(meta, options, slot)
    }

    /// Adds a torrent file unread. `slot` tells whether one of the slots for
    /// adding is left, `memory` why there is no memory for reading it.
    pub fn add_torrent_raw_with_labels(
        &self,
        raw: Vec<u8>,
        options: AddOptions,
        slot: bool,
        memory: CmdResult<()>,
    ) -> (r: CmdResult<EngineCmd>)
        ensures
            match either(
                either(
                    add_raw_problem(self.limits, raw@.len(), options),
                    slot_problem(slot, "torrent add preparation capacity exhausted"@),
                ),
                memory_problem(memory),
            ) {
                Some(text) => r matches Err(e) && e@ == text,
                None => r == Ok::<EngineCmd, String>(EngineCmd::AddTorrentRaw { raw, options }),
            },
    {
        validate_add_raw(&self.limits, raw.len(), &options)?;
        if !slot {
            return Err("torrent add preparation capacity exhausted".to_owned());
        }
        memory?;
        Ok(EngineCmd::AddTorrentRaw { raw, options })
    }

    /// Adds a magnet link. `slot` tells whether one of the slots for adding is
    /// left, `memory` why there is no memory for it.
    pub fn add_magnet_with_labels(
        &self,
        magnet: MagnetLink,
        options: AddOptions,
        slot: bool,
        memory: CmdResult<()>,
    ) -> (r: CmdResult<EngineCmd>)
        ensures
            match either(
                either(
                    add_magnet_problem(self.limits, magnet, options),
                    slot_problem(slot, "torrent add preparation capacity exhausted"@),
                ),
                memory_problem(memory),
            ) {
                Some(text) => r matches Err(e) && e@ == text,
                None => r == Ok::<EngineCmd, String>(EngineCmd::AddMagnet { magnet, options }),
            },
    {
        validate_add_magnet(&self.limits, &magnet, &options)?;
        if !slot {
            return Err("torrent add preparation capacity exhausted".to_owned());
        }
        memory?;
        Ok(EngineCmd::AddMagnet { magnet, options })
    }

    /// Removes a torrent.
    pub fn remove_torrent(
        &self,
        info_hash: String,
        delete_files: bool,
    ) -> (r: CmdResult<EngineCmd>)
        ensures
            match info_hash_problem(self.limits, info_hash@) {
                Some(text) => r matches Err(e) && e@ == text,
                None => r matches Ok(EngineCmd::RemoveTorrent { info_hash: h, delete_files: d })
                        && h@ == canonical_hash(info_hash@)
                        && d == delete_files,
            },
    {
        let info_hash = validation_canonical_info_hash_checked(&self.limits, info_hash)?;
        Ok(EngineCmd::RemoveTorrent { info_hash, delete_files })
    }

    /// Reads the description of a torrent.
    pub fn torrent_blob(&self, info_hash: String) -> (r: CmdResult<EngineCmd>)
        ensures
            match info_hash_problem(self.limits, info_hash@) {
                Some(text) => r matches Err(e) && e@ == text,
                None => r matches Ok(EngineCmd::GetTorrentBlob { info_hash: h, max_bytes })
                        && h@ == canonical_hash(info_hash@)
                        && max_bytes == MAX_TORRENT_BYTES,
            },
    {
        self.torrent_blob_limited(info_hash, MAX_TORRENT_BYTES)
    }

    /// Reads the description of a torrent, if it is not larger than that.
    pub fn torrent_blob_limited(
        &self,
        info_hash: String,
        max_bytes: usize,
    ) -> (r: CmdResult<EngineCmd>)
        ensures
            match either(
                blob_limit_problem(max_bytes),
                info_hash_problem(self.limits, info_hash@),
            ) {
                Some(text) => r matches Err(e) && e@ == text,
                None => r matches Ok(EngineCmd::GetTorrentBlob { info_hash: h, max_bytes: m })
                        && h@ == canonical_hash(info_hash@)
                        && m == max_bytes,
            },
    {
        if max_bytes > MAX_TORRENT_BYTES {
            let found = count_text(max_bytes);
            let maximum = count_text(MAX_TORRENT_BYTES);
            return Err(
                join4(
                    "torrent blob read limit is ",
                    found.as_str(),
                    " bytes; maximum is ",
                    maximum.as_str(),
                ),
            );
        }
        let info_hash = validation_canonical_info_hash_checked(&self.limits, info_hash)?;
        Ok(EngineCmd::GetTorrentBlob { info_hash, max_bytes })
    }

    /// Asks for the torrents of a tracker.
    pub fn torrent_hashes_by_tracker(&self, tracker: String) -> (r: CmdResult<EngineCmd>)
        ensures
            match text_problem(tracker@, self.limits.tracker_url_bytes as nat, "tracker filter"@) {
                Some(text) => r matches Err(e) && e@ == text,
                None => r matches Ok(EngineCmd::ListTorrentHashesByTracker { tracker: t })
                        && t@ == trimmed(tracker@),
            },
    {
        validation_validate_text_bytes(
            tracker.as_str(),
            self.limits.tracker_url_bytes,
            "tracker filter",
        )?;
        Ok(EngineCmd::ListTorrentHashesByTracker { tracker: trim(tracker.as_str()) })
    }

    /// Asks how large the list of the torrents of a tracker is.
    pub fn torrent_hashes_by_tracker_snapshot_size(
        &self,
        tracker: String,
    ) -> (r: CmdResult<EngineCmd>)
        ensures
            match text_problem(tracker@, self.limits.tracker_url_bytes as nat, "tracker filter"@) {
                Some(text) => r matches Err(e) && e@ == text,
                None => r matches Ok(
                        EngineCmd::GetTorrentHashesByTrackerSnapshotSize { tracker: t },
                    )
                        && t@ == trimmed(tracker@),
            },
    {
        validation_validate_text_bytes(
            tracker.as_str(),
            self.limits.tracker_url_bytes,
            "tracker filter",
        )?;
        Ok(EngineCmd::GetTorrentHashesByTrackerSnapshotSize { tracker: trim(tracker.as_str()) })
    }

    /// Asks for a setting.
    pub fn get_setting(&self, key: String) -> (r: CmdResult<EngineCmd>)
        ensures
            match text_problem(key@, self.limits.setting_key_bytes as nat, "setting key"@) {
                Some(text) => r matches Err(e) && e@ == text,
                None => r == Ok::<EngineCmd, String>(EngineCmd::GetSetting { key }),
            },
    {
        validation_validate_text_bytes(
            key.as_str(),
            self.limits.setting_key_bytes,
            "setting key",
        )?;
        Ok(EngineCmd::GetSetting { key })
    }

    /// Changes a setting.
    pub fn set_setting(&self, key: String, value: String) -> (r: CmdResult<EngineCmd>)
        ensures
            match either(
                text_problem(key@, self.limits.setting_key_bytes as nat, "setting key"@),
                text_problem(value@, self.limits.setting_value_bytes as nat, "setting value"@),
            ) {
                Some(text) => r matches Err(e) && e@ == text,
                None => r == Ok::<EngineCmd, String>(EngineCmd::SetSetting { key, value }),
            },
    {
        validation_validate_text_bytes(
            key.as_str(),
            self.limits.setting_key_bytes,
            "setting key",
        )?;
        validation_validate_text_bytes(
            value.as_str(),
            self.limits.setting_value_bytes,
            "setting value",
        )?;
        Ok(EngineCmd::SetSetting { key, value })
    }

    #[verifier::loop_isolation(false)]
    fn canonical_hashes(&self, info_hashes: Vec<String>) -> (r: CmdResult<Vec<String>>)
        ensures
            match first_problem(info_hashes@, hash_check(self.limits)) {
                Some(text) => r matches Err(e) && e@ == text,
                None => r matches Ok(list) && are_canonical_forms(list@, info_hashes@),
            },
    {
        let ghost check = hash_check(self.limits);
        let mut canonical: Vec<String> = Vec::new();
        let mut i: usize = 0;
        assert(info_hashes@.take(0) =~= Seq::<String>::empty());
        while i < info_hashes.len()
            invariant
                i <= info_hashes@.len(),
                first_problem(info_hashes@.take(i as int), check) is None,
                are_canonical_forms(canonical@, info_hashes@.take(i as int)),
            decreases info_hashes@.len() - i,
        {
            proof {
                lemma_first_problem_step(info_hashes@, i as int, check);
                if first_problem(info_hashes@.take(i as int + 1), check) is Some {
                    lemma_first_problem_stays(info_hashes@, i + 1, check);
                }
            }
            let hash = validation_canonical_info_hash_checked(
                &self.limits,
                info_hashes[i].clone(),
            )?;
            canonical.push(hash);
            i = i + 1;
        }
        assert(info_hashes@.take(i as int) =~= info_hashes@);
        Ok(canonical)
    }

    /// Carries out a plan. `serialized` is the size of its serialized form, or
    /// why it has none.
    pub fn execute_storage_plan(
        &self,
        operation: String,
        affected_torrents: Vec<String>,
        plan: StoragePlan,
        completed_steps: Vec<usize>,
        serialized: Result<usize, String>,
    ) -> (r: CmdResult<EngineCmd>)
        ensures
            match execute_problem(
                self.limits,
                operation@,
                affected_torrents@,
                plan,
                serialized,
                completed_steps@.len(),
            ) {
                Some(text) => r matches Err(e) && e@ == text,
                None => r matches Ok(
                        EngineCmd::ExecuteStoragePlan {
                            operation: o,
                            affected_torrents: a,
                            plan: p,
                            completed_steps: c,
                        },
                    )
                        && o == operation
                        && are_canonical_forms(a@, affected_torrents@)
                        && p == plan
                        && c == completed_steps,
            },
    {
        validation_validate_storage_plan(&self.limits, &plan, serialized)?;
        validation_validate_text_bytes(
            operation.as_str(),
            self.limits.storage_operation_bytes,
            "storage operation",
        )?;
        validation_validate_command_item_len(
            affected_torrents.len(),
            self.limits.storage_plan_affected_torrents,
            "storage plan torrent list",
        )?;
        validation_validate_command_item_len(
            completed_steps.len(),
            self.limits.mutation_items,
            "storage plan checkpoint list",
        )?;
        let affected_torrents = self.canonical_hashes(affected_torrents)?;
        Ok(EngineCmd::ExecuteStoragePlan { operation, affected_torrents, plan, completed_steps })
    }

    /// Asks for what has happened.
    pub fn session_events_filtered(
        &self,
        info_hash: Option<String>,
        kind: Option<String>,
        levels: Vec<String>,
        last_known_id: Option<i64>,
        limit: usize,
    ) -> (r: CmdResult<EngineCmd>)
        ensures
            match events_problem(self.limits, owned_text(info_hash), owned_text(kind), levels@) {
                Some(text) => r matches Err(e) && e@ == text,
                None => r matches Ok(
                    EngineCmd::ListSessionEvents {
                        filter_hash: h,
                        kind: k,
                        levels: l,
                        last_known_id: n,
                        limit: m,
                    },
                ) && (match info_hash {
                    Some(hash) => h matches Some(c) && c@ == canonical_hash(hash@),
                    None => h is None,
                }) && k == kind && l == levels && n == last_known_id && m == limit,
            },
    {
        validation_validate_command_item_len(
            levels.len(),
            self.limits.event_filter_items,
            "event level list",
        )?;
        validation_validate_text_list_bytes(
            levels.as_slice(),
            self.limits.event_filter_value_bytes,
            self.limits.event_filter_bytes,
            "event level list",
        )?;
        validate_owned_text(&kind, self.limits.event_filter_value_bytes, "event kind")?;
        let filter_hash = match info_hash {
            Some(hash) => Some(validation_canonical_info_hash_checked(&self.limits, hash)?),
            None => None,
        };
        Ok(EngineCmd::ListSessionEvents { filter_hash, kind, levels, last_known_id, limit })
    }

    /// Asks for what has happened last.
    pub fn session_events(
        &self,
        info_hash: Option<String>,
        limit: usize,
    ) -> (r: CmdResult<EngineCmd>)
        ensures
            match events_problem(self.limits, owned_text(info_hash), None, Seq::empty()) {
                Some(text) => r matches Err(e) && e@ == text,
                None => r matches Ok(
                    EngineCmd::ListSessionEvents {
                        filter_hash: h,
                        kind: k,
                        levels: l,
                        last_known_id: n,
                        limit: m,
                    },
                ) && (match info_hash {
                    Some(hash) => h matches Some(c) && c@ == canonical_hash(hash@),
                    None => h is None,
                }) && k is None && l@ == Seq::<String>::empty() && n is None && m == limit,
            },
    {
        self.session_events_filtered(info_hash, None, Vec::new(), None, limit)
    }

    /// Changes the labels of a torrent.
    pub fn update_torrent_labels(
        &self,
        info_hash: String,
        category: Option<Option<String>>,
        add_tags: Vec<String>,
        remove_tags: Vec<String>,
    ) -> (r: CmdResult<EngineCmd>)
        ensures
            match labels_problem(self.limits, info_hash@, category, add_tags@, remove_tags@) {
                Some(text) => r matches Err(e) && e@ == text,
                None => r matches Ok(
                        EngineCmd::UpdateTorrentLabels {
                            info_hash: h,
                            category: c,
                            add_tags: a,
                            remove_tags: d,
                        },
                    )
                        && h@ == canonical_hash(info_hash@)
                        && c == category
                        && a == add_tags
                        && d == remove_tags,
            },
    {
        if let Some(name) = &category {
            validate_owned_text(name, self.limits.category_bytes, "category")?;
        }
        validation_validate_command_item_len(
            add_tags.len(),
            self.limits.mutation_items,
            "torrent tag list",
        )?;
        validation_validate_command_item_len(
            remove_tags.len(),
            self.limits.mutation_items,
            "torrent tag removal list",
        )?;
        validation_validate_label_bytes(&self.limits, add_tags.as_slice(), "torrent tag list")?;
        validation_validate_label_bytes(
            &self.limits,
            remove_tags.as_slice(),
            "torrent tag removal list",
        )?;
        let info_hash = validation_canonical_info_hash_checked(&self.limits, info_hash)?;
        Ok(EngineCmd::UpdateTorrentLabels { info_hash, category, add_tags, remove_tags })
    }

    /// Makes a category.
    pub fn create_category(
        &self,
        name: String,
        save_path: Option<String>,
    ) -> (r: CmdResult<EngineCmd>)
        ensures
            match either(
                text_problem(name@, self.limits.category_bytes as nat, "category name"@),
                category_path_problem(self.limits, owned_text(save_path)),
            ) {
                Some(text) => r matches Err(e) && e@ == text,
                None => r == Ok::<EngineCmd, String>(
                        EngineCmd::CreateCategory { name, save_path },
                    ),
            },
    {
        validation_validate_text_bytes(
            name.as_str(),
            self.limits.category_bytes,
            "category name",
        )?;
        validate_owned_text(&save_path, self.limits.save_path_bytes, "category save path")?;
        Ok(EngineCmd::CreateCategory { name, save_path })
    }

    /// Renames a category.
    pub fn rename_category(
        &self,
        old_name: String,
        new_name: String,
        save_path: Option<String>,
    ) -> (r: CmdResult<EngineCmd>)
        ensures
            match either(
                text_problem(old_name@, self.limits.category_bytes as nat, "category name"@),
                either(
                    text_problem(
                        new_name@,
                        self.limits.category_bytes as nat,
                        "new category name"@,
                    ),
                    category_path_problem(self.limits, owned_text(save_path)),
                ),
            ) {
                Some(text) => r matches Err(e) && e@ == text,
                None => r == Ok::<EngineCmd, String>(
                        EngineCmd::RenameCategory { old_name, new_name, save_path },
                    ),
            },
    {
        validation_validate_text_bytes(
            old_name.as_str(),
            self.limits.category_bytes,
            "category name",
        )?;
        validation_validate_text_bytes(
            new_name.as_str(),
            self.limits.category_bytes,
            "new category name",
        )?;
        validate_owned_text(&save_path, self.limits.save_path_bytes, "category save path")?;
        Ok(EngineCmd::RenameCategory { old_name, new_name, save_path })
    }

    /// Removes categories.
    pub fn remove_categories(&self, names: Vec<String>) -> (r: CmdResult<EngineCmd>)
        ensures
            match either(
                item_count_problem(
                    names@.len(),
                    self.limits.mutation_items as nat,
                    "category list"@,
                ),
                text_list_problem(
                    names@,
                    self.limits.category_bytes as nat,
                    self.limits.category_definition_bytes as nat,
                    "category list"@ + " item at index "@,
                    "category list"@,
                ),
            ) {
                Some(text) => r matches Err(e) && e@ == text,
                None => r == Ok::<EngineCmd, String>(EngineCmd::RemoveCategories { names }),
            },
    {
        validation_validate_command_item_len(
            names.len(),
            self.limits.mutation_items,
            "category list",
        )?;
        validation_validate_text_list_bytes(
            names.as_slice(),
            self.limits.category_bytes,
            self.limits.category_definition_bytes,
            "category list",
        )?;
        Ok(EngineCmd::RemoveCategories { names })
    }

    /// Makes tags.
    pub fn create_tags(&self, names: Vec<String>) -> (r: CmdResult<EngineCmd>)
        ensures
            match tag_list_problem(self.limits, names@, "tag list"@) {
                Some(text) => r matches Err(e) && e@ == text,
                None => r == Ok::<EngineCmd, String>(EngineCmd::CreateTags { names }),
            },
    {
        validate_tag_list(&self.limits, names.as_slice(), "tag list")?;
        Ok(EngineCmd::CreateTags { names })
    }

    /// Removes tags.
    pub fn remove_tags(&self, names: Vec<String>) -> (r: CmdResult<EngineCmd>)
        ensures
            match tag_list_problem(self.limits, names@, "tag list"@) {
                Some(text) => r matches Err(e) && e@ == text,
                None => r == Ok::<EngineCmd, String>(EngineCmd::RemoveTags { names }),
            },
    {
        validate_tag_list(&self.limits, names.as_slice(), "tag list")?;
        Ok(EngineCmd::RemoveTags { names })
    }

    /// Bans peers from all torrents.
    pub fn ban_peers(&self, peers: Vec<PeerAddr>) -> (r: CmdResult<EngineCmd>)
        ensures
            match peer_command_problem(
                peers@.len(),
                self.limits.banned_peers as nat,
                "peer ban list"@,
            ) {
                Some(text) => r matches Err(e) && e@ == text,
                None => r == Ok::<EngineCmd, String>(EngineCmd::BanPeers { peers }),
            },
    {
        validation_validate_peer_command_len(
            peers.len(),
            self.limits.banned_peers,
            "peer ban list",
        )?;
        Ok(EngineCmd::BanPeers { peers })
    }

    /// Adds peers to a torrent.
    pub fn add_peers(&self, info_hash: String, peers: Vec<PeerAddr>) -> (r: CmdResult<EngineCmd>)
        ensures
            match either(
                peer_command_problem(
                    peers@.len(),
                    self.limits.manual_peer_addresses as nat,
                    "manual peer list"@,
                ),
                info_hash_problem(self.limits, info_hash@),
            ) {
                Some(text) => r matches Err(e) && e@ == text,
                None => r matches Ok(EngineCmd::AddPeers { info_hash: h, peers: p })
                        && h@ == canonical_hash(info_hash@)
                        && p == peers,
            },
    {
        validation_validate_peer_command_len(
            peers.len(),
            self.limits.manual_peer_addresses,
            "manual peer list",
        )?;
        let info_hash = validation_canonical_info_hash_checked(&self.limits, info_hash)?;
        Ok(EngineCmd::AddPeers { info_hash, peers })
    }

    /// Changes what a torrent is called and where it lies.
    pub fn update_torrent_fields(
        &self,
        info_hash: String,
        name: Option<String>,
        save_path: Option<String>,
    ) -> (r: CmdResult<EngineCmd>)
        ensures
            match either(
                fields_problem(self.limits, owned_text(name), owned_text(save_path)),
                info_hash_problem(self.limits, info_hash@),
            ) {
                Some(text) => r matches Err(e) && e@ == text,
                None => r matches Ok(
                        EngineCmd::UpdateTorrentFields {
                            info_hash: h,
                            torrent_name: n,
                            save_path: p,
                            with_job: j,
                        },
                    )
                        && h@ == canonical_hash(info_hash@)
                        && n == name
                        && p == save_path
                        && j == false,
            },
    {
        validate_fields(&self.limits, &name, &save_path)?;
        let info_hash = validation_canonical_info_hash_checked(&self.limits, info_hash)?;
        Ok(
            EngineCmd::UpdateTorrentFields {
                info_hash,
                torrent_name: name,
                save_path,
                with_job: false,
            },
        )
    }

    /// Changes what a torrent is called and where it lies, and asks for the job
    /// that moves its files.
    pub fn update_torrent_fields_with_job(
        &self,
        info_hash: String,
        name: Option<String>,
        save_path: Option<String>,
    ) -> (r: CmdResult<EngineCmd>)
        ensures
            match either(
                fields_problem(self.limits, owned_text(name), owned_text(save_path)),
                info_hash_problem(self.limits, info_hash@),
            ) {
                Some(text) => r matches Err(e) && e@ == text,
                None => r matches Ok(
                        EngineCmd::UpdateTorrentFields {
                            info_hash: h,
                            torrent_name: n,
                            save_path: p,
                            with_job: j,
                        },
                    )
                        && h@ == canonical_hash(info_hash@)
                        && n == name
                        && p == save_path
                        && j == true,
            },
    {
        validate_fields(&self.limits, &name, &save_path)?;
        let info_hash = validation_canonical_info_hash_checked(&self.limits, info_hash)?;
        Ok(
            EngineCmd::UpdateTorrentFields {
                info_hash,
                torrent_name: name,
                save_path,
                with_job: true,
            },
        )
    }

    /// Changes the trackers of a torrent. `slot` tells whether one of the slots
    /// for that is left.
    pub fn update_torrent_trackers(
        &self,
        info_hash: String,
        trackers: Vec<String>,
        slot: bool,
    ) -> (r: CmdResult<EngineCmd>)
        ensures
            match either(
                tracker_list_problem(self.limits, trackers@),
                either(
                    slot_problem(slot, "torrent tracker update capacity exhausted"@),
                    info_hash_problem(self.limits, info_hash@),
                ),
            ) {
                Some(text) => r matches Err(e) && e@ == text,
                None => r matches Ok(
                        EngineCmd::UpdateTorrentTrackers { info_hash: h, trackers: t },
                    )
                        && h@ == canonical_hash(info_hash@)
                        && t == trackers,
            },
    {
        validation_validate_tracker_urls(&self.limits, trackers.as_slice())?;
        if !slot {
            return Err("torrent tracker update capacity exhausted".to_owned());
        }
        let info_hash = validation_canonical_info_hash_checked(&self.limits, info_hash)?;
        Ok(EngineCmd::UpdateTorrentTrackers { info_hash, trackers })
    }

    /// Changes the limits of a torrent.
    pub fn update_torrent_limits(
        &self,
        info_hash: String,
        limits: EngineTorrentLimits,
    ) -> (r: CmdResult<EngineCmd>)
        ensures
            match either(
                torrent_limits_problem(limits),
                info_hash_problem(self.limits, info_hash@),
            ) {
                Some(text) => r matches Err(e) && e@ == text,
                None => r matches Ok(EngineCmd::UpdateTorrentLimits { info_hash: h, limits: l })
                        && h@ == canonical_hash(info_hash@)
                        && l == limits,
            },
    {
        validation_validate_torrent_limits(&limits)?;
        let info_hash = validation_canonical_info_hash_checked(&self.limits, info_hash)?;
        Ok(EngineCmd::UpdateTorrentLimits { info_hash, limits })
    }

    /// Changes how urgently files are wanted.
    pub fn update_file_priorities(
        &self,
        info_hash: String,
        file_ids: Vec<u32>,
        priority: i64,
    ) -> (r: CmdResult<EngineCmd>)
        ensures
            match either(
                item_count_problem(
                    file_ids@.len(),
                    self.limits.mutation_items as nat,
                    "file ID list"@,
                ),
                info_hash_problem(self.limits, info_hash@),
            ) {
                Some(text) => r matches Err(e) && e@ == text,
                None => r matches Ok(
                        EngineCmd::UpdateFilePriorities { info_hash: h, file_ids: f, priority: p },
                    )
                        && h@ == canonical_hash(info_hash@)
                        && f == file_ids
                        && p == priority,
            },
    {
        validation_validate_command_item_len(
            file_ids.len(),
            self.limits.mutation_items,
            "file ID list",
        )?;
        let info_hash = validation_canonical_info_hash_checked(&self.limits, info_hash)?;
        Ok(EngineCmd::UpdateFilePriorities { info_hash, file_ids, priority })
    }

    /// Renames a file of a torrent.
    pub fn rename_file_path(
        &self,
        info_hash: String,
        file_id: u32,
        new_path: String,
    ) -> (r: CmdResult<EngineCmd>)
        ensures
            match either(
                text_problem(new_path@, self.limits.torrent_file_path_bytes as nat, "file path"@),
                info_hash_problem(self.limits, info_hash@),
            ) {
                Some(text) => r matches Err(e) && e@ == text,
                None => r matches Ok(
                        EngineCmd::RenameFilePath { info_hash: h, file_id: f, new_path: p },
                    )
                        && h@ == canonical_hash(info_hash@)
                        && f == file_id
                        && p == new_path,
            },
    {
        validation_validate_text_bytes(
            new_path.as_str(),
            self.limits.torrent_file_path_bytes,
            "file path",
        )?;
        let info_hash = validation_canonical_info_hash_checked(&self.limits, info_hash)?;
        Ok(EngineCmd::RenameFilePath { info_hash, file_id, new_path })
    }

    /// Renames a directory of a torrent.
    pub fn rename_folder_path(
        &self,
        info_hash: String,
        old_path: String,
        new_path: String,
    ) -> (r: CmdResult<EngineCmd>)
        ensures
            match either(
                text_problem(
                    old_path@,
                    self.limits.torrent_file_path_bytes as nat,
                    "folder path"@,
                ),
                either(
                    text_problem(
                        new_path@,
                        self.limits.torrent_file_path_bytes as nat,
                        "new folder path"@,
                    ),
                    info_hash_problem(self.limits, info_hash@),
                ),
            ) {
                Some(text) => r matches Err(e) && e@ == text,
                None => r matches Ok(
                        EngineCmd::RenameFolderPath { info_hash: h, old_path: a, new_path: b },
                    )
                        && h@ == canonical_hash(info_hash@)
                        && a == old_path
                        && b == new_path,
            },
    {
        validation_validate_text_bytes(
            old_path.as_str(),
            self.limits.torrent_file_path_bytes,
            "folder path",
        )?;
        validation_validate_text_bytes(
            new_path.as_str(),
            self.limits.torrent_file_path_bytes,
            "new folder path",
        )?;
        let info_hash = validation_canonical_info_hash_checked(&self.limits, info_hash)?;
        Ok(EngineCmd::RenameFolderPath { info_hash, old_path, new_path })
    }

    /// Asks how torrents do at the moment.
    pub fn torrent_live_stats(&self, info_hashes: Vec<String>) -> (r: CmdResult<EngineCmd>)
        ensures
            match either(
                item_count_problem(
                    info_hashes@.len(),
                    self.limits.live_stats as nat,
                    "live torrent hash list"@,
                ),
                hash_list_problem(self.limits, info_hashes@),
            ) {
                Some(text) => r matches Err(e) && e@ == text,
                None => r matches Ok(EngineCmd::GetTorrentLiveStats { info_hashes: l })
                        && are_canonical_forms(l@, info_hashes@),
            },
    {
        validation_validate_command_item_len(
            info_hashes.len(),
            self.limits.live_stats,
            "live torrent hash list",
        )?;
        let info_hashes = validation_canonical_info_hash_list(&self.limits, info_hashes)?;
        Ok(EngineCmd::GetTorrentLiveStats { info_hashes })
    }

    /// Moves torrents in the queue.
    pub fn update_queue_order(
        &self,
        info_hashes: Vec<String>,
        queue_move: QueueMove,
    ) -> (r: CmdResult<EngineCmd>)
        ensures
            match either(
                item_count_problem(
                    info_hashes@.len(),
                    self.limits.mutation_items as nat,
                    "queue torrent list"@,
                ),
                hash_list_problem(self.limits, info_hashes@),
            ) {
                Some(text) => r matches Err(e) && e@ == text,
                None => r matches Ok(
                        EngineCmd::UpdateQueueOrder { info_hashes: l, queue_move: m },
                    )
                        && are_canonical_forms(l@, info_hashes@)
                        && m == queue_move,
            },
    {
        validation_validate_command_item_len(
            info_hashes.len(),
            self.limits.mutation_items,
            "queue torrent list",
        )?;
        let info_hashes = validation_canonical_info_hash_list(&self.limits, info_hashes)?;
        Ok(EngineCmd::UpdateQueueOrder { info_hashes, queue_move })
    }

    /// Moves the listener to another port.
    pub fn update_listen_port(&self, port: u16) -> (r: CmdResult<EngineCmd>)
        ensures
            if port == 0 {
                r matches Err(e) && e@ == "listen_port must be between 1 and 65535"@
            } else {
                r == Ok::<EngineCmd, String>(EngineCmd::UpdateListenPort { port })
            },
    {
        if port == 0 {
            return Err("listen_port must be between 1 and 65535".to_owned());
        }
        Ok(EngineCmd::UpdateListenPort { port })
    }

    /// Changes the name under which trackers see the session.
    pub fn set_user_agent(&self, user_agent: String) -> (r: CmdResult<EngineCmd>)
        ensures
            match text_problem(user_agent@, MAX_USER_AGENT_BYTES as nat, "user agent"@) {
                Some(text) => r matches Err(e) && e@ == text,
                None => r == Ok::<EngineCmd, String>(EngineCmd::SetUserAgent { user_agent }),
            },
    {
        validation_validate_text_bytes(user_agent.as_str(), MAX_USER_AGENT_BYTES, "user agent")?;
        Ok(EngineCmd::SetUserAgent { user_agent })
    }

    /// The roots below which the session keeps files, as they resolve.
    pub fn configured_storage_roots(&self, roots: Vec<ConfiguredRoot>) -> (r: CmdResult<
        Vec<StoragePath>,
    >)
        ensures
            match first_invalid_root(roots@) {
                Some(refusal) => r matches Err(e) && e@ == refusal_text(refusal),
                None => if roots@.len() == 0 {
                    r matches Err(e) && e@ == refusal_text(Refusal::NoConfiguredRoots)
                } else {
                    r matches Ok(list) && path_views(list@) == distinct_roots(roots@)
                },
            },
    {
        match ServerStorageRoots::from_configured_paths(roots) {
            Ok(roots) => Ok(roots.into_roots()),
            Err(error) => Err(error.to_text()),
        }
    }
}

/// What came of handing a command over.
#[derive(Clone, Copy, Debug, PartialEq, Eq, Structural)]
pub enum SendOutcome {
    Sent,
    /// The session takes no more commands.
    Closed,
    /// The queue stayed full.
    TimedOut,
}

/// What is said of a command that was not handed over.
pub fn send_command(outcome: SendOutcome) -> (r: CmdResult<()>)
    ensures
        match outcome {
            SendOutcome::Sent => r is Ok,
            SendOutcome::Closed => r matches Err(e) && e@ == "engine shut down"@,
            SendOutcome::TimedOut => r matches Err(e) && e@ == "engine command queue timed out"@,
        },
{
    match outcome {
        SendOutcome::Sent => Ok(()),
        SendOutcome::Closed => Err("engine shut down".to_owned()),
        SendOutcome::TimedOut => Err("engine command queue timed out".to_owned()),
    }
}

/// What is waited for.
#[derive(Clone, Copy, Debug, PartialEq, Eq, Structural)]
pub enum Awaited {
    Command,
    Stats,
    Health,
}

impl Awaited {
    pub open spec fn timeout_text(self) -> Seq<char> {
        match self {
            Awaited::Command => "engine command timed out"@,
            Awaited::Stats => "engine stats command timed out"@,
            Awaited::Health => "engine health command timed out"@,
        }
    }
}

/// What came of waiting for the answer to a command.
#[derive(Debug)]
pub enum ReplyOutcome<T> {
    Answered(CmdResult<T>),
    /// The session will not answer.
    Dropped,
    TimedOut,
}

/// The answer to a command.
pub fn await_engine_reply<T>(outcome: ReplyOutcome<T>, awaited: Awaited) -> (r: CmdResult<T>)
    ensures
        match outcome {
            ReplyOutcome::Answered(answer) => r == answer,
            ReplyOutcome::Dropped => r matches Err(e) && e@ == "engine dropped reply"@,
            ReplyOutcome::TimedOut => r matches Err(e) && e@ == awaited.timeout_text(),
        },
{
    match outcome {
        ReplyOutcome::Answered(answer) => answer,
        ReplyOutcome::Dropped => Err("engine dropped reply".to_owned()),
        ReplyOutcome::TimedOut => match awaited {
            Awaited::Command => Err("engine command timed out".to_owned()),
            Awaited::Stats => Err("engine stats command timed out".to_owned()),
            Awaited::Health => Err("engine health command timed out".to_owned()),
        },
    }
}

/// How long there is until a deadline; nothing once it has passed. Times are
/// nanoseconds.
pub fn time_left(deadline: u128, now: u128) -> (r: u128)
    ensures
        r == if deadline > now {
            deadline - now
        } else {
            0
        },
{
    if deadline > now {
        deadline - now
    } else {
        0
    }
}

/// Whether the session's task is aborted: where it could not be told to end in
/// time, or has not ended in time. One whose queue is closed has ended.
pub fn aborts_session(told: SendOutcome, answered_in_time: bool) -> (r: bool)
    ensures
        r == match told {
            SendOutcome::Sent => !answered_in_time,
            SendOutcome::Closed => false,
            SendOutcome::TimedOut => true,
        },
{
    match told {
        SendOutcome::Sent => !answered_in_time,
        SendOutcome::Closed => false,
        SendOutcome::TimedOut => true,
    }
}

/// What is done about a listener while the session ends.
#[derive(Clone, Copy, Debug, PartialEq, Eq, Structural)]
pub enum ListenerEnd {
    /// There is none, or it has ended.
    Nothing,
    /// It is waited for that long, and aborted then.
    Wait { nanos: u128 },
    Abort,
}

/// Decides about a listener while the session ends. `done` tells whether it has
/// ended; nothing where there is none.
pub fn wait_for_peer_listener_shutdown(done: Option<bool>, deadline: u128, now: u128) -> (r:
    ListenerEnd)
    ensures
        r == match done {
            Some(false) => if now <= deadline {
                ListenerEnd::Wait { nanos: (deadline - now) as u128 }
            } else {
                ListenerEnd::Abort
            },
            _ => ListenerEnd::Nothing,
        },
{
    match done {
        Some(false) => {
            if now <= deadline {
                ListenerEnd::Wait { nanos: deadline - now }
            } else {
                ListenerEnd::Abort
            }
        },
        _ => ListenerEnd::Nothing,
    }
}

} // verus!
