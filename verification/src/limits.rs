//! Sizes and counts that bound what a caller may hand to the engine.

use vstd::prelude::*;

verus! {

/// The largest torrent file, in bytes, that the engine reads or writes.
pub const MAX_TORRENT_BYTES: usize = 67_108_864;

/// Upper bounds on command arguments and on metainfo.
#[derive(Clone, Copy, Debug)]
pub struct EngineLimits {
    /// Torrents that one query for active peers may span.
    pub active_peer_torrents: usize,
    /// Peers in one snapshot.
    pub peer_snapshot_items: usize,
    /// Bytes of all labels of one command.
    pub label_bytes: usize,
    /// Items of one list that changes state.
    pub mutation_items: usize,
    /// Bytes of one path of a storage plan.
    pub storage_plan_path_bytes: usize,
    /// Bytes of all paths of a storage plan.
    pub storage_plan_total_path_bytes: usize,
    /// Issues, steps or rollback steps of a storage plan.
    pub storage_plan_items: usize,
    /// Bytes of a serialized storage plan.
    pub storage_plan_serialized_bytes: usize,
    /// Bytes of one info hash as a caller writes it.
    pub info_hash_bytes: usize,
    /// Bytes of all info hashes of one list.
    pub info_hash_list_bytes: usize,
    /// Bytes of a category name.
    pub category_bytes: usize,
    /// Bytes of a save path.
    pub save_path_bytes: usize,
    /// Bytes of one tracker URL.
    pub tracker_url_bytes: usize,
    /// Bytes of all tracker URLs of one torrent.
    pub tracker_bytes: usize,
    /// Tracker tiers of a metainfo file.
    pub meta_tracker_tiers: usize,
    /// Webseeds of a metainfo file.
    pub meta_webseeds: usize,
    /// Bytes of all webseeds of a metainfo file.
    pub meta_webseed_bytes: usize,
    /// Files of a metainfo file.
    pub meta_files: usize,
    /// Bytes of one file path of a metainfo file.
    pub meta_path_bytes: usize,
    /// Bytes of all file paths of a metainfo file.
    pub meta_path_total_bytes: usize,
    /// Bytes of a torrent name.
    pub name_bytes: usize,
    /// Bytes of a metainfo comment or author.
    pub metadata_text_bytes: usize,
    /// Pieces of a torrent.
    pub meta_pieces: usize,
    /// Peers that a magnet link may name.
    pub magnet_peers: usize,
    /// Bytes of a job identifier.
    pub job_id_bytes: usize,
    /// Bytes of the name of a storage operation.
    pub storage_operation_bytes: usize,
    /// Torrents that one storage plan may affect.
    pub storage_plan_affected_torrents: usize,
    /// Levels of one event filter.
    pub event_filter_items: usize,
    /// Bytes of one level or kind of an event filter.
    pub event_filter_value_bytes: usize,
    /// Bytes of all levels of one event filter.
    pub event_filter_bytes: usize,
    /// Torrents of one query for live statistics.
    pub live_stats: usize,
    /// Peers in one ban list.
    pub banned_peers: usize,
    /// Peers that one command may add by hand.
    pub manual_peer_addresses: usize,
    /// Bytes of a setting's key.
    pub setting_key_bytes: usize,
    /// Bytes of a setting's value.
    pub setting_value_bytes: usize,
    /// Bytes of the path of one torrent file or folder.
    pub torrent_file_path_bytes: usize,
    /// Bytes of all category names of one list.
    pub category_definition_bytes: usize,
}

} // verus!
