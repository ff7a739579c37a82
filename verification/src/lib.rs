//! Decision core of a torrent session engine.

pub mod command_laws;
pub mod digest;
pub mod fields_update;
pub mod handle;
pub mod job;
pub mod limits;
pub mod magnet_completion;
pub mod manual_recovery;
pub mod merkle;
pub mod metadata_announce;
pub mod metadata_exchange;
pub mod metadata_fetch;
pub mod metadata_identity;
pub mod metadata_memory;
pub mod metadata_peers;
pub mod metadata_task;
pub mod metainfo;
pub mod net;
pub mod network_budget;
pub mod peer_id;
pub mod peer_ingress;
pub mod peer_ingress_laws;
pub mod peer_listener;
pub mod peer_routing;
pub mod pending_moves;
pub mod power2;
pub mod problem;
pub mod read_model;
pub mod recheck;
pub mod restore;
pub mod storage_authority;
pub mod storage_control;
pub mod storage_delete;
pub mod storage_move;
pub mod storage_path;
pub mod storage_plan;
pub mod storage_recovery;
pub mod task_join;
pub mod text;
pub mod tiering;
pub mod torrent_add;
pub mod torrent_blob;
pub mod torrent_file;
pub mod torrent_removal;
pub mod torrent_state;
pub mod tracker_exchange;
pub mod validation;
pub mod validation_laws;

pub use handle::EngineHandle;
pub use peer_ingress::{
    PeerIngressBudget, PeerIngressConfig, PeerIngressPermit, PeerIngressReject, PeerIngressStats,
};
pub use storage_authority::{ServerStorageRoots, StorageAuthorityError};
pub use task_join::task_join_error_summary;
