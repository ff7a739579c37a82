//! Torrent metainfo as plain values.

use vstd::prelude::*;

use crate::net::PeerAddr;

verus! {

/// A relative path, one component after another.
#[derive(Debug)]
pub struct SafeRelPath {
    pub components: Vec<String>,
}

/// One file of a torrent.
#[derive(Debug)]
pub struct MetaFile {
    pub path: SafeRelPath,
    pub length: u64,
    pub offset: u64,
    /// Padding carries no payload.
    pub pad: bool,
}

/// What every kind of metainfo holds.
#[derive(Debug)]
pub struct MetaFields {
    pub name: String,
    pub comment: Option<String>,
    pub created_by: Option<String>,
    pub webseeds: Vec<String>,
    pub announce: Option<String>,
    pub announce_list: Vec<Vec<String>>,
    pub files: Vec<MetaFile>,
    pub piece_length: u64,
    pub private: bool,
}

/// Metainfo with SHA-1 piece hashes.
#[derive(Debug)]
pub struct TorrentMetaV1 {
    pub info_hash: [u8; 20],
    pub fields: MetaFields,
    pub pieces: Vec<[u8; 20]>,
}

/// Metainfo with SHA-256 file trees.
#[derive(Debug)]
pub struct TorrentMetaV2 {
    pub info_hash: [u8; 32],
    pub fields: MetaFields,
    pub piece_count: u64,
}

/// What a torrent file describes.
#[derive(Debug)]
pub enum MetaKind {
    V1(TorrentMetaV1),
    V2(TorrentMetaV2),
    /// Both at once. `layout_error` tells how the two file lists disagree.
    Hybrid { v1: TorrentMetaV1, v2: TorrentMetaV2, layout_error: Option<String> },
}

/// A torrent file.
#[derive(Debug)]
pub struct TorrentMeta {
    pub raw: Vec<u8>,
    pub kind: MetaKind,
}

/// A magnet link.
#[derive(Debug)]
pub struct MagnetLink {
    pub info_hash_v1: Option<[u8; 20]>,
    pub info_hash_v2: Option<[u8; 32]>,
    pub display_name: Option<String>,
    pub trackers: Vec<String>,
    pub peer_addresses: Vec<PeerAddr>,
}

} // verus!
