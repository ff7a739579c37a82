use rt_engine::merkle::{hash_pair, merkle_root};
use rt_engine::metadata_exchange::{
    metadata_fetch_bytes, v2_hash_request_length, validate_metadata_piece,
    validate_v2_hashes_response, HashRequest, MAX_METADATA_HASH_REQUEST_LENGTH,
    METADATA_PIECE_SIZE, V2_BLOCK_SIZE,
};
use rt_engine::metadata_identity::{
    metadata_info_hash_with_v2, validate_metadata_info_hash, MetadataInfoHash,
};
use rt_engine::metadata_memory::{
    compact_metadata_task_trackers, metadata_task_memory_bytes,
    metadata_tracker_peer_collection_bytes, prepare_metadata_task_memory,
};
use rt_engine::metadata_peers::{
    metadata_fetch_candidates, metadata_peer_attempt_cache_cap, metadata_peer_candidate_cap,
    PeerAttempts, PeerReport, MAX_METADATA_FETCH_CONCURRENCY, MAX_TRACKER_PEERS,
    METADATA_PEER_ATTEMPT_CACHE_MIN, METADATA_PEER_RETRY_AFTER,
};
use rt_engine::metadata_task::{
    parse_metadata_transport_policy, quiesce_metadata_task, MetadataTransportPolicy,
};
use rt_engine::net::{PeerAddr, PeerIp};
use rt_engine::torrent_file::{
    bencoded_bytes_len, build_torrent_from_info, decimal_digits,
    metadata_completion_tracker_bytes,
};
use sha1::Digest;

const SECOND: u128 = 1_000_000_000;

fn v4(a: u8, b: u8, c: u8, d: u8, port: u16) -> PeerAddr {
    PeerAddr {
        ip: PeerIp { bits: u32::from_be_bytes([a, b, c, d]) as u128, v6: false },
        port,
    }
}

fn allowed(peer: PeerAddr) -> PeerReport {
    PeerReport { peer, banned: false, denied: false }
}

#[test]
fn validates_metadata_piece_lengths() {
    validate_metadata_piece(0, 20_000, 20_000, METADATA_PIECE_SIZE).unwrap();
    validate_metadata_piece(1, 20_000, 20_000, 20_000 - METADATA_PIECE_SIZE).unwrap();

    assert!(validate_metadata_piece(0, 20_000, 19_999, METADATA_PIECE_SIZE).is_err());
    assert!(validate_metadata_piece(1, 20_000, 20_000, METADATA_PIECE_SIZE).is_err());
    assert!(validate_metadata_piece(2, 20_000, 20_000, 1).is_err());
    assert!(validate_metadata_piece(u32::MAX, 20_000, 20_000, 1).is_err());
}

#[test]
fn validates_metadata_info_hash() {
    let info = b"d4:name4:teste";
    let expected: [u8; 20] = sha1::Sha1::digest(info).into();

    validate_metadata_info_hash(info, MetadataInfoHash::V1(expected)).unwrap();
    assert!(validate_metadata_info_hash(info, MetadataInfoHash::V1([0; 20])).is_err());
}

#[test]
fn validates_both_hashes_for_hybrid_metadata() {
    let info = b"d4:name4:teste";
    let v1: [u8; 20] = sha1::Sha1::digest(info).into();
    let v2: [u8; 32] = sha2::Sha256::digest(info).into();
    let identity = MetadataInfoHash::Hybrid { v1, v2 };

    validate_metadata_info_hash(info, identity).unwrap();
    assert!(
        validate_metadata_info_hash(info, MetadataInfoHash::Hybrid { v1: [0; 20], v2 }).is_err()
    );
    assert!(
        validate_metadata_info_hash(info, MetadataInfoHash::Hybrid { v1, v2: [0; 32] }).is_err()
    );
}

#[test]
fn restores_hybrid_identity_from_v1_key_and_persisted_v2_hash() {
    let v1 = [0x31; 20];
    let v2 = [0x72; 32];
    let identity = metadata_info_hash_with_v2(&hex::encode(v1), Some(v2)).unwrap();
    assert!(matches!(identity, MetadataInfoHash::Hybrid { v1: a, v2: b } if a == v1 && b == v2));
    assert_eq!(identity.wire_hash(), v1);
    assert!(metadata_info_hash_with_v2(&hex::encode(v2), Some([0; 32])).is_err());
}

#[test]
fn metadata_peer_retry_has_cooldown() {
    let peer = v4(127, 0, 0, 1, 6881);
    let now: u128 = 1_000 * SECOND;
    let mut attempts = PeerAttempts::new();

    assert!(attempts.should_retry_peer(peer, now));
    assert!(!attempts.should_retry_peer(peer, now + 10 * SECOND));
    assert!(attempts.should_retry_peer(peer, now + METADATA_PEER_RETRY_AFTER + SECOND));
}

#[test]
fn metadata_storage_quiesce_sets_paused_and_reports_previous_state() {
    let mut paused = false;

    assert!(!quiesce_metadata_task(&mut paused));
    assert!(paused);
    assert!(quiesce_metadata_task(&mut paused));
}

#[test]
fn metadata_fetch_candidates_are_bounded_and_prune_retry_history() {
    let now: u128 = 1_000 * SECOND;
    let mut attempts = PeerAttempts::new();
    attempts.record(v4(127, 0, 0, 1, 6881), now - METADATA_PEER_RETRY_AFTER - SECOND);
    attempts.record(v4(127, 0, 0, 2, 6881), now);
    let peers = [
        allowed(v4(127, 0, 0, 1, 6881)),
        allowed(v4(127, 0, 0, 2, 6881)),
        allowed(v4(127, 0, 0, 3, 6881)),
        allowed(v4(127, 0, 0, 4, 6881)),
    ];

    let candidates = metadata_fetch_candidates(&peers, &mut attempts, now, 2, 2);

    assert_eq!(candidates.len(), 2);
    assert!(candidates.contains(&v4(127, 0, 0, 1, 6881)));
    assert!(candidates.contains(&v4(127, 0, 0, 3, 6881)));
    assert_eq!(attempts.len(), 2);
    assert!(attempts.last_attempt(v4(127, 0, 0, 3, 6881)).is_some());
}

#[test]
fn metadata_fetch_candidates_skip_denied_addresses_without_retry_state() {
    let now: u128 = 1_000 * SECOND;
    let loopback = v4(127, 0, 0, 1, 6881);
    let private = v4(10, 0, 0, 2, 6881);
    let public = v4(8, 8, 8, 8, 6881);
    let mut attempts = PeerAttempts::new();

    let candidates = metadata_fetch_candidates(
        &[
            PeerReport { peer: loopback, banned: false, denied: true },
            PeerReport { peer: private, banned: false, denied: true },
            allowed(public),
        ],
        &mut attempts,
        now,
        8,
        8,
    );

    assert_eq!(candidates, vec![public]);
    assert_eq!(attempts.len(), 1);
    assert!(attempts.last_attempt(public).is_some());
    assert!(attempts.last_attempt(loopback).is_none());
    assert!(attempts.last_attempt(private).is_none());
}

#[test]
fn metadata_fetch_candidates_skip_banned_peers_without_retry_state() {
    let now: u128 = 1_000 * SECOND;
    let banned = v4(8, 8, 8, 8, 6881);
    let other = v4(8, 8, 4, 4, 6881);
    let mut attempts = PeerAttempts::new();

    let candidates = metadata_fetch_candidates(
        &[PeerReport { peer: banned, banned: true, denied: false }, allowed(other)],
        &mut attempts,
        now,
        8,
        8,
    );

    assert_eq!(candidates, vec![other]);
    assert_eq!(attempts.len(), 1);
    assert!(attempts.last_attempt(other).is_some());
    assert!(attempts.last_attempt(banned).is_none());
}

#[test]
fn metadata_attempt_cache_cap_scales_with_peer_limit() {
    assert_eq!(metadata_peer_attempt_cache_cap(1), METADATA_PEER_ATTEMPT_CACHE_MIN);
    assert_eq!(metadata_peer_attempt_cache_cap(100), 400);
    assert_eq!(metadata_peer_attempt_cache_cap(usize::MAX), MAX_TRACKER_PEERS);
    assert_eq!(metadata_peer_candidate_cap(1), MAX_METADATA_FETCH_CONCURRENCY);
    assert_eq!(metadata_peer_candidate_cap(100), 100);
    assert_eq!(metadata_peer_candidate_cap(usize::MAX), MAX_TRACKER_PEERS);
}

#[test]
fn metadata_tracker_peer_collection_reservation_scales_with_peer_limit() {
    let bytes = metadata_tracker_peer_collection_bytes(MAX_TRACKER_PEERS);
    assert_eq!(bytes, 4 * 1024 * 1024);
    assert_eq!(metadata_tracker_peer_collection_bytes(0), 0);
}

#[test]
fn metadata_completion_tracker_prefix_is_preallocated_and_accounted() {
    let trackers = vec![
        "https://tracker.example/announce".to_owned(),
        "udp://tracker.example:6969".to_owned(),
    ];
    let info = b"d4:name4:test6:lengthi1ee";
    let raw = build_torrent_from_info(info, &trackers, &[]).unwrap();
    let tracker_prefix = metadata_completion_tracker_bytes(&trackers);
    let expected_len = 1 + tracker_prefix + bencoded_bytes_len(b"info".len()) + info.len() + 1;

    assert_eq!(raw.len(), expected_len);
    assert!(raw.capacity() >= raw.len());
    assert_eq!(metadata_completion_tracker_bytes(&[]), 0);
    assert_eq!(decimal_digits(0), 1);
    assert_eq!(decimal_digits(9), 1);
    assert_eq!(decimal_digits(10), 2);
}

#[test]
fn metadata_fetch_reservation_uses_metadata_governor_class() {
    assert_eq!(metadata_fetch_bytes(64), 128);
    assert!(metadata_fetch_bytes(65) > 128);
}

#[test]
fn metadata_task_reservation_covers_tracker_and_retry_state() {
    let trackers =
        compact_metadata_task_trackers(vec!["https://tracker.example/announce".to_owned()]);
    let bytes = metadata_task_memory_bytes(&trackers, 0, 100) as u64;

    let plan = prepare_metadata_task_memory(trackers, 100).unwrap();
    assert_eq!(plan.bytes as u64, bytes);
    let (trackers, memory) = plan.start(true).unwrap();
    assert_eq!(trackers.len(), 1);
    assert_eq!(memory.reserved_bytes, bytes);
}

#[test]
fn direct_peer_hash_exchange_requests_never_use_invalid_length_one() {
    assert_eq!(v2_hash_request_length(1).unwrap(), 2);
    assert_eq!(v2_hash_request_length(2).unwrap(), 2);
    assert_eq!(v2_hash_request_length(3).unwrap(), 4);
    assert_eq!(
        v2_hash_request_length(MAX_METADATA_HASH_REQUEST_LENGTH as usize).unwrap(),
        MAX_METADATA_HASH_REQUEST_LENGTH
    );
    assert_eq!(
        v2_hash_request_length(MAX_METADATA_HASH_REQUEST_LENGTH as usize + 1).unwrap(),
        MAX_METADATA_HASH_REQUEST_LENGTH
    );
}

#[test]
fn v2_hash_exchange_proof_is_authenticated_and_tamper_resistant() {
    let leaves: Vec<[u8; 32]> = (0u8..8).map(|value| sha2::Sha256::digest([value]).into()).collect();
    let layer_one: Vec<[u8; 32]> =
        leaves.chunks(2).map(|pair| hash_pair(&pair[0], &pair[1])).collect();
    let layer_two: Vec<[u8; 32]> =
        layer_one.chunks(2).map(|pair| hash_pair(&pair[0], &pair[1])).collect();
    let request = HashRequest {
        pieces_root: merkle_root(&leaves),
        base_layer: 0,
        index: 0,
        length: 2,
        proof_layers: 2,
    };
    let response = vec![leaves[0], leaves[1], layer_one[1], layer_two[1]];
    validate_v2_hashes_response(&request, 8 * V2_BLOCK_SIZE, V2_BLOCK_SIZE, &response).unwrap();

    let mut tampered = response;
    tampered[3][0] ^= 1;
    assert!(
        validate_v2_hashes_response(&request, 8 * V2_BLOCK_SIZE, V2_BLOCK_SIZE, &tampered).is_err()
    );
}

#[test]
fn parses_metadata_transport_policy() {
    assert_eq!(parse_metadata_transport_policy("prefer"), MetadataTransportPolicy::PreferUtp);
    assert_eq!(parse_metadata_transport_policy("utp-only"), MetadataTransportPolicy::UtpOnly);
    assert_eq!(parse_metadata_transport_policy("off"), MetadataTransportPolicy::TcpOnly);
}
