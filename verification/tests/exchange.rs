use rt_engine::digest::equal_bytes;
use rt_engine::merkle::{climb_to_root, hash_pair, merkle_root};
use rt_engine::metadata_announce::{
    check_tracker_url, current_listen_port, metadata_announce_request, url_verdict,
    AnnounceOutcome, AnnounceRound, RoundStep, TrackerError, TrackerEvent,
    METADATA_TRACKER_ANNOUNCE_DEADLINE,
};
use rt_engine::metadata_exchange::{
    accept_layer, accept_remote_handshake, check_fetched_metadata, plan_piece_layers,
    v2_piece_layer_bytes, v2_piece_layer_shape, validate_metadata_piece,
    validate_v2_hashes_response, HashMessage, LayerFetch, MetadataAssembly, PieceOutcome,
    RunOutcome, UtMetadataMessage, V2PieceLayerRequirement, LOCAL_UT_METADATA_ID,
    METADATA_PIECE_SIZE, V2_BLOCK_SIZE,
};
use rt_engine::metadata_identity::{
    compare_digest, filing_text, magnet_identity, metadata_info_hash_with_v2,
    parse_metadata_info_hash_hex, validate_metadata_v1_hash, validate_metadata_v2_hash,
    MetadataInfoHash,
};
use rt_engine::net::{PeerAddr, PeerIp};
use rt_engine::power2::{height_for, log2, power_of_two};
use rt_engine::text::{count_text, decimal_text, trim};
use rt_engine::torrent_file::{build_torrent_from_info, write_bytes, write_bytes_key, PieceLayer};
use sha2::Digest;

fn leaf(value: u8) -> [u8; 32] {
    sha2::Sha256::digest([value]).into()
}

fn peer(n: u128) -> PeerAddr {
    PeerAddr { ip: PeerIp { bits: n, v6: false }, port: 6881 }
}

#[test]
fn numbers_and_white_space_are_written_and_read() {
    assert_eq!(decimal_text(0), "0");
    assert_eq!(decimal_text(u64::MAX), "18446744073709551615");
    assert_eq!(count_text(1_002), "1002");
    assert_eq!(trim(" \t\u{a0}a b\u{2003}\n"), "a b");
    assert_eq!(trim("\u{200b}"), "\u{200b}");
    assert_eq!(trim("   "), "");
    assert!(equal_bytes(b"ab", b"ab"));
    assert!(!equal_bytes(b"ab", b"abc"));
}

#[test]
fn identities_are_read_and_filed() {
    assert!(matches!(
        parse_metadata_info_hash_hex(&"0A".repeat(20)),
        Ok(MetadataInfoHash::V1(h)) if h == [10; 20]
    ));
    assert!(matches!(
        parse_metadata_info_hash_hex(&"0b".repeat(32)),
        Ok(MetadataInfoHash::V2(h)) if h == [11; 32]
    ));
    assert!(parse_metadata_info_hash_hex("zz").is_err());
    assert!(parse_metadata_info_hash_hex("0a0b").is_err());
    assert_eq!(filing_text(MetadataInfoHash::V1([0xab; 20])), "ab".repeat(20));
    assert_eq!(
        filing_text(MetadataInfoHash::Hybrid { v1: [1; 20], v2: [2; 32] }),
        "01".repeat(20)
    );
    assert_eq!(filing_text(MetadataInfoHash::V2([2; 32])), "02".repeat(32));
    assert!(MetadataInfoHash::V2([2; 32]).is_v2());
    assert_eq!(MetadataInfoHash::V2([2; 32]).wire_hash(), [2; 20]);
    assert!(magnet_identity(None, None).is_none());
    assert!(metadata_info_hash_with_v2(&"02".repeat(32), None).is_ok());
}

#[test]
fn digests_are_compared_with_what_was_asked_for() {
    let v1: [u8; 20] = sha1::Sha1::digest(b"x").into();
    assert!(validate_metadata_v1_hash(b"x", v1).is_ok());
    assert!(validate_metadata_v1_hash(b"y", v1).is_err());
    assert!(validate_metadata_v2_hash(b"x", sha2::Sha256::digest(b"x").into()).is_ok());
    assert!(validate_metadata_v2_hash(b"x", [0; 32]).is_err());
    assert!(compare_digest("v1", &[1], &[1]).is_ok());
    assert!(compare_digest("v1", &[1], &[2]).is_err());
    assert_eq!(
        check_fetched_metadata(b"x", false, MetadataInfoHash::V1(v1), false).unwrap_err(),
        "fetched metadata is not valid bencode"
    );
    assert_eq!(
        check_fetched_metadata(
            b"x",
            true,
            MetadataInfoHash::V2(sha2::Sha256::digest(b"x").into()),
            false
        )
        .unwrap_err(),
        "pure-v2 metadata peer does not advertise BEP 52 support"
    );
    assert!(check_fetched_metadata(b"x", true, MetadataInfoHash::V1(v1), false).is_ok());
}

#[test]
fn a_dictionary_is_put_together_piece_by_piece() {
    assert_eq!(
        accept_remote_handshake(None, Some(5), "p").unwrap_err(),
        "peer does not advertise ut_metadata"
    );
    assert_eq!(
        accept_remote_handshake(Some(3), None, "p").unwrap_err(),
        "peer did not send metadata_size"
    );
    assert_eq!(
        accept_remote_handshake(Some(3), Some(0), "p").unwrap_err(),
        "metadata_size 0 from p is invalid"
    );
    let (id, size) = accept_remote_handshake(Some(3), Some(16_385), "p").unwrap();
    let mut assembly = MetadataAssembly::new(id, size);
    assert_eq!(assembly.next_request(), Some(0));
    assert_eq!(
        assembly
            .on_message(7, UtMetadataMessage::Data { piece: 0, total_size: size, data: vec![1] })
            .unwrap(),
        PieceOutcome::Ignored
    );
    assert_eq!(
        assembly
            .on_message(
                LOCAL_UT_METADATA_ID,
                UtMetadataMessage::Data {
                    piece: 0,
                    total_size: size,
                    data: vec![1; METADATA_PIECE_SIZE]
                }
            )
            .unwrap(),
        PieceOutcome::Taken
    );
    assert_eq!(assembly.next_request(), Some(1));
    assert_eq!(
        assembly
            .on_message(LOCAL_UT_METADATA_ID, UtMetadataMessage::Reject { piece: 1 })
            .unwrap_err(),
        "peer rejected metadata piece 1"
    );
    assembly
        .on_message(
            LOCAL_UT_METADATA_ID,
            UtMetadataMessage::Data { piece: 1, total_size: size, data: vec![2] },
        )
        .unwrap();
    assert_eq!(assembly.next_request(), None);
    let bytes = assembly.into_bytes();
    assert_eq!(bytes.len(), 16_385);
    assert_eq!(bytes[16_384], 2);
    assert!(validate_metadata_piece(0, 5, 6, 5).is_err());
}

#[test]
fn trees_have_the_least_height() {
    assert_eq!(height_for(1), 0);
    assert_eq!(height_for(5), 3);
    assert_eq!(height_for(8), 3);
    assert_eq!(log2(8), Some(3));
    assert_eq!(log2(6), None);
    assert_eq!(log2(0), None);
    assert_eq!(power_of_two(63), 1 << 63);
}

#[test]
fn roots_are_padded_with_zeros() {
    let zero = [0u8; 32];
    let three = [leaf(0), leaf(1), leaf(2)];
    let expected = hash_pair(&hash_pair(&leaf(0), &leaf(1)), &hash_pair(&leaf(2), &zero));
    assert_eq!(merkle_root(&three), expected);
    assert_eq!(merkle_root(&[leaf(9)]), leaf(9));
    assert_eq!(
        climb_to_root(leaf(2), &[zero, hash_pair(&leaf(0), &leaf(1))], 2),
        expected
    );
}

#[test]
fn a_piece_layer_is_fetched_and_authenticated() {
    let leaves: Vec<[u8; 32]> = (0u8..3).map(leaf).collect();
    let requirement = V2PieceLayerRequirement {
        pieces_root: merkle_root(&leaves),
        hash_count: 3,
        file_length: 3 * V2_BLOCK_SIZE,
    };
    assert_eq!(v2_piece_layer_bytes(&[requirement]).unwrap(), 96);
    assert!(plan_piece_layers(&[requirement], false).is_err());
    let shape = v2_piece_layer_shape(&requirement, V2_BLOCK_SIZE).unwrap();
    assert_eq!((shape.base_layer, shape.layer_len), (0, 4));
    let mut fetch = LayerFetch::begin(requirement, V2_BLOCK_SIZE).unwrap();
    let request = fetch.next_request().unwrap().unwrap();
    assert_eq!((request.index, request.length), (0, 4));
    assert_eq!(fetch.on_message("p", HashMessage::Other).unwrap(), RunOutcome::Ignored);
    let hashes = vec![leaf(0), leaf(1), leaf(2), [0; 32]];
    assert!(validate_v2_hashes_response(&request, 3 * V2_BLOCK_SIZE, V2_BLOCK_SIZE, &hashes).is_ok());
    assert_eq!(
        fetch.on_message("p", HashMessage::Hashes { request, hashes }).unwrap(),
        RunOutcome::Taken
    );
    assert!(fetch.next_request().unwrap().is_none());
    assert_eq!(fetch.finish().unwrap(), leaves);
    assert!(accept_layer([1; 32], [2; 32], leaves).is_err());
}

#[test]
fn trackers_are_asked_in_order_until_the_time_is_up() {
    let mut round = AnnounceRound::begin(2, 3, true, 0);
    assert!(matches!(round.next(0), RoundStep::Ask { tracker: 0, .. }));
    round.on_outcome(AnnounceOutcome::Peers(vec![peer(2), peer(1), peer(2)]));
    assert!(matches!(round.next(5), RoundStep::Ask { tracker: 1, .. }));
    round.on_outcome(AnnounceOutcome::Failed);
    assert!(matches!(round.next(6), RoundStep::Finished));
    let mut peers = round.into_peers();
    peers.sort_by_key(|p| p.ip.bits);
    assert_eq!(peers, vec![peer(1), peer(2)]);
    let round = AnnounceRound::begin(2, 3, true, 0);
    assert!(matches!(round.next(METADATA_TRACKER_ANNOUNCE_DEADLINE), RoundStep::Finished));
    let round = AnnounceRound::begin(2, 3, false, 0);
    assert!(matches!(round.next(0), RoundStep::Finished));
    let mut round = AnnounceRound::begin(2, 3, true, 0);
    round.on_outcome(AnnounceOutcome::TimedOut);
    assert!(matches!(round.next(1), RoundStep::Finished));
}

#[test]
fn tracker_urls_are_parsed() {
    assert!(check_tracker_url("https://tracker.example/announce").is_ok());
    assert!(matches!(check_tracker_url("not a url"), Err(TrackerError::InvalidUrl(_))));
    assert!(url_verdict(None).is_ok());
    let request = metadata_announce_request(
        MetadataInfoHash::V2([5; 32]),
        [1; 20],
        current_listen_port(0, 6881),
        50,
        TrackerEvent::Started,
    );
    assert_eq!(request.info_hash, [5; 20]);
    assert_eq!(request.port, 6881);
    assert_eq!(request.numwant, 50);
    assert!(request.compact);
    assert_eq!(current_listen_port(7000, 6881), 7000);
}

#[test]
fn a_torrent_file_is_written_in_key_order() {
    let raw = build_torrent_from_info(
        b"d4:name1:ne",
        &["http://a".to_owned(), "http://b".to_owned()],
        &[
            PieceLayer { root: [2; 32], hashes: vec![[7; 32]] },
            PieceLayer { root: [1; 32], hashes: vec![[8; 32], [9; 32]] },
        ],
    )
    .unwrap();
    let mut expected = b"d8:announce8:http://a13:announce-listll8:http://ael8:http://bee".to_vec();
    expected.extend_from_slice(b"4:infod4:name1:ne");
    expected.extend_from_slice(b"12:piece layersd");
    expected.extend_from_slice(b"32:");
    expected.extend_from_slice(&[1; 32]);
    expected.extend_from_slice(b"64:");
    expected.extend_from_slice(&[8; 32]);
    expected.extend_from_slice(&[9; 32]);
    expected.extend_from_slice(b"32:");
    expected.extend_from_slice(&[2; 32]);
    expected.extend_from_slice(b"32:");
    expected.extend_from_slice(&[7; 32]);
    expected.extend_from_slice(b"ee");
    assert_eq!(String::from_utf8_lossy(&raw), String::from_utf8_lossy(&expected));
    let mut out = Vec::new();
    write_bytes_key(&mut out, b"key");
    write_bytes(&mut out, b"0123456789");
    assert_eq!(out, b"3:key10:0123456789");
}

#[test]
fn layers_may_come_in_any_order() {
    let layer = |root: u8, hash: u8| PieceLayer { root: [root; 32], hashes: vec![[hash; 32]] };
    let build = |layers: Vec<PieceLayer>| build_torrent_from_info(b"de", &[], &layers);
    let first = build(vec![layer(3, 1), layer(1, 2), layer(2, 3)]).unwrap();
    assert_eq!(build(vec![layer(1, 2), layer(2, 3), layer(3, 1)]).unwrap(), first);
    assert_eq!(build(vec![layer(2, 3), layer(3, 1), layer(1, 2)]).unwrap(), first);
    for twice in [
        vec![layer(1, 1), layer(2, 2), layer(1, 3)],
        vec![layer(1, 3), layer(1, 1), layer(2, 2)],
    ] {
        assert_eq!(build(twice).unwrap_err(), "duplicate v2 piece-layer root");
    }
}

#[test]
fn an_identity_is_written_as_it_was_read_in_lower_case() {
    for text in ["0aF9".repeat(10), "0aF9".repeat(16)] {
        let identity = parse_metadata_info_hash_hex(&text).unwrap();
        assert_eq!(filing_text(identity), text.to_ascii_lowercase());
    }
}
