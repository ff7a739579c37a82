use rt_engine::merkle::merkle_root;
use rt_engine::metadata_announce::TrackerError;
use rt_engine::metadata_exchange::{
    HashMessage, UtMetadataMessage, V2PieceLayerRequirement, LOCAL_UT_METADATA_ID, V2_BLOCK_SIZE,
};
use rt_engine::metadata_fetch::{
    FetchInput, FetchMessage, FetchStep, LayerPlan, MetadataFetch, RemoteHandshake,
};
use rt_engine::metadata_identity::MetadataInfoHash;
use rt_engine::net::{PeerAddr, PeerIp};
use rt_engine::tracker_exchange::{
    http_verdict, response_peer_limit, HttpOutcome, UdpAction, UdpAnnounce, UdpOutcome,
};
use sha2::Digest;

const INFO: &[u8] = b"d4:name4:teste";

fn v1() -> [u8; 20] {
    sha1::Sha1::digest(INFO).into()
}

fn v2() -> [u8; 32] {
    sha2::Sha256::digest(INFO).into()
}

fn remote(expected: MetadataInfoHash, supports_v2: bool) -> RemoteHandshake {
    RemoteHandshake { info_hash: expected.wire_hash(), supports_extension: true, supports_v2 }
}

fn start(expected: MetadataInfoHash, supports_v2: bool) -> MetadataFetch {
    let (fetch, step) =
        MetadataFetch::begin(expected, "peer".to_owned(), remote(expected, supports_v2));
    assert!(matches!(step, FetchStep::SendHandshake));
    let (fetch, step) = fetch.next(FetchInput::Sent);
    assert!(matches!(step, FetchStep::SendInterested));
    let (fetch, step) = fetch.next(FetchInput::Sent);
    assert!(matches!(step, FetchStep::Receive));
    let (fetch, step) = fetch.next(FetchInput::Message(FetchMessage::Other));
    assert!(matches!(step, FetchStep::Receive));
    let (fetch, step) = fetch.next(FetchInput::Message(FetchMessage::Handshake {
        ut_metadata_id: Some(9),
        metadata_size: Some(INFO.len() as u32),
    }));
    assert!(matches!(step, FetchStep::Reserve { bytes: 28 }));
    let (fetch, step) = fetch.next(FetchInput::Memory { granted: true });
    assert!(matches!(step, FetchStep::RequestPiece { ext_id: 9, piece: 0 }));
    fetch.next(FetchInput::Sent).0
}

fn data(bytes: &[u8]) -> FetchInput {
    FetchInput::Message(FetchMessage::Metadata {
        ext_id: LOCAL_UT_METADATA_ID,
        message: UtMetadataMessage::Data {
            piece: 0,
            total_size: INFO.len() as u32,
            data: bytes.to_vec(),
        },
    })
}

fn failure(step: FetchStep) -> String {
    match step {
        FetchStep::Fail(text) => text,
        other => panic!("{other:?}"),
    }
}

#[test]
fn a_dictionary_without_layers_is_handed_over() {
    let fetch = start(MetadataInfoHash::V1(v1()), false);
    let (fetch, step) = fetch.next(data(INFO));
    assert!(matches!(step, FetchStep::Decode));
    let (fetch, step) = fetch.next(FetchInput::Decoded { valid: true });
    assert!(matches!(step, FetchStep::ListLayers));
    let (fetch, step) = fetch.next(FetchInput::Layers(Ok(None)));
    assert!(matches!(step, FetchStep::Done));
    let (metadata, layers) = fetch.into_metadata().unwrap();
    assert_eq!(metadata, INFO);
    assert!(layers.is_empty());
}

#[test]
fn pure_v2_magnet_fetches_and_verifies_piece_layers_from_direct_peer() {
    let leaves: Vec<[u8; 32]> =
        (0u8..3).map(|value| sha2::Sha256::digest([value]).into()).collect();
    let plan = || LayerPlan {
        piece_length: V2_BLOCK_SIZE,
        files: vec![V2PieceLayerRequirement {
            pieces_root: merkle_root(&leaves),
            hash_count: 3,
            file_length: 3 * V2_BLOCK_SIZE,
        }],
    };
    let fetch = start(MetadataInfoHash::V2(v2()), true);
    let (fetch, _) = fetch.next(data(INFO));
    let (fetch, _) = fetch.next(FetchInput::Decoded { valid: true });
    let (fetch, step) = fetch.next(FetchInput::Layers(Ok(Some(plan()))));
    assert!(matches!(step, FetchStep::Reserve { bytes: 192 }));
    let (fetch, step) = fetch.next(FetchInput::Memory { granted: true });
    let FetchStep::RequestHashes(request) = step else {
        panic!("{step:?}");
    };
    let (fetch, _) = fetch.next(FetchInput::Sent);
    let hashes = vec![leaves[0], leaves[1], leaves[2], [0; 32]];
    let (fetch, step) =
        fetch.next(FetchInput::Message(FetchMessage::Hash(HashMessage::Hashes { request, hashes })));
    assert!(matches!(step, FetchStep::Done));
    let (metadata, layers) = fetch.into_metadata().unwrap();
    assert_eq!(metadata, INFO);
    assert_eq!(layers[0].hashes, leaves);

    let fetch = start(MetadataInfoHash::V2(v2()), true);
    let (fetch, _) = fetch.next(data(INFO));
    let (fetch, _) = fetch.next(FetchInput::Decoded { valid: true });
    let (fetch, _) = fetch.next(FetchInput::Layers(Ok(Some(plan()))));
    let (fetch, _) = fetch.next(FetchInput::Memory { granted: true });
    let (fetch, _) = fetch.next(FetchInput::Sent);
    let forged = vec![leaves[0], leaves[2], leaves[1], [0; 32]];
    let (fetch, step) = fetch.next(FetchInput::Message(FetchMessage::Hash(HashMessage::Hashes {
        request,
        hashes: forged,
    })));
    assert_eq!(failure(step), "v2 hashes response proof does not match pieces root");
    assert!(fetch.into_metadata().is_none());
}

#[test]
fn a_forged_dictionary_is_refused() {
    let fetch = start(MetadataInfoHash::V1(v1()), false);
    let (fetch, _) = fetch.next(data(b"d4:name4:evile"));
    let (fetch, step) = fetch.next(FetchInput::Decoded { valid: true });
    assert!(failure(step).starts_with("fetched metadata v1 infohash "));
    assert!(fetch.into_metadata().is_none());
    let fetch = start(MetadataInfoHash::V1(v1()), false);
    let (fetch, _) = fetch.next(data(INFO));
    let (_, step) = fetch.next(FetchInput::Decoded { valid: false });
    assert_eq!(failure(step), "fetched metadata is not valid bencode");
}

#[test]
fn an_exchange_tells_why_it_failed() {
    let expected = MetadataInfoHash::V1(v1());
    let stranger = RemoteHandshake { info_hash: [0; 20], ..remote(expected, true) };
    let (_, step) = MetadataFetch::begin(expected, "peer".to_owned(), stranger);
    assert_eq!(failure(step), "info_hash mismatch from peer");
    let plain = RemoteHandshake { supports_extension: false, ..remote(expected, true) };
    let (_, step) = MetadataFetch::begin(expected, "peer".to_owned(), plain);
    assert_eq!(failure(step), "peer does not support BEP 10");
    let (_, step) = start(expected, true).next(FetchInput::Closed);
    assert_eq!(failure(step), "peer closed during metadata transfer");
    let (_, step) = start(expected, true).next(FetchInput::Failed("reset".to_owned()));
    assert_eq!(failure(step), "reset");
    let (fetch, _) = start(expected, false).next(data(INFO));
    let (fetch, _) = fetch.next(FetchInput::Decoded { valid: true });
    let (_, step) = fetch.next(FetchInput::Layers(Ok(Some(LayerPlan {
        piece_length: V2_BLOCK_SIZE,
        files: vec![V2PieceLayerRequirement {
            pieces_root: [0; 32],
            hash_count: 2,
            file_length: 2 * V2_BLOCK_SIZE,
        }],
    }))));
    assert_eq!(failure(step), "peer does not advertise BEP 52 support for piece layers");
    let (fetch, _) = start(expected, false).next(data(INFO));
    let (fetch, _) = fetch.next(FetchInput::Decoded { valid: true });
    let (_, step) = fetch.next(FetchInput::Layers(Err(())));
    assert_eq!(failure(step), "fetched metadata has an invalid v2 file tree");
}

#[test]
fn an_announce_over_udp_believes_only_its_own_answer() {
    let tracker = PeerAddr { ip: PeerIp { bits: 1, v6: true }, port: 6969 };
    let (announce, action) = UdpAnnounce::begin();
    assert!(matches!(action, UdpAction::Resolve));
    let (announce, action) = announce.next(UdpOutcome::Resolved(vec![tracker]));
    assert!(matches!(action, UdpAction::Open { addr } if addr == tracker));
    let (announce, action) = announce.next(UdpOutcome::Done);
    assert!(matches!(action, UdpAction::SendConnect));
    let (announce, action) = announce.next(UdpOutcome::Sent { transaction_id: 7 });
    assert!(matches!(action, UdpAction::Reserve));
    let (announce, action) = announce.next(UdpOutcome::Done);
    assert!(matches!(action, UdpAction::ReceiveConnect));
    let (_, wrong) =
        announce.next(UdpOutcome::Connected { transaction_id: 8, connection_id: 5 });
    assert!(matches!(
        wrong,
        UdpAction::Finish(Err(TrackerError::Udp(e))) if e == "connect transaction id mismatch"
    ));
    let (announce, action) =
        announce.next(UdpOutcome::Connected { transaction_id: 7, connection_id: 5 });
    assert!(matches!(action, UdpAction::SendAnnounce { connection_id: 5 }));
    let (announce, action) = announce.next(UdpOutcome::Sent { transaction_id: 9 });
    assert!(matches!(action, UdpAction::ReceiveAnnounce));
    let answer = |transaction_id: u32| UdpOutcome::Announced {
        transaction_id,
        interval: 60,
        seeders: 2,
        leechers: 3,
        peers: vec![tracker],
    };
    assert!(matches!(
        announce.next(answer(7)).1,
        UdpAction::Finish(Err(TrackerError::Udp(e))) if e == "announce transaction id mismatch"
    ));
    match announce.next(answer(9)).1 {
        UdpAction::Finish(Ok(response)) => {
            assert_eq!(response.complete, Some(2));
            assert_eq!(response.incomplete, Some(3));
            assert_eq!(response.peers, vec![tracker]);
        }
        other => panic!("{other:?}"),
    }
    assert!(matches!(
        UdpAnnounce::begin().0.next(UdpOutcome::Resolved(Vec::new())).1,
        UdpAction::Finish(Err(TrackerError::Network(e))) if e == "no validated tracker address"
    ));
    assert!(matches!(
        announce.next(UdpOutcome::TimedOut).1,
        UdpAction::Finish(Err(TrackerError::Timeout))
    ));
}

#[test]
fn only_a_successful_http_answer_is_read() {
    assert!(http_verdict(HttpOutcome::Status { status: 200, success: true }).is_ok());
    assert!(matches!(
        http_verdict(HttpOutcome::Status { status: 503, success: false }),
        Err(TrackerError::Http { status: 503 })
    ));
    assert!(matches!(
        http_verdict(HttpOutcome::Failed { timed_out: true, error: String::new() }),
        Err(TrackerError::Timeout)
    ));
    assert_eq!(response_peer_limit(5), 5);
    assert_eq!(response_peer_limit(usize::MAX), 16_384);
}
