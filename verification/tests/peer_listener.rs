use rt_engine::handle::SendOutcome;
use rt_engine::net::{PeerAddr, PeerIp};
use rt_engine::network_budget::GlobalNetworkBudget;
use rt_engine::peer_ingress::{PeerIngressBudget, PeerIngressConfig, PeerIngressReject};
use rt_engine::peer_listener::{
    handle_incoming, route_incoming_command, utp_accept_failure_is_fatal, Admission, AfterFailure,
    HandshakeRead, InboundTransport, PeerListener, RebindStep, UtpError,
};

fn peer() -> PeerAddr {
    PeerAddr { ip: PeerIp { bits: 0x7f00_0001, v6: false }, port: 6881 }
}

#[test]
fn fatal_utp_accept_failures_are_distinguished_from_peer_rejections() {
    assert!(utp_accept_failure_is_fatal(&UtpError::Closed));
    assert!(utp_accept_failure_is_fatal(&UtpError::Io("socket".to_owned())));
    assert!(!utp_accept_failure_is_fatal(&UtpError::Timeout));
    assert!(!utp_accept_failure_is_fatal(&UtpError::InvalidStatePacket));
}

#[test]
fn a_failed_socket_shows_in_the_health_flag() {
    let mut listener = PeerListener::new(true);
    assert!(listener.healthy);
    assert_eq!(listener.on_tcp_failure(), AfterFailure::Backoff);
    assert!(!listener.healthy);
    assert_eq!(listener.on_utp_failure(&UtpError::Timeout), AfterFailure::Backoff);
    assert_eq!(listener.on_utp_failure(&UtpError::Closed), AfterFailure::End);
    listener.on_end();
    assert!(listener.done);
}

#[test]
fn a_listener_ends_when_it_is_told_to() {
    let listener = PeerListener::new(false);
    assert!(listener.on_stop_signal(true, false));
    assert!(listener.on_stop_signal(false, true));
    assert!(!listener.on_stop_signal(false, false));
}

#[test]
fn rebinding_to_the_same_port_does_nothing() {
    let listener = PeerListener::new(true);
    assert!(matches!(listener.on_rebind(6881, Ok(6881)), RebindStep::Answer(Ok(()))));
    assert!(matches!(
        listener.on_rebind(6882, Ok(6881)),
        RebindStep::Bind { port: 6882, utp: true }
    ));
}

#[test]
fn a_refused_connection_leaves_nothing_behind() {
    let mut listener = PeerListener::new(false);
    let mut ingress = PeerIngressBudget::new(PeerIngressConfig {
        max_global_handshakes: 1,
        ..PeerIngressConfig::default()
    });
    let mut budget = GlobalNetworkBudget::new(1, None, None, 0);
    let slot = budget.try_acquire_peer().unwrap();
    assert!(matches!(
        listener.on_accepted(InboundTransport::Tcp, peer(), 0, &mut ingress, &mut budget),
        Admission::RefusedByConnectionBudget
    ));
    assert_eq!(ingress.stats().rejected_peer_connection_budget, 1);
    budget.release_peer(slot);
    let admitted = listener.on_accepted(InboundTransport::Tcp, peer(), 0, &mut ingress, &mut budget);
    assert!(matches!(admitted, Admission::Handshake { .. }));
    assert!(matches!(
        listener.on_accepted(InboundTransport::Utp, peer(), 0, &mut ingress, &mut budget),
        Admission::RefusedByHandshakeBudget(PeerIngressReject::GlobalBudget)
    ));
}

#[test]
fn handshakes_are_counted_by_how_they_fail() {
    let mut ingress = PeerIngressBudget::new(PeerIngressConfig::default());
    let permit = ingress.try_begin(peer(), 0).unwrap();
    assert!(handle_incoming(
        InboundTransport::Tcp,
        permit,
        &mut ingress,
        HandshakeRead::TimedOut
    )
    .is_err());
    let permit = ingress.try_begin(peer(), 0).unwrap();
    assert!(handle_incoming(
        InboundTransport::Tcp,
        permit,
        &mut ingress,
        HandshakeRead::Malformed("bad".to_owned())
    )
    .is_err());
    let permit = ingress.try_begin(peer(), 0).unwrap();
    assert!(handle_incoming(InboundTransport::Tcp, permit, &mut ingress, HandshakeRead::Failed)
        .is_err());
    let stats = ingress.stats();
    assert_eq!(stats.handshake_timeouts, 1);
    assert_eq!(stats.malformed_handshakes, 1);
    assert_eq!(stats.handshake_read_errors, 1);
    let permit = ingress.try_begin(peer(), 0).unwrap();
    let routed = handle_incoming(
        InboundTransport::Tcp,
        permit,
        &mut ingress,
        HandshakeRead::Understood { info_hash: [0xab; 20] },
    );
    let peer = routed.ok().unwrap();
    assert_eq!(peer.info_hash, "ab".repeat(20));
    assert!(route_incoming_command(peer.permit, &mut ingress, SendOutcome::Sent).is_ok());
}

#[test]
fn a_peer_keeps_its_handshake_slot_until_it_is_routed() {
    let config = PeerIngressConfig { max_global_handshakes: 1, ..PeerIngressConfig::default() };
    let mut ingress = PeerIngressBudget::new(config);
    let permit = ingress.try_begin(peer(), 0).ok().unwrap();
    let understood = handle_incoming(
        InboundTransport::Tcp,
        permit,
        &mut ingress,
        HandshakeRead::Understood { info_hash: [1; 20] },
    )
    .ok()
    .unwrap();
    assert_eq!(ingress.try_begin(peer(), 1).err(), Some(PeerIngressReject::GlobalBudget));
    assert_eq!(
        route_incoming_command(understood.permit, &mut ingress, SendOutcome::TimedOut),
        Err("engine command queue timed out".to_owned())
    );
    let permit = ingress.try_begin(peer(), 2).ok().unwrap();
    assert_eq!(
        route_incoming_command(permit, &mut ingress, SendOutcome::Closed),
        Err("engine stopped while routing inbound peer".to_owned())
    );
}
