use rt_engine::net::{PeerAddr, PeerIp};
use rt_engine::peer_ingress::{
    PeerIngressBudget, PeerIngressConfig, PeerIngressReject, PeerIngressStats,
    MAX_TRACKED_PEER_INGRESS_IPS,
};

const SECOND: u128 = 1_000_000_000;

fn v4(a: u8, b: u8, c: u8, d: u8, port: u16) -> PeerAddr {
    PeerAddr {
        ip: PeerIp { bits: u32::from_be_bytes([a, b, c, d]) as u128, v6: false },
        port,
    }
}

fn addr(port: u16) -> PeerAddr {
    v4(192, 0, 2, 10, port)
}

fn config(global: usize, per_ip: usize) -> PeerIngressConfig {
    PeerIngressConfig {
        max_global_handshakes: global,
        max_handshakes_per_ip: per_ip,
        per_ip_window: 30 * SECOND,
        handshake_timeout: 5 * SECOND,
    }
}

#[test]
fn global_budget_limits_unrouted_handshakes() {
    let mut budget = PeerIngressBudget::new(config(1, 10));
    let now: u128 = 1_000 * SECOND;
    let permit = budget.try_begin(addr(1), now).unwrap();
    assert!(matches!(budget.try_begin(addr(2), now), Err(PeerIngressReject::GlobalBudget)));
    budget.release(permit);
    assert!(budget.try_begin(addr(3), now).is_ok());
    assert_eq!(budget.stats().rejected_global_budget, 1);
}

#[test]
fn per_ip_budget_limits_connection_storms() {
    let mut budget = PeerIngressBudget::new(config(100, 2));
    let now: u128 = 1_000 * SECOND;
    let _a = budget.try_begin(addr(1), now).unwrap();
    let _b = budget.try_begin(addr(2), now).unwrap();
    assert!(matches!(budget.try_begin(addr(3), now), Err(PeerIngressReject::PerIpBudget)));
    assert_eq!(budget.stats().rejected_ip_budget, 1);

    assert!(budget.try_begin(addr(4), now + 31 * SECOND).is_ok());
}

#[test]
fn global_rejection_does_not_consume_per_ip_slot() {
    let mut budget = PeerIngressBudget::new(config(1, 1));
    let now: u128 = 1_000 * SECOND;
    let first = budget.try_begin(addr(1), now).unwrap();
    assert!(matches!(
        budget.try_begin(v4(192, 0, 2, 11, 2), now),
        Err(PeerIngressReject::GlobalBudget)
    ));
    budget.release(first);
    assert!(budget.try_begin(v4(192, 0, 2, 11, 2), now).is_ok());
}

#[test]
fn cancelled_admission_does_not_consume_per_ip_slot() {
    let mut budget = PeerIngressBudget::new(config(1, 1));
    let now: u128 = 1_000 * SECOND;
    let permit = budget.try_begin(addr(1), now).unwrap();
    permit.cancel(&mut budget);
    assert!(budget.try_begin(addr(2), now).is_ok());
}

#[test]
fn release_uses_reservation_identity_when_timestamps_collide() {
    let mut budget = PeerIngressBudget::new(config(10, 2));
    let now: u128 = 1_000 * SECOND;
    let first = budget.try_begin(addr(1), now).unwrap();
    let second = budget.try_begin(addr(2), now).unwrap();

    first.cancel(&mut budget);
    let reservations = budget.reservations_of(addr(1).ip);
    assert_eq!(reservations.len(), 1);
    assert_eq!(reservations[0].id, second.reservation_id());
    budget.release(second);
}

#[test]
fn per_ip_slot_expires_at_window_boundary() {
    let window: u128 = 30 * SECOND;
    let mut budget = PeerIngressBudget::new(config(10, 1));
    let now: u128 = 1_000 * SECOND;
    let permit = budget.try_begin(addr(1), now).unwrap();
    budget.release(permit);

    assert!(budget.try_begin(addr(2), now + window).is_ok());
}

#[test]
fn stale_unique_ips_are_reclaimed_for_new_sources() {
    let mut budget = PeerIngressBudget::new(config(MAX_TRACKED_PEER_INGRESS_IPS + 1, 1));
    let now: u128 = 1_000 * SECOND;
    for raw_ip in 0..MAX_TRACKED_PEER_INGRESS_IPS {
        let peer = PeerAddr { ip: PeerIp { bits: raw_ip as u128, v6: false }, port: 6881 };
        let permit = budget.try_begin(peer, now).unwrap();
        budget.release(permit);
    }

    let new_ip = PeerIp { bits: (MAX_TRACKED_PEER_INGRESS_IPS + 1) as u128, v6: false };
    assert!(budget.try_begin(PeerAddr { ip: new_ip, port: 6881 }, now + 31 * SECOND).is_ok());
}

#[test]
fn handshake_rejection_counters_are_snapshotted() {
    let mut budget = PeerIngressBudget::new(PeerIngressConfig::default());
    budget.record_peer_connection_budget_rejection();
    budget.record_handshake_read_error();
    budget.record_handshake_timeout();
    budget.record_malformed_handshake();

    let stats = budget.stats();
    assert_eq!(stats.rejected_peer_connection_budget, 1);
    assert_eq!(stats.handshake_read_errors, 1);
    assert_eq!(stats.handshake_timeouts, 1);
    assert_eq!(stats.malformed_handshakes, 1);
}

#[test]
fn an_address_that_stays_full_is_refused_once_the_table_is_full() {
    let mut budget = PeerIngressBudget::new(config(MAX_TRACKED_PEER_INGRESS_IPS + 1, 1));
    let now: u128 = 1_000 * SECOND;
    for raw_ip in 0..MAX_TRACKED_PEER_INGRESS_IPS {
        let peer = PeerAddr { ip: PeerIp { bits: raw_ip as u128, v6: false }, port: 6881 };
        let permit = budget.try_begin(peer, now).unwrap();
        budget.release(permit);
    }
    assert!(matches!(budget.try_begin(addr(1), now), Err(PeerIngressReject::PerIpBudget)));
}

#[test]
fn refusals_and_defaults_are_as_documented() {
    assert_eq!(
        PeerIngressReject::GlobalBudget.to_text(),
        "global inbound handshake budget exhausted"
    );
    assert_eq!(
        PeerIngressReject::PerIpBudget.to_text(),
        "per-IP inbound handshake budget exhausted"
    );
    let budget = PeerIngressBudget::new(PeerIngressConfig::default());
    assert_eq!(budget.stats(), PeerIngressStats::default());
    assert_eq!(budget.config().max_global_handshakes, PeerIngressConfig::default().max_global_handshakes);
}

#[test]
fn admissions_count_for_a_window_unless_they_are_cancelled() {
    let mut budget = PeerIngressBudget::new(config(2, 2));
    let first = budget.try_begin(addr(1), 0).unwrap();
    budget.release(first);
    let second = budget.try_begin(addr(2), SECOND).unwrap();
    second.cancel(&mut budget);
    let third = budget.try_begin(addr(3), 2 * SECOND).unwrap();
    assert!(matches!(
        budget.try_begin(addr(4), 30 * SECOND - 1),
        Err(PeerIngressReject::PerIpBudget)
    ));
    budget.release(third);
    let fourth = budget.try_begin(addr(5), 30 * SECOND).unwrap();
    let other = budget.try_begin(v4(192, 0, 2, 11, 1), 30 * SECOND).unwrap();
    assert!(matches!(
        budget.try_begin(v4(192, 0, 2, 12, 1), 30 * SECOND),
        Err(PeerIngressReject::GlobalBudget)
    ));
    budget.release(fourth);
    budget.release(other);
    assert_eq!(
        budget.stats(),
        PeerIngressStats {
            accepted: 5,
            rejected_global_budget: 1,
            rejected_ip_budget: 1,
            ..PeerIngressStats::default()
        }
    );
}
