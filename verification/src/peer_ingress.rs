//! Admission of inbound peer handshakes: a budget for all of them, and a
//! sliding window for each source address.
//!
//! Times are nanoseconds on one monotonic clock. The laws over whole histories of
//! calls stand in `peer_ingress_laws`.

use vstd::prelude::*;

use crate::net::{PeerAddr, PeerIp};

verus! {

/// How many source addresses are tracked at once.
pub const MAX_TRACKED_PEER_INGRESS_IPS: usize = 4_096;

/// Limits on inbound handshakes. Durations are nanoseconds.
#[derive(Clone, Copy, Debug, PartialEq, Eq, Structural)]
pub struct PeerIngressConfig {
    pub max_global_handshakes: usize,
    pub max_handshakes_per_ip: usize,
    pub per_ip_window: u128,
    pub handshake_timeout: u128,
}

impl Default for PeerIngressConfig {
    fn default() -> (r: Self)
        ensures
            r == (PeerIngressConfig {
                max_global_handshakes: 256,
                max_handshakes_per_ip: 16,
                per_ip_window: 30_000_000_000,
                handshake_timeout: 10_000_000_000,
            }),
    {
        PeerIngressConfig {
            max_global_handshakes: 256,
            max_handshakes_per_ip: 16,
            per_ip_window: 30_000_000_000,
            handshake_timeout: 10_000_000_000,
        }
    }
}

/// Counters of what became of inbound connections.
#[derive(Clone, Copy, Debug, PartialEq, Eq, Structural)]
pub struct PeerIngressStats {
    /// Handshake slots admitted before peer-wire validation completes.
    pub accepted: u64,
    pub rejected_global_budget: u64,
    pub rejected_ip_budget: u64,
    pub rejected_peer_connection_budget: u64,
    pub handshake_read_errors: u64,
    pub handshake_timeouts: u64,
    pub malformed_handshakes: u64,
}

/// Counters that have counted nothing.
pub open spec fn no_stats() -> PeerIngressStats {
    PeerIngressStats {
        accepted: 0,
        rejected_global_budget: 0,
        rejected_ip_budget: 0,
        rejected_peer_connection_budget: 0,
        handshake_read_errors: 0,
        handshake_timeouts: 0,
        malformed_handshakes: 0,
    }
}

impl Default for PeerIngressStats {
    fn default() -> (r: Self)
        ensures
            r == no_stats(),
    {
        PeerIngressStats {
            accepted: 0,
            rejected_global_budget: 0,
            rejected_ip_budget: 0,
            rejected_peer_connection_budget: 0,
            handshake_read_errors: 0,
            handshake_timeouts: 0,
            malformed_handshakes: 0,
        }
    }
}

/// Why a connection was turned away.
#[derive(Clone, Copy, Debug, PartialEq, Eq, Structural)]
pub enum PeerIngressReject {
    GlobalBudget,
    PerIpBudget,
}

impl PeerIngressReject {
    /// The reason in words.
    pub fn to_text(&self) -> (r: String)
        ensures
            r@ == match *self {
                PeerIngressReject::GlobalBudget => "global inbound handshake budget exhausted"@,
                PeerIngressReject::PerIpBudget => "per-IP inbound handshake budget exhausted"@,
            },
    {
        match *self {
            PeerIngressReject::GlobalBudget => "global inbound handshake budget exhausted".to_owned(),
            PeerIngressReject::PerIpBudget => "per-IP inbound handshake budget exhausted".to_owned(),
        }
    }
}

/// One admitted handshake of a source address.
#[derive(Clone, Copy, Debug, PartialEq, Eq, Structural)]
pub struct IngressReservation {
    pub id: u64,
    pub admitted_at: u128,
}

/// What is known of the handshakes of each tracked address, oldest first.
pub type Reservations = Map<PeerIp, Seq<IngressReservation>>;

struct IpRecord {
    ip: PeerIp,
    events: Vec<IngressReservation>,
}

/// Admits inbound handshakes.
pub struct PeerIngressBudget {
    config: PeerIngressConfig,
    available: usize,
    per_ip: Vec<IpRecord>,
    reservations: Ghost<Reservations>,
    next_reservation_id: u64,
    counters: PeerIngressStats,
}

/// A handshake that was admitted. It occupies one slot of the whole budget
/// until it is released or cancelled.
pub struct PeerIngressPermit {
    ip: PeerIp,
    reservation_id: u64,
}

/// The window of a reservation has passed.
pub open spec fn expired(event: IngressReservation, now: u128, window: u128) -> bool {
    (if now >= event.admitted_at {
        now - event.admitted_at
    } else {
        0
    }) >= window
}

/// What is left of `events` once the expired ones at the front are gone.
pub open spec fn live(events: Seq<IngressReservation>, now: u128, window: u128) -> Seq<
    IngressReservation,
>
    decreases events.len(),
{
    if events.len() > 0 && expired(events[0], now, window) {
        live(events.skip(1), now, window)
    } else {
        events
    }
}

/// The reservations of `ip`, none where it is not tracked.
pub open spec fn of_ip(table: Reservations, ip: PeerIp) -> Seq<IngressReservation> {
    if table.dom().contains(ip) {
        table[ip]
    } else {
        seq![]
    }
}

/// `table` with `events` for `ip`; an address without reservations is dropped.
pub open spec fn with_events(
    table: Reservations,
    ip: PeerIp,
    events: Seq<IngressReservation>,
) -> Reservations {
    if events.len() == 0 {
        table.remove(ip)
    } else {
        table.insert(ip, events)
    }
}

/// `table` with the expired reservations of `ip` gone.
pub open spec fn pruned(table: Reservations, ip: PeerIp, now: u128, window: u128) -> Reservations {
    with_events(table, ip, live(of_ip(table, ip), now, window))
}

/// `table` with the expired reservations of every address gone.
pub open spec fn swept(table: Reservations, now: u128, window: u128) -> Reservations {
    Map::new(
        |ip: PeerIp| table.dom().contains(ip) && live(table[ip], now, window).len() > 0,
        |ip: PeerIp| live(table[ip], now, window),
    )
}

/// What the budget remembers.
pub struct IngressState {
    pub config: PeerIngressConfig,
    /// Slots of the whole budget that are free.
    pub available: nat,
    pub table: Reservations,
    pub next_id: u64,
    pub counters: PeerIngressStats,
}

/// A limit of zero counts as one.
pub open spec fn at_least_one(n: usize) -> nat {
    if n == 0 {
        1
    } else {
        n as nat
    }
}

impl IngressState {
    /// The reservations against which a handshake of `ip` is judged: those of
    /// `ip` that have not expired, and, where a new address finds the table
    /// full, only what has not expired of any address.
    pub open spec fn current(self, ip: PeerIp, now: u128) -> Reservations {
        let window = self.config.per_ip_window;
        let table = pruned(self.table, ip, now, window);
        if table.dom().contains(ip) || table.dom().len() < MAX_TRACKED_PEER_INGRESS_IPS {
            table
        } else {
            swept(table, now, window)
        }
    }

    /// The window of `ip` is full, or the table is.
    pub open spec fn ip_refused(self, ip: PeerIp, now: u128) -> bool {
        let table = self.current(ip, now);
        ||| !table.dom().contains(ip) && table.dom().len() >= MAX_TRACKED_PEER_INGRESS_IPS
        ||| of_ip(table, ip).len() >= at_least_one(self.config.max_handshakes_per_ip)
    }

    /// `table` with the handshake that is about to be judged.
    pub open spec fn reserved(self, ip: PeerIp, now: u128) -> Reservations {
        let table = self.current(ip, now);
        table.insert(
            ip,
            of_ip(table, ip).push(IngressReservation { id: self.next_id, admitted_at: now }),
        )
    }
}

impl IngressState {
    /// What becomes of a handshake of `ip` at the time `now`.
    pub open spec fn verdict(self, ip: PeerIp, now: u128) -> Result<(), PeerIngressReject> {
        if self.ip_refused(ip, now) {
            Err(PeerIngressReject::PerIpBudget)
        } else if self.available == 0 {
            Err(PeerIngressReject::GlobalBudget)
        } else {
            Ok(())
        }
    }

    /// The budget after a handshake of `ip` was judged at the time `now`. A
    /// refusal by the whole budget takes the reservation back.
    pub open spec fn begun(self, ip: PeerIp, now: u128) -> IngressState {
        let after = IngressState { next_id: self.next_id.wrapping_add(1), ..self };
        match self.verdict(ip, now) {
            Ok(()) => IngressState {
                available: (self.available - 1) as nat,
                table: self.reserved(ip, now),
                counters: PeerIngressStats {
                    accepted: self.counters.accepted.wrapping_add(1),
                    ..self.counters
                },
                ..after
            },
            Err(PeerIngressReject::PerIpBudget) => IngressState {
                table: self.current(ip, now),
                counters: PeerIngressStats {
                    rejected_ip_budget: self.counters.rejected_ip_budget.wrapping_add(1),
                    ..self.counters
                },
                ..after
            },
            Err(PeerIngressReject::GlobalBudget) => IngressState {
                table: released(self.reserved(ip, now), ip, self.next_id),
                counters: PeerIngressStats {
                    rejected_global_budget: self.counters.rejected_global_budget.wrapping_add(1),
                    ..self.counters
                },
                ..after
            },
        }
    }

    /// The budget after the permit of an admission was handed back.
    pub open spec fn ended(self) -> IngressState {
        IngressState { available: freed(self.available, self.config), ..self }
    }

    /// The budget after an admission was rolled back.
    pub open spec fn cancelled(self, ip: PeerIp, id: u64) -> IngressState {
        IngressState { table: released(self.table, ip, id), ..self.ended() }
    }
}

/// Where the reservation `id` stands, or the end where it does not.
pub open spec fn position(events: Seq<IngressReservation>, id: u64) -> int
    decreases events.len(),
{
    if events.len() == 0 || events[0].id == id {
        0
    } else {
        1 + position(events.skip(1), id)
    }
}

/// `events` without the first reservation that carries `id`.
pub open spec fn without(events: Seq<IngressReservation>, id: u64) -> Seq<IngressReservation> {
    let i = position(events, id);
    if i < events.len() {
        events.remove(i)
    } else {
        events
    }
}

/// `table` without the reservation `id` of `ip`.
pub open spec fn released(table: Reservations, ip: PeerIp, id: u64) -> Reservations {
    if table.dom().contains(ip) {
        with_events(table, ip, without(table[ip], id))
    } else {
        table
    }
}

pub(crate) proof fn lemma_position(events: Seq<IngressReservation>, id: u64)
    ensures
        0 <= position(events, id) <= events.len(),
        position(events, id) < events.len() ==> events[position(events, id)].id == id,
        forall|k: int| 0 <= k < position(events, id) ==> (#[trigger] events[k]).id != id,
    decreases events.len(),
{
    if events.len() > 0 && events[0].id != id {
        let rest = events.skip(1);
        lemma_position(rest, id);
        assert forall|k: int| 0 <= k < position(events, id) implies (#[trigger] events[k]).id
            != id by {
            if k > 0 {
                assert(rest[k - 1] == events[k]);
            }
        }
    }
}

pub(crate) proof fn lemma_position_unique(events: Seq<IngressReservation>, id: u64, i: int)
    requires
        0 <= i <= events.len(),
        i < events.len() ==> events[i].id == id,
        forall|k: int| 0 <= k < i ==> (#[trigger] events[k]).id != id,
    ensures
        position(events, id) == i,
{
    lemma_position(events, id);
    let p = position(events, id);
    if p < i {
        assert(events[p].id != id);
    }
    if i < p {
        assert(events[i].id != id);
    }
}

/// The unexpired part of a list, as a list of its own.
fn live_events(events: &Vec<IngressReservation>, now: u128, window: u128) -> (r: Vec<
    IngressReservation,
>)
    ensures
        r@ == live(events@, now, window),
{
    let mut i: usize = 0;
    assert(events@.skip(0) =~= events@);
    while i < events.len() && now.saturating_sub(events[i].admitted_at) >= window
        invariant
            i <= events@.len(),
            live(events@, now, window) == live(events@.skip(i as int), now, window),
        decreases events@.len() - i,
    {
        assert(events@.skip(i as int).skip(1) =~= events@.skip(i + 1));
        i = i + 1;
    }
    let ghost rest = events@.skip(i as int);
    assert(live(events@, now, window) == rest);
    let mut r: Vec<IngressReservation> = Vec::new();
    let ghost from = i as int;
    while i < events.len()
        invariant
            0 <= from <= i <= events@.len(),
            r@ == events@.subrange(from, i as int),
        decreases events@.len() - i,
    {
        r.push(events[i]);
        assert(r@ =~= events@.subrange(from, i + 1));
        i = i + 1;
    }
    assert(r@ =~= rest);
    r
}

/// `records` lists `table`: each tracked address once, with what it has.
spec fn lists(records: Seq<IpRecord>, table: Reservations) -> bool {
    &&& table.dom().finite()
    &&& table.dom().len() == records.len()
    &&& forall|i: int|
        0 <= i < records.len() ==> table.dom().contains((#[trigger] records[i]).ip)
            && table[records[i].ip] == records[i].events@ && records[i].events@.len() > 0
    &&& forall|i: int, j: int|
        0 <= i < j < records.len() ==> (#[trigger] records[i]).ip != (#[trigger] records[j]).ip
    &&& forall|ip: PeerIp| #[trigger]
        table.dom().contains(ip) ==> exists|i: int|
            0 <= i < records.len() && (#[trigger] records[i]).ip == ip
}

impl View for PeerIngressBudget {
    type V = IngressState;

    closed spec fn view(&self) -> IngressState {
        IngressState {
            config: self.config,
            available: self.available as nat,
            table: self.reservations@,
            next_id: self.next_reservation_id,
            counters: self.counters,
        }
    }
}

impl View for PeerIngressPermit {
    type V = (PeerIp, u64);

    closed spec fn view(&self) -> (PeerIp, u64) {
        (self.ip, self.reservation_id)
    }
}

impl PeerIngressBudget {
    /// Every tracked address has a reservation and no more than its window
    /// admits; no more slots are free than there are.
    pub closed spec fn wf(&self) -> bool {
        &&& lists(self.per_ip@, self.reservations@)
        &&& self.per_ip@.len() <= MAX_TRACKED_PEER_INGRESS_IPS
        &&& self.available <= at_least_one(self.config.max_global_handshakes)
        &&& forall|i: int|
            0 <= i < self.per_ip@.len() ==> (#[trigger] self.per_ip@[i]).events@.len()
                <= at_least_one(self.config.max_handshakes_per_ip)
    }

    /// A budget with every slot free and no address tracked.
    pub fn new(config: PeerIngressConfig) -> (r: Self)
        ensures
            r.wf(),
            r@ == (IngressState {
                config,
                available: at_least_one(config.max_global_handshakes),
                table: Map::empty(),
                next_id: 1,
                counters: no_stats(),
            }),
    {
        let available: usize = if config.max_global_handshakes == 0 {
            1
        } else {
            config.max_global_handshakes
        };
        PeerIngressBudget {
            config,
            available,
            per_ip: Vec::new(),
            reservations: Ghost(Map::empty()),
            next_reservation_id: 1,
            counters: PeerIngressStats {
                accepted: 0,
                rejected_global_budget: 0,
                rejected_ip_budget: 0,
                rejected_peer_connection_budget: 0,
                handshake_read_errors: 0,
                handshake_timeouts: 0,
                malformed_handshakes: 0,
            },
        }
    }

    /// The limits of this budget.
    pub fn config(&self) -> (r: PeerIngressConfig)
        ensures
            r == self@.config,
    {
        self.config
    }

    /// A copy of the counters.
    pub fn stats(&self) -> (r: PeerIngressStats)
        ensures
            r == self@.counters,
    {
        self.counters
    }

    /// The reservations of `ip`, oldest first.
    pub fn reservations_of(&self, ip: PeerIp) -> (r: Vec<IngressReservation>)
        requires
            self.wf(),
        ensures
            r@ == of_ip(self@.table, ip),
    {
        match self.find(ip) {
            Some(i) => {
                let mut r: Vec<IngressReservation> = Vec::new();
                let events = &self.per_ip[i].events;
                let mut k: usize = 0;
                while k < events.len()
                    invariant
                        k <= events@.len(),
                        r@ == events@.take(k as int),
                    decreases events@.len() - k,
                {
                    r.push(events[k]);
                    assert(r@ =~= events@.take(k + 1));
                    k = k + 1;
                }
                assert(r@ =~= events@);
                r
            },
            None => Vec::new(),
        }
    }

    fn find(&self, ip: PeerIp) -> (r: Option<usize>)
        requires
            lists(self.per_ip@, self.reservations@),
        ensures
            match r {
                Some(i) => i < self.per_ip@.len() && self.per_ip@[i as int].ip == ip,
                None => !self.reservations@.dom().contains(ip),
            },
    {
        let mut i: usize = 0;
        while i < self.per_ip.len()
            invariant
                i <= self.per_ip@.len(),
                forall|k: int| 0 <= k < i ==> (#[trigger] self.per_ip@[k]).ip != ip,
            decreases self.per_ip@.len() - i,
        {
            if self.per_ip[i].ip == ip {
                return Some(i);
            }
            i = i + 1;
        }
        None
    }

    /// Replaces the reservations of the address at `i`, which goes if there
    /// are none.
    fn replace(&mut self, i: usize, events: Vec<IngressReservation>)
        requires
            old(self).wf(),
            i < old(self).per_ip@.len(),
            events@.len() <= at_least_one(old(self).config.max_handshakes_per_ip),
        ensures
            final(self).wf(),
            final(self)@ == (IngressState {
                table: with_events(old(self)@.table, old(self).per_ip@[i as int].ip, events@),
                ..old(self)@
            }),
    {
        let ghost before = self.per_ip@;
        let ghost table = self.reservations@;
        let ip = self.per_ip[i].ip;
        if events.len() == 0 {
            self.per_ip.swap_remove(i);
            self.reservations = Ghost(with_events(table, ip, events@));
            proof {
                let after = self.per_ip@;
                let new = self.reservations@;
                assert forall|k: int| 0 <= k < after.len() implies new.dom().contains(
                    (#[trigger] after[k]).ip,
                ) && new[after[k].ip] == after[k].events@ && after[k].events@.len() > 0
                    && after[k].events@.len() <= at_least_one(
                    self.config.max_handshakes_per_ip,
                ) by {
                    if k == i {
                        assert(after[k] == before.last());
                    } else {
                        assert(after[k] == before[k]);
                    }
                }
                assert forall|p: PeerIp| #[trigger] new.dom().contains(p) implies exists|k: int|
                    0 <= k < after.len() && (#[trigger] after[k]).ip == p by {
                    let k = choose|k: int| 0 <= k < before.len() && (#[trigger] before[k]).ip == p;
                    if k == before.len() - 1 {
                        assert(after[i as int] == before[k]);
                    } else {
                        assert(after[k] == before[k]);
                    }
                }
            }
        } else {
            self.per_ip.set(i, IpRecord { ip, events });
            self.reservations = Ghost(with_events(table, ip, events@));
            proof {
                let after = self.per_ip@;
                let new = self.reservations@;
                assert(new.dom() =~= table.dom());
                assert forall|p: PeerIp| #[trigger] new.dom().contains(p) implies exists|k: int|
                    0 <= k < after.len() && (#[trigger] after[k]).ip == p by {
                    let k = choose|k: int| 0 <= k < before.len() && (#[trigger] before[k]).ip == p;
                    assert(after[k].ip == p);
                }
            }
        }
    }

    /// Drops the expired reservations of `ip`.
    fn prune(&mut self, ip: PeerIp, now: u128)
        requires
            old(self).wf(),
        ensures
            final(self).wf(),
            final(self)@ == (IngressState {
                table: pruned(old(self)@.table, ip, now, old(self)@.config.per_ip_window),
                ..old(self)@
            }),
    {
        match self.find(ip) {
            Some(i) => {
                let events = live_events(&self.per_ip[i].events, now, self.config.per_ip_window);
                proof {
                    lemma_live_len(self.per_ip@[i as int].events@, now, self.config.per_ip_window);
                }
                self.replace(i, events);
            },
            None => {
                assert(pruned(self@.table, ip, now, self@.config.per_ip_window) =~= self@.table);
            },
        }
    }

    /// Drops the expired reservations of every address.
    fn sweep(&mut self, now: u128)
        requires
            old(self).wf(),
        ensures
            final(self).wf(),
            final(self)@ == (IngressState {
                table: swept(old(self)@.table, now, old(self)@.config.per_ip_window),
                ..old(self)@
            }),
    {
        let window: u128 = self.config.per_ip_window;
        let ghost table = self.reservations@;
        let ghost old_records = self.per_ip@;
        let mut kept: Vec<IpRecord> = Vec::new();
        let ghost mut new: Reservations = Map::empty();
        let mut i: usize = 0;
        while i < self.per_ip.len()
            invariant
                *self == *old(self),
                self.wf(),
                old_records == self.per_ip@,
                table == self.reservations@,
                window == self.config.per_ip_window,
                i <= old_records.len(),
                kept@.len() <= i,
                lists(kept@, new),
                forall|k: int|
                    0 <= k < kept@.len() ==> (#[trigger] kept@[k]).events@.len() <= at_least_one(
                        self.config.max_handshakes_per_ip,
                    ),
                forall|ip: PeerIp| #[trigger]
                    new.dom().contains(ip) <==> exists|k: int|
                        0 <= k < i && (#[trigger] old_records[k]).ip == ip && live(
                            old_records[k].events@,
                            now,
                            window,
                        ).len() > 0,
                forall|ip: PeerIp| #[trigger]
                    new.dom().contains(ip) ==> new[ip] == live(table[ip], now, window),
            decreases old_records.len() - i,
        {
            let ip = self.per_ip[i].ip;
            let events = live_events(&self.per_ip[i].events, now, window);
            proof {
                lemma_live_len(old_records[i as int].events@, now, window);
                assert(table[ip] == old_records[i as int].events@);
                if new.dom().contains(ip) {
                    let k = choose|k: int|
                        0 <= k < i && (#[trigger] old_records[k]).ip == ip && live(
                            old_records[k].events@,
                            now,
                            window,
                        ).len() > 0;
                    assert(old_records[k].ip != old_records[i as int].ip);
                }
            }
            if events.len() > 0 {
                let ghost kept_before = kept@;
                let ghost new_before = new;
                proof {
                    new = new.insert(ip, events@);
                }
                kept.push(IpRecord { ip, events });
                proof {
                    assert forall|k: int| 0 <= k < kept@.len() implies new.dom().contains(
                        (#[trigger] kept@[k]).ip,
                    ) && new[kept@[k].ip] == kept@[k].events@ && kept@[k].events@.len() > 0 by {
                        if k < kept_before.len() {
                            assert(kept@[k] == kept_before[k]);
                        }
                    }
                    assert forall|p: PeerIp| #[trigger] new.dom().contains(p) implies exists|k: int|
                        0 <= k < kept@.len() && (#[trigger] kept@[k]).ip == p by {
                        if p == ip {
                            assert(kept@[kept_before.len() as int].ip == p);
                        } else {
                            assert(new_before.dom().contains(p));
                            let k = choose|k: int|
                                0 <= k < kept_before.len() && (#[trigger] kept_before[k]).ip == p;
                            assert(kept@[k].ip == p);
                        }
                    }
                    assert forall|p: PeerIp| #[trigger]
                        new.dom().contains(p) <==> exists|k: int|
                            0 <= k < i + 1 && (#[trigger] old_records[k]).ip == p && live(
                                old_records[k].events@,
                                now,
                                window,
                            ).len() > 0 by {
                        if p == ip {
                            assert(old_records[i as int].ip == p);
                        } else if new.dom().contains(p) {
                            assert(new_before.dom().contains(p));
                        }
                    }
                }
            }
            i = i + 1;
        }
        proof {
            let want = swept(table, now, window);
            assert forall|ip: PeerIp| new.dom().contains(ip) <==> want.dom().contains(ip) by {
                if want.dom().contains(ip) {
                    let k = choose|k: int|
                        0 <= k < old_records.len() && (#[trigger] old_records[k]).ip == ip;
                    assert(table[ip] == old_records[k].events@);
                }
                if new.dom().contains(ip) {
                    let k = choose|k: int|
                        0 <= k < i && (#[trigger] old_records[k]).ip == ip && live(
                            old_records[k].events@,
                            now,
                            window,
                        ).len() > 0;
                    assert(table[ip] == old_records[k].events@);
                }
            }
            assert(new =~= want);
        }
        self.per_ip = kept;
        self.reservations = Ghost(new);
    }

    /// Enters a reservation for `ip`, unless its window or the table is full.
    fn reserve_ip_slot(&mut self, ip: PeerIp, now: u128, id: u64) -> (r: bool)
        requires
            old(self).wf(),
            old(self)@.next_id == id,
        ensures
            final(self).wf(),
            r == !old(self)@.ip_refused(ip, now),
            final(self)@ == (IngressState {
                table: if r {
                    old(self)@.reserved(ip, now)
                } else {
                    old(self)@.current(ip, now)
                },
                ..old(self)@
            }),
    {
        self.prune(ip, now);
        let mut at = self.find(ip);
        if at.is_none() && self.per_ip.len() >= MAX_TRACKED_PEER_INGRESS_IPS {
            self.sweep(now);
            if self.per_ip.len() >= MAX_TRACKED_PEER_INGRESS_IPS {
                return false;
            }
        }
        let maximum: usize = if self.config.max_handshakes_per_ip == 0 {
            1
        } else {
            self.config.max_handshakes_per_ip
        };
        let ghost before = self.per_ip@;
        let ghost table = self.reservations@;
        match at {
            Some(i) => {
                let mut events = self.reservations_of(ip);
                if events.len() >= maximum {
                    return false;
                }
                events.push(IngressReservation { id, admitted_at: now });
                self.replace(i, events);
            },
            None => {
                let mut events: Vec<IngressReservation> = Vec::new();
                events.push(IngressReservation { id, admitted_at: now });
                let ghost added = events@;
                self.per_ip.push(IpRecord { ip, events });
                self.reservations = Ghost(table.insert(ip, added));
                proof {
                    let after = self.per_ip@;
                    let new = self.reservations@;
                    assert(!table.dom().contains(ip));
                    assert(added =~= of_ip(table, ip).push(
                        IngressReservation { id, admitted_at: now },
                    ));
                    assert forall|k: int| 0 <= k < after.len() implies new.dom().contains(
                        (#[trigger] after[k]).ip,
                    ) && new[after[k].ip] == after[k].events@ && after[k].events@.len() > 0
                        && after[k].events@.len() <= at_least_one(
                        self.config.max_handshakes_per_ip,
                    ) by {
                        if k < before.len() {
                            assert(after[k] == before[k]);
                        }
                    }
                    assert forall|p: PeerIp| #[trigger] new.dom().contains(p) implies exists|k: int|
                        0 <= k < after.len() && (#[trigger] after[k]).ip == p by {
                        if p == ip {
                            assert(after[before.len() as int].ip == p);
                        } else {
                            let k = choose|k: int|
                                0 <= k < before.len() && (#[trigger] before[k]).ip == p;
                            assert(after[k].ip == p);
                        }
                    }
                }
            },
        }
        true
    }

    /// Removes the reservation `id` of `ip`.
    fn release_ip_slot(&mut self, ip: PeerIp, id: u64)
        requires
            old(self).wf(),
        ensures
            final(self).wf(),
            final(self)@ == (IngressState {
                table: released(old(self)@.table, ip, id),
                ..old(self)@
            }),
    {
        let at = match self.find(ip) {
            Some(i) => i,
            None => {
                return ;
            },
        };
        let mut events = self.reservations_of(ip);
        let ghost all = events@;
        let mut k: usize = 0;
        while k < events.len() && events[k].id != id
            invariant
                k <= events@.len(),
                events@ == all,
                forall|j: int| 0 <= j < k ==> (#[trigger] all[j]).id != id,
            decreases events@.len() - k,
        {
            k = k + 1;
        }
        proof {
            lemma_position_unique(all, id, k as int);
        }
        if k < events.len() {
            events.remove(k);
        }
        self.replace(at, events);
    }

    /// Admits a handshake of `peer_addr` at the time `now`, or tells which
    /// budget is exhausted. A refusal by the whole budget leaves no trace in
    /// the window of the address. What this comes to over a history of calls is
    /// `peer_ingress_laws::law_admission_follows_the_history`.
    pub fn try_begin(&mut self, peer_addr: PeerAddr, now: u128) -> (r: Result<
        PeerIngressPermit,
        PeerIngressReject,
    >)
        requires
            old(self).wf(),
        ensures
            final(self).wf(),
            match (old(self)@.verdict(peer_addr.ip, now), r) {
                (Ok(()), Ok(permit)) => permit@ == (peer_addr.ip, old(self)@.next_id),
                (Err(expected), Err(reject)) => reject == expected,
                _ => false,
            },
            final(self)@ == old(self)@.begun(peer_addr.ip, now),
    {
        let ip = peer_addr.ip;
        let id: u64 = self.next_reservation_id;
        let admitted = self.reserve_ip_slot(ip, now, id);
        self.next_reservation_id = id.wrapping_add(1);
        if !admitted {
            self.counters.rejected_ip_budget = self.counters.rejected_ip_budget.wrapping_add(1);
            return Err(PeerIngressReject::PerIpBudget);
        }
        if self.available > 0 {
            self.available = self.available - 1;
            self.counters.accepted = self.counters.accepted.wrapping_add(1);
            Ok(PeerIngressPermit { ip, reservation_id: id })
        } else {
            self.release_ip_slot(ip, id);
            self.counters.rejected_global_budget =
            self.counters.rejected_global_budget.wrapping_add(1);
            Err(PeerIngressReject::GlobalBudget)
        }
    }

    /// Ends an admitted handshake: its slot of the whole budget is free again,
    /// its reservation stays for the rest of the window.
    pub fn release(&mut self, permit: PeerIngressPermit)
        requires
            old(self).wf(),
        ensures
            final(self).wf(),
            final(self)@ == old(self)@.ended(),
    {
        let _ = permit;
        let slots: usize = if self.config.max_global_handshakes == 0 {
            1
        } else {
            self.config.max_global_handshakes
        };
        if self.available < slots {
            self.available = self.available + 1;
        }
    }

    /// Counts a socket that the process-wide connection budget refused.
    pub fn record_peer_connection_budget_rejection(&mut self)
        requires
            old(self).wf(),
        ensures
            final(self).wf(),
            final(self)@ == (IngressState {
                counters: PeerIngressStats {
                    rejected_peer_connection_budget:
                        old(self)@.counters.rejected_peer_connection_budget.wrapping_add(1),
                    ..old(self)@.counters
                },
                ..old(self)@
            }),
    {
        self.counters.rejected_peer_connection_budget =
        self.counters.rejected_peer_connection_budget.wrapping_add(1);
    }

    /// Counts a handshake that took too long.
    pub fn record_handshake_timeout(&mut self)
        requires
            old(self).wf(),
        ensures
            final(self).wf(),
            final(self)@ == (IngressState {
                counters: PeerIngressStats {
                    handshake_timeouts: old(self)@.counters.handshake_timeouts.wrapping_add(1),
                    ..old(self)@.counters
                },
                ..old(self)@
            }),
    {
        self.counters.handshake_timeouts = self.counters.handshake_timeouts.wrapping_add(1);
    }

    /// Counts a handshake that could not be read.
    pub fn record_handshake_read_error(&mut self)
        requires
            old(self).wf(),
        ensures
            final(self).wf(),
            final(self)@ == (IngressState {
                counters: PeerIngressStats {
                    handshake_read_errors: old(self)@.counters.handshake_read_errors.wrapping_add(
                        1,
                    ),
                    ..old(self)@.counters
                },
                ..old(self)@
            }),
    {
        self.counters.handshake_read_errors = self.counters.handshake_read_errors.wrapping_add(1);
    }

    /// Counts a handshake that could not be understood.
    pub fn record_malformed_handshake(&mut self)
        requires
            old(self).wf(),
        ensures
            final(self).wf(),
            final(self)@ == (IngressState {
                counters: PeerIngressStats {
                    malformed_handshakes: old(self)@.counters.malformed_handshakes.wrapping_add(1),
                    ..old(self)@.counters
                },
                ..old(self)@
            }),
    {
        self.counters.malformed_handshakes = self.counters.malformed_handshakes.wrapping_add(1);
    }
}

/// One more free slot, as far as there are slots.
pub open spec fn freed(available: nat, config: PeerIngressConfig) -> nat {
    if available < at_least_one(config.max_global_handshakes) {
        available + 1
    } else {
        available
    }
}

proof fn lemma_live_len(events: Seq<IngressReservation>, now: u128, window: u128)
    ensures
        live(events, now, window).len() <= events.len(),
    decreases events.len(),
{
    if events.len() > 0 && expired(events[0], now, window) {
        lemma_live_len(events.skip(1), now, window);
    }
}

impl PeerIngressPermit {
    /// The number of the reservation that this permit stands for.
    pub fn reservation_id(&self) -> (r: u64)
        ensures
            r == self@.1,
    {
        self.reservation_id
    }

    /// Rolls back an admission whose socket a later budget refused: neither
    /// the slot nor the reservation remains.
    pub fn cancel(self, budget: &mut PeerIngressBudget)
        requires
            old(budget).wf(),
        ensures
            final(budget).wf(),
            final(budget)@ == old(budget)@.cancelled(self@.0, self@.1),
    {
        budget.release_ip_slot(self.ip, self.reservation_id);
        budget.release(self);
    }
}

impl IngressState {
    /// The bounds that hold at all times: every tracked address has a
    /// reservation, none has more than its window admits, and no more
    /// addresses are tracked than fit.
    pub open spec fn valid(self) -> bool {
        &&& self.table.dom().finite()
        &&& self.table.dom().len() <= MAX_TRACKED_PEER_INGRESS_IPS
        &&& self.available <= at_least_one(self.config.max_global_handshakes)
        &&& forall|ip: PeerIp| #[trigger]
            self.table.dom().contains(ip) ==> 0 < self.table[ip].len() <= at_least_one(
                self.config.max_handshakes_per_ip,
            )
    }
}

/// The bounds hold of every budget that its operations have brought about.
pub proof fn law_budget_keeps_its_bounds(budget: PeerIngressBudget)
    requires
        budget.wf(),
    ensures
        budget@.valid(),
{
    assert forall|ip: PeerIp| #[trigger] budget@.table.dom().contains(ip) implies 0
        < budget@.table[ip].len() <= at_least_one(budget@.config.max_handshakes_per_ip) by {
        let i = choose|i: int|
            0 <= i < budget.per_ip@.len() && (#[trigger] budget.per_ip@[i]).ip == ip;
        assert(budget.per_ip@[i].events@.len() > 0);
    }
}

proof fn lemma_live_live(events: Seq<IngressReservation>, now: u128, window: u128)
    ensures
        live(live(events, now, window), now, window) == live(events, now, window),
    decreases events.len(),
{
    if events.len() > 0 && expired(events[0], now, window) {
        lemma_live_live(events.skip(1), now, window);
    }
}

/// Every tracked address has a reservation.
pub open spec fn is_tidy(table: Reservations) -> bool {
    &&& table.dom().finite()
    &&& forall|ip: PeerIp| #[trigger] table.dom().contains(ip) ==> table[ip].len() > 0
}

pub(crate) proof fn lemma_current(state: IngressState, ip: PeerIp, now: u128)
    requires
        is_tidy(state.table),
    ensures
        is_tidy(state.current(ip, now)),
        of_ip(state.current(ip, now), ip) == live(
            of_ip(state.table, ip),
            now,
            state.config.per_ip_window,
        ),
{
    let window = state.config.per_ip_window;
    lemma_live_live(of_ip(state.table, ip), now, window);
    let table = pruned(state.table, ip, now, window);
    let kept = swept(table, now, window);
    assert(kept.dom().subset_of(table.dom()));
    vstd::set_lib::lemma_set_subset_finite(table.dom(), kept.dom());
}

/// Judging one address never forgets a reservation, of any address, whose
/// window is still open.
pub proof fn law_live_reservations_survive(
    state: IngressState,
    ip: PeerIp,
    other: PeerIp,
    now: u128,
)
    requires
        state.valid(),
    ensures
        live(of_ip(state.current(ip, now), other), now, state.config.per_ip_window) == live(
            of_ip(state.table, other),
            now,
            state.config.per_ip_window,
        ),
{
    lemma_current(state, ip, now);
    lemma_live_live(of_ip(state.table, other), now, state.config.per_ip_window);
}

/// Cancelling a fresh admission, and refusing it for want of a slot, leave the
/// reservations as if the handshake had never been made: `next_id` is fresh
/// as long as the numbers have not started over.
pub proof fn law_cancel_undoes_reservation(state: IngressState, ip: PeerIp, now: u128)
    requires
        is_tidy(state.table),
        forall|i: int|
            0 <= i < of_ip(state.table, ip).len() ==> (#[trigger] of_ip(state.table, ip)[i]).id
                != state.next_id,
    ensures
        released(state.reserved(ip, now), ip, state.next_id) == state.current(ip, now),
{
    let table = state.current(ip, now);
    let events = of_ip(table, ip);
    let event = IngressReservation { id: state.next_id, admitted_at: now };
    lemma_current(state, ip, now);
    lemma_live_is_suffix(of_ip(state.table, ip), now, state.config.per_ip_window);
    assert forall|k: int| 0 <= k < events.len() implies (#[trigger] events.push(event)[k]).id
        != state.next_id by {
        let all = of_ip(state.table, ip);
        assert(events[k] == all[all.len() - events.len() + k]);
    }
    lemma_position_unique(events.push(event), state.next_id, events.len() as int);
    assert(events.push(event).remove(events.len() as int) =~= events);
    assert(released(state.reserved(ip, now), ip, state.next_id) =~= table);
}

pub(crate) proof fn lemma_live_is_suffix(events: Seq<IngressReservation>, now: u128, window: u128)
    ensures
        live(events, now, window).len() <= events.len(),
        live(events, now, window) == events.skip(
            events.len() - live(events, now, window).len(),
        ),
    decreases events.len(),
{
    if events.len() > 0 && expired(events[0], now, window) {
        lemma_live_is_suffix(events.skip(1), now, window);
        let rest = live(events.skip(1), now, window);
        assert(events.skip(1).skip(events.len() - 1 - rest.len()) =~= events.skip(
            events.len() - rest.len(),
        ));
    } else {
        assert(events.skip(0) =~= events);
    }
}

/// Once the window of every reservation of an address has passed, to the
/// nanosecond, its next handshake is not refused for its own sake.
pub proof fn law_window_reopens(state: IngressState, ip: PeerIp, now: u128)
    requires
        state.valid(),
        forall|i: int|
            0 <= i < of_ip(state.table, ip).len() ==> expired(
                #[trigger] of_ip(state.table, ip)[i],
                now,
                state.config.per_ip_window,
            ),
        state.table.dom().len() < MAX_TRACKED_PEER_INGRESS_IPS,
    ensures
        !state.ip_refused(ip, now),
{
    let window = state.config.per_ip_window;
    lemma_all_expired(of_ip(state.table, ip), now, window);
    assert(pruned(state.table, ip, now, window) =~= state.table.remove(ip));
}

proof fn lemma_all_expired(events: Seq<IngressReservation>, now: u128, window: u128)
    requires
        forall|i: int| 0 <= i < events.len() ==> expired(#[trigger] events[i], now, window),
    ensures
        live(events, now, window).len() == 0,
    decreases events.len(),
{
    if events.len() > 0 {
        let rest = events.skip(1);
        assert forall|i: int| 0 <= i < rest.len() implies expired(
            #[trigger] rest[i],
            now,
            window,
        ) by {
            assert(rest[i] == events[i + 1]);
        }
        lemma_all_expired(rest, now, window);
    }
}

/// A table that is full of addresses whose windows have all passed admits a
/// new address.
pub proof fn law_stale_addresses_make_room(state: IngressState, ip: PeerIp, now: u128)
    requires
        state.valid(),
        !state.table.dom().contains(ip),
        forall|other: PeerIp, i: int|
            state.table.dom().contains(other) && 0 <= i < state.table[other].len() ==> expired(
                #[trigger] state.table[other][i],
                now,
                state.config.per_ip_window,
            ),
    ensures
        !state.ip_refused(ip, now),
{
    let window = state.config.per_ip_window;
    assert(pruned(state.table, ip, now, window) =~= state.table);
    if state.table.dom().len() >= MAX_TRACKED_PEER_INGRESS_IPS {
        assert forall|other: PeerIp| !swept(state.table, now, window).dom().contains(other) by {
            if state.table.dom().contains(other) {
                lemma_all_expired(state.table[other], now, window);
            }
        }
        assert(swept(state.table, now, window).dom() =~= Set::<PeerIp>::empty());
    }
}

/// Each failure is counted under its own name, and nothing else is touched.
pub proof fn law_failures_are_counted_under_their_name()
    ensures
        forall|b: &mut PeerIngressBudget| #[trigger]
            call_ensures(PeerIngressBudget::record_handshake_timeout, (b,), ()) ==> {
                let n = (*b)@.counters.handshake_timeouts;
                &&& n < u64::MAX ==> (*final(b))@.counters.handshake_timeouts == n + 1
                &&& (*final(b))@.counters.handshake_read_errors
                    == (*b)@.counters.handshake_read_errors
                &&& (*final(b))@.counters.malformed_handshakes == (*b)@.counters.malformed_handshakes
                &&& (*final(b))@.table == (*b)@.table && (*final(b))@.available == (*b)@.available
            },
        forall|b: &mut PeerIngressBudget| #[trigger]
            call_ensures(PeerIngressBudget::record_handshake_read_error, (b,), ()) ==> {
                let n = (*b)@.counters.handshake_read_errors;
                &&& n < u64::MAX ==> (*final(b))@.counters.handshake_read_errors == n + 1
                &&& (*final(b))@.counters.handshake_timeouts == (*b)@.counters.handshake_timeouts
                &&& (*final(b))@.counters.malformed_handshakes == (*b)@.counters.malformed_handshakes
                &&& (*final(b))@.table == (*b)@.table && (*final(b))@.available == (*b)@.available
            },
        forall|b: &mut PeerIngressBudget| #[trigger]
            call_ensures(PeerIngressBudget::record_malformed_handshake, (b,), ()) ==> {
                let n = (*b)@.counters.malformed_handshakes;
                &&& n < u64::MAX ==> (*final(b))@.counters.malformed_handshakes == n + 1
                &&& (*final(b))@.counters.handshake_timeouts == (*b)@.counters.handshake_timeouts
                &&& (*final(b))@.counters.handshake_read_errors
                    == (*b)@.counters.handshake_read_errors
                &&& (*final(b))@.table == (*b)@.table && (*final(b))@.available == (*b)@.available
            },
        forall|b: &mut PeerIngressBudget| #[trigger]
            call_ensures(
                PeerIngressBudget::record_peer_connection_budget_rejection,
                (b,),
                (),
            ) ==> {
                let n = (*b)@.counters.rejected_peer_connection_budget;
                &&& n < u64::MAX ==> (*final(b))@.counters.rejected_peer_connection_budget == n + 1
                &&& (*final(b))@.counters.accepted == (*b)@.counters.accepted
                &&& (*final(b))@.table == (*b)@.table && (*final(b))@.available == (*b)@.available
            },
{
}

/// A reservation counts from the moment at which it was made, for exactly a window;
/// a clock that runs backwards does not end it. A limit of zero admits one.
pub proof fn law_reservations_last_a_window(event: IngressReservation, now: u128, window: u128)
    requires
        window > 0,
    ensures
        expired(event, now, window) <==> now >= event.admitted_at + window,
        at_least_one(0) == 1,
        forall|n: usize| n > 0 ==> #[trigger] at_least_one(n) == n,
{
}

} // verus!
