//! What the admission of inbound handshakes promises over any history of calls.

use vstd::prelude::*;

use crate::net::PeerIp;
use crate::peer_ingress::{
    at_least_one, expired, is_tidy, law_cancel_undoes_reservation, lemma_current,
    lemma_live_is_suffix, lemma_position, live, no_stats, of_ip, position, pruned, without,
    IngressReservation, IngressState, PeerIngressConfig, PeerIngressReject, PeerIngressStats,
    MAX_TRACKED_PEER_INGRESS_IPS,
};

verus! {

/// One call of the admission budget.
pub enum IngressCall {
    /// A handshake of `ip` asks for admission at the time `now`.
    Begin { ip: PeerIp, now: u128 },
    /// The permit of an admission is handed back.
    Release,
    /// The admission `id` of `ip` is rolled back, and its permit handed back.
    Cancel { ip: PeerIp, id: u64 },
    /// Something is counted.
    Count { counters: PeerIngressStats },
}

/// A budget that nothing was asked of yet.
pub open spec fn untouched(config: PeerIngressConfig) -> IngressState {
    IngressState {
        config,
        available: at_least_one(config.max_global_handshakes),
        table: Map::empty(),
        next_id: 1,
        counters: no_stats(),
    }
}

/// The budget after a call.
pub open spec fn after_call(state: IngressState, call: IngressCall) -> IngressState {
    match call {
        IngressCall::Begin { ip, now } => state.begun(ip, now),
        IngressCall::Release => state.ended(),
        IngressCall::Cancel { ip, id } => state.cancelled(ip, id),
        IngressCall::Count { counters } => IngressState { counters, ..state },
    }
}

/// The budget after a history of calls.
pub open spec fn after(config: PeerIngressConfig, calls: Seq<IngressCall>) -> IngressState
    decreases calls.len(),
{
    if calls.len() == 0 {
        untouched(config)
    } else {
        after_call(after(config, calls.drop_last()), calls.last())
    }
}

/// The last call of a history was admitted.
pub open spec fn ends_admitted(config: PeerIngressConfig, calls: Seq<IngressCall>) -> bool {
    calls.last() matches IngressCall::Begin { ip, now } && after(
        config,
        calls.drop_last(),
    ).verdict(ip, now) is Ok
}

/// The admissions of `ip` that were not cancelled, oldest first.
pub open spec fn admissions(config: PeerIngressConfig, calls: Seq<IngressCall>, ip: PeerIp) -> Seq<
    IngressReservation,
>
    decreases calls.len(),
{
    if calls.len() == 0 {
        Seq::empty()
    } else {
        let before = admissions(config, calls.drop_last(), ip);
        match calls.last() {
            IngressCall::Begin { ip: asking, now } => if asking == ip && ends_admitted(
                config,
                calls,
            ) {
                before.push(
                    IngressReservation {
                        id: after(config, calls.drop_last()).next_id,
                        admitted_at: now,
                    },
                )
            } else {
                before
            },
            IngressCall::Cancel { ip: cancelled, id } => if cancelled == ip {
                without(before, id)
            } else {
                before
            },
            _ => before,
        }
    }
}

/// The permits that were given and not handed back.
pub open spec fn live_permits(config: PeerIngressConfig, calls: Seq<IngressCall>) -> int
    decreases calls.len(),
{
    if calls.len() == 0 {
        0
    } else {
        live_permits(config, calls.drop_last()) + match calls.last() {
            IngressCall::Begin { .. } => if ends_admitted(config, calls) {
                1int
            } else {
                0
            },
            IngressCall::Release => -1,
            IngressCall::Cancel { .. } => -1,
            IngressCall::Count { .. } => 0,
        }
    }
}

/// When the last handshake asked for admission.
pub open spec fn clock(calls: Seq<IngressCall>) -> u128
    decreases calls.len(),
{
    if calls.len() == 0 {
        0
    } else {
        match calls.last() {
            IngressCall::Begin { now, .. } => now,
            _ => clock(calls.drop_last()),
        }
    }
}

/// The calls can have been made: the clock does not go back, and a permit is
/// handed back only once.
pub open spec fn is_history(config: PeerIngressConfig, calls: Seq<IngressCall>) -> bool
    decreases calls.len(),
{
    calls.len() == 0 || {
        &&& is_history(config, calls.drop_last())
        &&& match calls.last() {
            IngressCall::Begin { now, .. } => clock(calls.drop_last()) <= now,
            IngressCall::Count { .. } => true,
            _ => live_permits(config, calls.drop_last()) > 0,
        }
    }
}

/// The reservations whose window is still open.
pub open spec fn recent(events: Seq<IngressReservation>, now: u128, window: u128) -> Seq<
    IngressReservation,
> {
    events.filter(|e: IngressReservation| !expired(e, now, window))
}

/// In the order of their times and of their numbers, none of them later than
/// `now` or numbered `next_id` or more.
spec fn is_ordered(events: Seq<IngressReservation>, now: u128, next_id: u64) -> bool {
    &&& forall|i: int|
        0 <= i < events.len() ==> (#[trigger] events[i]).admitted_at <= now && events[i].id
            < next_id
    &&& forall|i: int, j: int|
        0 <= i < j < events.len() ==> (#[trigger] events[i]).admitted_at <= (
        #[trigger] events[j]).admitted_at && events[i].id < events[j].id
}

/// `kept` is what is left of `all` once some reservations at the front are gone,
/// all of which have expired at the time `now`.
spec fn is_rest(
    kept: Seq<IngressReservation>,
    all: Seq<IngressReservation>,
    now: u128,
    window: u128,
) -> bool {
    &&& kept.len() <= all.len()
    &&& kept == all.skip(all.len() - kept.len())
    &&& forall|i: int|
        0 <= i < all.len() - kept.len() ==> expired(#[trigger] all[i], now, window)
}

proof fn lemma_rest_later(
    kept: Seq<IngressReservation>,
    all: Seq<IngressReservation>,
    now: u128,
    later: u128,
    window: u128,
)
    requires
        is_rest(kept, all, now, window),
        now <= later,
    ensures
        is_rest(kept, all, later, window),
{
    assert forall|i: int| 0 <= i < all.len() - kept.len() implies expired(
        #[trigger] all[i],
        later,
        window,
    ) by {
        assert(expired(all[i], now, window));
    }
}

proof fn lemma_live_drops_expired(events: Seq<IngressReservation>, now: u128, window: u128)
    ensures
        is_rest(live(events, now, window), events, now, window),
        live(events, now, window).len() > 0 ==> !expired(live(events, now, window)[0], now, window),
    decreases events.len(),
{
    lemma_live_is_suffix(events, now, window);
    if events.len() > 0 && expired(events[0], now, window) {
        let rest = events.skip(1);
        lemma_live_drops_expired(rest, now, window);
        let kept = live(events, now, window);
        assert forall|i: int| 0 <= i < events.len() - kept.len() implies expired(
            #[trigger] events[i],
            now,
            window,
        ) by {
            if i > 0 {
                assert(rest[i - 1] == events[i]);
            }
        }
    }
}

proof fn lemma_rest_of_rest(
    least: Seq<IngressReservation>,
    kept: Seq<IngressReservation>,
    all: Seq<IngressReservation>,
    now: u128,
    window: u128,
)
    requires
        is_rest(least, kept, now, window),
        is_rest(kept, all, now, window),
    ensures
        is_rest(least, all, now, window),
{
    let gone = all.len() - kept.len();
    assert(kept.skip(kept.len() - least.len()) =~= all.skip(all.len() - least.len()));
    assert forall|i: int| 0 <= i < all.len() - least.len() implies expired(
        #[trigger] all[i],
        now,
        window,
    ) by {
        if i >= gone {
            assert(kept[i - gone] == all[i]);
            assert(expired(kept[i - gone], now, window));
        }
    }
}

proof fn lemma_rest_pushed(
    kept: Seq<IngressReservation>,
    all: Seq<IngressReservation>,
    event: IngressReservation,
    now: u128,
    window: u128,
)
    requires
        is_rest(kept, all, now, window),
    ensures
        is_rest(kept.push(event), all.push(event), now, window),
{
    assert(kept.push(event) =~= all.push(event).skip(all.len() - kept.len()));
    assert forall|i: int| 0 <= i < all.len() - kept.len() implies expired(
        #[trigger] all.push(event)[i],
        now,
        window,
    ) by {
        assert(all.push(event)[i] == all[i]);
    }
}

proof fn lemma_rest_without(
    kept: Seq<IngressReservation>,
    all: Seq<IngressReservation>,
    id: u64,
    now: u128,
    window: u128,
    bound: u128,
    next_id: u64,
)
    requires
        is_rest(kept, all, now, window),
        is_ordered(all, bound, next_id),
    ensures
        is_rest(without(kept, id), without(all, id), now, window),
        is_ordered(without(all, id), bound, next_id),
{
    let gone = all.len() - kept.len();
    lemma_position(all, id);
    lemma_position(kept, id);
    let p = position(all, id);
    let q = position(kept, id);
    let smaller = without(all, id);
    if p < all.len() {
        assert forall|i: int| 0 <= i < smaller.len() implies (#[trigger] smaller[i])
            == all[if i < p { i } else { i + 1 }] by {}
        if p < gone {
            // The numbers differ, so nothing that was kept carries `id`.
            if q < kept.len() {
                assert(kept[q] == all[gone + q]);
                assert(all[p].id < all[gone + q].id);
            }
            assert(kept =~= smaller.skip(gone - 1));
            assert forall|i: int| 0 <= i < gone - 1 implies expired(
                #[trigger] smaller[i],
                now,
                window,
            ) by {
                assert(smaller[i] == all[if i < p { i } else { i + 1 }]);
            }
        } else {
            assert(kept[p - gone] == all[p]);
            if q < p - gone {
                assert(kept[q] == all[gone + q]);
                assert(all[gone + q].id < all[p].id);
            }
            assert(q == p - gone) by {
                if q > p - gone {
                    assert(kept[p - gone].id != id);
                }
            }
            assert(kept.remove(q) =~= smaller.skip(gone));
            assert forall|i: int| 0 <= i < gone implies expired(
                #[trigger] smaller[i],
                now,
                window,
            ) by {
                assert(smaller[i] == all[i]);
            }
        }
    } else {
        if q < kept.len() {
            assert(kept[q] == all[gone + q]);
            assert(all[gone + q].id != id);
        }
    }
}

/// Judging one address leaves the reservations of every other as they are, or
/// drops expired ones at their front.
proof fn lemma_current_rest(
    state: IngressState,
    ip: PeerIp,
    other: PeerIp,
    all: Seq<IngressReservation>,
    now: u128,
)
    requires
        is_tidy(state.table),
        is_rest(of_ip(state.table, other), all, now, state.config.per_ip_window),
    ensures
        is_rest(of_ip(state.current(ip, now), other), all, now, state.config.per_ip_window),
{
    let window = state.config.per_ip_window;
    let events = of_ip(state.table, other);
    lemma_current(state, ip, now);
    lemma_live_drops_expired(events, now, window);
    lemma_rest_of_rest(live(events, now, window), events, all, now, window);
    let table = pruned(state.table, ip, now, window);
    let found = of_ip(state.current(ip, now), other);
    if other != ip {
        assert(of_ip(table, other) == events);
        if state.current(ip, now) == table {
            assert(found == events);
        } else {
            assert(found =~= live(events, now, window));
        }
    }
}

proof fn lemma_filter_is_tail(
    events: Seq<IngressReservation>,
    gone: int,
    now: u128,
    window: u128,
)
    requires
        0 <= gone <= events.len(),
        forall|i: int| 0 <= i < gone ==> expired(#[trigger] events[i], now, window),
        forall|i: int| gone <= i < events.len() ==> !expired(#[trigger] events[i], now, window),
    ensures
        recent(events, now, window) == events.skip(gone),
    decreases events.len(),
{
    reveal(Seq::filter);
    if events.len() > 0 {
        let earlier = events.drop_last();
        if gone == events.len() {
            lemma_filter_is_tail(earlier, gone - 1, now, window);
            assert(expired(events[events.len() - 1], now, window));
            assert(recent(events, now, window) =~= events.skip(gone));
        } else {
            lemma_filter_is_tail(earlier, gone, now, window);
            assert(!expired(events[events.len() - 1], now, window));
            assert(recent(events, now, window) =~= events.skip(gone));
        }
    } else {
        assert(recent(events, now, window) =~= events.skip(gone));
    }
}

/// What the budget keeps of an address is what the history says of it, as far
/// as it matters at the time `now`.
proof fn lemma_live_is_recent(
    kept: Seq<IngressReservation>,
    all: Seq<IngressReservation>,
    now: u128,
    window: u128,
    bound: u128,
    next_id: u64,
)
    requires
        is_rest(kept, all, now, window),
        is_ordered(all, bound, next_id),
        bound <= now,
    ensures
        live(kept, now, window) == recent(all, now, window),
{
    let open = live(kept, now, window);
    lemma_live_drops_expired(kept, now, window);
    lemma_rest_of_rest(open, kept, all, now, window);
    let gone = all.len() - open.len();
    assert forall|i: int| gone <= i < all.len() implies !expired(
        #[trigger] all[i],
        now,
        window,
    ) by {
        assert(open[0] == all[gone]);
        if i > gone {
            assert(all[gone].admitted_at <= all[i].admitted_at);
        }
    }
    lemma_filter_is_tail(all, gone, now, window);
}

/// The budget keeps to its history.
spec fn follows(config: PeerIngressConfig, calls: Seq<IngressCall>) -> bool {
    let state = after(config, calls);
    &&& state.config == config
    &&& is_tidy(state.table)
    &&& state.next_id <= calls.len() + 1
    &&& 0 <= live_permits(config, calls) <= at_least_one(config.max_global_handshakes)
    &&& state.available == at_least_one(config.max_global_handshakes) - live_permits(config, calls)
    &&& forall|ip: PeerIp|
        is_rest(
            of_ip(state.table, ip),
            #[trigger] admissions(config, calls, ip),
            clock(calls),
            config.per_ip_window,
        ) && is_ordered(admissions(config, calls, ip), clock(calls), state.next_id)
}

proof fn lemma_next_number_is_fresh(
    config: PeerIngressConfig,
    calls: Seq<IngressCall>,
    ip: PeerIp,
)
    requires
        follows(config, calls),
    ensures
        ({
            let state = after(config, calls);
            forall|i: int|
                0 <= i < of_ip(state.table, ip).len() ==> (#[trigger] of_ip(state.table, ip)[i]).id
                    != state.next_id
        }),
{
    let state = after(config, calls);
    let kept = of_ip(state.table, ip);
    let all = admissions(config, calls, ip);
    assert(is_rest(kept, all, clock(calls), config.per_ip_window));
    assert(is_ordered(all, clock(calls), state.next_id));
    assert forall|i: int| 0 <= i < kept.len() implies (#[trigger] kept[i]).id != state.next_id by {
        assert(kept[i] == all[all.len() - kept.len() + i]);
    }
}

proof fn lemma_begin_follows(
    config: PeerIngressConfig,
    calls: Seq<IngressCall>,
    asking: PeerIp,
    now: u128,
)
    requires
        calls.len() > 0,
        calls.len() < u64::MAX,
        calls.last() == (IngressCall::Begin { ip: asking, now }),
        follows(config, calls.drop_last()),
        clock(calls.drop_last()) <= now,
    ensures
        follows(config, calls),
{
    let earlier = calls.drop_last();
    let before = after(config, earlier);
    let state = after(config, calls);
    let window = config.per_ip_window;
    let judged = before.current(asking, now);
    let event = IngressReservation { id: before.next_id, admitted_at: now };
    lemma_current(before, asking, now);
    assert(state.next_id == before.next_id + 1);
    lemma_next_number_is_fresh(config, earlier, asking);
    law_cancel_undoes_reservation(before, asking, now);
    assert forall|ip: PeerIp|
        is_rest(
            of_ip(state.table, ip),
            #[trigger] admissions(config, calls, ip),
            clock(calls),
            window,
        ) && is_ordered(admissions(config, calls, ip), clock(calls), state.next_id) by {
        let all = admissions(config, earlier, ip);
        assert(is_ordered(all, clock(earlier), before.next_id));
        lemma_rest_later(of_ip(before.table, ip), all, clock(earlier), now, window);
        lemma_current_rest(before, asking, ip, all, now);
        if ip == asking && ends_admitted(config, calls) {
            lemma_rest_pushed(of_ip(judged, ip), all, event, now, window);
            assert(of_ip(state.table, ip) == of_ip(judged, ip).push(event));
            let more = all.push(event);
            assert(admissions(config, calls, ip) == more);
            assert forall|i: int| 0 <= i < more.len() implies (#[trigger] more[i]).admitted_at
                <= now && more[i].id < state.next_id by {
                if i < all.len() {
                    assert(more[i] == all[i]);
                }
            }
            assert forall|i: int, j: int| 0 <= i < j < more.len() implies (
            #[trigger] more[i]).admitted_at <= (#[trigger] more[j]).admitted_at && more[i].id
                < more[j].id by {
                assert(more[i] == all[i]);
                if j < all.len() {
                    assert(more[j] == all[j]);
                }
            }
        } else {
            assert(admissions(config, calls, ip) == all);
            assert(of_ip(state.table, ip) == of_ip(judged, ip));
        }
    }
}

proof fn lemma_cancel_follows(
    config: PeerIngressConfig,
    calls: Seq<IngressCall>,
    cancelled: PeerIp,
    id: u64,
)
    requires
        calls.len() > 0,
        calls.last() == (IngressCall::Cancel { ip: cancelled, id }),
        follows(config, calls.drop_last()),
        live_permits(config, calls.drop_last()) > 0,
    ensures
        follows(config, calls),
{
    let earlier = calls.drop_last();
    let before = after(config, earlier);
    let state = after(config, calls);
    let window = config.per_ip_window;
    assert forall|ip: PeerIp|
        is_rest(
            of_ip(state.table, ip),
            #[trigger] admissions(config, calls, ip),
            clock(calls),
            window,
        ) && is_ordered(admissions(config, calls, ip), clock(calls), state.next_id) by {
        let all = admissions(config, earlier, ip);
        let kept = of_ip(before.table, ip);
        assert(is_rest(kept, all, clock(earlier), window));
        if ip == cancelled {
            lemma_rest_without(kept, all, id, clock(earlier), window, clock(earlier), before.next_id);
            lemma_position(kept, id);
            assert(of_ip(state.table, ip) =~= without(kept, id));
        }
    }
}

proof fn lemma_history_is_followed(config: PeerIngressConfig, calls: Seq<IngressCall>)
    requires
        is_history(config, calls),
        calls.len() < u64::MAX,
    ensures
        follows(config, calls),
    decreases calls.len(),
{
    if calls.len() == 0 {
        assert forall|ip: PeerIp|
            is_rest(
                of_ip(untouched(config).table, ip),
                #[trigger] admissions(config, calls, ip),
                clock(calls),
                config.per_ip_window,
            ) by {
            assert(of_ip(untouched(config).table, ip) =~= admissions(config, calls, ip).skip(0));
        }
    } else {
        let earlier = calls.drop_last();
        lemma_history_is_followed(config, earlier);
        match calls.last() {
            IngressCall::Begin { ip, now } => {
                lemma_begin_follows(config, calls, ip, now);
            },
            IngressCall::Cancel { ip, id } => {
                lemma_cancel_follows(config, calls, ip, id);
            },
            _ => {
                assert forall|ip: PeerIp|
                    is_rest(
                        of_ip(after(config, calls).table, ip),
                        #[trigger] admissions(config, calls, ip),
                        clock(calls),
                        config.per_ip_window,
                    ) && is_ordered(
                        admissions(config, calls, ip),
                        clock(calls),
                        after(config, calls).next_id,
                    ) by {
                    assert(admissions(config, calls, ip) == admissions(config, earlier, ip));
                }
            },
        }
    }
}

/// What becomes of a handshake depends on the history alone. It is refused for
/// the sake of its address exactly where as many admissions of that address
/// as the window holds were made less than a window ago and not cancelled;
/// permits that were handed back count. Else it is admitted exactly where
/// fewer permits than there are slots are out. Each is counted once, under what
/// became of it. The numbers of reservations
/// start over after so many calls as a `u64` counts, and a table that is full
/// of addresses refuses a new one; short of that, this holds of every history.
pub proof fn law_admission_follows_the_history(
    config: PeerIngressConfig,
    calls: Seq<IngressCall>,
    ip: PeerIp,
    now: u128,
)
    requires
        is_history(config, calls),
        calls.len() < u64::MAX,
        clock(calls) <= now,
        after(config, calls).table.dom().len() < MAX_TRACKED_PEER_INGRESS_IPS,
    ensures
        ({
            let state = after(config, calls);
            let made = recent(admissions(config, calls, ip), now, config.per_ip_window).len();
            let full = made >= at_least_one(config.max_handshakes_per_ip);
            let free = live_permits(config, calls) < at_least_one(config.max_global_handshakes);
            let counted = state.begun(ip, now).counters;
            &&& state.verdict(ip, now) == if full {
                Err::<(), PeerIngressReject>(PeerIngressReject::PerIpBudget)
            } else if free {
                Ok(())
            } else {
                Err(PeerIngressReject::GlobalBudget)
            }
            &&& counted == if full {
                PeerIngressStats {
                    rejected_ip_budget: state.counters.rejected_ip_budget.wrapping_add(1),
                    ..state.counters
                }
            } else if free {
                PeerIngressStats {
                    accepted: state.counters.accepted.wrapping_add(1),
                    ..state.counters
                }
            } else {
                PeerIngressStats {
                    rejected_global_budget: state.counters.rejected_global_budget.wrapping_add(1),
                    ..state.counters
                }
            }
        }),
{
    lemma_history_is_followed(config, calls);
    let state = after(config, calls);
    let window = config.per_ip_window;
    let all = admissions(config, calls, ip);
    let kept = of_ip(state.table, ip);
    lemma_rest_later(kept, all, clock(calls), now, window);
    lemma_live_is_recent(kept, all, now, window, clock(calls), state.next_id);
    lemma_current(state, ip, now);
    let table = pruned(state.table, ip, now, window);
    assert(table.dom().len() <= state.table.dom().len()) by {
        if live(kept, now, window).len() > 0 {
            lemma_live_is_suffix(kept, now, window);
            assert(state.table.dom().contains(ip));
            assert(table.dom() =~= state.table.dom());
        }
    }
    assert(state.current(ip, now) == table);
}

/// An admission that is rolled back at once leaves nothing behind: the slots and
/// the reservations are those of a budget that only judged the handshake.
pub proof fn law_rolled_back_admission_leaves_nothing(
    config: PeerIngressConfig,
    calls: Seq<IngressCall>,
    ip: PeerIp,
    now: u128,
)
    requires
        is_history(config, calls),
        calls.len() < u64::MAX,
        after(config, calls).verdict(ip, now) is Ok,
    ensures
        ({
            let before = after(config, calls);
            let back = before.begun(ip, now).cancelled(ip, before.next_id);
            &&& back.available == before.available
            &&& back.table == before.current(ip, now)
        }),
{
    lemma_history_is_followed(config, calls);
    lemma_next_number_is_fresh(config, calls, ip);
    law_cancel_undoes_reservation(after(config, calls), ip, now);
}

/// No more permits are out than there are slots, whatever is asked and in
/// whatever order.
pub proof fn law_permits_never_exceed_the_slots(config: PeerIngressConfig, calls: Seq<IngressCall>)
    requires
        is_history(config, calls),
        calls.len() < u64::MAX,
    ensures
        0 <= live_permits(config, calls) <= at_least_one(config.max_global_handshakes),
        after(config, calls).available == at_least_one(config.max_global_handshakes)
            - live_permits(config, calls),
{
    lemma_history_is_followed(config, calls);
}

} // verus!
