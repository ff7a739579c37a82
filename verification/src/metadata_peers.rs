//! Which peers are asked for an info dictionary, and how often.
//!
//! Times are nanoseconds on one monotonic clock.

use vstd::prelude::*;

use crate::net::PeerAddr;

verus! {

/// The most peers that trackers may report for one torrent: what a collection
/// of four mebibytes holds.
pub const MAX_TRACKER_PEERS: usize = 16_384;

/// How many peers are asked at the same time.
pub const MAX_METADATA_FETCH_CONCURRENCY: usize = 8;

/// How long a peer is left alone after it was asked.
pub const METADATA_PEER_RETRY_AFTER: u128 = 15_000_000_000;

/// The least number of peers whose last attempt is remembered.
pub const METADATA_PEER_ATTEMPT_CACHE_MIN: usize = 256;

/// How many attempts are remembered for each peer that may be connected.
pub const METADATA_PEER_ATTEMPT_CACHE_MULTIPLIER: usize = 4;

/// `n`, brought into the range from `low` to `high`.
pub open spec fn clamped(n: nat, low: nat, high: nat) -> nat {
    if n < low {
        low
    } else if n > high {
        high
    } else {
        n
    }
}

/// How many attempts are remembered.
pub fn metadata_peer_attempt_cache_cap(max_peers: usize) -> (r: usize)
    ensures
        r == clamped(
            max_peers as nat * METADATA_PEER_ATTEMPT_CACHE_MULTIPLIER as nat,
            METADATA_PEER_ATTEMPT_CACHE_MIN as nat,
            MAX_TRACKER_PEERS as nat,
        ),
{
    match max_peers.checked_mul(METADATA_PEER_ATTEMPT_CACHE_MULTIPLIER) {
        Some(n) => if n < METADATA_PEER_ATTEMPT_CACHE_MIN {
            METADATA_PEER_ATTEMPT_CACHE_MIN
        } else if n > MAX_TRACKER_PEERS {
            MAX_TRACKER_PEERS
        } else {
            n
        },
        None => MAX_TRACKER_PEERS,
    }
}

/// How many peers are taken from one report.
pub fn metadata_peer_candidate_cap(max_peers: usize) -> (r: usize)
    ensures
        r == clamped(
            max_peers as nat,
            MAX_METADATA_FETCH_CONCURRENCY as nat,
            MAX_TRACKER_PEERS as nat,
        ),
{
    if max_peers < MAX_METADATA_FETCH_CONCURRENCY {
        MAX_METADATA_FETCH_CONCURRENCY
    } else if max_peers > MAX_TRACKER_PEERS {
        MAX_TRACKER_PEERS
    } else {
        max_peers
    }
}

/// When each peer was last asked.
pub type Attempts = Map<PeerAddr, u128>;

/// The peer was asked so shortly before `now` that it is left alone.
pub open spec fn cooling(last: u128, now: u128) -> bool {
    (if now >= last {
        now - last
    } else {
        0
    }) < METADATA_PEER_RETRY_AFTER
}

/// The peer may be asked at `now`.
pub open spec fn may_ask(attempts: Attempts, peer: PeerAddr, now: u128) -> bool {
    !(attempts.dom().contains(peer) && cooling(attempts[peer], now))
}

/// The attempts that still keep a peer from being asked.
pub open spec fn recent(attempts: Attempts, now: u128) -> Attempts {
    Map::new(
        |peer: PeerAddr| attempts.dom().contains(peer) && cooling(attempts[peer], now),
        |peer: PeerAddr| attempts[peer],
    )
}

/// Every attempt of `part` is one of `whole`.
pub open spec fn part_of(part: Attempts, whole: Attempts) -> bool {
    forall|peer: PeerAddr| #[trigger]
        part.dom().contains(peer) ==> whole.dom().contains(peer) && part[peer] == whole[peer]
}

/// `after` is what is left of `before` when the oldest attempts are forgotten
/// until `cap` are left. The attempt of `kept` is never forgotten. Which of
/// several equally old attempts goes first is left open.
pub open spec fn forgotten_down_to(
    before: Attempts,
    cap: nat,
    kept: PeerAddr,
    after: Attempts,
) -> bool {
    &&& part_of(after, before)
    &&& before.dom().contains(kept) ==> after.dom().contains(kept)
    &&& after.dom().len() == if before.dom().len() <= cap {
        before.dom().len()
    } else if cap == 0 && before.dom().contains(kept) {
        1
    } else {
        cap
    }
    &&& forall|gone: PeerAddr, left: PeerAddr|
        #![trigger before.dom().contains(gone), after.dom().contains(left)]
        before.dom().contains(gone) && !after.dom().contains(gone) && after.dom().contains(left)
            && left != kept ==> before[gone] <= before[left]
}

struct Attempt {
    peer: PeerAddr,
    at: u128,
}

/// A bounded memory of when each peer was last asked.
pub struct PeerAttempts {
    entries: Vec<Attempt>,
    attempts: Ghost<Attempts>,
}

/// `entries` lists `attempts`, each peer once.
spec fn lists(entries: Seq<Attempt>, attempts: Attempts) -> bool {
    &&& attempts.dom().finite()
    &&& attempts.dom().len() == entries.len()
    &&& forall|i: int|
        0 <= i < entries.len() ==> attempts.dom().contains((#[trigger] entries[i]).peer)
            && attempts[entries[i].peer] == entries[i].at
    &&& forall|i: int, j: int|
        0 <= i < j < entries.len() ==> (#[trigger] entries[i]).peer != (#[trigger] entries[j]).peer
    &&& forall|peer: PeerAddr| #[trigger]
        attempts.dom().contains(peer) ==> exists|i: int|
            0 <= i < entries.len() && (#[trigger] entries[i]).peer == peer
}

impl View for PeerAttempts {
    type V = Attempts;

    closed spec fn view(&self) -> Attempts {
        self.attempts@
    }
}

/// Forgetting one more of the oldest attempts.
proof fn lemma_forget_one_more(
    before: Attempts,
    cap: nat,
    kept: PeerAddr,
    middle: Attempts,
    oldest: PeerAddr,
    after: Attempts,
)
    requires
        before.dom().finite(),
        before.dom().contains(kept),
        middle.dom().len() > cap,
        middle.dom().len() > 1,
        middle.dom().contains(oldest),
        oldest != kept,
        middle.dom().contains(kept),
        part_of(middle, before),
        after == middle.remove(oldest),
        forall|peer: PeerAddr| #[trigger]
            middle.dom().contains(peer) && peer != kept ==> middle[oldest] <= middle[peer],
        forall|gone: PeerAddr, left: PeerAddr|
            #![trigger before.dom().contains(gone), middle.dom().contains(left)]
            before.dom().contains(gone) && !middle.dom().contains(gone) && middle.dom().contains(
                left,
            ) && left != kept ==> before[gone] <= before[left],
    ensures
        part_of(after, before),
        after.dom().contains(kept),
        forall|gone: PeerAddr, left: PeerAddr|
            #![trigger before.dom().contains(gone), after.dom().contains(left)]
            before.dom().contains(gone) && !after.dom().contains(gone) && after.dom().contains(left)
                && left != kept ==> before[gone] <= before[left],
{
    assert forall|gone: PeerAddr, left: PeerAddr|
        #![trigger before.dom().contains(gone), after.dom().contains(left)]
        before.dom().contains(gone) && !after.dom().contains(gone) && after.dom().contains(left)
            && left != kept implies before[gone] <= before[left] by {
        assert(middle.dom().contains(left));
        assert(before[left] == middle[left]);
        if gone == oldest {
            assert(before[gone] == middle[gone]);
        }
    }
}

impl PeerAttempts {
    pub closed spec fn wf(&self) -> bool {
        lists(self.entries@, self.attempts@)
    }

    /// Nobody has been asked.
    pub fn new() -> (r: Self)
        ensures
            r.wf(),
            r@ == Map::<PeerAddr, u128>::empty(),
    {
        PeerAttempts { entries: Vec::new(), attempts: Ghost(Map::empty()) }
    }

    /// How many attempts are remembered.
    pub fn len(&self) -> (r: usize)
        requires
            self.wf(),
        ensures
            r == self@.dom().len(),
    {
        self.entries.len()
    }

    fn find(&self, peer: PeerAddr) -> (r: Option<usize>)
        requires
            self.wf(),
        ensures
            match r {
                Some(i) => i < self.entries@.len() && self.entries@[i as int].peer == peer,
                None => !self@.dom().contains(peer),
            },
    {
        let mut i: usize = 0;
        while i < self.entries.len()
            invariant
                i <= self.entries@.len(),
                forall|k: int| 0 <= k < i ==> (#[trigger] self.entries@[k]).peer != peer,
            decreases self.entries@.len() - i,
        {
            if self.entries[i].peer == peer {
                return Some(i);
            }
            i = i + 1;
        }
        None
    }

    /// When a peer was last asked.
    pub fn last_attempt(&self, peer: PeerAddr) -> (r: Option<u128>)
        requires
            self.wf(),
        ensures
            r == if self@.dom().contains(peer) {
                Some(self@[peer])
            } else {
                None
            },
    {
        match self.find(peer) {
            Some(i) => Some(self.entries[i].at),
            None => None,
        }
    }

    /// Remembers that a peer was asked at `at`.
    pub fn record(&mut self, peer: PeerAddr, at: u128)
        requires
            old(self).wf(),
        ensures
            final(self).wf(),
            final(self)@ == old(self)@.insert(peer, at),
    {
        let ghost before = self.entries@;
        let ghost attempts = self.attempts@;
        match self.find(peer) {
            Some(i) => {
                self.entries.set(i, Attempt { peer, at });
                self.attempts = Ghost(attempts.insert(peer, at));
                proof {
                    assert(self.attempts@.dom() =~= attempts.dom());
                    assert forall|p: PeerAddr| #[trigger]
                        self.attempts@.dom().contains(p) implies exists|k: int|
                        0 <= k < self.entries@.len() && (#[trigger] self.entries@[k]).peer == p by {
                        let k = choose|k: int|
                            0 <= k < before.len() && (#[trigger] before[k]).peer == p;
                        assert(self.entries@[k].peer == p);
                    }
                }
            },
            None => {
                self.entries.push(Attempt { peer, at });
                self.attempts = Ghost(attempts.insert(peer, at));
                proof {
                    let after = self.entries@;
                    assert forall|p: PeerAddr| #[trigger]
                        self.attempts@.dom().contains(p) implies exists|k: int|
                        0 <= k < after.len() && (#[trigger] after[k]).peer == p by {
                        if p == peer {
                            assert(after[before.len() as int].peer == p);
                        } else {
                            let k = choose|k: int|
                                0 <= k < before.len() && (#[trigger] before[k]).peer == p;
                            assert(after[k].peer == p);
                        }
                    }
                    assert forall|k: int| 0 <= k < after.len() implies self.attempts@.dom().contains(
                        (#[trigger] after[k]).peer,
                    ) && self.attempts@[after[k].peer] == after[k].at by {
                        if k < before.len() {
                            assert(after[k] == before[k]);
                        }
                    }
                }
            },
        }
    }

    fn forget(&mut self, i: usize)
        requires
            old(self).wf(),
            i < old(self).entries@.len(),
        ensures
            final(self).wf(),
            final(self)@ == old(self)@.remove(old(self).entries@[i as int].peer),
            final(self).entries@.len() == old(self).entries@.len() - 1,
            forall|k: int| 0 <= k < i ==> #[trigger] final(self).entries@[k] == old(self).entries@[k],
    {
        let ghost before = self.entries@;
        let ghost attempts = self.attempts@;
        let gone = self.entries[i].peer;
        self.entries.swap_remove(i);
        self.attempts = Ghost(attempts.remove(gone));
        proof {
            let after = self.entries@;
            assert forall|k: int| 0 <= k < after.len() implies self.attempts@.dom().contains(
                (#[trigger] after[k]).peer,
            ) && self.attempts@[after[k].peer] == after[k].at by {
                if k == i {
                    assert(after[k] == before.last());
                } else {
                    assert(after[k] == before[k]);
                }
            }
            assert forall|p: PeerAddr| #[trigger] self.attempts@.dom().contains(p) implies exists|
                k: int,
            |
                0 <= k < after.len() && (#[trigger] after[k]).peer == p by {
                let k = choose|k: int| 0 <= k < before.len() && (#[trigger] before[k]).peer == p;
                if k == before.len() - 1 {
                    assert(after[i as int] == before[k]);
                } else {
                    assert(after[k] == before[k]);
                }
            }
        }
    }

    /// Forgets the attempts that no longer keep a peer from being asked.
    pub fn forget_expired(&mut self, now: u128)
        requires
            old(self).wf(),
        ensures
            final(self).wf(),
            final(self)@ == recent(old(self)@, now),
    {
        let ghost attempts = self.attempts@;
        let mut i: usize = 0;
        while i < self.entries.len()
            invariant
                i <= self.entries@.len(),
                self.wf(),
                part_of(self@, attempts),
                forall|k: int| 0 <= k < i ==> cooling((#[trigger] self.entries@[k]).at, now),
                forall|p: PeerAddr| #[trigger]
                    attempts.dom().contains(p) && !self@.dom().contains(p) ==> !cooling(
                        attempts[p],
                        now,
                    ),
            decreases self.entries@.len() - i,
        {
            let ghost entries = self.entries@;
            let at: u128 = self.entries[i].at;
            if now.saturating_sub(at) < METADATA_PEER_RETRY_AFTER {
                i = i + 1;
            } else {
                assert(self@.dom().contains(entries[i as int].peer));
                assert(attempts[entries[i as int].peer] == at);
                self.forget(i);
                proof {
                    assert forall|k: int| 0 <= k < i implies cooling(
                        (#[trigger] self.entries@[k]).at,
                        now,
                    ) by {
                        assert(self.entries@[k] == entries[k]);
                    }
                }
            }
        }
        proof {
            let want = recent(attempts, now);
            assert forall|p: PeerAddr| #[trigger]
                self@.dom().contains(p) <==> want.dom().contains(p) by {
                if self@.dom().contains(p) {
                    let k = choose|k: int|
                        0 <= k < self.entries@.len() && (#[trigger] self.entries@[k]).peer == p;
                    assert(cooling(self.entries@[k].at, now));
                }
            }
            assert(self@ =~= want);
        }
    }

    /// Whether a peer may be asked at `now`; if so, the attempt is remembered.
    pub fn should_retry_peer(&mut self, peer: PeerAddr, now: u128) -> (r: bool)
        requires
            old(self).wf(),
        ensures
            final(self).wf(),
            r == may_ask(old(self)@, peer, now),
            final(self)@ == if r {
                old(self)@.insert(peer, now)
            } else {
                old(self)@
            },
    {
        if let Some(last) = self.last_attempt(peer) {
            if now.saturating_sub(last) < METADATA_PEER_RETRY_AFTER {
                return false;
            }
        }
        self.record(peer, now);
        true
    }

    /// The place of the oldest attempt, that of `kept` left out.
    fn oldest(&self, kept: PeerAddr) -> (r: Option<usize>)
        requires
            self.wf(),
        ensures
            match r {
                Some(i) => {
                    &&& i < self.entries@.len()
                    &&& self.entries@[i as int].peer != kept
                    &&& forall|peer: PeerAddr| #[trigger]
                        self@.dom().contains(peer) && peer != kept ==> self.entries@[i as int].at
                            <= self@[peer]
                },
                None => forall|peer: PeerAddr| #[trigger]
                    self@.dom().contains(peer) ==> peer == kept,
            },
    {
        let mut best: Option<usize> = None;
        let mut i: usize = 0;
        while i < self.entries.len()
            invariant
                i <= self.entries@.len(),
                match best {
                    Some(b) => {
                        &&& b < i
                        &&& self.entries@[b as int].peer != kept
                        &&& forall|k: int|
                            0 <= k < i && (#[trigger] self.entries@[k]).peer != kept
                                ==> self.entries@[b as int].at <= self.entries@[k].at
                    },
                    None => forall|k: int| 0 <= k < i ==> (#[trigger] self.entries@[k]).peer == kept,
                },
            decreases self.entries@.len() - i,
        {
            if self.entries[i].peer != kept {
                match best {
                    Some(b) => {
                        if self.entries[i].at < self.entries[b].at {
                            best = Some(i);
                        }
                    },
                    None => {
                        best = Some(i);
                    },
                }
            }
            i = i + 1;
        }
        proof {
            assert forall|peer: PeerAddr| #[trigger] self@.dom().contains(peer) implies match best {
                Some(b) => peer != kept ==> self.entries@[b as int].at <= self@[peer],
                None => peer == kept,
            } by {
                let k = choose|k: int|
                    0 <= k < self.entries@.len() && (#[trigger] self.entries@[k]).peer == peer;
                assert(self@[peer] == self.entries@[k].at);
            }
        }
        best
    }

    /// Forgets the oldest attempts until `cap` are left, never that of `kept`.
    pub fn prune(&mut self, cap: usize, kept: PeerAddr)
        requires
            old(self).wf(),
            old(self)@.dom().contains(kept),
        ensures
            final(self).wf(),
            forgotten_down_to(old(self)@, cap as nat, kept, final(self)@),
    {
        let ghost before = self@;
        let floor: usize = if cap == 0 {
            1
        } else {
            cap
        };
        while self.entries.len() > cap
            invariant
                self.wf(),
                before.dom().finite(),
                before.dom().contains(kept),
                part_of(self@, before),
                self@.dom().contains(kept),
                floor == if cap == 0 {
                    1
                } else {
                    cap
                },
                before.dom().len() > floor ==> self@.dom().len() >= floor,
                before.dom().len() <= floor ==> self@ == before,
                self@.dom().len() >= 1,
                forall|gone: PeerAddr, left: PeerAddr|
                    #![trigger before.dom().contains(gone), self@.dom().contains(left)]
                    before.dom().contains(gone) && !self@.dom().contains(gone)
                        && self@.dom().contains(left) && left != kept ==> before[gone]
                        <= before[left],
            ensures
                self.wf(),
                part_of(self@, before),
                self@.dom().contains(kept),
                before.dom().len() > floor ==> self@.dom().len() == floor,
                before.dom().len() <= floor ==> self@ == before,
                forall|gone: PeerAddr, left: PeerAddr|
                    #![trigger before.dom().contains(gone), self@.dom().contains(left)]
                    before.dom().contains(gone) && !self@.dom().contains(gone)
                        && self@.dom().contains(left) && left != kept ==> before[gone]
                        <= before[left],
            decreases self.entries@.len(),
        {
            let ghost middle = self@;
            let oldest = self.oldest(kept);
            match oldest {
                Some(i) => {
                    let ghost gone = self.entries@[i as int].peer;
                    proof {
                        // Two attempts at least: the oldest and the kept one.
                        assert(middle.dom().remove(kept).contains(gone));
                        assert(middle.dom().len() >= 2) by {
                            if middle.dom().len() < 2 {
                                assert(middle.dom().remove(kept).len() == 0);
                                assert(middle.dom().remove(kept) =~= Set::<PeerAddr>::empty());
                            }
                        }
                    }
                    self.forget(i);
                    proof {
                        lemma_forget_one_more(before, cap as nat, kept, middle, gone, self@);
                    }
                },
                None => {
                    proof {
                        assert(middle.dom() =~= Set::<PeerAddr>::empty().insert(kept));
                    }
                    break ;
                },
            }
        }
        proof {
            assert(self@.dom().len() >= 1) by {
                if self@.dom().len() == 0 {
                    assert(self@.dom() =~= Set::<PeerAddr>::empty());
                }
            }
        }
    }
}

/// A peer that was reported, with what the session's policies say of it.
#[derive(Clone, Copy, Debug)]
pub struct PeerReport {
    pub peer: PeerAddr,
    /// The operator has banned the peer.
    pub banned: bool,
    /// The address must not be contacted.
    pub denied: bool,
}

/// A reported peer is asked: no policy forbids it, and it was not asked
/// shortly before.
pub open spec fn is_asked(attempts: Attempts, report: PeerReport, now: u128) -> bool {
    !report.banned && !report.denied && may_ask(attempts, report.peer, now)
}

/// How the attempts change when a report is considered.
pub open spec fn considered(
    before: Attempts,
    report: PeerReport,
    now: u128,
    attempt_cap: nat,
    after: Attempts,
) -> bool {
    if is_asked(before, report, now) {
        forgotten_down_to(before.insert(report.peer, now), attempt_cap, report.peer, after)
    } else {
        after == before
    }
}

/// The peers among the first `n` reports that are asked; `trace` holds the
/// attempts before each report. No report is considered once `cap` peers have
/// been found.
pub open spec fn chosen(
    trace: Seq<Attempts>,
    reports: Seq<PeerReport>,
    now: u128,
    cap: nat,
    n: nat,
) -> Seq<PeerAddr>
    decreases n,
{
    if n == 0 {
        seq![]
    } else {
        let before = chosen(trace, reports, now, cap, (n - 1) as nat);
        if before.len() < cap && is_asked(trace[n - 1], reports[n - 1], now) {
            before.push(reports[n - 1].peer)
        } else {
            before
        }
    }
}

/// `trace` tells how the attempts went from the first report to the `n`-th.
pub open spec fn is_trace(
    trace: Seq<Attempts>,
    reports: Seq<PeerReport>,
    now: u128,
    attempt_cap: nat,
    cap: nat,
    n: nat,
) -> bool {
    &&& trace.len() == n + 1
    &&& forall|i: int|
        0 <= i < n ==> if chosen(trace, reports, now, cap, i as nat).len() < cap {
            considered(#[trigger] trace[i], reports[i], now, attempt_cap, trace[i + 1])
        } else {
            trace[i + 1] == trace[i]
        }
}

proof fn lemma_chosen_prefix(
    a: Seq<Attempts>,
    b: Seq<Attempts>,
    reports: Seq<PeerReport>,
    now: u128,
    cap: nat,
    n: nat,
)
    requires
        n <= a.len() <= b.len(),
        forall|i: int| 0 <= i < a.len() ==> a[i] == #[trigger] b[i],
    ensures
        chosen(a, reports, now, cap, n) == chosen(b, reports, now, cap, n),
    decreases n,
{
    if n > 0 {
        lemma_chosen_prefix(a, b, reports, now, cap, (n - 1) as nat);
        assert(a[n - 1] == b[n - 1]);
    }
}

proof fn lemma_trace_step(
    trace: Seq<Attempts>,
    next: Attempts,
    reports: Seq<PeerReport>,
    now: u128,
    attempt_cap: nat,
    cap: nat,
    n: nat,
)
    requires
        is_trace(trace, reports, now, attempt_cap, cap, n),
        n < reports.len(),
        if chosen(trace, reports, now, cap, n).len() < cap {
            considered(trace[n as int], reports[n as int], now, attempt_cap, next)
        } else {
            next == trace[n as int]
        },
    ensures
        is_trace(trace.push(next), reports, now, attempt_cap, cap, n + 1),
        chosen(trace.push(next), reports, now, cap, n) == chosen(trace, reports, now, cap, n),
        chosen(trace.push(next), reports, now, cap, n + 1) == if chosen(
            trace,
            reports,
            now,
            cap,
            n,
        ).len() < cap && is_asked(trace[n as int], reports[n as int], now) {
            chosen(trace, reports, now, cap, n).push(reports[n as int].peer)
        } else {
            chosen(trace, reports, now, cap, n)
        },
{
    let longer = trace.push(next);
    lemma_chosen_prefix(trace, longer, reports, now, cap, n);
    assert forall|i: int| 0 <= i < n + 1 implies if chosen(
        longer,
        reports,
        now,
        cap,
        i as nat,
    ).len() < cap {
        considered(#[trigger] longer[i], reports[i], now, attempt_cap, longer[i + 1])
    } else {
        longer[i + 1] == longer[i]
    } by {
        lemma_chosen_prefix(trace, longer, reports, now, cap, i as nat);
        if i < n {
            assert(trace[i] == longer[i]);
        }
    }
}

/// Picks the peers to ask from a report, in order, at most `candidate_cap` of
/// them. Expired attempts are forgotten first; a peer that a policy forbids
/// leaves no trace in `attempts`.
pub fn metadata_fetch_candidates(
    reports: &[PeerReport],
    attempts: &mut PeerAttempts,
    now: u128,
    attempt_cap: usize,
    candidate_cap: usize,
) -> (r: Vec<PeerAddr>)
    requires
        old(attempts).wf(),
    ensures
        final(attempts).wf(),
        exists|trace: Seq<Attempts>|
            {
                &&& #[trigger] is_trace(
                    trace,
                    reports@,
                    now,
                    attempt_cap as nat,
                    candidate_cap as nat,
                    reports@.len(),
                )
                &&& trace[0] == recent(old(attempts)@, now)
                &&& trace.last() == final(attempts)@
                &&& r@ == chosen(trace, reports@, now, candidate_cap as nat, reports@.len())
            },
{
    attempts.forget_expired(now);
    let ghost mut trace: Seq<Attempts> = seq![attempts@];
    let ghost first = attempts@;
    let mut candidates: Vec<PeerAddr> = Vec::new();
    let mut i: usize = 0;
    while i < reports.len()
        invariant
            i <= reports@.len(),
            attempts.wf(),
            is_trace(
                trace,
                reports@,
                now,
                attempt_cap as nat,
                candidate_cap as nat,
                i as nat,
            ),
            trace[0] == first,
            trace.last() == attempts@,
            candidates@ == chosen(trace, reports@, now, candidate_cap as nat, i as nat),
        decreases reports@.len() - i,
    {
        let report = reports[i];
        let ghost before = attempts@;
        if candidates.len() < candidate_cap {
            if !report.banned && !report.denied && attempts.should_retry_peer(report.peer, now) {
                attempts.prune(attempt_cap, report.peer);
                candidates.push(report.peer);
            }
        }
        proof {
            lemma_trace_step(
                trace,
                attempts@,
                reports@,
                now,
                attempt_cap as nat,
                candidate_cap as nat,
                i as nat,
            );
            trace = trace.push(attempts@);
        }
        i = i + 1;
    }
    candidates
}

proof fn lemma_chosen_sound(
    trace: Seq<Attempts>,
    reports: Seq<PeerReport>,
    now: u128,
    cap: nat,
    n: nat,
)
    requires
        n <= reports.len(),
    ensures
        chosen(trace, reports, now, cap, n).len() <= cap,
        chosen(trace, reports, now, cap, n).len() <= n,
        forall|k: int|
            0 <= k < chosen(trace, reports, now, cap, n).len() ==> exists|i: int|
                0 <= i < n && (#[trigger] reports[i]).peer == #[trigger] chosen(
                    trace,
                    reports,
                    now,
                    cap,
                    n,
                )[k] && !reports[i].banned && !reports[i].denied,
    decreases n,
{
    if n > 0 {
        lemma_chosen_sound(trace, reports, now, cap, (n - 1) as nat);
        let before = chosen(trace, reports, now, cap, (n - 1) as nat);
        let after = chosen(trace, reports, now, cap, n);
        assert forall|k: int| 0 <= k < after.len() implies exists|i: int|
            0 <= i < n && (#[trigger] reports[i]).peer == #[trigger] after[k] && !reports[i].banned
                && !reports[i].denied by {
            if k < before.len() {
                assert(after[k] == before[k]);
                let i = choose|i: int|
                    0 <= i < n - 1 && (#[trigger] reports[i]).peer == before[k] && !reports[i].banned
                        && !reports[i].denied;
                assert(reports[i].peer == after[k]);
            } else {
                assert(reports[n - 1].peer == after[k]);
            }
        }
    }
}

/// However the attempts went: no more peers are chosen than the cap admits,
/// and each was reported and is neither banned nor denied.
pub proof fn law_candidates_are_bounded_and_allowed(
    trace: Seq<Attempts>,
    reports: Seq<PeerReport>,
    now: u128,
    cap: nat,
)
    ensures
        chosen(trace, reports, now, cap, reports.len()).len() <= cap,
        forall|k: int|
            0 <= k < chosen(trace, reports, now, cap, reports.len()).len() ==> exists|i: int|
                0 <= i < reports.len() && (#[trigger] reports[i]).peer == #[trigger] chosen(
                    trace,
                    reports,
                    now,
                    cap,
                    reports.len(),
                )[k] && !reports[i].banned && !reports[i].denied,
{
    lemma_chosen_sound(trace, reports, now, cap, reports.len());
}

/// A peer that was just asked is left alone until the pause is over, and may
/// be asked from then on.
pub proof fn law_peer_rests_between_attempts(
    attempts: Attempts,
    peer: PeerAddr,
    asked: u128,
    now: u128,
)
    requires
        now >= asked,
    ensures
        may_ask(attempts.insert(peer, asked), peer, now) <==> now - asked
            >= METADATA_PEER_RETRY_AFTER,
{
}

/// The memory of attempts never outgrows its bound, once it is within it.
pub proof fn law_attempt_memory_is_bounded(
    before: Attempts,
    report: PeerReport,
    now: u128,
    attempt_cap: nat,
    after: Attempts,
)
    requires
        before.dom().finite(),
        attempt_cap > 0,
        before.dom().len() <= attempt_cap,
        considered(before, report, now, attempt_cap, after),
    ensures
        after.dom().len() <= attempt_cap,
{
}

/// A peer may be asked exactly where it was never asked, or was last asked fifteen
/// seconds ago or more; it is asked where besides nobody forbids it.
pub proof fn law_peers_are_asked_at_intervals(
    attempts: Attempts,
    report: PeerReport,
    now: u128,
)
    ensures
        ({
            let rested = !attempts.dom().contains(report.peer) || (now >= attempts[report.peer]
                && now - attempts[report.peer] >= 15_000_000_000);
            &&& may_ask(attempts, report.peer, now) <==> rested
            &&& is_asked(attempts, report, now) <==> rested && !report.banned && !report.denied
        }),
{
}

/// What is remembered of attempts that no longer matter is forgotten, and every
/// other attempt is remembered as it was: nobody may be asked sooner for it.
pub proof fn law_forgetting_changes_no_answer(attempts: Attempts, peer: PeerAddr, now: u128)
    ensures
        may_ask(recent(attempts, now), peer, now) <==> may_ask(attempts, peer, now),
        recent(attempts, now).dom().contains(peer) <==> !may_ask(attempts, peer, now),
        recent(attempts, now).dom().contains(peer) ==> recent(attempts, now)[peer]
            == attempts[peer],
{
}

/// Peers are chosen in the order in which they were reported, and a report that is
/// allowed is chosen as long as there is room.
pub proof fn law_allowed_reports_are_chosen(
    trace: Seq<Attempts>,
    reports: Seq<PeerReport>,
    now: u128,
    cap: nat,
    n: nat,
)
    requires
        n < reports.len(),
        n < trace.len(),
    ensures
        ({
            let before = chosen(trace, reports, now, cap, n);
            let after = chosen(trace, reports, now, cap, n + 1);
            let allowed = !reports[n as int].banned && !reports[n as int].denied && may_ask(
                trace[n as int],
                reports[n as int].peer,
                now,
            );
            &&& before.is_prefix_of(after)
            &&& allowed && before.len() < cap ==> after.len() == before.len() + 1 && after.last()
                == reports[n as int].peer
            &&& !allowed || before.len() >= cap ==> after == before
        }),
{
    let before = chosen(trace, reports, now, cap, n);
    let after = chosen(trace, reports, now, cap, n + 1);
    assert(before =~= after.subrange(0, before.len() as int));
}

/// Caps are the wanted number, brought between their bounds.
pub proof fn law_caps_stay_between_their_bounds(n: nat, low: nat, high: nat)
    requires
        low <= high,
    ensures
        low <= clamped(n, low, high) <= high,
        low <= n <= high ==> clamped(n, low, high) == n,
        n < low ==> clamped(n, low, high) == low,
        n > high ==> clamped(n, low, high) == high,
{
}

} // verus!
