//! One round of announces to the trackers of a torrent that waits for its
//! metadata.
//!
//! Times are nanoseconds on one monotonic clock.

use vstd::prelude::*;

use crate::metadata_identity::MetadataInfoHash;
use crate::metadata_peers::{clamped, metadata_peer_candidate_cap};
use crate::metadata_peers::{MAX_METADATA_FETCH_CONCURRENCY, MAX_TRACKER_PEERS};
use crate::net::PeerAddr;

verus! {

/// How long a round of announces may take.
pub const METADATA_TRACKER_ANNOUNCE_DEADLINE: u128 = 10_000_000_000;

/// What an announce tells the tracker.
#[derive(Clone, Copy, Debug, PartialEq, Eq, Structural)]
pub enum TrackerEvent {
    Started,
    Stopped,
    Empty,
}

/// Why an announce failed.
#[derive(Debug)]
pub enum TrackerError {
    InvalidUrl(String),
    Network(String),
    Timeout,
    /// The tracker answered with this status.
    Http { status: u16 },
    Udp(String),
    /// The answer could not be read, or there was no memory for it.
    Unreadable(String),
}

/// Why `text` is not a URL, if it is not.
pub uninterp spec fn url_parse_error(text: Seq<char>) -> Option<Seq<char>>;

/// Calls `url::Url::parse`: the error in words, where `text` is not a URL.
#[verifier::external_body]
fn parse_url(text: &str) -> (r: Option<String>)
    ensures
        match url_parse_error(text@) {
            Some(error) => r matches Some(e) && e@ == error,
            None => r is None,
        },
{
    url::Url::parse(text).err().map(|error| error.to_string())
}

/// Turns the outcome of reading a URL into the result of an announce.
pub fn url_verdict(error: Option<String>) -> (r: Result<(), TrackerError>)
    ensures
        match error {
            Some(text) => r matches Err(TrackerError::InvalidUrl(e)) && e@ == text@,
            None => r is Ok,
        },
{
    match error {
        Some(text) => Err(TrackerError::InvalidUrl(text)),
        None => Ok(()),
    }
}

/// A tracker is announced to only where its address is a URL.
pub fn check_tracker_url(tracker_url: &str) -> (r: Result<(), TrackerError>)
    ensures
        match url_parse_error(tracker_url@) {
            Some(text) => r matches Err(TrackerError::InvalidUrl(e)) && e@ == text,
            None => r is Ok,
        },
{
    url_verdict(parse_url(tracker_url))
}

/// What an announce for a torrent without metadata says: nothing has been
/// transferred, and peers are wanted.
#[derive(Clone, Copy, Debug)]
pub struct AnnounceRequest {
    pub info_hash: [u8; 20],
    pub peer_id: [u8; 20],
    pub port: u16,
    pub uploaded: u64,
    pub downloaded: u64,
    pub left: u64,
    pub event: TrackerEvent,
    pub compact: bool,
    pub numwant: u32,
}

/// Writes the announce of a torrent that waits for its metadata. `numwant` is
/// the number of peers that the protocol is asked for.
pub fn metadata_announce_request(
    info_hash: MetadataInfoHash,
    peer_id: [u8; 20],
    listen_port: u16,
    numwant: u32,
    event: TrackerEvent,
) -> (r: AnnounceRequest)
    ensures
        r.info_hash@ == info_hash.wire(),
        r.peer_id == peer_id,
        r.port == listen_port,
        r.uploaded == 0,
        r.downloaded == 0,
        r.left == 0,
        r.event == event,
        r.compact,
        r.numwant == numwant,
{
    AnnounceRequest {
        info_hash: info_hash.wire_hash(),
        peer_id,
        port: listen_port,
        uploaded: 0,
        downloaded: 0,
        left: 0,
        event,
        compact: true,
        numwant,
    }
}

/// The port that peers are told: the one that is listened on, where there is
/// one.
pub fn current_listen_port(listening: u16, fallback: u16) -> (r: u16)
    ensures
        r == if listening == 0 {
            fallback
        } else {
            listening
        },
{
    if listening == 0 {
        fallback
    } else {
        listening
    }
}

/// `known` followed by what of `more` is new, at most `cap` in all.
pub open spec fn merged(known: Seq<PeerAddr>, more: Seq<PeerAddr>, cap: nat) -> Seq<PeerAddr>
    decreases more.len(),
{
    if more.len() == 0 {
        known
    } else {
        let before = merged(known, more.drop_last(), cap);
        if before.len() >= cap || before.contains(more.last()) {
            before
        } else {
            before.push(more.last())
        }
    }
}

/// A round of announces, one tracker after another.
pub struct AnnounceRound {
    tracker_count: usize,
    next_tracker: usize,
    peer_cap: usize,
    deadline: u128,
    over: bool,
    peers: Vec<PeerAddr>,
}

/// The state of a round of announces.
pub struct RoundState {
    pub tracker_count: nat,
    pub next_tracker: nat,
    pub peer_cap: nat,
    pub deadline: nat,
    pub over: bool,
    pub peers: Seq<PeerAddr>,
}

impl View for AnnounceRound {
    type V = RoundState;

    closed spec fn view(&self) -> RoundState {
        RoundState {
            tracker_count: self.tracker_count as nat,
            next_tracker: self.next_tracker as nat,
            peer_cap: self.peer_cap as nat,
            deadline: self.deadline as nat,
            over: self.over,
            peers: self.peers@,
        }
    }
}

impl RoundState {
    /// The peers are bounded and none occurs twice; a full list ends the round.
    pub open spec fn valid(self) -> bool {
        &&& self.peers.len() <= self.peer_cap
        &&& self.peers.no_duplicates()
        &&& self.next_tracker <= self.tracker_count
    }
}

/// What a round does next.
#[derive(Clone, Copy, Debug, PartialEq, Eq, Structural)]
pub enum RoundStep {
    /// Announce to this tracker, for that long at most.
    Ask { tracker: usize, remaining: u128 },
    /// Nothing: the round is over.
    Finished,
}

/// What came of an announce.
#[derive(Debug)]
pub enum AnnounceOutcome {
    Peers(Vec<PeerAddr>),
    Failed,
    TimedOut,
}

/// The round after an announce to its next tracker. Peers are taken up to the
/// cap, and one more ends the round; so does a timeout.
pub open spec fn round_after(before: RoundState, outcome: AnnounceOutcome) -> RoundState {
    match outcome {
        AnnounceOutcome::Peers(more) => RoundState {
            next_tracker: before.next_tracker + 1,
            peers: merged(before.peers, more@, before.peer_cap),
            over: overflows(before.peers, more@, before.peer_cap),
            ..before
        },
        AnnounceOutcome::Failed => RoundState { next_tracker: before.next_tracker + 1, ..before },
        AnnounceOutcome::TimedOut => RoundState { over: true, ..before },
    }
}

/// Some peer of `more` finds the list full.
pub open spec fn overflows(known: Seq<PeerAddr>, more: Seq<PeerAddr>, cap: nat) -> bool {
    exists|i: int| 0 <= i < more.len() && merged(known, #[trigger] more.take(i), cap).len() >= cap
}

proof fn lemma_merged(known: Seq<PeerAddr>, more: Seq<PeerAddr>, cap: nat)
    requires
        known.len() <= cap,
        known.no_duplicates(),
    ensures
        merged(known, more, cap).len() <= cap,
        merged(known, more, cap).no_duplicates(),
    decreases more.len(),
{
    if more.len() > 0 {
        lemma_merged(known, more.drop_last(), cap);
    }
}

proof fn lemma_merged_full(known: Seq<PeerAddr>, more: Seq<PeerAddr>, cap: nat, n: int)
    requires
        0 <= n <= more.len(),
        merged(known, more.take(n), cap).len() >= cap,
    ensures
        merged(known, more, cap) == merged(known, more.take(n), cap),
    decreases more.len() - n,
{
    if n < more.len() {
        assert(more.take(n + 1).drop_last() =~= more.take(n));
        lemma_merged_full(known, more, cap, n + 1);
    } else {
        assert(more.take(n) =~= more);
    }
}

impl AnnounceRound {
    pub closed spec fn wf(&self) -> bool {
        self@.valid()
    }

    /// Starts a round at `now`. It is over at once where there is no memory for
    /// the peers that it may report.
    pub fn begin(tracker_count: usize, max_peers: usize, granted: bool, now: u128) -> (r: Self)
        requires
            now + METADATA_TRACKER_ANNOUNCE_DEADLINE <= u128::MAX,
        ensures
            r.wf(),
            r@ == (RoundState {
                tracker_count: tracker_count as nat,
                next_tracker: 0,
                peer_cap: clamped(
                    max_peers as nat,
                    MAX_METADATA_FETCH_CONCURRENCY as nat,
                    MAX_TRACKER_PEERS as nat,
                ),
                deadline: (now + METADATA_TRACKER_ANNOUNCE_DEADLINE) as nat,
                over: !granted,
                peers: seq![],
            }),
    {
        AnnounceRound {
            tracker_count,
            next_tracker: 0,
            peer_cap: metadata_peer_candidate_cap(max_peers),
            deadline: now + METADATA_TRACKER_ANNOUNCE_DEADLINE,
            over: !granted,
            peers: Vec::new(),
        }
    }

    /// What to do at `now`: trackers are asked in order until the deadline.
    pub fn next(&self, now: u128) -> (r: RoundStep)
        requires
            self.wf(),
        ensures
            r == if self@.over || self@.next_tracker >= self@.tracker_count || now
                >= self@.deadline {
                RoundStep::Finished
            } else {
                RoundStep::Ask {
                    tracker: self@.next_tracker as usize,
                    remaining: (self@.deadline - now) as u128,
                }
            },
    {
        if self.over || self.next_tracker >= self.tracker_count || now >= self.deadline {
            RoundStep::Finished
        } else {
            RoundStep::Ask { tracker: self.next_tracker, remaining: self.deadline - now }
        }
    }

    /// Takes the outcome of the announce to the next tracker.
    pub fn on_outcome(&mut self, outcome: AnnounceOutcome)
        requires
            old(self).wf(),
            !old(self)@.over,
            old(self)@.next_tracker < old(self)@.tracker_count,
        ensures
            final(self).wf(),
            final(self)@ == round_after(old(self)@, outcome),
    {
        match outcome {
            AnnounceOutcome::Peers(more) => {
                let ghost known = self.peers@;
                let ghost cap = self.peer_cap as nat;
                self.next_tracker = self.next_tracker + 1;
                let mut full = false;
                let mut i: usize = 0;
                assert(more@.take(0) =~= Seq::<PeerAddr>::empty());
                while i < more.len() && !full
                    invariant
                        i <= more@.len(),
                        !self.over,
                        cap == self.peer_cap,
                        known.len() <= cap,
                        known.no_duplicates(),
                        self.tracker_count == old(self).tracker_count,
                        self.next_tracker == old(self).next_tracker + 1,
                        self.peer_cap == old(self).peer_cap,
                        self.deadline == old(self).deadline,
                        self.peers@ == merged(known, more@.take(i as int), cap),
                        full ==> i < more@.len() && self.peers@.len() >= cap,
                        forall|k: int|
                            0 <= k < i ==> merged(known, #[trigger] more@.take(k), cap).len() < cap,
                    decreases more@.len() - i, if full { 0int } else { 1int },
                {
                    if self.peers.len() >= self.peer_cap {
                        full = true;
                    } else {
                        proof {
                            assert(more@.take(i + 1).drop_last() =~= more@.take(i as int));
                            lemma_merged(known, more@.take(i as int), cap);
                        }
                        let peer = more[i];
                        let mut seen = false;
                        let mut k: usize = 0;
                        while k < self.peers.len()
                            invariant
                                k <= self.peers@.len(),
                                seen <==> exists|j: int| 0 <= j < k && self.peers@[j] == peer,
                            decreases self.peers@.len() - k,
                        {
                            if self.peers[k] == peer {
                                seen = true;
                            }
                            k = k + 1;
                        }
                        assert(seen == self.peers@.contains(peer));
                        if !seen {
                            self.peers.push(peer);
                        }
                        i = i + 1;
                    }
                }
                self.over = full;
                proof {
                    if full {
                        lemma_merged_full(known, more@, cap, i as int);
                        assert(overflows(known, more@, cap));
                    } else {
                        assert(more@.take(i as int) =~= more@);
                    }
                    lemma_merged(known, more@, cap);
                }
            },
            AnnounceOutcome::Failed => {
                self.next_tracker = self.next_tracker + 1;
            },
            AnnounceOutcome::TimedOut => {
                self.over = true;
            },
        }
    }

    /// The peers that the round has found.
    pub fn into_peers(self) -> (r: Vec<PeerAddr>)
        ensures
            r@ == self@.peers,
    {
        self.peers
    }
}

/// A round reports no peer twice and no more than it may.
pub proof fn law_round_reports_bounded_distinct_peers(
    before: RoundState,
    outcome: AnnounceOutcome,
)
    requires
        before.valid(),
        before.next_tracker < before.tracker_count,
    ensures
        round_after(before, outcome).valid(),
{
    if let AnnounceOutcome::Peers(more) = outcome {
        lemma_merged(before.peers, more@, before.peer_cap);
    }
}

/// Peers that are known stay, in their place; what is added was reported and is
/// new. As long as there is room every peer that was reported is there.
pub proof fn law_reported_peers_are_kept(
    known: Seq<PeerAddr>,
    more: Seq<PeerAddr>,
    cap: nat,
    peer: PeerAddr,
)
    requires
        known.len() <= cap,
    ensures
        known.is_prefix_of(merged(known, more, cap)),
        merged(known, more, cap).contains(peer) ==> known.contains(peer) || more.contains(peer),
        merged(known, more, cap).len() < cap && more.contains(peer) ==> merged(
            known,
            more,
            cap,
        ).contains(peer),
    decreases more.len(),
{
    let all = merged(known, more, cap);
    if more.len() == 0 {
        assert(known =~= all.subrange(0, known.len() as int));
    } else {
        let fewer = more.drop_last();
        let before = merged(known, fewer, cap);
        law_reported_peers_are_kept(known, fewer, cap, peer);
        assert(known =~= before.subrange(0, known.len() as int));
        assert(known =~= all.subrange(0, known.len() as int));
        assert(more.contains(peer) <==> fewer.contains(peer) || peer == more.last()) by {
            if fewer.contains(peer) {
                let k = choose|k: int| 0 <= k < fewer.len() && fewer[k] == peer;
                assert(more[k] == peer);
            }
            if more.contains(peer) && peer != more.last() {
                let k = choose|k: int| 0 <= k < more.len() && more[k] == peer;
                assert(fewer[k] == peer);
            }
            if peer == more.last() {
                assert(more[more.len() - 1] == peer);
            }
        }
        if all != before {
            assert(all == before.push(more.last()));
            if before.contains(peer) {
                let k = choose|k: int| 0 <= k < before.len() && before[k] == peer;
                assert(all[k] == peer);
            }
            assert(all[before.len() as int] == more.last());
            if all.contains(peer) && peer != more.last() {
                let k = choose|k: int| 0 <= k < all.len() && all[k] == peer;
                assert(before[k] == peer);
            }
        }
    }
}

/// A round goes from one tracker to the next: one that fails is passed over and
/// keeps what was found, a timeout ends the round, and nothing that was found
/// is lost.
pub proof fn law_rounds_go_on(before: RoundState, more: Vec<PeerAddr>)
    ensures
        ({
            let failed = round_after(before, AnnounceOutcome::Failed);
            let late = round_after(before, AnnounceOutcome::TimedOut);
            let told = round_after(before, AnnounceOutcome::Peers(more));
            &&& failed.next_tracker == before.next_tracker + 1 && failed.peers == before.peers
                && failed.over == before.over
            &&& late.over && late.peers == before.peers
            &&& told.next_tracker == before.next_tracker + 1
            &&& more@.len() == 0 ==> told.peers == before.peers && !told.over
            &&& failed.tracker_count == before.tracker_count && late.tracker_count
                == before.tracker_count && told.tracker_count == before.tracker_count
            &&& failed.deadline == before.deadline && told.deadline == before.deadline
            &&& failed.peer_cap == before.peer_cap && told.peer_cap == before.peer_cap
        }),
{
}

/// A torrent without metadata announces under its wire hash and the port that is
/// listened on, where one is, and has transferred nothing.
pub proof fn law_announces_show_the_torrent(
    info_hash: MetadataInfoHash,
    peer_id: [u8; 20],
    listening: u16,
    fallback: u16,
    port: u16,
    numwant: u32,
    event: TrackerEvent,
    request: AnnounceRequest,
)
    requires
        call_ensures(current_listen_port, (listening, fallback), port),
        call_ensures(
            metadata_announce_request,
            (info_hash, peer_id, port, numwant, event),
            request,
        ),
    ensures
        listening != 0 ==> request.port == listening,
        listening == 0 ==> request.port == fallback,
        request.peer_id == peer_id && request.event == event && request.numwant == numwant,
        request.uploaded == 0 && request.downloaded == 0 && request.left == 0 && request.compact,
        info_hash matches MetadataInfoHash::V1(hash) ==> request.info_hash@ == hash@,
        info_hash matches MetadataInfoHash::V2(hash) ==> request.info_hash@ =~= hash@.subrange(
            0,
            20,
        ),
        info_hash matches MetadataInfoHash::Hybrid { v1, .. } ==> request.info_hash@ == v1@,
{
}

} // verus!
