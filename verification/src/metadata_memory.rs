//! How much memory a torrent that waits for its metadata may keep.

use vstd::prelude::*;

use crate::metadata_peers::{
    clamped, metadata_peer_attempt_cache_cap, MAX_TRACKER_PEERS, METADATA_PEER_ATTEMPT_CACHE_MIN,
    METADATA_PEER_ATTEMPT_CACHE_MULTIPLIER,
};
use crate::net::PeerAddr;
use crate::problem::CmdResult;
use crate::text::{count_text, decimal, decimal_text, join4, join5};
use crate::torrent_file::{metadata_completion_tracker_bytes, tracker_bytes};
use crate::validation::capped;

verus! {

/// A conservative size of one remembered attempt.
pub const METADATA_PEER_ATTEMPT_SLOT_BYTES: usize = 256;

/// What every task keeps.
pub const METADATA_TASK_BASE_MEMORY_BYTES: usize = 8_192;

/// The most peers of a magnet link that a task keeps.
pub const MAX_METADATA_DIRECT_PEERS: usize = 256;

/// A conservative size of one peer that a tracker reports.
pub const METADATA_TRACKER_PEER_COLLECTION_BYTES_PER_ENTRY: u64 = 256;

/// The size of a text's handle.
pub const TEXT_HANDLE_BYTES: usize = 24;

/// The size of a socket address.
pub const SOCKET_ADDR_BYTES: usize = 32;

/// The bytes of the texts of a list.
pub open spec fn text_bytes(texts: Seq<String>) -> nat
    decreases texts.len(),
{
    if texts.len() == 0 {
        0
    } else {
        text_bytes(texts.drop_last()) + vstd::utf8::encode_utf8(texts.last()@).len()
    }
}

/// The memory that a task keeps: its trackers, the peers of its magnet link
/// and a working copy of them, its memory of attempts, and the tracker part
/// of the torrent file that it will write.
pub open spec fn task_memory(trackers: Seq<String>, direct_peers: nat, max_peers: nat) -> nat {
    METADATA_TASK_BASE_MEMORY_BYTES as nat + trackers.len() * TEXT_HANDLE_BYTES as nat + text_bytes(
        trackers,
    ) + clamped(
        max_peers * METADATA_PEER_ATTEMPT_CACHE_MULTIPLIER as nat,
        METADATA_PEER_ATTEMPT_CACHE_MIN as nat,
        MAX_TRACKER_PEERS as nat,
    ) * METADATA_PEER_ATTEMPT_SLOT_BYTES as nat + tracker_bytes(trackers).len() + direct_peers
        * SOCKET_ADDR_BYTES as nat * 2
}

fn saturating_mul(a: usize, b: usize) -> (r: usize)
    ensures
        r == capped(a as nat * b as nat),
{
    match a.checked_mul(b) {
        Some(n) => n,
        None => usize::MAX,
    }
}

/// Estimates the memory that a task keeps.
pub fn metadata_task_memory_bytes(trackers: &[String], direct_peers: usize, max_peers: usize) -> (r:
    usize)
    ensures
        r == capped(task_memory(trackers@, direct_peers as nat, max_peers as nat)),
{
    let handles: usize = saturating_mul(trackers.len(), TEXT_HANDLE_BYTES);
    let mut texts: usize = 0;
    let mut i: usize = 0;
    assert(trackers@.take(0) =~= Seq::<String>::empty());
    while i < trackers.len()
        invariant
            i <= trackers@.len(),
            texts == capped(text_bytes(trackers@.take(i as int))),
        decreases trackers@.len() - i,
    {
        assert(trackers@.take(i + 1).drop_last() =~= trackers@.take(i as int));
        texts = texts.saturating_add(trackers[i].as_str().as_bytes().len());
        i = i + 1;
    }
    assert(trackers@.take(i as int) =~= trackers@);
    let attempts: usize = saturating_mul(
        metadata_peer_attempt_cache_cap(max_peers),
        METADATA_PEER_ATTEMPT_SLOT_BYTES,
    );
    let completion: usize = metadata_completion_tracker_bytes(trackers);
    let peers: usize = saturating_mul(saturating_mul(direct_peers, SOCKET_ADDR_BYTES), 2);
    METADATA_TASK_BASE_MEMORY_BYTES.saturating_add(handles).saturating_add(texts).saturating_add(
        attempts,
    ).saturating_add(completion).saturating_add(peers)
}

/// The memory that the peers of one round of announces may take.
pub fn metadata_tracker_peer_collection_bytes(peer_cap: usize) -> (r: u64)
    ensures
        r == if peer_cap * METADATA_TRACKER_PEER_COLLECTION_BYTES_PER_ENTRY > u64::MAX {
            u64::MAX as int
        } else {
            peer_cap * METADATA_TRACKER_PEER_COLLECTION_BYTES_PER_ENTRY
        },
{
    match (peer_cap as u64).checked_mul(METADATA_TRACKER_PEER_COLLECTION_BYTES_PER_ENTRY) {
        Some(n) => n,
        None => u64::MAX,
    }
}

/// The same texts, without the room that their makers left in them.
pub fn compact_metadata_task_trackers(trackers: Vec<String>) -> (r: Vec<String>)
    ensures
        r@ == trackers@,
{
    let mut compact: Vec<String> = Vec::with_capacity(trackers.len());
    let mut i: usize = 0;
    while i < trackers.len()
        invariant
            i <= trackers@.len(),
            compact@ == trackers@.take(i as int),
        decreases trackers@.len() - i,
    {
        compact.push(trackers[i].clone());
        assert(compact@ =~= trackers@.take(i + 1));
        i = i + 1;
    }
    assert(compact@ =~= trackers@);
    compact
}

/// Addresses in order: IPv4 before IPv6, then by address, then by port.
pub open spec fn addr_less(a: PeerAddr, b: PeerAddr) -> bool {
    if a.ip.v6 != b.ip.v6 {
        !a.ip.v6
    } else if a.ip.bits != b.ip.bits {
        a.ip.bits < b.ip.bits
    } else {
        a.port < b.port
    }
}

fn is_addr_less(a: PeerAddr, b: PeerAddr) -> (r: bool)
    ensures
        r == addr_less(a, b),
{
    if a.ip.v6 != b.ip.v6 {
        !a.ip.v6
    } else if a.ip.bits != b.ip.bits {
        a.ip.bits < b.ip.bits
    } else {
        a.port < b.port
    }
}

/// Addresses in ascending order, none twice.
pub open spec fn strictly_ascending(peers: Seq<PeerAddr>) -> bool {
    forall|i: int, j: int|
        0 <= i < j < peers.len() ==> addr_less(#[trigger] peers[i], #[trigger] peers[j])
}

/// The same addresses in order, each once.
pub fn compact_metadata_task_peers(peers: Vec<PeerAddr>) -> (r: Vec<PeerAddr>)
    ensures
        strictly_ascending(r@),
        forall|p: PeerAddr| r@.contains(p) <==> peers@.contains(p),
{
    let mut sorted: Vec<PeerAddr> = Vec::new();
    let mut n: usize = 0;
    while n < peers.len()
        invariant
            n <= peers@.len(),
            strictly_ascending(sorted@),
            forall|p: PeerAddr| sorted@.contains(p) <==> peers@.take(n as int).contains(p),
        decreases peers@.len() - n,
    {
        let peer = peers[n];
        let ghost before = sorted@;
        let mut at: usize = 0;
        while at < sorted.len() && is_addr_less(sorted[at], peer)
            invariant
                at <= sorted@.len(),
                sorted@ == before,
                forall|i: int| 0 <= i < at ==> addr_less(#[trigger] sorted@[i], peer),
            decreases sorted@.len() - at,
        {
            at = at + 1;
        }
        let ghost taken = peers@.take(n as int);
        assert(peers@.take(n + 1) =~= taken.push(peer));
        if at < sorted.len() && sorted[at] == peer {
            proof {
                assert(before[at as int] == peer);
                assert forall|p: PeerAddr| sorted@.contains(p) <==> taken.push(peer).contains(p) by {
                    if taken.push(peer).contains(p) && p != peer {
                        let i = choose|i: int|
                            0 <= i < taken.push(peer).len() && taken.push(peer)[i] == p;
                        assert(taken[i] == p);
                    }
                    if taken.contains(p) {
                        let i = choose|i: int| 0 <= i < taken.len() && taken[i] == p;
                        assert(taken.push(peer)[i] == p);
                    }
                }
            }
        } else {
            sorted.insert(at, peer);
            proof {
                let after = sorted@;
                assert forall|i: int, j: int| 0 <= i < j < after.len() implies addr_less(
                    #[trigger] after[i],
                    #[trigger] after[j],
                ) by {
                    if j < at {
                        assert(after[i] == before[i] && after[j] == before[j]);
                    } else if i < at && j > at {
                        assert(after[i] == before[i] && after[j] == before[j - 1]);
                    } else if i > at {
                        assert(after[i] == before[i - 1] && after[j] == before[j - 1]);
                    } else if i == at {
                        assert(after[j] == before[j - 1]);
                        if j - 1 > at {
                            assert(addr_less(before[at as int], before[j - 1]));
                        }
                    }
                }
                assert forall|p: PeerAddr| after.contains(p) <==> taken.push(peer).contains(p) by {
                    if after.contains(p) && p != peer {
                        let i = choose|i: int| 0 <= i < after.len() && after[i] == p;
                        if i < at {
                            assert(before[i] == p);
                        } else {
                            assert(before[i - 1] == p);
                        }
                        assert(before.contains(p));
                        assert(taken.contains(p));
                        let k = choose|k: int| 0 <= k < taken.len() && taken[k] == p;
                        assert(taken.push(peer)[k] == p);
                    }
                    if taken.push(peer).contains(p) {
                        if p == peer {
                            assert(after[at as int] == p);
                        } else {
                            let i = choose|i: int|
                                0 <= i < taken.push(peer).len() && taken.push(peer)[i] == p;
                            assert(taken[i] == p);
                            assert(taken.contains(p));
                            assert(before.contains(p));
                            let k = choose|k: int| 0 <= k < before.len() && before[k] == p;
                            if k < at {
                                assert(after[k] == p);
                            } else {
                                assert(after[k + 1] == p);
                            }
                        }
                    }
                    if p == peer {
                        assert(taken.push(peer)[taken.len() as int] == p);
                    }
                }
            }
        }
        n = n + 1;
    }
    assert(peers@.take(n as int) =~= peers@);
    sorted
}

/// What a task is about to keep.
#[derive(Debug)]
pub struct MetadataTaskPlan {
    pub trackers: Vec<String>,
    pub direct_peers: Vec<PeerAddr>,
    /// The memory to be had before the task starts.
    pub bytes: u64,
}

/// What a running task keeps.
#[derive(Debug)]
pub struct MetadataTaskMemory {
    pub reserved_bytes: u64,
    pub direct_peers: Vec<PeerAddr>,
}

/// Works out what a task will keep. The peers of the magnet link are hints,
/// and too many of them are refused.
pub fn prepare_metadata_task_memory_with_peers(
    trackers: Vec<String>,
    direct_peers: Vec<PeerAddr>,
    max_peers: usize,
) -> (r: CmdResult<MetadataTaskPlan>)
    ensures
        match r {
            Ok(plan) => {
                &&& plan.trackers@ == trackers@
                &&& strictly_ascending(plan.direct_peers@)
                &&& forall|p: PeerAddr|
                    plan.direct_peers@.contains(p) <==> direct_peers@.contains(p)
                &&& plan.direct_peers@.len() <= MAX_METADATA_DIRECT_PEERS
                &&& plan.bytes == capped(
                    task_memory(trackers@, plan.direct_peers@.len(), max_peers as nat),
                )
            },
            Err(e) => exists|distinct: Seq<PeerAddr>|
                {
                    &&& #[trigger] strictly_ascending(distinct)
                    &&& forall|p: PeerAddr| distinct.contains(p) <==> direct_peers@.contains(p)
                    &&& distinct.len() > MAX_METADATA_DIRECT_PEERS
                    &&& e@ == "metadata task has "@ + decimal(distinct.len())
                        + " direct peers, maximum is "@ + decimal(MAX_METADATA_DIRECT_PEERS as nat)
                },
        },
{
    let trackers = compact_metadata_task_trackers(trackers);
    let direct_peers = compact_metadata_task_peers(direct_peers);
    if direct_peers.len() > MAX_METADATA_DIRECT_PEERS {
        let found = count_text(direct_peers.len());
        let maximum = count_text(MAX_METADATA_DIRECT_PEERS);
        assert(strictly_ascending(direct_peers@));
        return Err(
            join4(
                "metadata task has ",
                found.as_str(),
                " direct peers, maximum is ",
                maximum.as_str(),
            ),
        );
    }
    let bytes: u64 = metadata_task_memory_bytes(
        trackers.as_slice(),
        direct_peers.len(),
        max_peers,
    ) as u64;
    Ok(MetadataTaskPlan { trackers, direct_peers, bytes })
}

/// Works out what a task without peers of a magnet link will keep.
pub fn prepare_metadata_task_memory(trackers: Vec<String>, max_peers: usize) -> (r: CmdResult<
    MetadataTaskPlan,
>)
    ensures
        r matches Ok(plan) && plan.trackers@ == trackers@ && plan.direct_peers@.len() == 0
            && plan.bytes == capped(task_memory(trackers@, 0, max_peers as nat)),
{
    let none: Vec<PeerAddr> = Vec::new();
    let r = prepare_metadata_task_memory_with_peers(trackers, none, max_peers);
    proof {
        if r is Ok {
            let peers = (r->Ok_0).direct_peers@;
            if peers.len() > 0 {
                assert(peers.contains(peers[0]));
                assert(none@.contains(peers[0]));
            }
        } else {
            let distinct = choose|distinct: Seq<PeerAddr>|
                {
                    &&& #[trigger] strictly_ascending(distinct)
                    &&& forall|p: PeerAddr| distinct.contains(p) <==> none@.contains(p)
                    &&& distinct.len() > MAX_METADATA_DIRECT_PEERS
                };
            assert(distinct.contains(distinct[0]));
            assert(none@.contains(distinct[0]));
        }
    }
    r
}

impl MetadataTaskPlan {
    /// Starts the task, where the memory was granted.
    pub fn start(self, granted: bool) -> (r: CmdResult<(Vec<String>, MetadataTaskMemory)>)
        ensures
            if granted {
                r matches Ok((trackers, memory)) && trackers@ == self.trackers@
                    && memory.reserved_bytes == self.bytes && memory.direct_peers@
                    == self.direct_peers@
            } else {
                r matches Err(e) && e@ == "metadata task allocation of "@ + decimal(
                    self.bytes as nat,
                ) + " bytes denied for "@ + decimal(self.trackers@.len()) + " trackers"@
            },
    {
        if !granted {
            let bytes = decimal_text(self.bytes);
            let count = count_text(self.trackers.len());
            return Err(
                join5(
                    "metadata task allocation of ",
                    bytes.as_str(),
                    " bytes denied for ",
                    count.as_str(),
                    " trackers",
                ),
            );
        }
        Ok(
            (
                self.trackers,
                MetadataTaskMemory {
                    reserved_bytes: self.bytes,
                    direct_peers: self.direct_peers,
                },
            ),
        )
    }
}

impl MetadataTaskMemory {
    /// What the task would keep with other trackers.
    pub open spec fn required(&self, trackers: Seq<String>, max_peers: nat) -> nat {
        capped(task_memory(trackers, self.direct_peers@.len(), max_peers))
    }

    /// How much more memory the task needs for other trackers, if any.
    pub fn additional_for(&self, trackers: &[String], max_peers: usize) -> (r: Option<u64>)
        ensures
            r == if self.required(trackers@, max_peers as nat) <= self.reserved_bytes {
                None
            } else {
                Some((self.required(trackers@, max_peers as nat) - self.reserved_bytes) as u64)
            },
    {
        let required: u64 = metadata_task_memory_bytes(
            trackers,
            self.direct_peers.len(),
            max_peers,
        ) as u64;
        if required <= self.reserved_bytes {
            None
        } else {
            Some(required - self.reserved_bytes)
        }
    }

    /// Takes other trackers into account. What is reserved only ever grows;
    /// where more is needed it must have been granted.
    pub fn refresh_trackers(&mut self, trackers: &[String], max_peers: usize, granted: bool) -> (r:
        CmdResult<()>)
        ensures
            final(self).direct_peers == old(self).direct_peers,
            ({
                let required = old(self).required(trackers@, max_peers as nat);
                if required <= old(self).reserved_bytes {
                    r is Ok && final(self).reserved_bytes == old(self).reserved_bytes
                } else if granted {
                    r is Ok && final(self).reserved_bytes == required
                } else {
                    &&& r matches Err(e) && e@ == "metadata task tracker update allocation of "@
                        + decimal((required - old(self).reserved_bytes) as nat)
                        + " bytes denied for "@ + decimal(trackers@.len()) + " trackers"@
                    &&& final(self).reserved_bytes == old(self).reserved_bytes
                }
            }),
    {
        match self.additional_for(trackers, max_peers) {
            None => Ok(()),
            Some(additional) => {
                if !granted {
                    let bytes = decimal_text(additional);
                    let count = count_text(trackers.len());
                    return Err(
                        join5(
                            "metadata task tracker update allocation of ",
                            bytes.as_str(),
                            " bytes denied for ",
                            count.as_str(),
                            " trackers",
                        ),
                    );
                }
                self.reserved_bytes = self.reserved_bytes + additional;
                Ok(())
            },
        }
    }
}

proof fn lemma_text_bytes_push(trackers: Seq<String>, tracker: String)
    ensures
        text_bytes(trackers.push(tracker)) == text_bytes(trackers) + vstd::utf8::encode_utf8(
            tracker@,
        ).len(),
{
    assert(trackers.push(tracker).drop_last() =~= trackers);
}

/// What a task keeps grows with what it is given: one more tracker adds the text's
/// handle of twenty-four bytes, its bytes and what it takes in the torrent
/// file, one more peer of the magnet link twice the thirty-two bytes of an
/// address. An empty task keeps its eight kibibytes and the memory of attempts,
/// two hundred and fifty-six bytes each.
pub proof fn law_memory_grows_with_the_task(
    trackers: Seq<String>,
    tracker: String,
    direct_peers: nat,
    max_peers: nat,
)
    ensures
        task_memory(trackers, direct_peers + 1, max_peers) == task_memory(
            trackers,
            direct_peers,
            max_peers,
        ) + 64,
        task_memory(trackers.push(tracker), direct_peers, max_peers) == task_memory(
            trackers,
            direct_peers,
            max_peers,
        ) + 24 + vstd::utf8::encode_utf8(tracker@).len() + (tracker_bytes(
            trackers.push(tracker),
        ).len() - tracker_bytes(trackers).len()),
        task_memory(Seq::empty(), 0, max_peers) == 8_192 + 256 * clamped(
            4 * max_peers,
            256,
            16_384,
        ),
{
    lemma_text_bytes_push(trackers, tracker);
    assert((direct_peers + 1) * 32 * 2 == direct_peers * 32 * 2 + 64);
    assert(trackers.push(tracker).len() * 24 == trackers.len() * 24 + 24);
}

/// Addresses are in one order: of two different ones exactly one comes first, IPv4
/// before IPv6, then the lower address, then the lower port; none comes before
/// itself.
pub proof fn law_addresses_are_ordered(a: PeerAddr, b: PeerAddr, c: PeerAddr)
    ensures
        !addr_less(a, a),
        a != b ==> (addr_less(a, b) <==> !addr_less(b, a)),
        addr_less(a, b) && addr_less(b, c) ==> addr_less(a, c),
        !a.ip.v6 && b.ip.v6 ==> addr_less(a, b),
        a.ip.v6 == b.ip.v6 && a.ip.bits < b.ip.bits ==> addr_less(a, b),
        a.ip == b.ip && a.port < b.port ==> addr_less(a, b),
{
}

/// A task is started with what was planned where the memory was granted, and not
/// at all where it was not.
pub proof fn law_plans_start_where_memory_was_granted(
    plan: MetadataTaskPlan,
    started: CmdResult<(Vec<String>, MetadataTaskMemory)>,
    denied: CmdResult<(Vec<String>, MetadataTaskMemory)>,
    peer_cap: usize,
    bytes: u64,
)
    requires
        call_ensures(MetadataTaskPlan::start, (plan, true), started),
        call_ensures(MetadataTaskPlan::start, (plan, false), denied),
        call_ensures(metadata_tracker_peer_collection_bytes, (peer_cap,), bytes),
    ensures
        started matches Ok((trackers, memory)) && trackers@ == plan.trackers@
            && memory.reserved_bytes == plan.bytes && memory.direct_peers@ == plan.direct_peers@,
        denied is Err,
        peer_cap * 256 <= u64::MAX ==> bytes == peer_cap * 256,
        peer_cap * 256 > u64::MAX ==> bytes == u64::MAX,
{
}

} // verus!
