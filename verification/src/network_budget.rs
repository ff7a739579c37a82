//! Process-wide network admission and traffic budgets.
//!
//! Peer slots count live peer and metadata connections. The rate limiters
//! count payload bytes at the engine boundary; protocol framing is not
//! included. Times are nanoseconds on one monotonic clock.

use vstd::prelude::*;

verus! {

/// The smallest burst, in bytes, that a limited bucket holds.
pub const MAX_INITIAL_BURST_BYTES: u64 = 65_536;

const NANOS_PER_SEC: u128 = 1_000_000_000;

/// The shortest sleep of a waiter.
pub const MIN_RATE_SLEEP_NANOS: u64 = 1_000_000;

/// How many bytes a bucket holds at most under `limit` bytes per second.
pub open spec fn bucket_capacity(limit: Option<u64>) -> u64 {
    match limit {
        None => u64::MAX,
        Some(limit) => if limit > MAX_INITIAL_BURST_BYTES {
            limit
        } else {
            MAX_INITIAL_BURST_BYTES
        },
    }
}

/// A limit of zero is no limit.
pub open spec fn effective_limit(limit: Option<u64>) -> Option<u64> {
    if limit == Some(0u64) {
        None
    } else {
        limit
    }
}

/// The state of a token bucket.
pub struct Bucket {
    pub limit: Option<u64>,
    pub tokens: u64,
    pub updated_at: u128,
    /// How often the limit has changed, modulo the range of the counter.
    pub limit_generation: u64,
}

/// The bytes that `elapsed` nanoseconds bring under `limit`.
pub open spec fn refill(elapsed: nat, limit: u64) -> nat {
    let bytes = elapsed * limit as nat / 1_000_000_000;
    if bytes > u64::MAX {
        u64::MAX as nat
    } else {
        bytes
    }
}

/// The time from `from` to `to`, none where `to` comes first.
pub open spec fn elapsed_nanos(from: u128, to: u128) -> nat {
    if to >= from {
        (to - from) as nat
    } else {
        0
    }
}

impl Bucket {
    /// What a limited bucket holds at `now`.
    pub open spec fn tokens_at(self, limit: u64, now: u128) -> u64 {
        let sum = self.tokens + refill(elapsed_nanos(self.updated_at, now), limit);
        if sum > bucket_capacity(Some(limit)) {
            bucket_capacity(Some(limit))
        } else {
            sum as u64
        }
    }

    /// Never more tokens than the bucket holds, and never a limit of zero.
    pub open spec fn valid(self) -> bool {
        &&& self.tokens <= bucket_capacity(self.limit)
        &&& self.limit != Some(0u64)
    }
}

/// A request is served in portions that fit the bucket.
pub open spec fn portion(remaining: u64, limit: u64) -> u64 {
    if remaining > bucket_capacity(Some(limit)) {
        bucket_capacity(Some(limit))
    } else {
        remaining
    }
}

/// The nanoseconds until `missing` bytes have come in under `limit`.
pub open spec fn wait_nanos(missing: u64, limit: u64) -> nat {
    ((missing * 1_000_000_000 + limit - 1) / limit as int) as nat
}

/// What a request for bytes has to do next.
#[derive(Clone, Copy, Debug, PartialEq, Eq, Structural)]
pub enum AcquireStep {
    /// Nothing: all bytes are granted.
    Done,
    /// Ask again at once for what is left.
    Again { remaining: u64 },
    /// Ask again for as much after that many nanoseconds, or when the limit
    /// changes.
    Wait { nanos: u64 },
}

/// One request of `remaining` bytes at `now`: what comes of it, and the bucket
/// afterwards.
pub open spec fn acquire_step(bucket: Bucket, remaining: u64, now: u128) -> (AcquireStep, Bucket) {
    match bucket.limit {
        None => (AcquireStep::Done, bucket),
        Some(limit) => {
            let tokens = bucket.tokens_at(limit, now);
            let wanted = portion(remaining, limit);
            if remaining == 0 {
                (AcquireStep::Done, bucket)
            } else if tokens >= wanted {
                (
                    if remaining == wanted {
                        AcquireStep::Done
                    } else {
                        AcquireStep::Again { remaining: (remaining - wanted) as u64 }
                    },
                    Bucket { tokens: (tokens - wanted) as u64, updated_at: now, ..bucket },
                )
            } else {
                (
                    AcquireStep::Wait { nanos: wait_nanos((wanted - tokens) as u64, limit) as u64 },
                    Bucket { tokens, updated_at: now, ..bucket },
                )
            }
        },
    }
}

/// A token bucket.
pub struct SharedRateLimiter {
    limit: Option<u64>,
    tokens: u64,
    updated_at: u128,
    limit_generation: u64,
}

impl View for SharedRateLimiter {
    type V = Bucket;

    closed spec fn view(&self) -> Bucket {
        Bucket {
            limit: self.limit,
            tokens: self.tokens,
            updated_at: self.updated_at,
            limit_generation: self.limit_generation,
        }
    }
}

fn capacity(limit: Option<u64>) -> (r: u64)
    ensures
        r == bucket_capacity(limit),
{
    match limit {
        None => u64::MAX,
        Some(limit) => if limit > MAX_INITIAL_BURST_BYTES {
            limit
        } else {
            MAX_INITIAL_BURST_BYTES
        },
    }
}

fn positive(limit: Option<u64>) -> (r: Option<u64>)
    ensures
        r == effective_limit(limit),
{
    match limit {
        Some(0) => None,
        _ => limit,
    }
}

/// The wait stays in the range of the clock.
proof fn lemma_wait_fits(missing: u64, limit: u64)
    requires
        0 < limit,
        0 < missing <= bucket_capacity(Some(limit)),
    ensures
        1 <= wait_nanos(missing, limit) <= 65_536_000_000_000,
        missing * 1_000_000_000 <= wait_nanos(missing, limit) * limit,
{
    let top = missing * 1_000_000_000 + limit - 1;
    let w = top / limit as int;
    assert(top == w * limit + top % (limit as int)) by (nonlinear_arith)
        requires
            limit > 0,
            w == top / limit as int,
    ;
    assert(w >= 1) by (nonlinear_arith)
        requires
            top >= limit,
            limit > 0,
            w == top / limit as int,
    ;
    assert(w <= 65_536_000_000_000) by (nonlinear_arith)
        requires
            limit > 0,
            missing > 0,
            missing <= limit || missing <= 65_536,
            top == missing * 1_000_000_000 + limit - 1,
            w == top / limit as int,
    ;
}

impl SharedRateLimiter {
    /// The bucket holds no more than its capacity.
    pub open spec fn wf(&self) -> bool {
        self@.valid()
    }

    /// A full bucket.
    pub fn new(limit_bytes_per_sec: Option<u64>, now: u128) -> (r: Self)
        ensures
            r.wf(),
            r@ == (Bucket {
                limit: effective_limit(limit_bytes_per_sec),
                tokens: bucket_capacity(effective_limit(limit_bytes_per_sec)),
                updated_at: now,
                limit_generation: 0,
            }),
    {
        let limit = positive(limit_bytes_per_sec);
        SharedRateLimiter {
            limit,
            tokens: capacity(limit),
            updated_at: now,
            limit_generation: 0,
        }
    }

    /// Changes the limit and fills the bucket; the same limit again changes
    /// nothing and grants nothing. Tells whether waiters are to be woken.
    pub fn set_limit(&mut self, limit: Option<u64>, now: u128) -> (changed: bool)
        requires
            old(self).wf(),
        ensures
            final(self).wf(),
            changed == (old(self)@.limit != effective_limit(limit)),
            final(self)@ == if changed {
                Bucket {
                    limit: effective_limit(limit),
                    tokens: bucket_capacity(effective_limit(limit)),
                    updated_at: now,
                    limit_generation: old(self)@.limit_generation.wrapping_add(1),
                }
            } else {
                old(self)@
            },
    {
        let limit = positive(limit);
        let same = match (self.limit, limit) {
            (None, None) => true,
            (Some(a), Some(b)) => a == b,
            _ => false,
        };
        if same {
            return false;
        }
        self.limit = limit;
        self.tokens = capacity(limit);
        self.updated_at = now;
        self.limit_generation = self.limit_generation.wrapping_add(1);
        true
    }

    /// How often the limit has changed.
    pub fn limit_generation(&self) -> (r: u64)
        ensures
            r == self@.limit_generation,
    {
        self.limit_generation
    }

    /// The bytes that can be had at once, as of the last request.
    pub fn tokens(&self) -> (r: u64)
        ensures
            r == self@.tokens,
    {
        self.tokens
    }

    /// One request of `remaining` bytes.
    pub fn acquire(&mut self, remaining: u64, now: u128) -> (r: AcquireStep)
        requires
            old(self).wf(),
        ensures
            final(self).wf(),
            (r, final(self)@) == acquire_step(old(self)@, remaining, now),
    {
        if remaining == 0 {
            return AcquireStep::Done;
        }
        let limit: u64 = match self.limit {
            Some(limit) => limit,
            None => {
                return AcquireStep::Done;
            },
        };
        let full: u64 = capacity(Some(limit));
        let elapsed: u128 = now.saturating_sub(self.updated_at);
        self.updated_at = now;
        let ghost exact = elapsed * limit;
        let product: u128 = match elapsed.checked_mul(limit as u128) {
            Some(product) => product,
            None => u128::MAX,
        };
        let bytes: u128 = product / NANOS_PER_SEC;
        let added: u64 = if bytes > u64::MAX as u128 {
            u64::MAX
        } else {
            bytes as u64
        };
        assert(added == refill(elapsed as nat, limit));
        let sum: u64 = self.tokens.saturating_add(added);
        self.tokens = if sum > full {
            full
        } else {
            sum
        };
        let requested: u64 = if remaining > full {
            full
        } else {
            remaining
        };
        if self.tokens >= requested {
            self.tokens = self.tokens - requested;
            if remaining == requested {
                AcquireStep::Done
            } else {
                AcquireStep::Again { remaining: remaining - requested }
            }
        } else {
            let missing: u64 = requested - self.tokens;
            proof {
                lemma_wait_fits(missing, limit);
            }
            let nanos: u128 = (missing as u128 * NANOS_PER_SEC + (limit - 1) as u128)
                / limit as u128;
            AcquireStep::Wait { nanos: nanos as u64 }
        }
    }
}

/// A wake-up shared by the owner of a peer and the loop that serves it.
pub struct RateLimitCancellation {
    generation: u64,
}

impl View for RateLimitCancellation {
    type V = u64;

    closed spec fn view(&self) -> u64 {
        self.generation
    }
}

impl Default for RateLimitCancellation {
    fn default() -> (r: Self)
        ensures
            r@ == 0,
    {
        RateLimitCancellation { generation: 0 }
    }
}

impl RateLimitCancellation {
    /// The generation that a waiter holds on to.
    pub fn generation(&self) -> (r: u64)
        ensures
            r == self@,
    {
        self.generation
    }

    /// Makes every generation that is held stale.
    pub fn cancel(&mut self)
        ensures
            final(self)@ == old(self)@.wrapping_add(1),
    {
        self.generation = self.generation.wrapping_add(1);
    }
}

/// What a request that can be called off has to do next.
#[derive(Clone, Copy, Debug, PartialEq, Eq, Structural)]
pub enum CancellableStep {
    Cancelled,
    Step(AcquireStep),
}

impl SharedRateLimiter {
    /// One request of `remaining` bytes on behalf of a peer that has read
    /// `generation` from `cancellation`.
    pub fn acquire_or_cancelled(
        &mut self,
        remaining: u64,
        now: u128,
        cancellation: &RateLimitCancellation,
        generation: u64,
    ) -> (r: CancellableStep)
        requires
            old(self).wf(),
        ensures
            final(self).wf(),
            cancellation@ != generation ==> r == CancellableStep::Cancelled && final(self)@ == old(
                self,
            )@,
            cancellation@ == generation ==> {
                let (step, bucket) = acquire_step(old(self)@, remaining, now);
                r == CancellableStep::Step(step) && final(self)@ == bucket
            },
    {
        if cancellation.generation() != generation {
            return CancellableStep::Cancelled;
        }
        CancellableStep::Step(self.acquire(remaining, now))
    }
}

/// How long a waiter sleeps: never less than the shortest sleep.
pub fn rate_sleep_nanos(nanos: u64) -> (r: u64)
    ensures
        r == if nanos < MIN_RATE_SLEEP_NANOS {
            MIN_RATE_SLEEP_NANOS
        } else {
            nanos
        },
{
    if nanos < MIN_RATE_SLEEP_NANOS {
        MIN_RATE_SLEEP_NANOS
    } else {
        nanos
    }
}

/// Peer slots and traffic of the whole process.
pub struct GlobalNetworkBudget {
    /// Slots there are.
    pub max_peers: usize,
    /// Slots that are free.
    pub peer_slots: usize,
    pub download: SharedRateLimiter,
    pub upload: SharedRateLimiter,
}

/// A live connection. It occupies one peer slot until it is handed back.
pub struct PeerSlot {
    live: bool,
}

impl GlobalNetworkBudget {
    /// How many connections the budget admits at once.
    pub open spec fn slots(&self) -> nat {
        self.max_peers as nat
    }

    /// How many more connections it would admit now.
    pub open spec fn free_slots(&self) -> nat {
        self.peer_slots as nat
    }

    /// There is a slot at all, no more are free than there are, and both
    /// buckets are within bounds.
    pub open spec fn wf(&self) -> bool {
        &&& 0 < self.max_peers
        &&& self.peer_slots <= self.max_peers
        &&& self.download.wf()
        &&& self.upload.wf()
    }

    /// A budget with every slot free and both buckets full.
    pub fn new(
        max_peers: usize,
        download_limit_bytes_per_sec: Option<u64>,
        upload_limit_bytes_per_sec: Option<u64>,
        now: u128,
    ) -> (r: Self)
        ensures
            r.wf(),
            r.slots() == if max_peers == 0 {
                1
            } else {
                max_peers as nat
            },
            r.free_slots() == r.slots(),
            r.download@.limit == effective_limit(download_limit_bytes_per_sec),
            r.download@.tokens == bucket_capacity(r.download@.limit),
            r.download@.updated_at == now,
            r.download@.limit_generation == 0,
            r.upload@.limit == effective_limit(upload_limit_bytes_per_sec),
            r.upload@.tokens == bucket_capacity(r.upload@.limit),
            r.upload@.updated_at == now,
            r.upload@.limit_generation == 0,
    {
        let slots: usize = if max_peers == 0 {
            1
        } else {
            max_peers
        };
        GlobalNetworkBudget {
            max_peers: slots,
            peer_slots: slots,
            download: SharedRateLimiter::new(download_limit_bytes_per_sec, now),
            upload: SharedRateLimiter::new(upload_limit_bytes_per_sec, now),
        }
    }

    /// A budget that in practice never refuses.
    pub fn unlimited(now: u128) -> (r: Self)
        ensures
            r.wf(),
            r.slots() == 1_000_000,
            r.free_slots() == 1_000_000,
            r.download@.limit is None,
            r.upload@.limit is None,
    {
        GlobalNetworkBudget::new(1_000_000, None, None, now)
    }

    /// Takes a peer slot if one is free.
    pub fn try_acquire_peer(&mut self) -> (r: Option<PeerSlot>)
        requires
            old(self).wf(),
        ensures
            final(self).wf(),
            r is Some <==> old(self).free_slots() > 0,
            final(self).free_slots() == old(self).free_slots() - if r is Some {
                1int
            } else {
                0int
            },
            final(self).slots() == old(self).slots(),
            final(self).download == old(self).download,
            final(self).upload == old(self).upload,
    {
        if self.peer_slots > 0 {
            self.peer_slots = self.peer_slots - 1;
            Some(PeerSlot { live: true })
        } else {
            None
        }
    }

    /// Hands a peer slot back.
    pub fn release_peer(&mut self, slot: PeerSlot)
        requires
            old(self).wf(),
        ensures
            final(self).wf(),
            final(self).free_slots() == if old(self).free_slots() < old(self).slots() {
                old(self).free_slots() + 1
            } else {
                old(self).free_slots()
            },
            final(self).slots() == old(self).slots(),
            final(self).download == old(self).download,
            final(self).upload == old(self).upload,
    {
        let _ = slot;
        if self.peer_slots < self.max_peers {
            self.peer_slots = self.peer_slots + 1;
        }
    }
}

/// A step never takes a bucket out of bounds.
pub proof fn law_bucket_stays_valid(bucket: Bucket, remaining: u64, now: u128)
    requires
        bucket.valid(),
    ensures
        acquire_step(bucket, remaining, now).1.valid(),
{
}

/// The bytes that a step grants of `remaining`.
pub open spec fn granted(remaining: u64, step: AcquireStep) -> int {
    match step {
        AcquireStep::Done => remaining as int,
        AcquireStep::Again { remaining: left } => remaining - left,
        AcquireStep::Wait { .. } => 0,
    }
}

/// No more bytes are granted than the bucket held and the elapsed time
/// brought.
pub proof fn law_grants_are_covered(bucket: Bucket, remaining: u64, now: u128)
    requires
        bucket.valid(),
    ensures
        ({
            let (step, after) = acquire_step(bucket, remaining, now);
            bucket.limit matches Some(limit) ==> granted(remaining, step) + after.tokens <= bucket.tokens + refill(
                elapsed_nanos(bucket.updated_at, now),
                limit,
            )
        }),
{
}

/// A request for bytes at some time.
pub struct Request {
    pub remaining: u64,
    pub now: u128,
}

/// The bucket after a run of requests.
pub open spec fn bucket_after(bucket: Bucket, requests: Seq<Request>) -> Bucket
    decreases requests.len(),
{
    if requests.len() == 0 {
        bucket
    } else {
        let before = bucket_after(bucket, requests.drop_last());
        acquire_step(before, requests.last().remaining, requests.last().now).1
    }
}

/// The bytes that a run of requests is granted in all.
pub open spec fn granted_in_all(bucket: Bucket, requests: Seq<Request>) -> int
    decreases requests.len(),
{
    if requests.len() == 0 {
        0
    } else {
        let before = bucket_after(bucket, requests.drop_last());
        let last = requests.last();
        granted_in_all(bucket, requests.drop_last()) + granted(
            last.remaining,
            acquire_step(before, last.remaining, last.now).0,
        )
    }
}

/// The clock does not go back: no request comes before the one before it, nor
/// before the bucket was last filled.
pub open spec fn in_order(bucket: Bucket, requests: Seq<Request>) -> bool {
    &&& forall|i: int| 0 <= i < requests.len() ==> bucket.updated_at <= (#[trigger] requests[i]).now
    &&& forall|i: int, j: int|
        0 <= i < j < requests.len() ==> (#[trigger] requests[i]).now <= (
        #[trigger] requests[j]).now
}

proof fn lemma_refills_add_up(a: nat, b: nat, limit: u64)
    ensures
        a * limit as nat / 1_000_000_000 + b * limit as nat / 1_000_000_000 <= (a + b)
            * limit as nat / 1_000_000_000,
{
    let l = limit as nat;
    assert((a + b) * l == a * l + b * l) by (nonlinear_arith);
}

proof fn lemma_run_is_covered(bucket: Bucket, requests: Seq<Request>, limit: u64)
    requires
        bucket.valid(),
        bucket.limit == Some(limit),
        in_order(bucket, requests),
    ensures
        ({
            let after = bucket_after(bucket, requests);
            &&& after.valid()
            &&& after.limit == Some(limit)
            &&& bucket.updated_at <= after.updated_at
            &&& requests.len() == 0 ==> after == bucket
            &&& requests.len() > 0 ==> after.updated_at <= requests.last().now
            &&& granted_in_all(bucket, requests) + after.tokens <= bucket.tokens + (
            after.updated_at - bucket.updated_at) as nat * limit as nat / 1_000_000_000
        }),
    decreases requests.len(),
{
    if requests.len() > 0 {
        let earlier = requests.drop_last();
        let last = requests.last();
        assert forall|i: int| 0 <= i < earlier.len() implies bucket.updated_at <= (
        #[trigger] earlier[i]).now by {
            assert(earlier[i] == requests[i]);
        }
        assert forall|i: int, j: int| 0 <= i < j < earlier.len() implies (#[trigger] earlier[i]).now
            <= (#[trigger] earlier[j]).now by {
            assert(earlier[i] == requests[i] && earlier[j] == requests[j]);
        }
        lemma_run_is_covered(bucket, earlier, limit);
        let before = bucket_after(bucket, earlier);
        assert(last == requests[requests.len() - 1]);
        assert(before.updated_at <= last.now) by {
            if earlier.len() > 0 {
                assert(earlier.last() == requests[requests.len() - 2]);
            }
        }
        law_grants_are_covered(before, last.remaining, last.now);
        lemma_refills_add_up(
            (before.updated_at - bucket.updated_at) as nat,
            (last.now - before.updated_at) as nat,
            limit,
        );
        let after = bucket_after(bucket, requests);
        assert(after == acquire_step(before, last.remaining, last.now).1);
        assert((before.updated_at - bucket.updated_at) as nat + (last.now
            - before.updated_at) as nat == (last.now - bucket.updated_at) as nat);
    }
}

/// Whatever is asked of a bucket, and by whomever: over any run of requests no
/// more bytes are granted than one burst and what the time from the last
/// filling to the last request brings.
pub proof fn law_rate_is_kept_over_any_run(bucket: Bucket, requests: Seq<Request>, limit: u64)
    requires
        bucket.valid(),
        bucket.limit == Some(limit),
        in_order(bucket, requests),
        requests.len() > 0,
    ensures
        granted_in_all(bucket, requests) <= bucket_capacity(Some(limit)) + (requests.last().now
            - bucket.updated_at) as nat * limit as nat / 1_000_000_000,
{
    lemma_run_is_covered(bucket, requests, limit);
    let after = bucket_after(bucket, requests);
    assert(bucket.updated_at <= requests.last().now);
    lemma_refills_add_up(
        (after.updated_at - bucket.updated_at) as nat,
        (requests.last().now - after.updated_at) as nat,
        limit,
    );
    assert((after.updated_at - bucket.updated_at) as nat + (requests.last().now
        - after.updated_at) as nat == (requests.last().now - bucket.updated_at) as nat);
}

/// A waiter that sleeps as long as it was told finds its portion, if nobody
/// else has drawn on the bucket.
pub proof fn law_wait_is_long_enough(bucket: Bucket, remaining: u64, now: u128, later: u128)
    requires
        bucket.valid(),
        acquire_step(bucket, remaining, now).0 is Wait,
        later >= now + acquire_step(bucket, remaining, now).0->nanos,
    ensures
        acquire_step(acquire_step(bucket, remaining, now).1, remaining, later).0 !is Wait,
{
    let limit = bucket.limit->0;
    let tokens = bucket.tokens_at(limit, now);
    let wanted = portion(remaining, limit);
    let missing = (wanted - tokens) as u64;
    lemma_wait_fits(missing, limit);
    let w = wait_nanos(missing, limit);
    let elapsed = elapsed_nanos(now, later);
    assert(elapsed >= w);
    assert(elapsed * limit as nat >= missing * 1_000_000_000) by (nonlinear_arith)
        requires
            elapsed >= w,
            missing * 1_000_000_000 <= w * limit,
    ;
    assert(elapsed * limit as nat / 1_000_000_000 >= missing);
}

/// Every grant makes progress: a request of any size ends.
pub proof fn law_every_grant_makes_progress(bucket: Bucket, remaining: u64, now: u128)
    ensures
        acquire_step(bucket, remaining, now).0 matches AcquireStep::Again { remaining: left }
            ==> left < remaining,
{
}

/// A bucket holds a second's worth of bytes, and never less than the least burst;
/// without a limit, or with a limit of zero, it holds whatever is asked for.
pub proof fn law_bursts_are_a_seconds_worth(limit: u64)
    ensures
        bucket_capacity(Some(limit)) >= limit,
        bucket_capacity(Some(limit)) >= 65_536,
        bucket_capacity(Some(limit)) == limit || bucket_capacity(Some(limit)) == 65_536,
        bucket_capacity(None) == u64::MAX,
        effective_limit(Some(0)) is None,
        effective_limit(None) is None,
        limit > 0 ==> effective_limit(Some(limit)) == Some(limit),
{
}

/// A request is granted at once where its bytes are there: a request that fits the
/// bucket is done, one that does not gets a full bucket and goes on. Where they
/// are not there nothing is granted and the tokens stay.
pub proof fn law_requests_are_granted_where_tokens_are_there(
    bucket: Bucket,
    remaining: u64,
    now: u128,
    limit: u64,
)
    requires
        bucket.valid(),
        bucket.limit == Some(limit),
        remaining > 0,
    ensures
        ({
            let (step, after) = acquire_step(bucket, remaining, now);
            let there = bucket.tokens_at(limit, now);
            let full = bucket_capacity(Some(limit));
            &&& remaining <= full && there >= remaining ==> step is Done && after.tokens == there
                - remaining
            &&& remaining > full && there >= full ==> step == (AcquireStep::Again {
                remaining: (remaining - full) as u64,
            }) && after.tokens == there - full
            &&& there < remaining && there < full ==> step is Wait && after.tokens == there
            &&& after.updated_at == now && after.limit == bucket.limit
            &&& there >= bucket.tokens
        }),
        acquire_step((Bucket { limit: None, ..bucket }), remaining, now).0 is Done,
{
}

/// Time brings the limit's bytes for every second, up to a full bucket.
pub proof fn law_time_fills_the_bucket(bucket: Bucket, limit: u64, seconds: nat)
    requires
        bucket.valid(),
        bucket.limit == Some(limit),
        bucket.updated_at + seconds * 1_000_000_000 <= u128::MAX,
        seconds * limit <= u64::MAX,
    ensures
        ({
            let later = (bucket.updated_at + seconds * 1_000_000_000) as u128;
            let sum = bucket.tokens + seconds * limit;
            bucket.tokens_at(limit, later) == if sum < bucket_capacity(Some(limit)) {
                sum
            } else {
                bucket_capacity(Some(limit)) as int
            }
        }),
{
    let elapsed = seconds * 1_000_000_000;
    let l = limit as nat;
    assert(elapsed * l == (seconds * l) * 1_000_000_000) by (nonlinear_arith)
        requires
            elapsed == seconds * 1_000_000_000,
    ;
    assert((seconds * l) * 1_000_000_000 / 1_000_000_000 == seconds * l);
}

/// A slot that is taken is one slot less, and handing it back makes it free again;
/// there are never more free slots than slots, and the rates are not touched.
pub proof fn law_slots_come_and_go(slot: PeerSlot)
    ensures
        forall|budget: &mut GlobalNetworkBudget, r: Option<PeerSlot>| #[trigger]
            call_ensures(GlobalNetworkBudget::try_acquire_peer, (budget,), r) ==> {
                &&& r is Some <==> budget.free_slots() > 0
                &&& r is Some ==> final(budget).free_slots() + 1 == budget.free_slots()
                &&& r is None ==> final(budget).free_slots() == budget.free_slots()
                &&& final(budget).slots() == budget.slots()
                &&& final(budget).download == budget.download && final(budget).upload
                    == budget.upload
            },
        forall|budget: &mut GlobalNetworkBudget| #[trigger]
            call_ensures(GlobalNetworkBudget::release_peer, (budget, slot), ()) ==> {
                &&& budget.free_slots() < budget.slots() ==> final(budget).free_slots()
                    == budget.free_slots() + 1
                &&& budget.free_slots() == budget.slots() ==> final(budget).free_slots()
                    == budget.slots()
                &&& final(budget).slots() == budget.slots()
            },
{
}

/// A new limit fills the bucket and wakes those who wait; the same limit again does
/// neither. A limit of zero is none.
pub proof fn law_limits_change_once(limit: u64, now: u128)
    requires
        limit > 0,
    ensures
        effective_limit(Some(limit)) == Some(limit),
        effective_limit(Some(0)) is None && effective_limit(None) is None,
        forall|limiter: &mut SharedRateLimiter, changed: bool| #[trigger]
            call_ensures(SharedRateLimiter::set_limit, (limiter, Some(limit), now), changed) ==> {
                &&& changed <==> (*limiter)@.limit != Some(limit)
                &&& !changed ==> (*final(limiter))@ == (*limiter)@
                &&& (*final(limiter))@.limit == Some(limit)
                &&& changed ==> (*final(limiter))@.tokens == bucket_capacity(Some(limit))
                    && (*final(limiter))@.updated_at == now && (*final(limiter))@.limit_generation
                    != (*limiter)@.limit_generation
            },
{
}

/// A cancellation makes what is held stale, and nobody sleeps for less than a
/// millisecond.
pub proof fn law_cancellation_is_noticed(nanos: u64, slept: u64)
    requires
        call_ensures(rate_sleep_nanos, (nanos,), slept),
    ensures
        forall|c: &mut RateLimitCancellation| #[trigger]
            call_ensures(RateLimitCancellation::cancel, (c,), ()) ==> (*final(c))@ != (*c)@,
        slept >= 1_000_000 && slept >= nanos,
        nanos >= 1_000_000 ==> slept == nanos,
        nanos < 1_000_000 ==> slept == 1_000_000,
{
}

} // verus!
