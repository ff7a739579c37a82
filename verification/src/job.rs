//! Durable jobs: their states, how they are taken up again after a restart,
//! and how they are brought to an end.

use vstd::prelude::*;

use crate::problem::CmdResult;
use crate::text::join3;

verus! {

/// Where a job stands.
#[derive(Clone, Copy, Debug, PartialEq, Eq, Structural)]
pub enum JobState {
    Queued,
    Running,
    Paused,
    Cancelling,
    Cancelled,
    Failed,
    Completed,
    /// The filesystem work is done; the session does not show it yet.
    CommitPending,
}

/// What a job does.
#[derive(Clone, Copy, Debug, PartialEq, Eq, Structural)]
pub enum JobKind {
    StoragePlan,
    Recheck,
    Other,
}

/// Where a torrent stands.
#[derive(Clone, Copy, Debug, PartialEq, Eq, Structural)]
pub enum TorrentState {
    Stopped,
    Paused,
    Queued,
    MetadataPending,
    Checking,
    Downloading,
    Seeding,
    Error,
}

/// A job as it is stored.
#[derive(Debug)]
pub struct JobRow {
    pub job_id: String,
    pub kind: JobKind,
    pub state: JobState,
    pub error: Option<String>,
    pub done: i64,
    pub checkpoint: i64,
    pub file_index: Option<i64>,
    pub byte_offset: Option<i64>,
    pub updated_at: i64,
    pub finished_at: Option<i64>,
    pub affected_torrents: Vec<String>,
}

/// The state in which a job is taken up again after a restart, where it was
/// interrupted. A cancelled storage plan still has to be rolled back, so it
/// stays cancelled.
pub open spec fn recovered(kind: JobKind, state: JobState) -> Option<JobState> {
    match (kind, state) {
        (JobKind::StoragePlan, JobState::Running) => Some(JobState::Queued),
        (JobKind::StoragePlan, JobState::Cancelling) => Some(JobState::Cancelling),
        (_, JobState::Running) => Some(JobState::Paused),
        (_, JobState::Cancelling) => Some(JobState::Paused),
        _ => None,
    }
}

/// The state in which a job is taken up again after a restart.
pub fn recovered_state(kind: JobKind, state: JobState) -> (r: Option<JobState>)
    ensures
        r == recovered(kind, state),
{
    match (kind, state) {
        (JobKind::StoragePlan, JobState::Running) => Some(JobState::Queued),
        (JobKind::StoragePlan, JobState::Cancelling) => Some(JobState::Cancelling),
        (_, JobState::Running) => Some(JobState::Paused),
        (_, JobState::Cancelling) => Some(JobState::Paused),
        _ => None,
    }
}

/// What is written to the log of a job that is taken up again.
#[derive(Debug)]
pub struct JobRecovered {
    pub job_id: String,
    pub occurred_at: i64,
    /// Where the job stands now.
    pub state: JobState,
    pub previous_state: JobState,
}

/// The kind of such an entry.
pub const JOB_RECOVERED_KIND: &'static str = "job_recovered";

/// What such an entry says.
pub const JOB_RECOVERED_MESSAGE: &'static str = "job recovered after engine restart";

/// What comes of taking up a job again.
#[derive(Debug)]
pub struct JobRecovery {
    /// The one entry in the job's log.
    pub event: JobRecovered,
    /// Which of the job's torrents are paused with it.
    pub paused: Vec<usize>,
}

/// Takes up an interrupted job after a restart, and notes that in its log. Where
/// a recheck is paused, the result lists the places in `torrent_states` of the
/// torrents that it left checking: they are paused with it. Nothing is done
/// or noted for a job that was not interrupted.
pub fn recover_interrupted_job(
    job: &mut JobRow,
    torrent_states: &[Option<TorrentState>],
    now: i64,
) -> (r: Option<JobRecovery>)
    ensures
        match recovered(old(job).kind, old(job).state) {
            None => r is None && *final(job) == *old(job),
            Some(state) => {
                &&& *final(job) == (JobRow { state, updated_at: now, ..*old(job) })
                &&& r matches Some(recovery) && recovery.event == (JobRecovered {
                    job_id: old(job).job_id,
                    occurred_at: now,
                    state,
                    previous_state: old(job).state,
                }) && paused_with(old(job).kind, state, torrent_states@, recovery.paused@)
            },
        },
{
    let previous_state = job.state;
    let state = match recovered_state(job.kind, job.state) {
        Some(state) => state,
        None => {
            return None;
        },
    };
    job.state = state;
    job.updated_at = now;
    let mut paused: Vec<usize> = Vec::new();
    if job.kind == JobKind::Recheck && state == JobState::Paused {
        let mut i: usize = 0;
        assert(torrent_states@.take(0) =~= Seq::<Option<TorrentState>>::empty());
        while i < torrent_states.len()
            invariant
                i <= torrent_states@.len(),
                lists_checking(torrent_states@.take(i as int), paused@),
            decreases torrent_states@.len() - i,
        {
            let ghost before = paused@;
            proof {
                assert(torrent_states@.take(i + 1).drop_last() =~= torrent_states@.take(i as int));
            }
            if torrent_states[i] == Some(TorrentState::Checking) {
                paused.push(i);
                assert(paused@.drop_last() =~= before);
            }
            i = i + 1;
        }
        assert(torrent_states@.take(i as int) =~= torrent_states@);
    }
    let event = JobRecovered {
        job_id: job.job_id.clone(),
        occurred_at: now,
        state,
        previous_state,
    };
    Some(JobRecovery { event, paused })
}

/// `places` lists, in order, where `states` says that a torrent is checking.
pub open spec fn lists_checking(states: Seq<Option<TorrentState>>, places: Seq<usize>) -> bool
    decreases states.len(),
{
    if states.len() == 0 {
        places.len() == 0
    } else if states.last() == Some(TorrentState::Checking) {
        places.len() > 0 && places.last() == states.len() - 1 && lists_checking(
            states.drop_last(),
            places.drop_last(),
        )
    } else {
        lists_checking(states.drop_last(), places)
    }
}

/// The torrents that are paused with a job that is taken up again.
pub open spec fn paused_with(
    kind: JobKind,
    state: JobState,
    states: Seq<Option<TorrentState>>,
    places: Seq<usize>,
) -> bool {
    if kind == JobKind::Recheck && state == JobState::Paused {
        lists_checking(states, places)
    } else {
        places.len() == 0
    }
}

/// A count as the database stores it.
pub open spec fn stored_count(n: nat) -> i64 {
    if n > i64::MAX {
        i64::MAX
    } else {
        n as i64
    }
}

/// A count as the database stores it.
pub fn db_i64_usize(n: usize) -> (r: i64)
    ensures
        r == stored_count(n as nat),
{
    if n as u64 > i64::MAX as u64 {
        i64::MAX
    } else {
        n as i64
    }
}

/// Marks a storage plan complete once the filesystem and the session both show
/// it. A plan that is complete already stays as it is; a completed commit wins
/// over a control update that raced with it.
pub fn complete_storage_plan_job(
    job: &mut JobRow,
    completed_steps: usize,
    completed_byte_offset: Option<i64>,
    now: i64,
) -> (r: CmdResult<bool>)
    ensures
        if old(job).kind != JobKind::StoragePlan {
            &&& r matches Err(e) && e@ == "job "@ + old(job).job_id@ + " is not a storage plan"@
            &&& *final(job) == *old(job)
        } else if old(job).state == JobState::Completed && old(job).finished_at is Some {
            r == Ok::<bool, String>(false) && *final(job) == *old(job)
        } else {
            &&& r == Ok::<bool, String>(true)
            &&& *final(job) == (JobRow {
                state: JobState::Completed,
                error: None,
                done: stored_count(completed_steps as nat),
                checkpoint: stored_count(completed_steps as nat),
                file_index: Some(stored_count(completed_steps as nat)),
                byte_offset: if completed_byte_offset is Some {
                    completed_byte_offset
                } else {
                    old(job).byte_offset
                },
                updated_at: now,
                finished_at: Some(now),
                ..*old(job)
            })
        },
{
    if job.kind != JobKind::StoragePlan {
        return Err(join3("job ", job.job_id.as_str(), " is not a storage plan"));
    }
    if job.state == JobState::Completed && job.finished_at.is_some() {
        return Ok(false);
    }
    job.state = JobState::Completed;
    job.error = None;
    job.done = db_i64_usize(completed_steps);
    job.checkpoint = job.done;
    job.file_index = Some(job.done);
    if completed_byte_offset.is_some() {
        job.byte_offset = completed_byte_offset;
    }
    job.updated_at = now;
    job.finished_at = Some(now);
    Ok(true)
}

/// Some entry of `list` is `text`.
pub open spec fn mentions(list: Seq<String>, text: Seq<char>) -> bool {
    exists|i: int| 0 <= i < list.len() && (#[trigger] list[i])@ == text
}

/// Whether some entry of a list is a text.
pub fn contains_text(list: &[String], text: &String) -> (r: bool)
    ensures
        r == mentions(list@, text@),
{
    let mut i: usize = 0;
    while i < list.len()
        invariant
            i <= list@.len(),
            forall|k: int| 0 <= k < i ==> (#[trigger] list@[k])@ != text@,
        decreases list@.len() - i,
    {
        if list[i] == *text {
            return true;
        }
        i = i + 1;
    }
    false
}

/// Ends a recheck whose torrent task has died, so that it does not block the
/// torrent for ever. Other jobs, and rechecks of other torrents, stay. Tells
/// whether the job was ended.
pub fn fail_recheck_of(job: &mut JobRow, info_hash: &String, reason: &String, now: i64) -> (r: bool)
    ensures
        r == (old(job).kind == JobKind::Recheck && mentions(
            old(job).affected_torrents@,
            info_hash@,
        )),
        r ==> {
            &&& final(job).state == JobState::Failed
            &&& final(job).error matches Some(e) && e@ == reason@
            &&& final(job).updated_at == now
            &&& final(job).finished_at == Some(now)
            &&& *final(job) == (JobRow {
                state: final(job).state,
                error: final(job).error,
                updated_at: final(job).updated_at,
                finished_at: final(job).finished_at,
                ..*old(job)
            })
        },
        !r ==> *final(job) == *old(job),
{
    if job.kind != JobKind::Recheck || !contains_text(job.affected_torrents.as_slice(), info_hash) {
        return false;
    }
    job.state = JobState::Failed;
    job.error = Some(reason.clone());
    job.updated_at = now;
    job.finished_at = Some(now);
    true
}

/// How often, and how long apart, the last part of a storage job is tried
/// again. Delays are nanoseconds.
#[derive(Clone, Copy, Debug)]
pub struct RetryPolicy {
    pub max_retries: u8,
    pub base_delay: u128,
}

/// The longest time span that the clock knows, in nanoseconds.
pub const MAX_DURATION_NANOS: u128 = 18_446_744_073_709_551_615_999_999_999;

/// The delay where the one that is due is too long for the clock.
pub const FALLBACK_DELAY_NANOS: u128 = 5_000_000_000;

/// The delay before retry `attempt`: it doubles up to sixteen times the base.
pub open spec fn retry_delay(base: u128, attempt: u8) -> nat {
    let factor: nat = if attempt == 0 {
        1
    } else if attempt == 1 {
        2
    } else if attempt == 2 {
        4
    } else if attempt == 3 {
        8
    } else {
        16
    };
    if base * factor > MAX_DURATION_NANOS {
        FALLBACK_DELAY_NANOS as nat
    } else {
        base as nat * factor
    }
}

/// A retry that is due.
#[derive(Clone, Copy, Debug, PartialEq, Eq, Structural)]
pub struct Retry {
    pub delay: u128,
    /// The number of the attempt that follows.
    pub attempt: u8,
}

impl RetryPolicy {
    /// The retry after `attempt`, none once all retries are used up.
    pub open spec fn retry_after(self, attempt: u8) -> Option<Retry> {
        if attempt >= self.max_retries {
            None
        } else {
            Some(
                Retry {
                    delay: retry_delay(self.base_delay, attempt) as u128,
                    attempt: (attempt + 1) as u8,
                },
            )
        }
    }

    /// The retry after `attempt`, none once all retries are used up.
    pub fn schedule(&self, attempt: u8) -> (r: Option<Retry>)
        ensures
            r == self.retry_after(attempt),
    {
        if attempt >= self.max_retries {
            return None;
        }
        let factor: u128 = if attempt == 0 {
            1
        } else if attempt == 1 {
            2
        } else if attempt == 2 {
            4
        } else if attempt == 3 {
            8
        } else {
            16
        };
        let delay: u128 = match self.base_delay.checked_mul(factor) {
            Some(delay) => if delay > MAX_DURATION_NANOS {
                FALLBACK_DELAY_NANOS
            } else {
                delay
            },
            None => FALLBACK_DELAY_NANOS,
        };
        Some(Retry { delay, attempt: attempt + 1 })
    }
}

/// A terminal state that could not be stored, to be stored again later.
#[derive(Debug)]
pub struct TerminalRetry {
    pub state: JobState,
    pub error: Option<String>,
    pub retry: Retry,
}

impl RetryPolicy {
    /// What is stored again after a terminal state could not be stored: the
    /// state with its own error, or with the error of storing it where it had
    /// none.
    pub fn retry_terminal_state(
        &self,
        state: JobState,
        error: Option<String>,
        persist_error: String,
        attempt: u8,
    ) -> (r: Option<TerminalRetry>)
        ensures
            match self.retry_after(attempt) {
                None => r is None,
                Some(retry) => r matches Some(again) && again.state == state && again.retry == retry
                    && (again.error matches Some(text) && text@ == match error {
                    Some(own) => own@,
                    None => persist_error@,
                }),
            },
    {
        match self.schedule(attempt) {
            None => None,
            Some(retry) => {
                let error = match error {
                    Some(own) => own,
                    None => persist_error,
                };
                Some(TerminalRetry { state, error: Some(error), retry })
            },
        }
    }
}

/// Retries come to an end: each has a higher number, up to the maximum.
pub proof fn law_retries_are_bounded(policy: RetryPolicy, attempt: u8)
    ensures
        policy.retry_after(attempt) matches Some(retry) ==> attempt < retry.attempt
            <= policy.max_retries,
{
}

/// Taking a job up again is done once: a job that was taken up is not
/// interrupted any more, but for a storage plan that is being cancelled, which
/// stays as it is.
pub proof fn law_recovery_settles(kind: JobKind, state: JobState)
    ensures
        recovered(kind, state) matches Some(again) ==> (recovered(kind, again) is None || recovered(
            kind,
            again,
        ) == Some(again)),
{
}

/// A storage plan that was being cancelled is never taken up as if it had not
/// been.
pub proof fn law_cancellation_survives_a_restart(state: JobState)
    ensures
        recovered(JobKind::StoragePlan, state) == Some(JobState::Queued) ==> state
            == JobState::Running,
{
}

/// After a restart every job that was at work is taken up, and no other: a storage
/// plan that ran is queued, one that was being cancelled still is, and any
/// other job that ran or was being cancelled is paused.
pub proof fn law_interrupted_jobs_are_taken_up(kind: JobKind, state: JobState)
    ensures
        (state == JobState::Running || state == JobState::Cancelling) <==> recovered(kind, state)
            is Some,
        kind == JobKind::StoragePlan && state == JobState::Running ==> recovered(kind, state)
            == Some(JobState::Queued),
        kind == JobKind::StoragePlan && state == JobState::Cancelling ==> recovered(kind, state)
            == Some(JobState::Cancelling),
        kind != JobKind::StoragePlan ==> (recovered(kind, state) matches Some(after) ==> after
            == JobState::Paused),
{
}

/// The torrents that are paused with a recovered job are exactly those of a
/// recheck that were checking, each once and in order; no other job pauses
/// any.
pub proof fn law_only_checking_torrents_are_paused(
    kind: JobKind,
    state: JobState,
    states: Seq<Option<TorrentState>>,
    places: Seq<usize>,
)
    requires
        states.len() <= usize::MAX,
        paused_with(kind, state, states, places),
    ensures
        kind != JobKind::Recheck || state != JobState::Paused ==> places.len() == 0,
        kind == JobKind::Recheck && state == JobState::Paused ==> forall|i: int|
            0 <= i < states.len() ==> (places.contains(i as usize) <==> #[trigger] states[i]
                == Some(TorrentState::Checking)),
        forall|k: int, l: int| 0 <= k < l < places.len() ==> places[k] < places[l],
{
    if kind == JobKind::Recheck && state == JobState::Paused {
        lemma_checking_places(states, places);
    }
}

proof fn lemma_checking_places(states: Seq<Option<TorrentState>>, places: Seq<usize>)
    requires
        lists_checking(states, places),
    ensures
        forall|k: int|
            0 <= k < places.len() ==> (#[trigger] places[k]) < states.len() && states[places[k]
                as int] == Some(TorrentState::Checking),
        forall|i: int|
            0 <= i < states.len() && #[trigger] states[i] == Some(TorrentState::Checking)
                ==> places.contains(i as usize) && i <= usize::MAX,
        forall|k: int, l: int| 0 <= k < l < places.len() ==> places[k] < places[l],
    decreases states.len(),
{
    if states.len() > 0 {
        let n = states.len() - 1;
        if states.last() == Some(TorrentState::Checking) {
            let fewer = places.drop_last();
            lemma_checking_places(states.drop_last(), fewer);
            assert forall|k: int| 0 <= k < places.len() implies (#[trigger] places[k])
                < states.len() && states[places[k] as int] == Some(TorrentState::Checking) by {
                if k < fewer.len() {
                    assert(fewer[k] == places[k]);
                    assert(states.drop_last()[places[k] as int] == states[places[k] as int]);
                }
            }
            assert forall|i: int|
                0 <= i < states.len() && #[trigger] states[i] == Some(
                    TorrentState::Checking,
                ) implies places.contains(i as usize) && i <= usize::MAX by {
                if i < n {
                    assert(states.drop_last()[i] == states[i]);
                    assert(fewer.contains(i as usize));
                    let k = choose|k: int| 0 <= k < fewer.len() && fewer[k] == i as usize;
                    assert(places[k] == i as usize);
                } else {
                    assert(places[places.len() - 1] == n);
                }
            }
            assert forall|k: int, l: int| 0 <= k < l < places.len() implies places[k]
                < places[l] by {
                assert(fewer[k] == places[k]);
                if l < fewer.len() {
                    assert(fewer[l] == places[l]);
                }
            }
        } else {
            lemma_checking_places(states.drop_last(), places);
            assert forall|k: int| 0 <= k < places.len() implies (#[trigger] places[k])
                < states.len() && states[places[k] as int] == Some(TorrentState::Checking) by {
                assert(states.drop_last()[places[k] as int] == states[places[k] as int]);
            }
            assert forall|i: int|
                0 <= i < states.len() && #[trigger] states[i] == Some(
                    TorrentState::Checking,
                ) implies places.contains(i as usize) && i <= usize::MAX by {
                assert(states.drop_last()[i] == states[i]);
            }
        }
    }
}

/// A count is stored as it is, and one that is too large as the largest.
pub proof fn law_counts_are_stored_faithfully(n: nat)
    ensures
        n <= i64::MAX ==> stored_count(n) == n,
        n > i64::MAX ==> stored_count(n) == i64::MAX,
{
}

/// Each retry waits twice as long as the one before, up to the fifth, and from
/// then on as long as that, as long as the clock knows such a time; the first
/// waits for the base delay.
pub proof fn law_retries_back_off(policy: RetryPolicy, attempt: u8)
    requires
        policy.base_delay * 16 <= MAX_DURATION_NANOS,
        attempt < policy.max_retries,
    ensures
        policy.retry_after(attempt) matches Some(retry) && retry.attempt == attempt + 1,
        retry_delay(policy.base_delay, 0) == policy.base_delay,
        attempt < 4 ==> retry_delay(policy.base_delay, (attempt + 1) as u8) == 2 * retry_delay(
            policy.base_delay,
            attempt,
        ),
        attempt >= 4 ==> retry_delay(policy.base_delay, attempt) == retry_delay(
            policy.base_delay,
            4,
        ),
        policy.retry_after(attempt) matches Some(retry) ==> retry.delay == retry_delay(
            policy.base_delay,
            attempt,
        ),
        policy.retry_after(policy.max_retries) is None,
{
}

/// A retry never waits longer than the clock knows: one that would, waits for the
/// fallback delay.
pub proof fn law_delays_fit_the_clock(base: u128, attempt: u8)
    ensures
        retry_delay(base, attempt) <= MAX_DURATION_NANOS,
        base > MAX_DURATION_NANOS ==> retry_delay(base, attempt) == FALLBACK_DELAY_NANOS,
{
}

} // verus!
