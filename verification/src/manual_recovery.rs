//! Torrents that wait for an operator. A storage job that left files in a state
//! nobody can vouch for has failed for good; its torrents come back in error
//! after a restart, so that nothing touches their files.

use vstd::prelude::*;

use crate::job::TorrentState;
use crate::text::join2;

verus! {

/// The reason that is stored with a failed job: `marker` before it tells that an
/// operator is needed.
pub open spec fn marked(marker: Seq<char>, reason: Seq<char>) -> Seq<char> {
    marker + reason
}

/// A stored reason tells that an operator is needed.
pub open spec fn is_marked(marker: Seq<char>, stored: Seq<char>) -> bool {
    marker.is_prefix_of(stored)
}

/// Marks the reason of a failed job as one that needs an operator.
pub fn manual_recovery_reason(marker: &str, reason: &str) -> (r: String)
    ensures
        r@ == marked(marker@, reason@),
{
    join2(marker, reason)
}

/// A failed job whose reason was marked is found by its marker after a restart,
/// also where more was added to the reason.
pub proof fn law_marked_reasons_are_found(marker: Seq<char>, reason: Seq<char>, more: Seq<char>)
    ensures
        is_marked(marker, marked(marker, reason)),
        is_marked(marker, marked(marker, reason) + more),
{
    assert(marker =~= marked(marker, reason).subrange(0, marker.len() as int));
    assert(marker =~= (marked(marker, reason) + more).subrange(0, marker.len() as int));
}

/// A failed job, and the torrents that wait for an operator because of it.
#[derive(Debug)]
pub struct FailedJob {
    pub job_id: String,
    pub affected_torrents: Vec<String>,
    /// The torrent that the job's log names, where it names one.
    pub context_torrent: Option<String>,
}

/// The torrents of a failed job: those it lists, or else the one that its log
/// names.
pub open spec fn targets_of(job: FailedJob) -> Seq<Seq<char>> {
    if job.affected_torrents@.len() > 0 {
        job.affected_torrents@.map_values(|hash: String| hash@)
    } else {
        match job.context_torrent {
            Some(hash) => seq![hash@],
            None => Seq::empty(),
        }
    }
}

/// The torrent is among the targets of a job.
pub open spec fn is_target(jobs: Seq<FailedJob>, hash: Seq<char>) -> bool {
    exists|i: int| 0 <= i < jobs.len() && (#[trigger] targets_of(jobs[i])).contains(hash)
}

/// How often a list holds a hash.
pub open spec fn occurrences(targets: Seq<Seq<char>>, hash: Seq<char>) -> nat
    decreases targets.len(),
{
    if targets.len() == 0 {
        0
    } else {
        occurrences(targets.drop_last(), hash) + if targets.last() == hash {
            1nat
        } else {
            0nat
        }
    }
}

pub open spec fn repeated(id: Seq<char>, n: nat) -> Seq<Seq<char>> {
    Seq::new(n, |i: int| id)
}

/// The jobs because of which a torrent waits, in their order; a job that lists
/// it more than once counts as often.
pub open spec fn jobs_of(jobs: Seq<FailedJob>, hash: Seq<char>) -> Seq<Seq<char>>
    decreases jobs.len(),
{
    if jobs.len() == 0 {
        Seq::empty()
    } else {
        jobs_of(jobs.drop_last(), hash) + repeated(
            jobs.last().job_id@,
            occurrences(targets_of(jobs.last()), hash),
        )
    }
}

/// A torrent that waits for an operator.
#[derive(Debug)]
pub struct WaitingTorrent {
    pub info_hash: String,
    pub job_ids: Vec<String>,
}

pub open spec fn id_views(ids: Seq<String>) -> Seq<Seq<char>> {
    ids.map_values(|id: String| id@)
}

/// One entry for each torrent.
pub open spec fn distinct(list: Seq<WaitingTorrent>) -> bool {
    forall|i: int, j: int|
        0 <= i < j < list.len() ==> (#[trigger] list[i]).info_hash@ != (
        #[trigger] list[j]).info_hash@
}

pub open spec fn lists_torrent(list: Seq<WaitingTorrent>, hash: Seq<char>) -> bool {
    exists|i: int| 0 <= i < list.len() && (#[trigger] list[i]).info_hash@ == hash
}

/// The list names, after `done` jobs and the first targets of the next, each
/// torrent with its jobs.
spec fn gathers(
    list: Seq<WaitingTorrent>,
    done: Seq<FailedJob>,
    id: Seq<char>,
    targets: Seq<Seq<char>>,
) -> bool {
    &&& distinct(list)
    &&& forall|i: int|
        0 <= i < list.len() ==> id_views((#[trigger] list[i]).job_ids@) == jobs_of(
            done,
            list[i].info_hash@,
        ) + repeated(id, occurrences(targets, list[i].info_hash@))
    &&& forall|hash: Seq<char>| #[trigger]
        lists_torrent(list, hash) <==> is_target(done, hash) || targets.contains(hash)
}

proof fn lemma_no_occurrence(targets: Seq<Seq<char>>, hash: Seq<char>)
    requires
        !targets.contains(hash),
    ensures
        occurrences(targets, hash) == 0,
    decreases targets.len(),
{
    if targets.len() > 0 {
        assert(!targets.drop_last().contains(hash)) by {
            if targets.drop_last().contains(hash) {
                let i = choose|i: int|
                    0 <= i < targets.drop_last().len() && targets.drop_last()[i] == hash;
                assert(targets[i] == hash);
            }
        }
        lemma_no_occurrence(targets.drop_last(), hash);
        assert(targets.last() == targets[targets.len() - 1]);
    }
}

proof fn lemma_no_jobs(jobs: Seq<FailedJob>, hash: Seq<char>)
    requires
        !is_target(jobs, hash),
    ensures
        jobs_of(jobs, hash) == Seq::<Seq<char>>::empty(),
    decreases jobs.len(),
{
    if jobs.len() > 0 {
        assert(!is_target(jobs.drop_last(), hash)) by {
            if is_target(jobs.drop_last(), hash) {
                let i = choose|i: int|
                    0 <= i < jobs.drop_last().len() && (#[trigger] targets_of(
                        jobs.drop_last()[i],
                    )).contains(hash);
                assert(targets_of(jobs[i]).contains(hash));
            }
        }
        lemma_no_jobs(jobs.drop_last(), hash);
        assert(!targets_of(jobs[jobs.len() - 1]).contains(hash));
        lemma_no_occurrence(targets_of(jobs.last()), hash);
        assert(jobs_of(jobs, hash) =~= Seq::<Seq<char>>::empty());
    }
}

#[verifier::loop_isolation(false)]
fn note(
    list: &mut Vec<WaitingTorrent>,
    hash: &String,
    id: &String,
    done: Ghost<Seq<FailedJob>>,
    targets: Ghost<Seq<Seq<char>>>,
)
    requires
        gathers(old(list)@, done@, id@, targets@),
    ensures
        gathers(final(list)@, done@, id@, targets@.push(hash@)),
{
    let ghost before = list@;
    let ghost after_targets = targets@.push(hash@);
    proof {
        assert(after_targets.drop_last() =~= targets@);
        assert(after_targets.last() == hash@);
        assert forall|h: Seq<char>| #[trigger]
            after_targets.contains(h) <==> targets@.contains(h) || h == hash@ by {
            if targets@.contains(h) {
                let i = choose|i: int| 0 <= i < targets@.len() && targets@[i] == h;
                assert(after_targets[i] == h);
            }
            if h == hash@ {
                assert(after_targets[targets@.len() as int] == h);
            }
        }
    }
    let mut i: usize = 0;
    while i < list.len()
        invariant
            i <= list@.len(),
            list@ == before,
            forall|k: int| 0 <= k < i ==> (#[trigger] before[k]).info_hash@ != hash@,
        decreases list@.len() - i,
    {
        if list[i].info_hash == *hash {
            let ghost ids = before[i as int].job_ids@;
            list[i].job_ids.push(id.clone());
            let ghost noted = list@[i as int].job_ids@;
            proof {
                assert(list@[i as int].info_hash@ == hash@);
                assert(id_views(noted) =~= id_views(ids).push(id@));
                assert(before[i as int].info_hash@ == hash@);
                assert(id_views(ids) == jobs_of(done@, hash@) + repeated(
                    id@,
                    occurrences(targets@, hash@),
                ));
                assert(repeated(id@, occurrences(targets@, hash@)).push(id@) =~= repeated(
                    id@,
                    occurrences(after_targets, hash@),
                ));
                assert(id_views(noted) =~= jobs_of(done@, hash@) + repeated(
                    id@,
                    occurrences(after_targets, hash@),
                ));
                assert forall|j: int| 0 <= j < list@.len() implies id_views(
                    (#[trigger] list@[j]).job_ids@,
                ) == jobs_of(done@, list@[j].info_hash@) + repeated(
                    id@,
                    occurrences(after_targets, list@[j].info_hash@),
                ) by {
                    if j != i {
                        assert(list@[j] == before[j]);
                        assert(before[j].info_hash@ != before[i as int].info_hash@);
                    }
                }
                assert forall|h: Seq<char>| #[trigger]
                    lists_torrent(list@, h) <==> is_target(done@, h) || after_targets.contains(
                    h,
                ) by {
                    assert(lists_torrent(list@, h) <==> lists_torrent(before, h)) by {
                        if lists_torrent(before, h) {
                            let j = choose|j: int|
                                0 <= j < before.len() && (#[trigger] before[j]).info_hash@ == h;
                            assert(list@[j].info_hash@ == h);
                        }
                        if lists_torrent(list@, h) {
                            let j = choose|j: int|
                                0 <= j < list@.len() && (#[trigger] list@[j]).info_hash@ == h;
                            assert(before[j].info_hash@ == h);
                        }
                    }
                    assert(lists_torrent(before, hash@)) by {
                        assert(before[i as int].info_hash@ == hash@);
                    }
                }
            }
            return;
        }
        i = i + 1;
    }
    let mut entry = WaitingTorrent { info_hash: hash.clone(), job_ids: Vec::new() };
    entry.job_ids.push(id.clone());
    list.push(entry);
    proof {
        assert(!lists_torrent(before, hash@));
        lemma_no_jobs(done@, hash@);
        lemma_no_occurrence(targets@, hash@);
        assert(id_views(entry.job_ids@) =~= jobs_of(done@, hash@) + repeated(
            id@,
            occurrences(after_targets, hash@),
        ));
        assert forall|j: int| 0 <= j < list@.len() implies id_views((#[trigger] list@[j]).job_ids@)
            == jobs_of(done@, list@[j].info_hash@) + repeated(
            id@,
            occurrences(after_targets, list@[j].info_hash@),
        ) by {
            if j < before.len() {
                assert(list@[j] == before[j]);
            }
        }
        assert forall|h: Seq<char>| #[trigger]
            lists_torrent(list@, h) <==> is_target(done@, h) || after_targets.contains(h) by {
            if lists_torrent(before, h) {
                let j = choose|j: int|
                    0 <= j < before.len() && (#[trigger] before[j]).info_hash@ == h;
                assert(list@[j].info_hash@ == h);
            }
            if h == hash@ {
                assert(list@[before.len() as int].info_hash@ == h);
            }
            if lists_torrent(list@, h) {
                let j = choose|j: int|
                    0 <= j < list@.len() && (#[trigger] list@[j]).info_hash@ == h;
                if j < before.len() {
                    assert(before[j].info_hash@ == h);
                }
            }
        }
    }
}

proof fn lemma_job_done(list: Seq<WaitingTorrent>, jobs: Seq<FailedJob>, n: int)
    requires
        0 <= n < jobs.len(),
        gathers(list, jobs.take(n), jobs[n].job_id@, targets_of(jobs[n])),
    ensures
        forall|id: Seq<char>| #[trigger]
            gathers(list, jobs.take(n + 1), id, Seq::<Seq<char>>::empty()),
{
    let after = jobs.take(n + 1);
    assert(after.drop_last() =~= jobs.take(n));
    assert(after.last() == jobs[n]);
    assert forall|id: Seq<char>| #[trigger] gathers(list, after, id, Seq::<Seq<char>>::empty()) by {
        assert forall|i: int| 0 <= i < list.len() implies id_views((#[trigger] list[i]).job_ids@)
            == jobs_of(after, list[i].info_hash@) + repeated(
            id,
            occurrences(Seq::<Seq<char>>::empty(), list[i].info_hash@),
        ) by {
            assert(jobs_of(after, list[i].info_hash@) + repeated(
                id,
                occurrences(Seq::<Seq<char>>::empty(), list[i].info_hash@),
            ) =~= jobs_of(after, list[i].info_hash@));
        }
        assert forall|hash: Seq<char>| #[trigger]
            lists_torrent(list, hash) <==> is_target(after, hash)
                || Seq::<Seq<char>>::empty().contains(hash) by {
            if is_target(jobs.take(n), hash) {
                let i = choose|i: int|
                    0 <= i < n && (#[trigger] targets_of(jobs.take(n)[i])).contains(hash);
                assert(targets_of(after[i]).contains(hash));
            }
            if targets_of(jobs[n]).contains(hash) {
                assert(targets_of(after[n]).contains(hash));
            }
            if is_target(after, hash) {
                let i = choose|i: int|
                    0 <= i < after.len() && (#[trigger] targets_of(after[i])).contains(hash);
                if i < n {
                    assert(targets_of(jobs.take(n)[i]).contains(hash));
                }
            }
        }
    }
}

/// The torrents that wait for an operator because of a failed job, each with
/// its jobs.
#[verifier::loop_isolation(false)]
pub fn waiting_torrents(jobs: &[FailedJob]) -> (r: Vec<WaitingTorrent>)
    ensures
        distinct(r@),
        forall|hash: Seq<char>| #[trigger] lists_torrent(r@, hash) <==> is_target(jobs@, hash),
        forall|i: int|
            0 <= i < r@.len() ==> id_views((#[trigger] r@[i]).job_ids@) == jobs_of(
                jobs@,
                r@[i].info_hash@,
            ),
{
    let mut list: Vec<WaitingTorrent> = Vec::new();
    let mut n: usize = 0;
    proof {
        assert(jobs@.take(0) =~= Seq::<FailedJob>::empty());
        assert forall|id: Seq<char>| #[trigger]
            gathers(list@, jobs@.take(0), id, Seq::<Seq<char>>::empty()) by {}
    }
    while n < jobs.len()
        invariant
            n <= jobs@.len(),
            forall|id: Seq<char>| #[trigger]
                gathers(list@, jobs@.take(n as int), id, Seq::<Seq<char>>::empty()),
        decreases jobs@.len() - n,
    {
        let job = &jobs[n];
        let ghost targets = targets_of(*job);
        let ghost done = jobs@.take(n as int);
        assert(targets.take(0) =~= Seq::<Seq<char>>::empty());
        assert(gathers(list@, done, job.job_id@, Seq::<Seq<char>>::empty()));
        if job.affected_torrents.len() > 0 {
            let mut k: usize = 0;
            while k < job.affected_torrents.len()
                invariant
                    k <= job.affected_torrents@.len(),
                    gathers(list@, done, job.job_id@, targets.take(k as int)),
                decreases job.affected_torrents@.len() - k,
            {
                note(
                    &mut list,
                    &job.affected_torrents[k],
                    &job.job_id,
                    Ghost(done),
                    Ghost(targets.take(k as int)),
                );
                proof {
                    assert(targets.take(k as int).push(job.affected_torrents@[k as int]@)
                        =~= targets.take(k + 1));
                }
                k = k + 1;
            }
            assert(targets.take(k as int) =~= targets);
        } else if let Some(hash) = &job.context_torrent {
            note(&mut list, hash, &job.job_id, Ghost(done), Ghost(targets.take(0)));
            assert(targets.take(0).push(hash@) =~= targets);
        } else {
            assert(targets.take(0) =~= targets);
        }
        proof {
            lemma_job_done(list@, jobs@, n as int);
        }
        n = n + 1;
    }
    proof {
        assert(jobs@.take(n as int) =~= jobs@);
        let none = Seq::<Seq<char>>::empty();
        assert(gathers(list@, jobs@, Seq::<char>::empty(), none));
        assert forall|i: int| 0 <= i < list@.len() implies id_views((#[trigger] list@[i]).job_ids@)
            == jobs_of(jobs@, list@[i].info_hash@) by {
            assert(jobs_of(jobs@, list@[i].info_hash@) + repeated(
                Seq::<char>::empty(),
                occurrences(none, list@[i].info_hash@),
            ) =~= jobs_of(jobs@, list@[i].info_hash@));
        }
    }
    list
}

/// Whether a torrent is brought back in error: not where it is gone, and not
/// where it is in error already.
pub fn is_brought_back_in_error(state: Option<TorrentState>) -> (r: bool)
    ensures
        r == (state is Some && state != Some(TorrentState::Error)),
{
    match state {
        None => false,
        Some(TorrentState::Error) => false,
        Some(_) => true,
    }
}

/// A torrent waits because of each failed job that is about it, and of no other; the
/// torrents that a job lists go before the one that its log names.
pub proof fn law_jobs_hold_up_their_torrents(
    jobs: Seq<FailedJob>,
    job: FailedJob,
    hash: Seq<char>,
    id: Seq<char>,
)
    ensures
        job.affected_torrents@.len() > 0 ==> (targets_of(job).contains(hash) <==> exists|i: int|
            0 <= i < job.affected_torrents@.len() && (#[trigger] job.affected_torrents@[i])@
                == hash),
        job.affected_torrents@.len() == 0 ==> (targets_of(job).contains(hash) <==> (
        job.context_torrent matches Some(named) && named@ == hash)),
        jobs_of(jobs, hash).contains(id) <==> exists|i: int|
            0 <= i < jobs.len() && (#[trigger] jobs[i]).job_id@ == id && targets_of(
                jobs[i],
            ).contains(hash),
    decreases jobs.len(),
{
    let listed = job.affected_torrents@;
    if listed.len() > 0 {
        let targets = targets_of(job);
        assert forall|i: int| 0 <= i < listed.len() implies targets[i] == (
        #[trigger] listed[i])@ by {}
        if targets.contains(hash) {
            let i = choose|i: int| 0 <= i < targets.len() && targets[i] == hash;
            assert(listed[i]@ == hash);
        }
        if exists|i: int| 0 <= i < listed.len() && (#[trigger] listed[i])@ == hash {
            let i = choose|i: int| 0 <= i < listed.len() && (#[trigger] listed[i])@ == hash;
            assert(targets[i] == hash);
        }
    } else if job.context_torrent is Some {
        assert(targets_of(job)[0] == (job.context_torrent->0)@);
    }
    if jobs.len() > 0 {
        let front = jobs.drop_last();
        let last = jobs.last();
        law_jobs_hold_up_their_torrents(front, job, hash, id);
        lemma_occurs(targets_of(last), hash);
        let n = occurrences(targets_of(last), hash);
        let before = jobs_of(front, hash);
        let more = repeated(last.job_id@, n);
        let all = jobs_of(jobs, hash);
        assert(all == before + more);
        assert(jobs[jobs.len() - 1] == last);
        if all.contains(id) {
            let k = choose|k: int| 0 <= k < all.len() && all[k] == id;
            if k < before.len() {
                assert(before[k] == id);
                let i = choose|i: int|
                    0 <= i < front.len() && (#[trigger] front[i]).job_id@ == id && targets_of(
                        front[i],
                    ).contains(hash);
                assert(jobs[i] == front[i]);
            }
        }
        if exists|i: int|
            0 <= i < jobs.len() && (#[trigger] jobs[i]).job_id@ == id && targets_of(
                jobs[i],
            ).contains(hash) {
            let i = choose|i: int|
                0 <= i < jobs.len() && (#[trigger] jobs[i]).job_id@ == id && targets_of(
                    jobs[i],
                ).contains(hash);
            if i < front.len() {
                assert(front[i] == jobs[i]);
                let k = choose|k: int| 0 <= k < before.len() && before[k] == id;
                assert(all[k] == id);
            } else {
                assert(all[before.len() as int] == more[0]);
            }
        }
    }
}

proof fn lemma_occurs(targets: Seq<Seq<char>>, hash: Seq<char>)
    ensures
        occurrences(targets, hash) > 0 <==> targets.contains(hash),
    decreases targets.len(),
{
    if targets.len() > 0 {
        let front = targets.drop_last();
        lemma_occurs(front, hash);
        if targets.contains(hash) && targets.last() != hash {
            let i = choose|i: int| 0 <= i < targets.len() && targets[i] == hash;
            assert(front[i] == hash);
        }
        if front.contains(hash) {
            let i = choose|i: int| 0 <= i < front.len() && front[i] == hash;
            assert(targets[i] == hash);
        }
        if targets.last() == hash {
            assert(targets[targets.len() - 1] == hash);
        }
    }
}

/// A torrent that is there comes back in error, whatever it was doing; one that is
/// in error already is left as it is.
pub proof fn law_waiting_torrents_come_back_in_error(
    state: TorrentState,
    there: bool,
    gone: bool,
)
    requires
        call_ensures(is_brought_back_in_error, (Some(state),), there),
        call_ensures(is_brought_back_in_error, (None::<TorrentState>,), gone),
    ensures
        !gone,
        there <==> state != TorrentState::Error,
{
}

} // verus!
