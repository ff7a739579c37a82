//! Storage moves that are being prepared: at most one for each torrent.

use vstd::prelude::*;

use crate::problem::{
    first_problem, lemma_first_problem_stays, lemma_first_problem_step,
    lemma_no_problem_is_every_item_accepted, reports, CmdResult, Problem,
};
use crate::text::join3;

verus! {

/// What is known of a move that is being prepared.
#[derive(Clone, Copy, Debug, PartialEq, Eq, Structural)]
pub struct PendingStorageMove {
    /// The torrent that is to move.
    pub torrent_handle: u64,
    /// Whether it was paused before its task was quiesced; nothing where it
    /// had no task or has not been quiesced yet.
    pub quiesced: Option<bool>,
}

/// The moves that are being prepared, by the hash of their torrent.
pub type Pending = Map<Seq<char>, PendingStorageMove>;

struct Entry {
    info_hash: String,
    pending: PendingStorageMove,
}

/// The moves that are being prepared.
pub struct PendingStorageMoves {
    entries: Vec<Entry>,
    pending: Ghost<Pending>,
}

spec fn lists(entries: Seq<Entry>, pending: Pending) -> bool {
    &&& forall|i: int|
        0 <= i < entries.len() ==> pending.dom().contains((#[trigger] entries[i]).info_hash@)
            && pending[entries[i].info_hash@] == entries[i].pending
    &&& forall|i: int, j: int|
        0 <= i < j < entries.len() ==> (#[trigger] entries[i]).info_hash@ != (
        #[trigger] entries[j]).info_hash@
    &&& forall|hash: Seq<char>| #[trigger]
        pending.dom().contains(hash) ==> exists|i: int|
            0 <= i < entries.len() && (#[trigger] entries[i]).info_hash@ == hash
}

impl View for PendingStorageMoves {
    type V = Pending;

    closed spec fn view(&self) -> Pending {
        self.pending@
    }
}

/// What is wrong with touching a torrent that is about to move.
pub open spec fn pending_problem(pending: Pending, info_hash: Seq<char>) -> Problem {
    if pending.dom().contains(info_hash) {
        Some(
            "torrent "@ + info_hash + " has a storage move being prepared; retry later"@,
        )
    } else {
        None
    }
}

pub open spec fn pending_check(pending: Pending) -> spec_fn(Seq<String>, String) -> Problem {
    |before: Seq<String>, info_hash: String| pending_problem(pending, info_hash@)
}

impl PendingStorageMoves {
    pub closed spec fn wf(&self) -> bool {
        lists(self.entries@, self.pending@)
    }

    /// Nothing is being prepared.
    pub fn new() -> (r: Self)
        ensures
            r.wf(),
            r@ == Map::<Seq<char>, PendingStorageMove>::empty(),
    {
        PendingStorageMoves { entries: Vec::new(), pending: Ghost(Map::empty()) }
    }

    fn find(&self, info_hash: &String) -> (r: Option<usize>)
        requires
            self.wf(),
        ensures
            match r {
                Some(i) => i < self.entries@.len() && self.entries@[i as int].info_hash@
                    == info_hash@,
                None => !self@.dom().contains(info_hash@),
            },
    {
        let mut i: usize = 0;
        while i < self.entries.len()
            invariant
                i <= self.entries@.len(),
                forall|k: int|
                    0 <= k < i ==> (#[trigger] self.entries@[k]).info_hash@ != info_hash@,
            decreases self.entries@.len() - i,
        {
            if self.entries[i].info_hash == *info_hash {
                return Some(i);
            }
            i = i + 1;
        }
        None
    }

    /// What is known of the move of a torrent.
    pub fn get(&self, info_hash: &String) -> (r: Option<PendingStorageMove>)
        requires
            self.wf(),
        ensures
            r == if self@.dom().contains(info_hash@) {
                Some(self@[info_hash@])
            } else {
                None
            },
    {
        match self.find(info_hash) {
            Some(i) => Some(self.entries[i].pending),
            None => None,
        }
    }

    /// Begins on a move, unless the torrent has one already.
    pub fn try_reserve_storage_move(&mut self, info_hash: &String, torrent_handle: u64) -> (r: bool)
        requires
            old(self).wf(),
        ensures
            final(self).wf(),
            r == !old(self)@.dom().contains(info_hash@),
            final(self)@ == if r {
                old(self)@.insert(
                    info_hash@,
                    PendingStorageMove { torrent_handle, quiesced: None },
                )
            } else {
                old(self)@
            },
    {
        if self.find(info_hash).is_some() {
            return false;
        }
        let ghost before = self.entries@;
        let ghost known = self.pending@;
        let pending = PendingStorageMove { torrent_handle, quiesced: None };
        self.entries.push(Entry { info_hash: info_hash.clone(), pending });
        self.pending = Ghost(known.insert(info_hash@, pending));
        proof {
            let after = self.entries@;
            assert forall|k: int| 0 <= k < after.len() implies self.pending@.dom().contains(
                (#[trigger] after[k]).info_hash@,
            ) && self.pending@[after[k].info_hash@] == after[k].pending by {
                if k < before.len() {
                    assert(after[k] == before[k]);
                }
            }
            assert forall|hash: Seq<char>| #[trigger]
                self.pending@.dom().contains(hash) implies exists|k: int|
                0 <= k < after.len() && (#[trigger] after[k]).info_hash@ == hash by {
                if hash == info_hash@ {
                    assert(after[before.len() as int].info_hash@ == hash);
                } else {
                    let k = choose|k: int|
                        0 <= k < before.len() && (#[trigger] before[k]).info_hash@ == hash;
                    assert(after[k].info_hash@ == hash);
                }
            }
        }
        true
    }

    /// Notes that the task of a torrent that is to move is quiet.
    pub fn record_storage_move_quiescence(&mut self, info_hash: &String, quiesced: Option<bool>)
        requires
            old(self).wf(),
        ensures
            final(self).wf(),
            final(self)@ == if old(self)@.dom().contains(info_hash@) {
                old(self)@.insert(
                    info_hash@,
                    PendingStorageMove { quiesced, ..old(self)@[info_hash@] },
                )
            } else {
                old(self)@
            },
    {
        if let Some(i) = self.find(info_hash) {
            let ghost before = self.entries@;
            let ghost known = self.pending@;
            let pending = PendingStorageMove {
                torrent_handle: self.entries[i].pending.torrent_handle,
                quiesced,
            };
            self.entries.set(i, Entry { info_hash: info_hash.clone(), pending });
            self.pending = Ghost(known.insert(info_hash@, pending));
            proof {
                let after = self.entries@;
                assert forall|hash: Seq<char>| #[trigger]
                    self.pending@.dom().contains(hash) implies exists|k: int|
                    0 <= k < after.len() && (#[trigger] after[k]).info_hash@ == hash by {
                    let k = choose|k: int|
                        0 <= k < before.len() && (#[trigger] before[k]).info_hash@ == hash;
                    assert(after[k].info_hash@ == hash);
                }
            }
        }
    }

    /// Ends the preparation of a move.
    pub fn release_storage_move_reservation(&mut self, info_hash: &String)
        requires
            old(self).wf(),
        ensures
            final(self).wf(),
            final(self)@ == old(self)@.remove(info_hash@),
    {
        match self.find(info_hash) {
            Some(i) => {
                let ghost before = self.entries@;
                let ghost known = self.pending@;
                self.entries.swap_remove(i);
                self.pending = Ghost(known.remove(info_hash@));
                proof {
                    let after = self.entries@;
                    assert forall|k: int| 0 <= k < after.len() implies self.pending@.dom().contains(
                        (#[trigger] after[k]).info_hash@,
                    ) && self.pending@[after[k].info_hash@] == after[k].pending by {
                        if k == i {
                            assert(after[k] == before.last());
                        } else {
                            assert(after[k] == before[k]);
                        }
                    }
                    assert forall|hash: Seq<char>| #[trigger]
                        self.pending@.dom().contains(hash) implies exists|k: int|
                        0 <= k < after.len() && (#[trigger] after[k]).info_hash@ == hash by {
                        let k = choose|k: int|
                            0 <= k < before.len() && (#[trigger] before[k]).info_hash@ == hash;
                        if k == before.len() - 1 {
                            assert(after[i as int] == before[k]);
                        } else {
                            assert(after[k] == before[k]);
                        }
                    }
                }
            },
            None => {
                assert(self@.remove(info_hash@) =~= self@);
            },
        }
    }

    /// Why a torrent must not be touched now, if it must not.
    pub fn storage_move_pending_error(&self, info_hash: &String) -> (r: Option<String>)
        requires
            self.wf(),
        ensures
            match pending_problem(self@, info_hash@) {
                Some(text) => r matches Some(e) && e@ == text,
                None => r is None,
            },
    {
        if self.find(info_hash).is_some() {
            Some(
                join3(
                    "torrent ",
                    info_hash.as_str(),
                    " has a storage move being prepared; retry later",
                ),
            )
        } else {
            None
        }
    }

    /// None of the torrents of a list is about to move; the first that is, is
    /// reported.
    pub fn ensure_storage_move_not_pending(&self, info_hashes: &[String]) -> (r: CmdResult<()>)
        requires
            self.wf(),
        ensures
            reports(r, first_problem(info_hashes@, pending_check(self@))),
    {
        let ghost check = pending_check(self@);
        let mut i: usize = 0;
        assert(info_hashes@.take(0) =~= Seq::<String>::empty());
        while i < info_hashes.len()
            invariant
                i <= info_hashes@.len(),
                self.wf(),
                check == pending_check(self@),
                first_problem(info_hashes@.take(i as int), check) is None,
            decreases info_hashes@.len() - i,
        {
            proof {
                lemma_first_problem_step(info_hashes@, i as int, check);
            }
            if let Some(error) = self.storage_move_pending_error(&info_hashes[i]) {
                proof {
                    lemma_first_problem_stays(info_hashes@, i + 1, check);
                }
                return Err(error);
            }
            i = i + 1;
        }
        assert(info_hashes@.take(i as int) =~= info_hashes@);
        Ok(())
    }

    /// Hands over all moves that are being prepared, one after another, and
    /// forgets them: the process is shutting down.
    pub fn take_one(&mut self) -> (r: Option<(String, PendingStorageMove)>)
        requires
            old(self).wf(),
        ensures
            final(self).wf(),
            match r {
                Some((hash, pending)) => old(self)@.dom().contains(hash@) && pending == old(
                    self)@[hash@] && final(self)@ == old(self)@.remove(hash@),
                None => final(self)@ == old(self)@ && old(self)@.dom()
                    == Set::<Seq<char>>::empty(),
            },
    {
        let ghost before = self.entries@;
        let ghost known = self.pending@;
        match self.entries.pop() {
            Some(entry) => {
                self.pending = Ghost(known.remove(entry.info_hash@));
                proof {
                    let after = self.entries@;
                    assert(entry == before.last());
                    assert forall|k: int| 0 <= k < after.len() implies self.pending@.dom().contains(
                        (#[trigger] after[k]).info_hash@,
                    ) && self.pending@[after[k].info_hash@] == after[k].pending by {
                        assert(after[k] == before[k]);
                    }
                    assert forall|hash: Seq<char>| #[trigger]
                        self.pending@.dom().contains(hash) implies exists|k: int|
                        0 <= k < after.len() && (#[trigger] after[k]).info_hash@ == hash by {
                        let k = choose|k: int|
                            0 <= k < before.len() && (#[trigger] before[k]).info_hash@ == hash;
                        assert(k < after.len());
                        assert(after[k] == before[k]);
                    }
                }
                Some((entry.info_hash, entry.pending))
            },
            None => {
                proof {
                    assert(self@.dom() =~= Set::<Seq<char>>::empty()) by {
                        assert forall|hash: Seq<char>| !self@.dom().contains(hash) by {
                            if self@.dom().contains(hash) {
                                let k = choose|k: int|
                                    0 <= k < before.len() && (#[trigger] before[k]).info_hash@
                                        == hash;
                            }
                        }
                    }
                }
                None
            },
        }
    }
}

/// A torrent has one move at a time: a second reservation is refused until the
/// first is released, and releasing undoes reserving.
pub proof fn law_one_move_at_a_time(
    pending: Pending,
    info_hash: Seq<char>,
    reserved: PendingStorageMove,
)
    requires
        !pending.dom().contains(info_hash),
    ensures
        pending.insert(info_hash, reserved).dom().contains(info_hash),
        pending.insert(info_hash, reserved).remove(info_hash) == pending,
        pending_problem(pending.insert(info_hash, reserved), info_hash) is Some,
        pending_problem(pending, info_hash) is None,
{
    assert(pending.insert(info_hash, reserved).remove(info_hash) =~= pending);
}

/// A torrent may be touched exactly where no move of it is being prepared, and a
/// list of torrents exactly where that holds of each.
pub proof fn law_moving_torrents_are_left_alone(
    moves: &PendingStorageMoves,
    info_hash: &String,
    info_hashes: &[String],
    error: Option<String>,
    checked: CmdResult<()>,
    found: Option<PendingStorageMove>,
)
    requires
        moves.wf(),
        call_ensures(
            PendingStorageMoves::storage_move_pending_error,
            (moves, info_hash),
            error,
        ),
        call_ensures(
            PendingStorageMoves::ensure_storage_move_not_pending,
            (moves, info_hashes),
            checked,
        ),
        call_ensures(PendingStorageMoves::get, (moves, info_hash), found),
    ensures
        error is Some <==> moves@.dom().contains(info_hash@),
        found is Some <==> error is Some,
        found matches Some(pending) ==> pending == moves@[info_hash@],
        checked is Ok <==> forall|i: int|
            0 <= i < info_hashes@.len() ==> !moves@.dom().contains(
                (#[trigger] info_hashes@[i])@,
            ),
{
    let check = pending_check(moves@);
    lemma_no_problem_is_every_item_accepted(info_hashes@, check);
    if checked is Ok {
        assert forall|i: int| 0 <= i < info_hashes@.len() implies !moves@.dom().contains(
            (#[trigger] info_hashes@[i])@,
        ) by {
            assert(check(info_hashes@.take(i), info_hashes@[i]) is None);
        }
    }
    if forall|i: int|
        0 <= i < info_hashes@.len() ==> !moves@.dom().contains((#[trigger] info_hashes@[i])@) {
        assert forall|i: int| 0 <= i < info_hashes@.len() implies check(
            #[trigger] info_hashes@.take(i),
            info_hashes@[i],
        ) is None by {}
    }
}

/// A torrent is reserved for one move at a time, under the handle that is given, and
/// is not quiet yet; once it is quiet, that is noted and nothing else changes; a
/// release forgets this torrent, and no other.
pub proof fn law_reservations_are_per_torrent(
    info_hash: &String,
    other: Seq<char>,
    handle: u64,
    quiesced: Option<bool>,
)
    requires
        other != info_hash@,
    ensures
        forall|moves: &mut PendingStorageMoves, r: bool| #[trigger]
            call_ensures(
                PendingStorageMoves::try_reserve_storage_move,
                (moves, info_hash, handle),
                r,
            ) ==> {
                let before = (*moves)@;
                let after = (*final(moves))@;
                &&& r <==> !before.dom().contains(info_hash@)
                &&& !r ==> after == before
                &&& r ==> after.dom().contains(info_hash@) && after[info_hash@].torrent_handle
                    == handle && after[info_hash@].quiesced is None
                &&& after.dom().contains(other) == before.dom().contains(other) && after[other]
                    == before[other]
            },
        forall|moves: &mut PendingStorageMoves| #[trigger]
            call_ensures(
                PendingStorageMoves::record_storage_move_quiescence,
                (moves, info_hash, quiesced),
                (),
            ) ==> {
                let before = (*moves)@;
                let after = (*final(moves))@;
                &&& after.dom() =~= before.dom()
                &&& before.dom().contains(info_hash@) ==> after[info_hash@].quiesced == quiesced
                    && after[info_hash@].torrent_handle == before[info_hash@].torrent_handle
                &&& after[other] == before[other]
            },
        forall|moves: &mut PendingStorageMoves| #[trigger]
            call_ensures(
                PendingStorageMoves::release_storage_move_reservation,
                (moves, info_hash),
                (),
            ) ==> {
                let before = (*moves)@;
                let after = (*final(moves))@;
                &&& !after.dom().contains(info_hash@)
                &&& after.dom().contains(other) == before.dom().contains(other)
                &&& before.dom().contains(other) ==> after[other] == before[other]
            },
{
}

/// Moves are handed over one after another, each as it was noted, until none is left.
pub proof fn law_moves_are_handed_over_one_by_one()
    ensures
        forall|moves: &mut PendingStorageMoves, r: Option<(String, PendingStorageMove)>| #[trigger]
            call_ensures(PendingStorageMoves::take_one, (moves,), r) ==> {
                let before = (*moves)@;
                let after = (*final(moves))@;
                &&& r is None ==> forall|hash: Seq<char>| !(#[trigger] before.dom().contains(hash))
                &&& r matches Some((hash, pending)) ==> before.dom().contains(hash@)
                    && before[hash@] == pending && !after.dom().contains(hash@)
            },
{
}

} // verus!
