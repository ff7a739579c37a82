//! What a check reports: nothing, or the text of the first problem it meets.

use vstd::prelude::*;

verus! {

/// The result of a command that can be refused with a message.
pub type CmdResult<T> = Result<T, String>;

/// The text of a problem, if there is one.
pub type Problem = Option<Seq<char>>;

/// `r` is `Ok` when there is no problem, and otherwise carries its text.
pub open spec fn reports(r: Result<(), String>, problem: Problem) -> bool {
    match problem {
        None => r is Ok,
        Some(text) => r matches Err(e) && e@ == text,
    }
}

/// The first of two problems.
pub open spec fn either(first: Problem, second: Problem) -> Problem {
    match first {
        Some(text) => Some(text),
        None => second,
    }
}

/// The problem that `check` finds at the first item that has one. `check` sees
/// the items before the one that it judges.
pub open spec fn first_problem<T>(items: Seq<T>, check: spec_fn(Seq<T>, T) -> Problem) -> Problem
    decreases items.len(),
{
    if items.len() == 0 {
        None
    } else {
        either(
            first_problem(items.drop_last(), check),
            check(items.drop_last(), items.last()),
        )
    }
}

/// One more item: the earlier problem stays, else the item is judged.
pub proof fn lemma_first_problem_step<T>(
    items: Seq<T>,
    n: int,
    check: spec_fn(Seq<T>, T) -> Problem,
)
    requires
        0 <= n < items.len(),
    ensures
        first_problem(items.take(n + 1), check) == either(
            first_problem(items.take(n), check),
            check(items.take(n), items[n]),
        ),
{
    assert(items.take(n + 1).drop_last() =~= items.take(n));
}

/// A problem among the first `n` items is the problem of the whole list.
pub proof fn lemma_first_problem_stays<T>(
    items: Seq<T>,
    n: int,
    check: spec_fn(Seq<T>, T) -> Problem,
)
    requires
        0 <= n <= items.len(),
        first_problem(items.take(n), check) is Some,
    ensures
        first_problem(items, check) == first_problem(items.take(n), check),
    decreases items.len() - n,
{
    if n < items.len() {
        lemma_first_problem_step(items, n, check);
        lemma_first_problem_stays(items, n + 1, check);
    } else {
        assert(items.take(n) =~= items);
    }
}

/// A list has no problem exactly when none of its items has one.
pub proof fn lemma_no_problem_is_every_item_accepted<T>(
    items: Seq<T>,
    check: spec_fn(Seq<T>, T) -> Problem,
)
    ensures
        first_problem(items, check) is None <==> (forall|i: int|
            0 <= i < items.len() ==> check(#[trigger] items.take(i), items[i]) is None),
    decreases items.len(),
{
    if items.len() > 0 {
        let front = items.drop_last();
        lemma_no_problem_is_every_item_accepted(front, check);
        assert forall|i: int| 0 <= i < front.len() implies #[trigger] front.take(i)
            == items.take(i) && front[i] == items[i] by {
            assert(front.take(i) =~= items.take(i));
        }
        assert(items.take(front.len() as int) =~= front);
        if first_problem(items, check) is None {
            assert forall|i: int| 0 <= i < items.len() implies check(
                #[trigger] items.take(i),
                items[i],
            ) is None by {
                if i < front.len() {
                    assert(front.take(i) == items.take(i));
                }
            }
        }
        if forall|i: int|
            0 <= i < items.len() ==> check(#[trigger] items.take(i), items[i]) is None {
            assert forall|i: int| 0 <= i < front.len() implies check(
                #[trigger] front.take(i),
                front[i],
            ) is None by {
                assert(check(items.take(i), items[i]) is None);
            }
            assert(check(items.take(front.len() as int), items[front.len() as int]) is None);
        }
    }
}

} // verus!
