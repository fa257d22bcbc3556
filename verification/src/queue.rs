//! The order of the build queue: by category as the catalogue numbers them,
//! then by position within the category.

use crate::catalogue::{category_of, find_category, Category, Entry};
use vstd::prelude::*;
use vstd::seq_lib::to_multiset_insert;

verus! {

/// Whether `a` may stand before `b` in the queue: its category comes earlier,
/// or it is the same and its position is not a later one. An entry that the
/// catalogue does not have counts as of a category after all others.
pub open spec fn precedes(catalogue: Seq<Category>, a: Entry, b: Entry) -> bool {
    category_of(catalogue, a) < category_of(catalogue, b) || (category_of(catalogue, a)
        == category_of(catalogue, b) && a.position <= b.position)
}

/// Whether neither of `a` and `b` has to stand before the other.
pub open spec fn ties(catalogue: Seq<Category>, a: Entry, b: Entry) -> bool {
    precedes(catalogue, a, b) && precedes(catalogue, b, a)
}

/// Whether every entry of the queue may stand before those that follow it.
pub open spec fn sorted(catalogue: Seq<Category>, queue: Seq<Entry>) -> bool {
    forall|i: int, j: int| 0 <= i < j < queue.len() ==> precedes(catalogue, queue[i], queue[j])
}

/// Where `entry` goes into `queue`: behind the last entry that may stand
/// before it.
pub open spec fn insertion_point(catalogue: Seq<Category>, queue: Seq<Entry>, entry: Entry) -> int
    decreases queue.len(),
{
    if queue.len() == 0 || precedes(catalogue, queue.last(), entry) {
        queue.len() as int
    } else {
        insertion_point(catalogue, queue.drop_last(), entry)
    }
}

/// The queue with `entry` put in at its insertion point.
pub open spec fn inserted(catalogue: Seq<Category>, queue: Seq<Entry>, entry: Entry) -> Seq<Entry> {
    queue.insert(insertion_point(catalogue, queue, entry), entry)
}

/// The queue in order: its entries put in one by one, first to last, each at
/// its insertion point among those put in before it.
pub open spec fn stable_sorted(catalogue: Seq<Category>, queue: Seq<Entry>) -> Seq<Entry>
    decreases queue.len(),
{
    if queue.len() == 0 {
        queue
    } else {
        inserted(catalogue, stable_sorted(catalogue, queue.drop_last()), queue.last())
    }
}

/// Behind the insertion point stand only entries that have to stand behind
/// the new one, and just before it stands one that may stand before it.
pub proof fn lemma_insertion_point(catalogue: Seq<Category>, queue: Seq<Entry>, entry: Entry)
    ensures
        0 <= insertion_point(catalogue, queue, entry) <= queue.len(),
        forall|i: int|
            insertion_point(catalogue, queue, entry) <= i < queue.len() ==> !precedes(
                catalogue,
                #[trigger] queue[i],
                entry,
            ),
        insertion_point(catalogue, queue, entry) > 0 ==> precedes(
            catalogue,
            queue[insertion_point(catalogue, queue, entry) - 1],
            entry,
        ),
    decreases queue.len(),
{
    if queue.len() == 0 || precedes(catalogue, queue.last(), entry) {
    } else {
        let front = queue.drop_last();
        lemma_insertion_point(catalogue, front, entry);
        assert forall|i: int|
            insertion_point(catalogue, queue, entry) <= i < queue.len() implies !precedes(
            catalogue,
            #[trigger] queue[i],
            entry,
        ) by {
            if i < front.len() {
                assert(queue[i] == front[i]);
            }
        }
    }
}

/// An entry put into an ordered queue leaves it ordered.
pub proof fn lemma_inserted_sorted(catalogue: Seq<Category>, queue: Seq<Entry>, entry: Entry)
    requires
        sorted(catalogue, queue),
    ensures
        sorted(catalogue, inserted(catalogue, queue, entry)),
{
    lemma_insertion_point(catalogue, queue, entry);
    let k = insertion_point(catalogue, queue, entry);
    let after = inserted(catalogue, queue, entry);
    assert forall|i: int, j: int| 0 <= i < j < after.len() implies precedes(
        catalogue,
        after[i],
        after[j],
    ) by {
        if j == k {
            assert(precedes(catalogue, queue[k - 1], entry));
            assert(i < k - 1 ==> precedes(catalogue, queue[i], queue[k - 1]));
        } else if i == k {
            assert(!precedes(catalogue, queue[j - 1], entry));
        } else {
            let before_i = if i < k { i } else { i - 1 };
            let before_j = if j < k { j } else { j - 1 };
            assert(precedes(catalogue, queue[before_i], queue[before_j]));
        }
    }
}

/// The queue in order is ordered.
pub proof fn lemma_stable_sorted_is_sorted(catalogue: Seq<Category>, queue: Seq<Entry>)
    ensures
        sorted(catalogue, stable_sorted(catalogue, queue)),
    decreases queue.len(),
{
    if queue.len() > 0 {
        lemma_stable_sorted_is_sorted(catalogue, queue.drop_last());
        lemma_inserted_sorted(
            catalogue,
            stable_sorted(catalogue, queue.drop_last()),
            queue.last(),
        );
    }
}

/// The queue in order holds the entries of the queue, each as often as the
/// queue does.
pub proof fn lemma_stable_sorted_permutes(catalogue: Seq<Category>, queue: Seq<Entry>)
    ensures
        stable_sorted(catalogue, queue).to_multiset() == queue.to_multiset(),
        stable_sorted(catalogue, queue).len() == queue.len(),
    decreases queue.len(),
{
    if queue.len() > 0 {
        let front = queue.drop_last();
        lemma_stable_sorted_permutes(catalogue, front);
        lemma_insertion_point(catalogue, stable_sorted(catalogue, front), queue.last());
        to_multiset_insert(
            stable_sorted(catalogue, front),
            insertion_point(catalogue, stable_sorted(catalogue, front), queue.last()),
            queue.last(),
        );
        to_multiset_insert(front, front.len() as int, queue.last());
        assert(front.insert(front.len() as int, queue.last()) == queue);
    }
}

/// An ordered queue is its own ordering: putting it in order moves nothing.
pub proof fn lemma_sorted_stays(catalogue: Seq<Category>, queue: Seq<Entry>)
    requires
        sorted(catalogue, queue),
    ensures
        stable_sorted(catalogue, queue) == queue,
    decreases queue.len(),
{
    if queue.len() > 0 {
        let front = queue.drop_last();
        lemma_sorted_stays(catalogue, front);
        if front.len() > 0 {
            assert(precedes(catalogue, queue[front.len() - 1], queue[front.len() as int]));
        }
        assert(front.insert(front.len() as int, queue.last()) == queue);
    }
}

/// Ordering is stable: entries of which none has to stand before the other
/// keep the order in which the queue had them.
pub proof fn lemma_stable_sorted_keeps_ties(
    catalogue: Seq<Category>,
    queue: Seq<Entry>,
    entry: Entry,
)
    ensures
        stable_sorted(catalogue, queue).filter(|other: Entry| ties(catalogue, other, entry))
            == queue.filter(|other: Entry| ties(catalogue, other, entry)),
    decreases queue.len(),
{
    let tied = |other: Entry| ties(catalogue, other, entry);
    if queue.len() > 0 {
        let front = queue.drop_last();
        let last = queue.last();
        let ordered = stable_sorted(catalogue, front);
        let k = insertion_point(catalogue, ordered, last);
        lemma_stable_sorted_keeps_ties(catalogue, front, entry);
        lemma_insertion_point(catalogue, ordered, last);
        let head = ordered.take(k);
        let rest = ordered.skip(k);
        assert(ordered == head + rest);
        assert(ordered.insert(k, last) == head.push(last) + rest);
        Seq::filter_distributes_over_add(head, rest, tied);
        Seq::filter_distributes_over_add(head.push(last), rest, tied);
        head.lemma_filter_push(last, tied);
        front.lemma_filter_push(last, tied);
        assert(front.push(last) == queue);
        if tied(last) {
            assert forall|i: int| 0 <= i < rest.len() implies !tied(#[trigger] rest[i]) by {
                assert(!precedes(catalogue, ordered[k + i], last));
            }
            rest.lemma_all_neg_filter_empty(tied);
            assert(rest.filter(tied) == Seq::<Entry>::empty());
        }
    } else {
        assert(stable_sorted(catalogue, queue) == queue);
    }
}

/// Whether `a` has to stand behind `b` in the queue.
pub fn sorts_after(catalogue: &Vec<Category>, a: &Entry, b: &Entry) -> (after: bool)
    ensures
        after == !precedes(catalogue@, *a, *b),
{
    let category_a = find_category(catalogue, a);
    let category_b = find_category(catalogue, b);
    category_a > category_b || (category_a == category_b && a.position > b.position)
}

/// Puts the queue in order. Entries of which none has to stand before the
/// other keep their order.
pub fn sort_queue(catalogue: &Vec<Category>, queue: &mut Vec<Entry>)
    ensures
        final(queue)@ == stable_sorted(catalogue@, old(queue)@),
        sorted(catalogue@, final(queue)@),
        final(queue)@.to_multiset() == old(queue)@.to_multiset(),
{
    let ghost unordered = queue@;
    let n = queue.len();
    let mut i: usize = 0;
    while i < n
        invariant
            i <= n,
            queue@.len() == n,
            unordered.len() == n,
            queue@.take(i as int) == stable_sorted(catalogue@, unordered.take(i as int)),
            queue@.skip(i as int) == unordered.skip(i as int),
        decreases n - i,
    {
        let entry = queue[i];
        let ghost ordered = queue@.take(i as int);
        proof {
            assert(entry == unordered.skip(i as int)[0]);
            assert(unordered.take(i + 1).drop_last() == unordered.take(i as int));
            assert(ordered.take(i as int) == ordered);
            assert(queue@.skip(i + 1) == queue@.skip(i as int).skip(1));
            assert(unordered.skip(i + 1) == unordered.skip(i as int).skip(1));
        }
        let mut j: usize = i;
        while j > 0 && sorts_after(catalogue, &queue[j - 1], &entry)
            invariant
                j <= i < n,
                queue@.len() == n,
                ordered.len() == i,
                queue@.take(j as int) == ordered.take(j as int),
                queue@.subrange(j + 1, i + 1) == ordered.skip(j as int),
                queue@.skip(i + 1) == unordered.skip(i + 1),
                insertion_point(catalogue@, ordered, entry) == insertion_point(
                    catalogue@,
                    ordered.take(j as int),
                    entry,
                ),
            decreases j,
        {
            proof {
                assert(queue@[j - 1] == queue@.take(j as int)[j - 1]);
                assert(ordered.take(j as int).drop_last() == ordered.take(j - 1));
            }
            let moved = queue[j - 1];
            let ghost shifted = queue@;
            queue[j] = moved;
            j -= 1;
            proof {
                assert(queue@.take(j as int) == shifted.take(j + 1).take(j as int));
                assert(queue@.subrange(j + 1, i + 1) == seq![moved] + shifted.subrange(
                    j + 2,
                    i + 1,
                ));
                assert(ordered.skip(j as int) == seq![moved] + ordered.skip(j + 1));
                assert(queue@.skip(i + 1) == shifted.skip(i + 1));
            }
        }
        proof {
            if j > 0 {
                assert(queue@[j - 1] == queue@.take(j as int)[j - 1]);
            }
            assert(insertion_point(catalogue@, ordered, entry) == j);
        }
        let ghost shifted = queue@;
        queue[j] = entry;
        proof {
            assert(queue@.take(i + 1) == ordered.insert(j as int, entry)) by {
                let left = queue@.take(i + 1);
                let right = ordered.insert(j as int, entry);
                assert(left.len() == right.len());
                assert forall|k: int| 0 <= k < left.len() implies left[k] == right[k] by {
                    if k < j {
                        assert(shifted.take(j as int)[k] == ordered.take(j as int)[k]);
                    } else if k > j {
                        assert(shifted.subrange(j + 1, i + 1)[k - j - 1] == ordered.skip(
                            j as int,
                        )[k - j - 1]);
                    }
                }
            }
            assert(queue@.skip(i + 1) == shifted.skip(i + 1));
        }
        i += 1;
    }
    proof {
        assert(queue@.take(n as int) == queue@);
        assert(unordered.take(n as int) == unordered);
        lemma_stable_sorted_is_sorted(catalogue@, unordered);
        lemma_stable_sorted_permutes(catalogue@, unordered);
    }
}

} // verus!
