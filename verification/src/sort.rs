use vstd::prelude::*;

verus! {

/// A value with a rank by which it is ordered.
pub trait Ranked: Sized {
    /// The rank; a higher rank comes first.
    spec fn rank(&self) -> u64;

    fn get_rank(&self) -> (r: u64)
        ensures
            r == self.rank(),
    ;
}

/// No item of `s` is followed by one of higher rank.
pub open spec fn is_descending<T: Ranked>(s: Seq<T>) -> bool {
    forall|i: int, j: int| 0 <= i < j < s.len() ==> s[i].rank() >= s[j].rank()
}

/// The items of `s` whose rank is `rank`, in the order they have in `s`.
pub open spec fn of_rank<T: Ranked>(s: Seq<T>, rank: u64) -> Seq<T> {
    s.filter(|item: T| item.rank() == rank)
}

/// `s` with `item` put behind the last item whose rank is at least its own.
pub open spec fn insert_by_rank<T: Ranked>(s: Seq<T>, item: T) -> Seq<T>
    decreases s.len(),
{
    if s.len() == 0 {
        seq![item]
    } else if s.last().rank() >= item.rank() {
        s.push(item)
    } else {
        insert_by_rank(s.drop_last(), item).push(s.last())
    }
}

/// The items of `s` by descending rank; items of one rank keep the order they
/// have in `s`.
pub open spec fn sorted_by_rank<T: Ranked>(s: Seq<T>) -> Seq<T>
    decreases s.len(),
{
    if s.len() == 0 {
        s
    } else {
        insert_by_rank(sorted_by_rank(s.drop_last()), s.last())
    }
}

proof fn lemma_insert_at<T: Ranked>(s: Seq<T>, item: T, pos: int)
    requires
        0 <= pos <= s.len(),
        forall|k: int| pos <= k < s.len() ==> s[k].rank() < item.rank(),
        pos == 0 || s[pos - 1].rank() >= item.rank(),
    ensures
        insert_by_rank(s, item) == s.insert(pos, item),
    decreases s.len(),
{
    if s.len() == 0 {
        assert(s.insert(pos, item) =~= seq![item]);
    } else if pos == s.len() {
        assert(s.insert(pos, item) =~= s.push(item));
    } else {
        lemma_insert_at(s.drop_last(), item, pos);
        assert(s.insert(pos, item) =~= s.drop_last().insert(pos, item).push(s.last()));
    }
}

proof fn lemma_insert_shape<T: Ranked>(s: Seq<T>, item: T)
    ensures
        insert_by_rank(s, item).len() == s.len() + 1,
        insert_by_rank(s, item).to_multiset() == s.to_multiset().insert(item),
        is_descending(s) ==> is_descending(insert_by_rank(s, item)),
        forall|i: int|
            0 <= i < s.len() + 1 ==> #[trigger] insert_by_rank(s, item)[i] == item || s.contains(
                insert_by_rank(s, item)[i],
            ),
    decreases s.len(),
{
    broadcast use vstd::seq_lib::group_to_multiset_ensures;

    let out = insert_by_rank(s, item);
    if s.len() == 0 {
        assert(s =~= Seq::<T>::empty());
    } else if s.last().rank() >= item.rank() {
        assert forall|i: int| 0 <= i < s.len() + 1 implies #[trigger] out[i] == item || s.contains(
            out[i],
        ) by {
            if i < s.len() {
                assert(s[i] == out[i]);
            }
        }
    } else {
        let front = s.drop_last();
        let inner = insert_by_rank(front, item);
        lemma_insert_shape(front, item);
        assert(s =~= front.push(s.last()));
        assert(s.to_multiset() == front.to_multiset().insert(s.last()));
        assert(out.to_multiset() =~= s.to_multiset().insert(item));
        assert forall|i: int| 0 <= i < s.len() + 1 implies #[trigger] out[i] == item || s.contains(
            out[i],
        ) by {
            if i < inner.len() {
                assert(out[i] == inner[i]);
                if inner[i] != item {
                    assert(front.contains(inner[i]));
                    let k = choose|k: int| 0 <= k < front.len() && front[k] == inner[i];
                    assert(s[k] == inner[i]);
                }
            } else {
                assert(out[i] == s.last());
                assert(s[s.len() - 1] == s.last());
            }
        }
        if is_descending(s) {
            assert(is_descending(front)) by {
                assert forall|i: int, j: int| 0 <= i < j < front.len() implies front[i].rank()
                    >= front[j].rank() by {
                    assert(front[i] == s[i] && front[j] == s[j]);
                }
            }
            assert forall|i: int, j: int| 0 <= i < j < out.len() implies out[i].rank()
                >= out[j].rank() by {
                if j < inner.len() {
                    assert(out[i] == inner[i] && out[j] == inner[j]);
                } else {
                    assert(out[j] == s.last());
                    assert(out[i] == inner[i]);
                    if inner[i] != item {
                        assert(front.contains(inner[i]));
                        let k = choose|k: int| 0 <= k < front.len() && front[k] == inner[i];
                        assert(s[k] == inner[i]);
                        assert(s[k].rank() >= s[s.len() - 1].rank());
                    }
                }
            }
        }
    }
}

proof fn lemma_insert_of_rank<T: Ranked>(s: Seq<T>, item: T, rank: u64)
    ensures
        of_rank(insert_by_rank(s, item), rank) == if item.rank() == rank {
            of_rank(s, rank).push(item)
        } else {
            of_rank(s, rank)
        },
    decreases s.len(),
{
    let pred = |item: T| item.rank() == rank;
    reveal_with_fuel(Seq::filter, 2);
    if s.len() == 0 {
        assert(seq![item].drop_last() =~= s);
    } else if s.last().rank() >= item.rank() {
        assert(s.push(item).drop_last() =~= s);
    } else {
        let inner = insert_by_rank(s.drop_last(), item);
        lemma_insert_of_rank(s.drop_last(), item, rank);
        assert(inner.push(s.last()).drop_last() =~= inner);
    }
}

/// Where `insert_by_rank` puts an item in a descending sequence: behind
/// every item of at least its rank, before every item of lower rank.
pub proof fn lemma_insert_position<T: Ranked>(s: Seq<T>, item: T) -> (pos: int)
    requires
        is_descending(s),
    ensures
        0 <= pos <= s.len(),
        insert_by_rank(s, item) == s.insert(pos, item),
        forall|k: int| 0 <= k < pos ==> s[k].rank() >= item.rank(),
        forall|k: int| pos <= k < s.len() ==> s[k].rank() < item.rank(),
    decreases s.len(),
{
    if s.len() == 0 {
        assert(s.insert(0, item) =~= seq![item]);
        0
    } else if s.last().rank() >= item.rank() {
        assert(s.insert(s.len() as int, item) =~= s.push(item));
        assert forall|k: int| 0 <= k < s.len() implies s[k].rank() >= item.rank() by {
            assert(s[k].rank() >= s[s.len() - 1].rank());
        }
        s.len() as int
    } else {
        let front = s.drop_last();
        assert(is_descending(front)) by {
            assert forall|i: int, j: int| 0 <= i < j < front.len() implies front[i].rank()
                >= front[j].rank() by {
                assert(front[i] == s[i] && front[j] == s[j]);
            }
        }
        let pos = lemma_insert_position(front, item);
        assert(s.insert(pos, item) =~= front.insert(pos, item).push(s.last()));
        assert forall|k: int| 0 <= k < pos implies s[k].rank() >= item.rank() by {
            assert(front[k] == s[k]);
        }
        assert forall|k: int| pos <= k < s.len() implies s[k].rank() < item.rank() by {
            if k < front.len() {
                assert(front[k] == s[k]);
            }
        }
        pos
    }
}

/// What `sorted_by_rank` gives is in descending order of rank.
pub proof fn lemma_sorted_is_descending<T: Ranked>(s: Seq<T>)
    ensures
        is_descending(sorted_by_rank(s)),
    decreases s.len(),
{
    if s.len() > 0 {
        lemma_sorted_is_descending(s.drop_last());
        lemma_insert_shape(sorted_by_rank(s.drop_last()), s.last());
    }
}

/// What `sorted_by_rank` gives holds the same items as often as its argument.
pub proof fn lemma_sorted_is_permutation<T: Ranked>(s: Seq<T>)
    ensures
        sorted_by_rank(s).len() == s.len(),
        sorted_by_rank(s).to_multiset() == s.to_multiset(),
    decreases s.len(),
{
    broadcast use vstd::seq_lib::group_to_multiset_ensures;

    if s.len() > 0 {
        lemma_sorted_is_permutation(s.drop_last());
        lemma_insert_shape(sorted_by_rank(s.drop_last()), s.last());
        assert(s =~= s.drop_last().push(s.last()));
    }
}

/// Items of one rank come out of `sorted_by_rank` in the order they went in.
pub proof fn lemma_sorted_is_stable<T: Ranked>(s: Seq<T>, rank: u64)
    ensures
        of_rank(sorted_by_rank(s), rank) == of_rank(s, rank),
    decreases s.len(),
{
    if s.len() > 0 {
        let pred = |item: T| item.rank() == rank;
        reveal(Seq::filter);
        lemma_sorted_is_stable(s.drop_last(), rank);
        lemma_insert_of_rank(sorted_by_rank(s.drop_last()), s.last(), rank);
        assert(s.filter(pred) == if pred(s.last()) {
            s.drop_last().filter(pred).push(s.last())
        } else {
            s.drop_last().filter(pred)
        });
    }
}

/// A sequence already in descending order of rank is left as it is.
pub proof fn lemma_sorted_of_descending<T: Ranked>(s: Seq<T>)
    requires
        is_descending(s),
    ensures
        sorted_by_rank(s) == s,
    decreases s.len(),
{
    if s.len() > 0 {
        let front = s.drop_last();
        assert(is_descending(front)) by {
            assert forall|i: int, j: int| 0 <= i < j < front.len() implies front[i].rank()
                >= front[j].rank() by {
                assert(front[i] == s[i] && front[j] == s[j]);
            }
        }
        lemma_sorted_of_descending(front);
        if front.len() > 0 {
            assert(front.last() == s[s.len() - 2]);
            assert(s[s.len() - 2].rank() >= s[s.len() - 1].rank());
        }
        assert(front.push(s.last()) =~= s);
    }
}

/// Puts `items` in descending order of rank, keeping items of one rank in
/// the order they had.
pub fn sort_by_rank<T: Ranked + Copy>(items: &mut Vec<T>)
    ensures
        final(items)@ == sorted_by_rank(old(items)@),
{
    let mut out: Vec<T> = Vec::new();
    let mut i: usize = 0;
    while i < items.len()
        invariant
            i <= items.len(),
            items@ == old(items)@,
            out@ == sorted_by_rank(items@.take(i as int)),
        decreases items.len() - i,
    {
        let item = items[i];
        let rank = item.get_rank();
        let mut pos: usize = out.len();
        while pos > 0 && out[pos - 1].get_rank() < rank
            invariant
                pos <= out.len(),
                rank == item.rank(),
                forall|k: int| pos <= k < out.len() ==> out[k].rank() < rank,
            decreases pos,
        {
            pos -= 1;
        }
        proof {
            lemma_insert_at(out@, item, pos as int);
            assert(items@.take(i + 1).drop_last() =~= items@.take(i as int));
        }
        out.insert(pos, item);
        i += 1;
    }
    assert(items@.take(i as int) =~= items@);
    *items = out;
}

} // verus!
