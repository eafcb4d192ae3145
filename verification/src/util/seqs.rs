//! Facts about sequences that the document bodies lean on.

use vstd::prelude::*;

verus! {

/// The views of the elements of a sequence, in order.
pub open spec fn views<T: View>(s: Seq<T>) -> Seq<T::V> {
    s.map_values(|x: T| x@)
}

/// Machine integers as mathematical ones, in order.
pub open spec fn ints(s: Seq<i32>) -> Seq<int> {
    s.map_values(|x: i32| x as int)
}

/// The number that a max-scan allocator hands out next: one more than the
/// greatest of `ids`, or 1 where there is none.
pub open spec fn next_after(ids: Seq<int>) -> int {
    if ids.len() == 0 {
        1
    } else {
        ids.max() + 1
    }
}

/// Filtering one element more keeps the element where the predicate holds
/// of it and changes nothing where it does not.
pub proof fn lemma_filter_take_succ<A>(s: Seq<A>, p: spec_fn(A) -> bool, i: int)
    requires
        0 <= i < s.len(),
    ensures
        s.take(i + 1).filter(p) == if p(s[i]) {
            s.take(i).filter(p).push(s[i])
        } else {
            s.take(i).filter(p)
        },
{
    reveal(Seq::filter);
    assert(s.take(i + 1).drop_last() =~= s.take(i));
}

/// The number handed out next is greater than every number in use.
pub proof fn lemma_next_after_is_fresh(ids: Seq<int>)
    ensures
        forall|i: int| 0 <= i < ids.len() ==> ids[i] < next_after(ids),
        !ids.contains(next_after(ids)),
{
    ids.max_ensures();
}

/// A number that is an upper bound of a non-empty sequence and occurs in it
/// is its maximum.
pub proof fn lemma_max_is(ids: Seq<int>, m: int)
    requires
        ids.contains(m),
        forall|i: int| 0 <= i < ids.len() ==> ids[i] <= m,
    ensures
        ids.max() == m,
{
    ids.max_ensures();
}

/// Putting a number that does not occur yet anywhere into a sequence without
/// duplicates leaves it without duplicates.
pub proof fn lemma_insert_fresh(s: Seq<int>, at: int, n: int)
    requires
        s.no_duplicates(),
        !s.contains(n),
        0 <= at <= s.len(),
    ensures
        s.insert(at, n).no_duplicates(),
{
    let t = s.insert(at, n);
    assert forall|i: int, j: int| 0 <= i < t.len() && 0 <= j < t.len() && i != j implies t[i]
        != t[j] by {
    }
}

/// Taking a stretch out of a sequence without duplicates leaves it without
/// duplicates.
pub proof fn lemma_cut_keeps_unique(s: Seq<int>, from: int, to: int)
    requires
        s.no_duplicates(),
        0 <= from <= to <= s.len(),
    ensures
        (s.subrange(0, from) + s.subrange(to, s.len() as int)).no_duplicates(),
{
    let t = s.subrange(0, from) + s.subrange(to, s.len() as int);
    assert forall|i: int, j: int| 0 <= i < t.len() && 0 <= j < t.len() && i != j implies t[i]
        != t[j] by {
    }
}

/// Mapping each element to a sequence and joining the results goes through
/// concatenation.
pub proof fn lemma_flat_map_concat<A, B>(a: Seq<A>, b: Seq<A>, f: spec_fn(A) -> Seq<B>)
    ensures
        (a + b).flat_map(f) == a.flat_map(f) + b.flat_map(f),
    decreases b.len(),
{
    if b.len() > 0 {
        let b0 = b.drop_last();
        lemma_flat_map_concat(a, b0, f);
        assert(b =~= b0.push(b.last()));
        (a + b0).lemma_flat_map_push(f, b.last());
        b0.lemma_flat_map_push(f, b.last());
    }
}

/// Where the first element that meets a predicate stands: the filtered
/// sequence is not empty exactly if there is such a place.
pub proof fn lemma_filter_first<A>(s: Seq<A>, p: spec_fn(A) -> bool)
    ensures
        s.filter(p).len() > 0 <==> exists|i: int| 0 <= i < s.len() && p(s[i]),
        s.filter(p).len() == 1 ==> forall|i: int, j: int|
            0 <= i < s.len() && 0 <= j < s.len() && p(s[i]) && p(s[j]) ==> i == j,
        s.filter(p).len() == 1 ==> forall|i: int|
            0 <= i < s.len() && p(s[i]) ==> s.filter(p)[0] == s[i],
    decreases s.len(),
{
    reveal(Seq::filter);
    if s.len() > 0 {
        let t = s.drop_last();
        lemma_filter_first(t, p);
        if exists|i: int| 0 <= i < s.len() && p(s[i]) {
            let i = choose|i: int| 0 <= i < s.len() && p(s[i]);
            if i < t.len() {
                assert(p(t[i]));
            }
        }
        if s.filter(p).len() == 1 {
            assert forall|i: int, j: int|
                0 <= i < s.len() && 0 <= j < s.len() && p(s[i]) && p(s[j]) implies i == j by {
                if p(s.last()) {
                    if i < t.len() {
                        assert(p(t[i]));
                    }
                    if j < t.len() {
                        assert(p(t[j]));
                    }
                } else {
                    assert(p(t[i]) && p(t[j]));
                }
            }
            assert forall|i: int| 0 <= i < s.len() && p(s[i]) implies s.filter(p)[0] == s[i] by {
            }
        }
    }
}

/// One more than the greatest of some identifiers, or 1 where there is none.
pub fn next_of(ids: &Vec<i32>) -> (id: i32)
    requires
        next_after(ints(ids@)) <= i32::MAX,
    ensures
        id == next_after(ints(ids@)),
{
    if ids.len() == 0 {
        return 1;
    }
    let mut best: i32 = ids[0];
    let mut i: usize = 1;
    while i < ids.len()
        invariant
            1 <= i <= ids.len(),
            exists|j: int| 0 <= j < i && ids@[j] == best,
            forall|j: int| 0 <= j < i ==> ids@[j] <= best,
        decreases ids.len() - i,
    {
        if ids[i] > best {
            best = ids[i];
        }
        i = i + 1;
    }
    proof {
        let j = choose|j: int| 0 <= j < i && ids@[j] == best;
        assert(ints(ids@)[j] == best as int);
        lemma_max_is(ints(ids@), best as int);
    }
    best + 1
}

/// Whether the number that follows the greatest of some identifiers still
/// fits: whether `next_of` may be asked for it.
pub fn has_next(ids: &Vec<i32>) -> (has: bool)
    ensures
        has == (next_after(ints(ids@)) <= i32::MAX),
{
    let mut i: usize = 0;
    while i < ids.len()
        invariant
            0 <= i <= ids.len(),
            forall|j: int| 0 <= j < i ==> ids@[j] < i32::MAX,
        decreases ids.len() - i,
    {
        if ids[i] == i32::MAX {
            proof {
                assert(ints(ids@)[i as int] == i32::MAX);
                ints(ids@).max_ensures();
            }
            return false;
        }
        i = i + 1;
    }
    proof {
        if ids.len() > 0 {
            ints(ids@).max_ensures();
        }
    }
    true
}

} // verus!
