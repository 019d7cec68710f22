//! Stable sorting by a key order, as `slice::sort_by` does with a comparator
//! that is a total preorder: equal elements keep their order.

use vstd::prelude::*;

verus! {

/// Values ordered by a total preorder on their views.
pub trait SortKey: View + Sized {
    /// Whether `a` may come before `b`.
    spec fn key_le(a: Self::V, b: Self::V) -> bool;

    /// Whether `self` may come before `other`.
    fn le(&self, other: &Self) -> (r: bool)
        ensures
            r == Self::key_le(self@, other@);

    /// Any two values are ordered one way or the other.
    proof fn key_le_total(a: Self::V, b: Self::V)
        ensures
            Self::key_le(a, b) || Self::key_le(b, a);

    /// The order is transitive.
    proof fn key_le_trans(a: Self::V, b: Self::V, c: Self::V)
        requires
            Self::key_le(a, b),
            Self::key_le(b, c),
        ensures
            Self::key_le(a, c);
}

/// The index of the first element of `s` that must come after `x`.
pub open spec fn first_after<T: SortKey>(s: Seq<T::V>, x: T::V) -> int
    decreases s.len(),
{
    if s.len() == 0 {
        0
    } else if !T::key_le(s[0], x) {
        0
    } else {
        first_after::<T>(s.drop_first(), x) + 1
    }
}

/// `x` inserted into `s` after every element that may come before it.
pub open spec fn insert_after_le<T: SortKey>(s: Seq<T::V>, x: T::V) -> Seq<T::V> {
    s.insert(first_after::<T>(s, x), x)
}

/// The stable sort of `s` by `T::key_le`.
pub open spec fn sorted_by<T: SortKey>(s: Seq<T::V>) -> Seq<T::V>
    decreases s.len(),
{
    if s.len() == 0 {
        s
    } else {
        insert_after_le::<T>(sorted_by::<T>(s.drop_last()), s.last())
    }
}

/// The views of a vector's elements.
pub open spec fn views_of<T: View>(s: Seq<T>) -> Seq<T::V> {
    s.map_values(|t: T| t@)
}

proof fn lemma_first_after_bounds<T: SortKey>(s: Seq<T::V>, x: T::V)
    ensures
        0 <= first_after::<T>(s, x) <= s.len(),
        forall|j: int| 0 <= j < first_after::<T>(s, x) ==> T::key_le(s[j], x),
        first_after::<T>(s, x) < s.len() ==> !T::key_le(s[first_after::<T>(s, x)], x),
    decreases s.len(),
{
    if s.len() > 0 && T::key_le(s[0], x) {
        lemma_first_after_bounds::<T>(s.drop_first(), x);
        assert forall|j: int| 1 <= j < first_after::<T>(s, x) implies T::key_le(s[j], x) by {
            assert(s[j] == s.drop_first()[j - 1]);
        }
    }
}

/// Whether every element may come before every later one.
pub open spec fn is_sorted_by<T: SortKey>(s: Seq<T::V>) -> bool {
    forall|i: int, j: int| 0 <= i < j < s.len() ==> T::key_le(#[trigger] s[i], #[trigger] s[j])
}

/// The stable sort of a sequence is ordered, and holds the same elements,
/// each as often.
pub proof fn lemma_sorted_by_sorts<T: SortKey>(s: Seq<T::V>)
    ensures
        is_sorted_by::<T>(sorted_by::<T>(s)),
        sorted_by::<T>(s).to_multiset() == s.to_multiset(),
    decreases s.len(),
{
    broadcast use vstd::seq_lib::to_multiset_insert, vstd::seq_lib::to_multiset_build;
    if s.len() > 0 {
        let r = sorted_by::<T>(s.drop_last());
        let x = s.last();
        lemma_sorted_by_sorts::<T>(s.drop_last());
        lemma_first_after_bounds::<T>(r, x);
        let p = first_after::<T>(r, x);
        let out = r.insert(p, x);
        r.insert_ensures(p, x);
        assert(out == sorted_by::<T>(s));
        assert forall|i: int, j: int| 0 <= i < j < out.len() implies T::key_le(#[trigger] out[i], #[trigger] out[j]) by {
            if j < p {
                assert(out[i] == r[i] && out[j] == r[j]);
            } else if j == p {
                assert(out[i] == r[i]);
            } else if i < p {
                assert(out[i] == r[i]);
                assert(out[j] == r[j - 1]);
                if p < r.len() {
                    T::key_le_total(r[p], x);
                    assert(T::key_le(x, r[p]));
                    T::key_le_trans(r[i], x, r[p]);
                    if j - 1 > p {
                        T::key_le_trans(r[i], r[p], r[j - 1]);
                    }
                }
            } else if i == p {
                assert(out[j] == r[j - 1]);
                T::key_le_total(r[p], x);
                if j - 1 > p {
                    T::key_le_trans(x, r[p], r[j - 1]);
                }
            } else {
                assert(out[i] == r[i - 1] && out[j] == r[j - 1]);
            }
        }
        assert(s =~= s.drop_last().push(x));
    }
}

/// Sorts `v` stably by `T::le`.
pub fn stable_sort<T: SortKey>(v: Vec<T>) -> (r: Vec<T>)
    ensures
        views_of(r@) == sorted_by::<T>(views_of(v@)),
{
    let ghost input = views_of(v@);
    let mut rest = v;
    let mut out: Vec<T> = Vec::new();
    let n: usize = rest.len();
    let mut i: usize = 0;
    proof {
        assert(views_of(rest@) =~= input.skip(0));
        assert(rest@.len() == input.len());
        assert(views_of(out@) =~= sorted_by::<T>(input.take(0)));
    }
    while i < n
        invariant
            n == input.len(),
            i <= n,
            views_of(rest@) == input.skip(i as int),
            rest@.len() == n - i,
            views_of(out@) == sorted_by::<T>(input.take(i as int)),
        decreases n - i,
    {
        let ghost before = rest@;
        let x = rest.remove(0);
        proof {
            assert(rest@ =~= before.subrange(1, before.len() as int));
            assert(x@ == views_of(before)[0]);
            assert forall|j: int| 0 <= j < rest@.len() implies views_of(rest@)[j] == input.skip(i + 1)[j] by {
                assert(rest@[j] == before[j + 1]);
                assert(views_of(before)[j + 1] == input.skip(i as int)[j + 1]);
            }
            assert(views_of(rest@) =~= input.skip(i + 1));
            assert(x@ == input[i as int]);
            assert(input.take(i + 1).drop_last() =~= input.take(i as int));
        }
        let ghost s = views_of(out@);
        proof {
            lemma_first_after_bounds::<T>(s, x@);
        }
        let mut p: usize = 0;
        while p < out.len() && out[p].le(&x)
            invariant
                s == views_of(out@),
                p <= out@.len(),
                p <= first_after::<T>(s, x@),
                0 <= first_after::<T>(s, x@) <= s.len(),
                forall|j: int| 0 <= j < first_after::<T>(s, x@) ==> T::key_le(s[j], x@),
                first_after::<T>(s, x@) < s.len() ==> !T::key_le(s[first_after::<T>(s, x@)], x@),
            decreases out@.len() - p,
        {
            p = p + 1;
        }
        proof {
            if p < out@.len() {
                assert(!T::key_le(s[p as int], x@));
            }
            assert(p == first_after::<T>(s, x@));
        }
        out.insert(p, x);
        proof {
            assert(views_of(out@) =~= s.insert(p as int, x@));
        }
        i = i + 1;
    }
    proof {
        assert(input.take(n as int) =~= input);
    }
    out
}

} // verus!
