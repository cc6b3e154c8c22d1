//! Permutations over index sequences, for externally driven reordering.
//!
//! A reorder request arrives as a sequence of indices: position `k` of the
//! new order names which element of the old order moves there. The editor
//! accepts it only when it is a genuine permutation of `0 .. n`; this module
//! defines that notion and proves the two facts the editor's contract rests
//! on: a permutation hits every index (so an edited note can be tracked to
//! its new position) and applying one preserves the multiset of elements
//! (no note is lost or duplicated).

use vstd::multiset::Multiset;
use vstd::prelude::*;
use vstd::set_lib::{lemma_int_range, lemma_len_subset, lemma_subset_equality, set_int_range};

verus! {

broadcast use vstd::seq_lib::group_seq_properties, vstd::multiset::group_multiset_axioms;

/// `perm` is a permutation of the indices `0 .. n`: right length, every
/// entry in range, no entry twice.
pub open spec fn valid_perm(perm: Seq<usize>, n: nat) -> bool {
    &&& perm.len() == n
    &&& forall|k: int| 0 <= k < perm.len() ==> (#[trigger] perm[k]) < n
    &&& perm.no_duplicates()
}

/// The reordered sequence: position `k` takes the element `perm[k]` named.
pub open spec fn apply_perm<A>(s: Seq<A>, perm: Seq<usize>) -> Seq<A> {
    Seq::new(perm.len(), |k: int| s[perm[k] as int])
}

/// The position an old index moved to: the `j` with `perm[j] == i`.
pub open spec fn perm_position(perm: Seq<usize>, i: int) -> int {
    choose|j: int| 0 <= j < perm.len() && perm[j] == i
}

/// An injection of `0 .. n` into `0 .. n` is onto: every index in range is
/// hit by some position of the permutation.
pub proof fn lemma_perm_surjective(perm: Seq<usize>, n: nat, v: int)
    requires
        valid_perm(perm, n),
        0 <= v < n,
    ensures
        exists|j: int| 0 <= j < perm.len() && perm[j] == v,
{
    let ints = perm.map_values(|x: usize| x as int);
    assert(ints.no_duplicates()) by {
        assert forall|i: int, j: int|
            0 <= i < ints.len() && 0 <= j < ints.len() && i != j implies ints[i] != ints[j] by {
            assert(perm[i] != perm[j]);
        }
    }
    ints.unique_seq_to_set();
    let range = set_int_range(0, n as int);
    lemma_int_range(0, n as int);
    assert(ints.to_set().subset_of(range)) by {
        assert forall|x: int| ints.to_set().contains(x) implies range.contains(x) by {
            let j = choose|j: int| 0 <= j < ints.len() && ints[j] == x;
            assert(perm[j] < n);
        }
    }
    lemma_len_subset(ints.to_set(), range);
    lemma_subset_equality(ints.to_set(), range);
    assert(range.contains(v));
    assert(ints.to_set().contains(v));
    let j = choose|j: int| 0 <= j < ints.len() && ints[j] == v;
    assert(perm[j] == v);
}

/// Only one position carries a given index, so [`perm_position`] is exactly
/// the position any search will find.
pub proof fn lemma_perm_position_unique(perm: Seq<usize>, n: nat, j: int, i: int)
    requires
        valid_perm(perm, n),
        0 <= j < perm.len(),
        perm[j] == i,
    ensures
        perm_position(perm, i) == j,
{
    let j2 = perm_position(perm, i);
    assert(0 <= j2 < perm.len() && perm[j2] == i);
    if j2 != j {
        assert(perm[j] != perm[j2]);
    }
}

/// Dropping one position of a permutation of `0 .. n` that carried the
/// largest index leaves a permutation of `0 .. n-1`.
proof fn lemma_perm_remove_top(perm: Seq<usize>, n: nat, k0: int)
    requires
        valid_perm(perm, n),
        0 <= k0 < perm.len(),
        perm[k0] == n - 1,
    ensures
        valid_perm(perm.remove(k0), (n - 1) as nat),
{
    let rest = perm.remove(k0);
    perm.remove_ensures(k0);
    assert(rest.len() == n - 1);
    assert forall|k: int| 0 <= k < rest.len() implies (#[trigger] rest[k]) < n - 1 by {
        let orig = if k < k0 {
            k
        } else {
            k + 1
        };
        assert(rest[k] == perm[orig]);
        assert(perm[orig] < n);
        if orig != k0 {
            assert(perm[orig] != perm[k0]);
        }
    }
    assert forall|a: int, b: int|
        0 <= a < rest.len() && 0 <= b < rest.len() && a != b implies rest[a] != rest[b] by {
        let oa = if a < k0 {
            a
        } else {
            a + 1
        };
        let ob = if b < k0 {
            b
        } else {
            b + 1
        };
        assert(rest[a] == perm[oa] && rest[b] == perm[ob]);
        assert(perm[oa] != perm[ob]);
    }
}

/// A multiset keeps an element through a remove/insert round trip as long as
/// the element was there.
proof fn lemma_multiset_remove_insert<A>(m: Multiset<A>, x: A)
    requires
        m.count(x) >= 1,
    ensures
        m.remove(x).insert(x) =~= m,
{
    assert forall|y: A| m.remove(x).insert(x).count(y) == m.count(y) by {
        if y == x {
            assert(m.remove(x).count(x) == m.count(x) - 1);
        }
    }
}

/// Applying a permutation preserves the multiset of elements: nothing is
/// lost, nothing is duplicated, for any permutation of any sequence.
pub proof fn lemma_apply_perm_multiset<A>(s: Seq<A>, perm: Seq<usize>)
    requires
        valid_perm(perm, s.len()),
    ensures
        apply_perm(s, perm).to_multiset() == s.to_multiset(),
    decreases s.len(),
{
    let r = apply_perm(s, perm);
    let n = s.len();
    if n == 0 {
        assert(r =~= s);
    } else {
        lemma_perm_surjective(perm, n, n - 1);
        let k0 = choose|j: int| 0 <= j < perm.len() && perm[j] == n - 1;
        assert(0 <= k0 < perm.len() && perm[k0] == n - 1);
        let perm2 = perm.remove(k0);
        let s2 = s.drop_last();
        lemma_perm_remove_top(perm, n, k0);
        perm.remove_ensures(k0);
        r.remove_ensures(k0);
        assert(valid_perm(perm2, s2.len()));
        let r2 = apply_perm(s2, perm2);
        assert(r.remove(k0) =~= r2) by {
            assert forall|m: int| 0 <= m < r2.len() implies r.remove(k0)[m] == r2[m] by {
                let orig = if m < k0 {
                    m
                } else {
                    m + 1
                };
                assert(r.remove(k0)[m] == r[orig]);
                assert(r[orig] == s[perm[orig] as int]);
                assert(perm2[m] == perm[orig]);
                assert(r2[m] == s2[perm2[m] as int]);
                assert(s2[perm2[m] as int] == s[perm2[m] as int]);
            }
        }
        lemma_apply_perm_multiset(s2, perm2);
        r.to_multiset_ensures();
        s.to_multiset_ensures();
        assert(r.remove(k0).to_multiset() == r.to_multiset().remove(r[k0]));
        assert(r[k0] == s[n - 1]);
        assert(s.drop_last().push(s.last()) =~= s);
        assert(s2.push(s.last()).to_multiset() =~= s2.to_multiset().insert(s.last()));
        assert(r.to_multiset().contains(r[k0])) by {
            assert(r.contains(r[k0]));
        }
        lemma_multiset_remove_insert(r.to_multiset(), s[n - 1]);
        assert(r.to_multiset() =~= r.to_multiset().remove(r[k0]).insert(s[n - 1]));
        assert(r.to_multiset() =~= s2.to_multiset().insert(s.last()));
    }
}

} // verus!
