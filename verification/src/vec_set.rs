//! Vectors used as duplicate-free sets: lemmas connecting the `Seq`
//! editing operations of the backing vectors with the `Set` views of the
//! collections built on them.

use vstd::prelude::*;

verus! {

broadcast use vstd::seq::group_seq_axioms, vstd::set::group_set_axioms;

/// Pushing an element inserts it into a sequence's set of values; where
/// the sequence was duplicate-free and the element absent, it stays
/// duplicate-free.
pub proof fn lemma_to_set_push<T>(s: Seq<T>, x: T)
    ensures
        s.push(x).to_set() =~= s.to_set().insert(x),
        s.no_duplicates() && !s.contains(x) ==> s.push(x).no_duplicates(),
{
    assert forall|y: T| s.push(x).to_set().contains(y) implies s.to_set().insert(x).contains(
        y,
    ) by {
        let j = choose|j: int| 0 <= j < s.push(x).len() && s.push(x)[j] == y;
        if j < s.len() {
            assert(s[j] == y);
        }
    }
    assert forall|y: T| s.to_set().insert(x).contains(y) implies s.push(x).to_set().contains(
        y,
    ) by {
        if y == x {
            assert(s.push(x)[s.len() as int] == y);
        } else {
            let j = choose|j: int| 0 <= j < s.len() && s[j] == y;
            assert(s.push(x)[j] == y);
        }
    }
}

/// Removing the element at index `i` from a duplicate-free sequence keeps
/// it duplicate-free and removes exactly that element from its set of
/// values.
pub proof fn lemma_to_set_remove<T>(s: Seq<T>, i: int)
    requires
        0 <= i < s.len(),
        s.no_duplicates(),
    ensures
        s.remove(i).to_set() =~= s.to_set().remove(s[i]),
        s.remove(i).no_duplicates(),
{
    s.remove_ensures(i);
    assert forall|y: T| s.remove(i).to_set().contains(y) implies s.to_set().remove(
        s[i],
    ).contains(y) by {
        let j = choose|j: int| 0 <= j < s.remove(i).len() && s.remove(i)[j] == y;
        if j < i {
            assert(s[j] == y);
        } else {
            assert(s[j + 1] == y);
        }
    }
    assert forall|y: T| s.to_set().remove(s[i]).contains(y) implies s.remove(i).to_set().contains(
        y,
    ) by {
        let j = choose|j: int| 0 <= j < s.len() && s[j] == y;
        if j < i {
            assert(s.remove(i)[j] == y);
        } else {
            assert(j != i);
            assert(s.remove(i)[j - 1] == y);
        }
    }
    assert forall|p: int, q: int|
        0 <= p < s.remove(i).len() && 0 <= q < s.remove(i).len() && p != q implies s.remove(i)[p]
        != s.remove(i)[q] by {
        let sp: int = if p < i {
            p
        } else {
            p + 1
        };
        let sq: int = if q < i {
            q
        } else {
            q + 1
        };
        assert(s.remove(i)[p] == s[sp]);
        assert(s.remove(i)[q] == s[sq]);
    }
}

} // verus!
