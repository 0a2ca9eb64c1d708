//! The first position satisfying a predicate: the shape of every lookup in this crate.
use vstd::prelude::*;

verus! {

/// The least `i` in `0..n` for which `p(i)` holds, if any.
pub open spec fn first_index(n: int, p: spec_fn(int) -> bool) -> Option<int>
    decreases n,
{
    if n <= 0 {
        None
    } else {
        match first_index(n - 1, p) {
            Some(i) => Some(i),
            None => if p(n - 1) {
                Some(n - 1)
            } else {
                None
            },
        }
    }
}

/// `first_index` is the least index satisfying the predicate, or `None` when none does.
pub proof fn lemma_first_index(n: int, p: spec_fn(int) -> bool)
    ensures
        first_index(n, p) matches Some(i) ==> 0 <= i < n && p(i) && forall|j: int|
            0 <= j < i ==> !#[trigger] p(j),
        first_index(n, p) is None ==> forall|j: int| 0 <= j < n ==> !#[trigger] p(j),
    decreases n,
{
    if n > 0 {
        lemma_first_index(n - 1, p);
    }
}

/// An index that satisfies the predicate, with none before it, is the first.
pub proof fn lemma_first_index_is(n: int, p: spec_fn(int) -> bool, i: int)
    requires
        0 <= i < n,
        p(i),
        forall|j: int| 0 <= j < i ==> !#[trigger] p(j),
    ensures
        first_index(n, p) == Some(i),
{
    lemma_first_index(n, p);
    if first_index(n, p) is None {
        assert(!p(i));
    } else {
        let k = first_index(n, p)->0;
        if k < i {
            assert(!p(k));
        } else if k > i {
            assert(!p(i));
        }
    }
}

/// When no index satisfies the predicate, there is no first one.
pub proof fn lemma_first_index_none(n: int, p: spec_fn(int) -> bool)
    requires
        forall|j: int| 0 <= j < n ==> !#[trigger] p(j),
    ensures
        first_index(n, p) is None,
{
    lemma_first_index(n, p);
    if first_index(n, p) is Some {
        let k = first_index(n, p)->0;
        assert(p(k));
    }
}


/// The greatest `i` in `0..n` for which `p(i)` holds, if any.
pub open spec fn last_index(n: int, p: spec_fn(int) -> bool) -> Option<int>
    decreases n,
{
    if n <= 0 {
        None
    } else if p(n - 1) {
        Some(n - 1)
    } else {
        last_index(n - 1, p)
    }
}

/// `last_index` is the greatest index satisfying the predicate, or `None` when none does.
pub proof fn lemma_last_index(n: int, p: spec_fn(int) -> bool)
    ensures
        last_index(n, p) matches Some(i) ==> 0 <= i < n && p(i) && forall|j: int|
            i < j < n ==> !#[trigger] p(j),
        last_index(n, p) is None ==> forall|j: int| 0 <= j < n ==> !#[trigger] p(j),
    decreases n,
{
    if n > 0 {
        lemma_last_index(n - 1, p);
    }
}

} // verus!
