//! Finding the first and the last marked position of a sequence.

use vstd::prelude::*;

verus! {

/// The least index in `[lo, hi)` at which `marks` is set, if there is one.
pub open spec fn first_set(marks: Seq<bool>, lo: int, hi: int) -> Option<int>
    decreases hi - lo,
{
    if lo >= hi {
        None
    } else if marks[lo] {
        Some(lo)
    } else {
        first_set(marks, lo + 1, hi)
    }
}

/// The greatest index in `[lo, hi)` at which `marks` is set, if there is one.
pub open spec fn last_set(marks: Seq<bool>, lo: int, hi: int) -> Option<int>
    decreases hi - lo,
{
    if lo >= hi {
        None
    } else if marks[hi - 1] {
        Some(hi - 1)
    } else {
        last_set(marks, lo, hi - 1)
    }
}

/// `first_set` names a set index with none set before it, and is `None` only
/// where none is set.
pub proof fn lemma_first_set(marks: Seq<bool>, lo: int, hi: int)
    ensures
        match first_set(marks, lo, hi) {
            Some(i) => lo <= i < hi && marks[i] && forall|j: int| lo <= j < i ==> !marks[j],
            None => forall|j: int| lo <= j < hi ==> !marks[j],
        },
    decreases hi - lo,
{
    if lo < hi && !marks[lo] {
        lemma_first_set(marks, lo + 1, hi);
    }
}

/// `last_set` names a set index with none set after it, and is `None` only
/// where none is set.
pub proof fn lemma_last_set(marks: Seq<bool>, lo: int, hi: int)
    ensures
        match last_set(marks, lo, hi) {
            Some(i) => lo <= i < hi && marks[i] && forall|j: int| i < j < hi ==> !marks[j],
            None => forall|j: int| lo <= j < hi ==> !marks[j],
        },
    decreases hi - lo,
{
    if lo < hi && !marks[hi - 1] {
        lemma_last_set(marks, lo, hi - 1);
    }
}

/// Skipping an unset position at the front does not change the first set
/// index.
pub proof fn lemma_first_set_step(marks: Seq<bool>, lo: int, hi: int)
    requires
        lo < hi,
        !marks[lo],
    ensures
        first_set(marks, lo, hi) == first_set(marks, lo + 1, hi),
{
}

/// Dropping an unset position at the back does not change the last set
/// index.
pub proof fn lemma_last_set_step(marks: Seq<bool>, lo: int, hi: int)
    requires
        lo < hi,
        !marks[hi - 1],
    ensures
        last_set(marks, lo, hi) == last_set(marks, lo, hi - 1),
{
}

} // verus!
