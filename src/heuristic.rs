//! The merge rule that a search uses to combine the values of sibling
//! branches: keep the larger value and report how the new one compares.
use vstd::prelude::*;
use std::cmp::Ordering;

verus! {

/// How `a` compares with `b`.
pub open spec fn compare(a: int, b: int) -> Ordering {
    if a < b {
        Ordering::Less
    } else if a == b {
        Ordering::Equal
    } else {
        Ordering::Greater
    }
}

/// The larger of `a` and `b`.
pub open spec fn larger(a: int, b: int) -> int {
    if a < b {
        b
    } else {
        a
    }
}

/// Merging a value with itself keeps it and reports a tie, never a win or a
/// loss.
pub proof fn lemma_merge_tie(v: int)
    ensures
        larger(v, v) == v,
        compare(v, v) == Ordering::Equal,
{
}

/// The kept value is one of the two and at least each of them, and the
/// reported ordering agrees with which one was kept: `Greater` exactly when
/// the new value replaced the old one.
pub proof fn lemma_merge_keeps_best(old: int, new: int)
    ensures
        larger(old, new) == old || larger(old, new) == new,
        larger(old, new) >= old,
        larger(old, new) >= new,
        compare(new, old) == Ordering::Greater <==> (larger(old, new) == new && new != old),
        compare(new, old) == Ordering::Equal <==> new == old,
        compare(new, old) == Ordering::Less <==> new < old,
{
}

} // verus!
