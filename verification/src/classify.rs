//! The classifier: three linear passes over the adjacent pairs of a slice.
//!
//! The comparisons are written as the calls that `==`, `<=` and `>=` stand
//! for, so that the contracts can speak of what each call returned.

use crate::relation::{
    admits, comparisons_specified, eq_returns, equality_answer, falling_answer, ge_returns,
    le_returns, lemma_admitted_is_verdict, rising_answer, verdict_of,
};
use crate::verdict::Verdict;
use vstd::prelude::*;

verus! {

/// Whether every adjacent pair of `a` compares equal with `==`.
/// Stops at the first pair that does not.
fn all_pairs_equal<T: PartialOrd>(a: &[T]) -> (r: bool)
    ensures
        equality_answer(a@, r),
{
    let mut i: usize = 1;
    while i < a.len()
        invariant
            1 <= i,
            forall|j: int| 0 <= j < i - 1 ==> #[trigger] eq_returns(a@, j, true),
        decreases a.len() - i,
    {
        if !a[i - 1].eq(&a[i]) {
            assert(eq_returns(a@, i - 1, false));
            return false;
        }
        i += 1;
    }
    true
}

/// Whether every adjacent pair of `a` satisfies previous `<=` next.
/// Stops at the first pair that does not.
fn all_pairs_rise<T: PartialOrd>(a: &[T]) -> (r: bool)
    ensures
        rising_answer(a@, r),
{
    let mut i: usize = 1;
    while i < a.len()
        invariant
            1 <= i,
            forall|j: int| 0 <= j < i - 1 ==> #[trigger] le_returns(a@, j, true),
        decreases a.len() - i,
    {
        if !a[i - 1].le(&a[i]) {
            assert(le_returns(a@, i - 1, false));
            return false;
        }
        i += 1;
    }
    true
}

/// Whether every adjacent pair of `a` satisfies previous `>=` next.
/// Stops at the first pair that does not.
fn all_pairs_fall<T: PartialOrd>(a: &[T]) -> (r: bool)
    ensures
        falling_answer(a@, r),
{
    let mut i: usize = 1;
    while i < a.len()
        invariant
            1 <= i,
            forall|j: int| 0 <= j < i - 1 ==> #[trigger] ge_returns(a@, j, true),
        decreases a.len() - i,
    {
        if !a[i - 1].ge(&a[i]) {
            assert(ge_returns(a@, i - 1, false));
            return false;
        }
        i += 1;
    }
    true
}

/// Uses `PartialOrd` to determine the ordering of a slice.
///
/// Returns `Undefined` if `a.len() < 2`, and for no other slice.
///
/// Whatever `T` is, the verdict fits what its comparisons returned on the
/// adjacent pairs of `a`. For a `T` whose comparisons are specified, the
/// result is the verdict of the model on the slice's contents.
pub fn get_ordering<T: PartialOrd>(a: &[T]) -> (r: Verdict)
    ensures
        admits(a@, r),
        comparisons_specified::<T>() ==> r == verdict_of(a@),
{
    let r = if a.len() < 2 {
        Verdict::Undefined
    } else if all_pairs_equal(a) {
        Verdict::Equal
    } else if all_pairs_rise(a) {
        Verdict::Ascending
    } else if all_pairs_fall(a) {
        Verdict::Descending
    } else {
        Verdict::Unsorted
    };
    proof {
        if comparisons_specified::<T>() {
            lemma_admitted_is_verdict(a@, r);
        }
    }
    r
}

} // verus!
