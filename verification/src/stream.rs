//! The classifier in one pass, for items that can be walked only once.

use crate::relation::{
    admits, comparisons_specified, eq_returns, ge_returns, le_returns,
    lemma_admitted_is_verdict, verdict_of,
};
use crate::verdict::Verdict;
use vstd::prelude::*;
use vstd::std_specs::iter::IteratorSpec;

verus! {

/// Uses `PartialOrd` to determine the ordering of the items of an iterator.
///
/// Walks the iterator to its end, once, and compares each item with the one
/// before it. The verdict is the one that `get_ordering` gives on a slice of
/// the same items: whatever `T` is, it fits what the comparisons returned on
/// the adjacent pairs; for a `T` whose comparisons are specified, it is the
/// verdict of the model.
///
/// The iterator must be one that ends and says how far it is from its end.
pub fn get_ordering_iter<T: PartialOrd, I: Iterator<Item = T> + ?Sized>(it: &mut I) -> (r: Verdict)
    requires
        (*old(it)).obeys_prophetic_iter_laws(),
        (*old(it)).decrease() is Some,
    ensures
        (*final(it)).remaining().len() == 0,
        admits((*old(it)).remaining(), r),
        comparisons_specified::<T>() ==> r == verdict_of((*old(it)).remaining()),
{
    let ghost items = (*it).remaining();
    let mut previous = match it.next() {
        None => {
            return Verdict::Undefined;
        },
        Some(first) => first,
    };
    let ghost mut seen: int = 1;
    let mut paired = false;
    let mut constant = true;
    let mut rising = true;
    let mut falling = true;
    loop
        invariant
            (*it).obeys_prophetic_iter_laws(),
            (*it).decrease() is Some,
            1 <= seen <= items.len(),
            (*it).remaining() == items.skip(seen),
            previous == items[seen - 1],
            paired <==> seen >= 2,
            constant ==> forall|j: int| 0 <= j < seen - 1 ==> #[trigger] eq_returns(items, j, true),
            !constant ==> exists|j: int| 0 <= j < seen - 1 && #[trigger] eq_returns(items, j, false),
            rising ==> forall|j: int| 0 <= j < seen - 1 ==> #[trigger] le_returns(items, j, true),
            !rising ==> exists|j: int| 0 <= j < seen - 1 && #[trigger] le_returns(items, j, false),
            falling ==> forall|j: int| 0 <= j < seen - 1 ==> #[trigger] ge_returns(items, j, true),
            !falling ==> exists|j: int| 0 <= j < seen - 1 && #[trigger] ge_returns(items, j, false),
        ensures
            seen == items.len(),
            (*it).remaining().len() == 0,
        decreases (*it).decrease()->0,
    {
        match it.next() {
            None => {
                break ;
            },
            Some(current) => {
                assert(current == items[seen]);
                paired = true;
                if constant && !previous.eq(&current) {
                    assert(eq_returns(items, seen - 1, false));
                    constant = false;
                }
                if rising && !previous.le(&current) {
                    assert(le_returns(items, seen - 1, false));
                    rising = false;
                }
                if falling && !previous.ge(&current) {
                    assert(ge_returns(items, seen - 1, false));
                    falling = false;
                }
                previous = current;
                proof {
                    seen = seen + 1;
                }
            },
        }
    }
    let r = if !paired {
        Verdict::Undefined
    } else if constant {
        Verdict::Equal
    } else if rising {
        Verdict::Ascending
    } else if falling {
        Verdict::Descending
    } else {
        Verdict::Unsorted
    };
    proof {
        if comparisons_specified::<T>() {
            lemma_admitted_is_verdict(items, r);
        }
    }
    r
}

} // verus!
