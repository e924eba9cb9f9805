//! The mathematical model: what it means for a sequence to be constant,
//! non-decreasing or non-increasing under the comparisons of its element
//! type, and which verdict follows.
//!
//! The model comes in two layers. The first speaks of what the comparisons
//! may return, by their contracts, and holds for every element type. The
//! second speaks of what the comparisons are, for element types whose `==`,
//! `<=` and `>=` are functions of the compared values.

use crate::verdict::Verdict;
use vstd::prelude::*;
use vstd::std_specs::cmp::{PartialEqSpec, PartialOrdIs, PartialOrdSpec};

verus! {

/// `==` on the elements at `i` and `i + 1` may return `b`: its contract
/// allows that result.
pub open spec fn eq_returns<T: PartialOrd>(s: Seq<T>, i: int, b: bool) -> bool {
    call_ensures(T::eq, (&s[i], &s[i + 1]), b)
}

/// `<=` on the elements at `i` and `i + 1` may return `b`: its contract
/// allows that result.
pub open spec fn le_returns<T: PartialOrd>(s: Seq<T>, i: int, b: bool) -> bool {
    call_ensures(T::le, (&s[i], &s[i + 1]), b)
}

/// `>=` on the elements at `i` and `i + 1` may return `b`: its contract
/// allows that result.
pub open spec fn ge_returns<T: PartialOrd>(s: Seq<T>, i: int, b: bool) -> bool {
    call_ensures(T::ge, (&s[i], &s[i + 1]), b)
}

/// The answer `r` to "does every adjacent pair compare equal?" fits what
/// `==` may return: `true` on every adjacent pair, or `false` on one of them.
pub open spec fn equality_answer<T: PartialOrd>(s: Seq<T>, r: bool) -> bool {
    if r {
        forall|i: int| 0 <= i < s.len() - 1 ==> #[trigger] eq_returns(s, i, true)
    } else {
        exists|i: int| 0 <= i < s.len() - 1 && #[trigger] eq_returns(s, i, false)
    }
}

/// The answer `r` to "is every adjacent pair in non-decreasing order?" fits
/// what `<=` may return: `true` on every adjacent pair, or `false` on one of
/// them.
pub open spec fn rising_answer<T: PartialOrd>(s: Seq<T>, r: bool) -> bool {
    if r {
        forall|i: int| 0 <= i < s.len() - 1 ==> #[trigger] le_returns(s, i, true)
    } else {
        exists|i: int| 0 <= i < s.len() - 1 && #[trigger] le_returns(s, i, false)
    }
}

/// The answer `r` to "is every adjacent pair in non-increasing order?" fits
/// what `>=` may return: `true` on every adjacent pair, or `false` on one of
/// them.
pub open spec fn falling_answer<T: PartialOrd>(s: Seq<T>, r: bool) -> bool {
    if r {
        forall|i: int| 0 <= i < s.len() - 1 ==> #[trigger] ge_returns(s, i, true)
    } else {
        exists|i: int| 0 <= i < s.len() - 1 && #[trigger] ge_returns(s, i, false)
    }
}

/// The verdict `v` fits what the comparisons on `s` may return. Equality is
/// asked first, then the non-decreasing order, then the non-increasing one,
/// and the first question answered `true` decides.
pub open spec fn admits<T: PartialOrd>(s: Seq<T>, v: Verdict) -> bool {
    match v {
        Verdict::Undefined => s.len() < 2,
        Verdict::Equal => s.len() >= 2 && equality_answer(s, true),
        Verdict::Ascending => {
            &&& s.len() >= 2
            &&& equality_answer(s, false)
            &&& rising_answer(s, true)
        },
        Verdict::Descending => {
            &&& s.len() >= 2
            &&& equality_answer(s, false)
            &&& rising_answer(s, false)
            &&& falling_answer(s, true)
        },
        Verdict::Unsorted => {
            &&& s.len() >= 2
            &&& equality_answer(s, false)
            &&& rising_answer(s, false)
            &&& falling_answer(s, false)
        },
    }
}

/// The comparisons of `T` are functions of the compared values: `==` computes
/// `eq_spec`, and `<=` and `>=` go by `partial_cmp_spec`.
pub open spec fn comparisons_specified<T: PartialOrd>() -> bool {
    T::obeys_eq_spec() && T::obeys_partial_cmp_spec()
}

/// The elements at `i` and `i + 1` compare equal.
pub open spec fn equal_at<T: PartialOrd>(s: Seq<T>, i: int) -> bool {
    s[i].eq_spec(&s[i + 1])
}

/// The element at `i` is less than or equal to the one at `i + 1`.
pub open spec fn rises_at<T: PartialOrd>(s: Seq<T>, i: int) -> bool {
    s[i].is_le(&s[i + 1])
}

/// The element at `i` is greater than or equal to the one at `i + 1`.
pub open spec fn falls_at<T: PartialOrd>(s: Seq<T>, i: int) -> bool {
    s[i].is_ge(&s[i + 1])
}

/// Every adjacent pair compares equal.
pub open spec fn all_equal<T: PartialOrd>(s: Seq<T>) -> bool {
    forall|i: int| 0 <= i < s.len() - 1 ==> #[trigger] equal_at(s, i)
}

/// Every adjacent pair satisfies previous <= next.
pub open spec fn non_decreasing<T: PartialOrd>(s: Seq<T>) -> bool {
    forall|i: int| 0 <= i < s.len() - 1 ==> #[trigger] rises_at(s, i)
}

/// Every adjacent pair satisfies previous >= next.
pub open spec fn non_increasing<T: PartialOrd>(s: Seq<T>) -> bool {
    forall|i: int| 0 <= i < s.len() - 1 ==> #[trigger] falls_at(s, i)
}

/// The verdict on a sequence. Equality is tested first, so a constant
/// sequence is `Equal` although it is also non-decreasing and non-increasing.
pub open spec fn verdict_of<T: PartialOrd>(s: Seq<T>) -> Verdict {
    if s.len() < 2 {
        Verdict::Undefined
    } else if all_equal(s) {
        Verdict::Equal
    } else if non_decreasing(s) {
        Verdict::Ascending
    } else if non_increasing(s) {
        Verdict::Descending
    } else {
        Verdict::Unsorted
    }
}

/// Where the comparisons of `T` are specified, the answers that fit what the
/// comparisons may return are the ones the model gives.
pub proof fn lemma_answers_are_specified<T: PartialOrd>(s: Seq<T>, r: bool)
    requires
        comparisons_specified::<T>(),
    ensures
        equality_answer(s, r) ==> r == all_equal(s),
        rising_answer(s, r) ==> r == non_decreasing(s),
        falling_answer(s, r) ==> r == non_increasing(s),
{
    if equality_answer(s, r) {
        if r {
            assert forall|i: int| 0 <= i < s.len() - 1 implies #[trigger] equal_at(s, i) by {
                assert(eq_returns(s, i, true));
            }
        } else {
            let i = choose|i: int| 0 <= i < s.len() - 1 && #[trigger] eq_returns(s, i, false);
            assert(!equal_at(s, i));
        }
    }
    if rising_answer(s, r) {
        if r {
            assert forall|i: int| 0 <= i < s.len() - 1 implies #[trigger] rises_at(s, i) by {
                assert(le_returns(s, i, true));
            }
        } else {
            let i = choose|i: int| 0 <= i < s.len() - 1 && #[trigger] le_returns(s, i, false);
            assert(!rises_at(s, i));
        }
    }
    if falling_answer(s, r) {
        if r {
            assert forall|i: int| 0 <= i < s.len() - 1 implies #[trigger] falls_at(s, i) by {
                assert(ge_returns(s, i, true));
            }
        } else {
            let i = choose|i: int| 0 <= i < s.len() - 1 && #[trigger] ge_returns(s, i, false);
            assert(!falls_at(s, i));
        }
    }
}

/// Where the comparisons of `T` are specified, only one verdict fits what
/// they return: the verdict of the model.
pub proof fn lemma_admitted_is_verdict<T: PartialOrd>(s: Seq<T>, v: Verdict)
    requires
        comparisons_specified::<T>(),
        admits(s, v),
    ensures
        v == verdict_of(s),
{
    lemma_answers_are_specified(s, true);
    lemma_answers_are_specified(s, false);
}

} // verus!
