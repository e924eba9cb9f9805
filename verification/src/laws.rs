//! What holds of the verdict on every sequence.
//!
//! The laws that speak of `verdict_of` hold of `get_ordering` and
//! `get_ordering_iter` for every element type whose comparisons are
//! specified; those that speak of `admits` hold of them for every element
//! type. Some laws need more of the element type: that `==` agrees with the
//! order, which `obeys_cmp_partial_ord` says.

use crate::classify::get_ordering;
use crate::relation::{
    admits, all_equal, comparisons_specified, equal_at, falls_at, lemma_admitted_is_verdict,
    non_decreasing, non_increasing, rises_at, verdict_of,
};
use crate::verdict::Verdict;
use vstd::laws_cmp::obeys_cmp_partial_ord;
use vstd::prelude::*;
use vstd::std_specs::cmp::PartialEqSpec;

verus! {

/// A sequence is `Undefined` exactly when it has fewer than two elements.
pub proof fn lemma_undefined_iff_short<T: PartialOrd>(s: Seq<T>)
    ensures
        verdict_of(s) == Verdict::Undefined <==> s.len() < 2,
{
}

/// Whatever the comparisons return, a verdict that fits them is `Undefined`
/// exactly when the sequence has fewer than two elements.
pub proof fn lemma_admitted_undefined_iff_short<T: PartialOrd>(s: Seq<T>, v: Verdict)
    requires
        admits(s, v),
    ensures
        v == Verdict::Undefined <==> s.len() < 2,
{
}

/// Each verdict, by what it says of the sequence: which of the three
/// questions failed before one held.
pub proof fn lemma_verdict_cases<T: PartialOrd>(s: Seq<T>)
    ensures
        verdict_of(s) == Verdict::Equal <==> s.len() >= 2 && all_equal(s),
        verdict_of(s) == Verdict::Ascending <==> s.len() >= 2 && !all_equal(s) && non_decreasing(
            s,
        ),
        verdict_of(s) == Verdict::Descending <==> s.len() >= 2 && !all_equal(s) && !non_decreasing(
            s,
        ) && non_increasing(s),
        verdict_of(s) == Verdict::Unsorted <==> s.len() >= 2 && !all_equal(s) && !non_decreasing(s)
            && !non_increasing(s),
{
}

/// A sequence of two or more elements in which any two elements compare
/// equal is `Equal`.
pub proof fn lemma_equal_elements_are_equal<T: PartialOrd>(s: Seq<T>)
    requires
        s.len() >= 2,
        forall|i: int, j: int|
            0 <= i < s.len() && 0 <= j < s.len() ==> #[trigger] s[i].eq_spec(&#[trigger] s[j]),
    ensures
        verdict_of(s) == Verdict::Equal,
{
    assert forall|i: int| 0 <= i < s.len() - 1 implies #[trigger] equal_at(s, i) by {
        assert(s[i].eq_spec(&s[i + 1]));
    }
}

/// A value that compares equal to itself, repeated two or more times, is
/// `Equal`.
pub proof fn lemma_repeated_value_is_equal<T: PartialOrd>(s: Seq<T>, v: T)
    requires
        s.len() >= 2,
        forall|i: int| 0 <= i < s.len() ==> s[i] == v,
        v.eq_spec(&v),
    ensures
        verdict_of(s) == Verdict::Equal,
{
    assert forall|i: int| 0 <= i < s.len() - 1 implies #[trigger] equal_at(s, i) by {
        assert(s[i] == v && s[i + 1] == v);
    }
}

/// A non-decreasing sequence of two or more elements that is not constant
/// is `Ascending`.
pub proof fn lemma_rising_is_ascending<T: PartialOrd>(s: Seq<T>)
    requires
        s.len() >= 2,
        non_decreasing(s),
        !all_equal(s),
    ensures
        verdict_of(s) == Verdict::Ascending,
{
}

/// A non-increasing sequence of two or more elements that is neither
/// constant nor non-decreasing is `Descending`.
pub proof fn lemma_falling_is_descending<T: PartialOrd>(s: Seq<T>)
    requires
        s.len() >= 2,
        non_increasing(s),
        !all_equal(s),
        !non_decreasing(s),
    ensures
        verdict_of(s) == Verdict::Descending,
{
}

/// Where `==` agrees with the order, a non-increasing sequence of two or
/// more elements that is not constant is `Descending`: it cannot be
/// non-decreasing as well.
pub proof fn lemma_lawful_falling_is_descending<T: PartialOrd>(s: Seq<T>)
    requires
        obeys_cmp_partial_ord::<T>(),
        s.len() >= 2,
        non_increasing(s),
        !all_equal(s),
    ensures
        verdict_of(s) == Verdict::Descending,
{
    reveal(obeys_cmp_partial_ord);
    let i = choose|i: int| 0 <= i < s.len() - 1 && !equal_at(s, i);
    assert(falls_at(s, i));
    assert(!rises_at(s, i));
}

/// A sequence with an adjacent pair that breaks the non-decreasing order and
/// one, the same or another, that breaks the non-increasing order is
/// `Unsorted`, unless all its adjacent pairs compare equal.
pub proof fn lemma_broken_is_unsorted<T: PartialOrd>(s: Seq<T>, i: int, j: int)
    requires
        0 <= i < s.len() - 1,
        0 <= j < s.len() - 1,
        !rises_at(s, i),
        !falls_at(s, j),
        !all_equal(s),
    ensures
        verdict_of(s) == Verdict::Unsorted,
{
}

/// Where `==` agrees with the order, a sequence with an adjacent pair that
/// breaks the non-decreasing order and one, the same or another, that breaks
/// the non-increasing order is `Unsorted`: the first of them does not
/// compare equal.
pub proof fn lemma_lawful_broken_is_unsorted<T: PartialOrd>(s: Seq<T>, i: int, j: int)
    requires
        obeys_cmp_partial_ord::<T>(),
        0 <= i < s.len() - 1,
        0 <= j < s.len() - 1,
        !rises_at(s, i),
        !falls_at(s, j),
    ensures
        verdict_of(s) == Verdict::Unsorted,
{
    reveal(obeys_cmp_partial_ord);
    assert(!equal_at(s, i));
}

/// Where `==` agrees with the order, a sequence of two or more elements that
/// is both non-decreasing and non-increasing is `Equal`, never `Ascending`
/// or `Descending`.
pub proof fn lemma_lawful_level_is_equal<T: PartialOrd>(s: Seq<T>)
    requires
        obeys_cmp_partial_ord::<T>(),
        s.len() >= 2,
        non_decreasing(s),
        non_increasing(s),
    ensures
        verdict_of(s) == Verdict::Equal,
{
    reveal(obeys_cmp_partial_ord);
    assert forall|i: int| 0 <= i < s.len() - 1 implies #[trigger] equal_at(s, i) by {
        assert(rises_at(s, i) && falls_at(s, i));
    }
}

/// The verdict is a function of the comparisons of adjacent elements: two
/// sequences of one length whose adjacent pairs compare alike get the same
/// verdict.
pub proof fn lemma_verdict_follows_comparisons<T: PartialOrd, U: PartialOrd>(s: Seq<T>, t: Seq<U>)
    requires
        s.len() == t.len(),
        forall|i: int|
            #![trigger equal_at(s, i)]
            #![trigger equal_at(t, i)]
            0 <= i < s.len() - 1 ==> equal_at(s, i) == equal_at(t, i),
        forall|i: int|
            #![trigger rises_at(s, i)]
            #![trigger rises_at(t, i)]
            0 <= i < s.len() - 1 ==> rises_at(s, i) == rises_at(t, i),
        forall|i: int|
            #![trigger falls_at(s, i)]
            #![trigger falls_at(t, i)]
            0 <= i < s.len() - 1 ==> falls_at(s, i) == falls_at(t, i),
    ensures
        verdict_of(s) == verdict_of(t),
{
}

/// Where the comparisons of `T` are specified, at most one verdict fits
/// them on a sequence, so three passes and one pass give the same answer.
pub proof fn lemma_admitted_verdict_is_unique<T: PartialOrd>(s: Seq<T>, v: Verdict, w: Verdict)
    requires
        comparisons_specified::<T>(),
        admits(s, v),
        admits(s, w),
    ensures
        v == w,
{
    lemma_admitted_is_verdict(s, v);
    lemma_admitted_is_verdict(s, w);
}

/// Classifying the same slice twice gives the same verdict, where the
/// comparisons of `T` are specified.
pub proof fn lemma_get_ordering_is_deterministic<T: PartialOrd>(
    a: &[T],
    first: Verdict,
    second: Verdict,
)
    requires
        comparisons_specified::<T>(),
        call_ensures(get_ordering::<T>, (a,), first),
        call_ensures(get_ordering::<T>, (a,), second),
    ensures
        first == second,
{
}

} // verus!
