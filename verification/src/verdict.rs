//! The five-way classification of a sequence's ordering.

use vstd::prelude::*;

verus! {

/// All possible sorting states of a sequence of values.
#[derive(Debug, PartialEq, Eq, Structural, Clone, Copy)]
pub enum Verdict {
    /// No comparison is possible: the sequence has fewer than two elements.
    Undefined,
    /// Every adjacent pair compares equal.
    Equal,
    /// Every adjacent pair satisfies previous <= next, and not every pair
    /// compares equal.
    Ascending,
    /// Every adjacent pair satisfies previous >= next, and the sequence is
    /// neither `Equal` nor `Ascending`.
    Descending,
    /// None of the above: the adjacent pairs disagree, or some pair cannot be
    /// compared.
    Unsorted,
}

impl Verdict {
    /// The verdict's display name: its variant in lower case.
    pub open spec fn name(self) -> Seq<char> {
        match self {
            Verdict::Undefined => "undefined"@,
            Verdict::Equal => "equal"@,
            Verdict::Ascending => "ascending"@,
            Verdict::Descending => "descending"@,
            Verdict::Unsorted => "unsorted"@,
        }
    }

    /// The verdict's display name.
    pub fn as_str(&self) -> (s: &'static str)
        ensures
            s@ == self.name(),
    {
        match self {
            Verdict::Undefined => "undefined",
            Verdict::Equal => "equal",
            Verdict::Ascending => "ascending",
            Verdict::Descending => "descending",
            Verdict::Unsorted => "unsorted",
        }
    }

    /// The verdict's display name as an owned string.
    pub fn to_string(&self) -> (s: String)
        ensures
            s@ == self.name(),
    {
        self.as_str().to_owned()
    }
}

/// Each verdict has a display name of its own.
pub proof fn lemma_names_differ(a: Verdict, b: Verdict)
    requires
        a != b,
    ensures
        a.name() != b.name(),
{
    reveal_strlit("undefined");
    reveal_strlit("equal");
    reveal_strlit("ascending");
    reveal_strlit("descending");
    reveal_strlit("unsorted");
    if a.name().len() == b.name().len() {
        assert(a.name()[0] != b.name()[0]);
    }
}

} // verus!
