//! The terminal outcome of sorting a package: one of three values, with a
//! lowercase rendering for display.

use vstd::prelude::*;
use vstd::string::StringExecFns;

verus! {

/// The three possible outcomes of sorting a package.
#[derive(Clone, Debug, PartialEq)]
pub enum SortResult {
    Standard,
    Special,
    Rejected,
}

impl SortResult {
    /// The lowercase rendering of each outcome.
    pub open spec fn spec_to_string(self) -> Seq<char> {
        match self {
            SortResult::Standard => "standard"@,
            SortResult::Special => "special"@,
            SortResult::Rejected => "rejected"@,
        }
    }

    /// Every outcome, each exactly once.
    pub fn all() -> (r: [SortResult; 3])
        ensures
            r@ == seq![SortResult::Standard, SortResult::Special, SortResult::Rejected],
    {
        [SortResult::Standard, SortResult::Special, SortResult::Rejected]
    }

    /// Every outcome, each exactly once.
    pub fn any() -> (r: [SortResult; 3])
        ensures
            r@ == seq![SortResult::Standard, SortResult::Special, SortResult::Rejected],
    {
        [SortResult::Standard, SortResult::Special, SortResult::Rejected]
    }

    /// Renders the outcome as its literal lowercase name.
    pub fn to_string(&self) -> (r: String)
        ensures
            r@ == self.spec_to_string(),
    {
        match self {
            SortResult::Standard => String::from_str("standard"),
            SortResult::Special => String::from_str("special"),
            SortResult::Rejected => String::from_str("rejected"),
        }
    }
}

} // verus!
