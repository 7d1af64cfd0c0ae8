//! The final outcome of the flat classification, with its lowercase
//! rendering.

use vstd::prelude::*;
use vstd::string::StringExecFns;

verus! {

/// The three possible outcomes of classifying a package.
#[derive(Clone, Debug, PartialEq)]
pub enum Classification {
    STANDARD,
    SPECIAL,
    REJECTED,
}

impl Classification {
    /// The lowercase rendering of each outcome.
    pub open spec fn spec_to_string(&self) -> Seq<char> {
        match *self {
            Classification::STANDARD => "standard"@,
            Classification::SPECIAL => "special"@,
            Classification::REJECTED => "rejected"@,
        }
    }

    /// Renders the outcome as its literal lowercase name.
    pub fn to_string(&self) -> (r: String)
        ensures
            r@ == self.spec_to_string(),
    {
        match self {
            Classification::STANDARD => String::from_str("standard"),
            Classification::SPECIAL => String::from_str("special"),
            Classification::REJECTED => String::from_str("rejected"),
        }
    }
}

} // verus!
