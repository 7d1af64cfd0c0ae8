//! The whole classification as one flat function over raw integers.
//!
//! Unlike [`crate::safe_sort`], this front validates all four inputs at
//! once and reports any failure as the empty string, so a caller cannot
//! tell which field was invalid — only that one was.

use vstd::prelude::*;

pub mod classification;
pub mod dimension_class;
pub mod mass_class;

use classification::Classification;
use dimension_class::DimensionClass;
use mass_class::MassClass;

verus! {

/// The classification of four already-valid raw measurements: the decision
/// table applied to the bulkiness of the dimensions and the heaviness of
/// the mass.
pub open spec fn spec_classification_of(
    width: usize,
    height: usize,
    length: usize,
    mass: usize,
) -> Classification {
    match (DimensionClass::spec_from(width, height, length), MassClass::spec_from(mass)) {
        (DimensionClass::STANDARD, MassClass::STANDARD) => Classification::STANDARD,
        (DimensionClass::BULKY, MassClass::STANDARD) => Classification::SPECIAL,
        (DimensionClass::STANDARD, MassClass::HEAVY) => Classification::SPECIAL,
        (DimensionClass::BULKY, MassClass::HEAVY) => Classification::REJECTED,
    }
}

/// What [`sort`] returns for every input: the empty string on any invalid
/// field, else the rendering of the decision table's outcome.
pub open spec fn spec_sort(width: usize, height: usize, length: usize, mass: usize) -> Seq<char> {
    if width >= 1 && height >= 1 && length >= 1 && mass >= 1 {
        spec_classification_of(width, height, length, mass).spec_to_string()
    } else {
        ""@
    }
}

/// All four raw inputs are valid: each is at least 1.
pub fn validate_input(width: usize, height: usize, length: usize, mass: usize) -> (r: bool)
    ensures
        r == (width >= 1 && height >= 1 && length >= 1 && mass >= 1),
{
    width > 0 && height > 0 && length > 0 && mass > 0
}

/// Sorts a package based on its dimension and mass classification; any
/// invalid input yields the empty string. Integer overflow is handled
/// gracefully: the dimension sum saturates instead of wrapping.
pub fn sort(width: usize, height: usize, length: usize, mass: usize) -> (r: String)
    ensures
        r@ == spec_sort(width, height, length, mass),
        !(width >= 1 && height >= 1 && length >= 1 && mass >= 1) ==> r@ == ""@,
{
    if !validate_input(width, height, length, mass) {
        proof {
            reveal_strlit("");
            assert(""@ =~= Seq::<char>::empty());
        }
        return String::new();
    }

    let classification_pair = (DimensionClass::from(width, height, length), MassClass::from(mass));
    let classification_result = match classification_pair {
        (DimensionClass::STANDARD, MassClass::STANDARD) => Classification::STANDARD,
        (DimensionClass::BULKY, MassClass::STANDARD) => Classification::SPECIAL,
        (DimensionClass::STANDARD, MassClass::HEAVY) => Classification::SPECIAL,
        (DimensionClass::BULKY, MassClass::HEAVY) => Classification::REJECTED,
    };

    classification_result.to_string()
}

} // verus!
