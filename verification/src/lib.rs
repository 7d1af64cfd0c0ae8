//! Classifies a shipped package into one of three handling categories from
//! its physical dimensions and its mass.
//!
//! Raw numeric inputs are validated into measurement types ([`measurements`]),
//! combined into a [`package::Package`], and classified along two independent
//! axes — bulkiness from the summed dimensions, heaviness from the mass —
//! which a fixed decision table maps to a final [`sort_result::SortResult`].
//!
//! [`safe_sort`] is the main entry point: it validates the four raw inputs in
//! a fixed order and returns either the classification or the first field's
//! validation error. The [`simple`] module offers the same classification as
//! a single flat function over raw integers, rendering its result as a string.

use vstd::prelude::*;

pub mod measurements;
pub mod package;
pub mod simple;
pub mod sort_error;
pub mod sort_result;

use crate::measurements::cm::Cm;
use crate::measurements::kg::Kg;
use crate::package::dimensions::{DimensionClass, PackageDimensions, BULKY_THRESHOLD};
use crate::package::mass::{Mass, MassClass, HEAVY_THRESHOLD};
use crate::package::{spec_decide, Package};
use crate::sort_error::SortError;
use crate::sort_result::SortResult;
use vstd::string::StringExecFns;

verus! {

/// The classification of four already-valid raw measurements: the decision
/// table applied to the bulkiness of the saturating dimension sum and the
/// heaviness of the mass.
pub open spec fn spec_sort_of(width: usize, height: usize, length: usize, mass: usize) -> SortResult {
    spec_decide(
        if width.saturating_add(height).saturating_add(length) >= BULKY_THRESHOLD {
            DimensionClass::BULKY
        } else {
            DimensionClass::STANDARD
        },
        if mass >= HEAVY_THRESHOLD {
            MassClass::HEAVY
        } else {
            MassClass::STANDARD
        },
    )
}

/// What sorting returns for every input: the error of the first invalid
/// field, checked in the order width, height, length, mass; else the
/// classification of the validated package.
pub open spec fn spec_safe_sort(width: usize, height: usize, length: usize, mass: usize) -> Result<
    SortResult,
    SortError,
> {
    if !Cm::spec_is_valid(width) {
        Err(SortError::InvalidWidth(width))
    } else if !Cm::spec_is_valid(height) {
        Err(SortError::InvalidHeight(height))
    } else if !Cm::spec_is_valid(length) {
        Err(SortError::InvalidLength(length))
    } else if !Kg::spec_is_valid(mass) {
        Err(SortError::InvalidMass(mass))
    } else {
        Ok(spec_sort_of(width, height, length, mass))
    }
}

/// Validates the four raw inputs in the order width, height, length, mass —
/// the first invalid field short-circuits with its error — then classifies
/// the validated package. Never fails once all four inputs are valid.
pub fn safe_sort(width: usize, height: usize, length: usize, mass: usize) -> (r: Result<
    SortResult,
    SortError,
>)
    ensures
        r == spec_safe_sort(width, height, length, mass),
        r is Ok <==> width >= 1 && height >= 1 && length >= 1 && mass >= 1,
        width == 0 ==> r == Err::<SortResult, SortError>(SortError::InvalidWidth(width)),
        width >= 1 && height == 0 ==> r == Err::<SortResult, SortError>(SortError::InvalidHeight(height)),
        width >= 1 && height >= 1 && length == 0 ==> r == Err::<SortResult, SortError>(SortError::InvalidLength(length)),
        width >= 1 && height >= 1 && length >= 1 && mass == 0 ==> r == Err::<SortResult, SortError>(
            SortError::InvalidMass(mass),
        ),
{
    let width_cm = match Cm::new(width) {
        Ok(c) => c,
        Err(e) => {
            return Err(SortError::InvalidWidth(e.original_value()));
        },
    };
    let height_cm = match Cm::new(height) {
        Ok(c) => c,
        Err(e) => {
            return Err(SortError::InvalidHeight(e.original_value()));
        },
    };
    let length_cm = match Cm::new(length) {
        Ok(c) => c,
        Err(e) => {
            return Err(SortError::InvalidLength(e.original_value()));
        },
    };
    let mass_kg = match Kg::new(mass) {
        Ok(k) => k,
        Err(e) => {
            return Err(SortError::from(e));
        },
    };

    let p = Package::new(
        PackageDimensions::new(width_cm, height_cm, length_cm),
        Mass::new(mass_kg),
    );

    Ok(p.sort())
}

/// Like [`safe_sort`], but renders the outcome as a string and collapses
/// every validation error to the single string `"error"`.
pub fn safe_sort_2(width: usize, height: usize, length: usize, mass: usize) -> (r: String)
    ensures
        r@ == (match spec_safe_sort(width, height, length, mass) {
            Ok(result) => result.spec_to_string(),
            Err(_) => "error"@,
        }),
{
    match safe_sort(width, height, length, mass) {
        Ok(result) => result.to_string(),
        Err(_) => String::from_str("error"),
    }
}

/// Renders the classification of four valid raw inputs as a string. Inputs
/// that fail validation are excluded up front: unlike [`safe_sort`], this
/// signature has no way to report which field was invalid.
pub fn sort(width: usize, height: usize, length: usize, mass: usize) -> (r: String)
    requires
        Cm::spec_is_valid(width),
        Cm::spec_is_valid(height),
        Cm::spec_is_valid(length),
        Kg::spec_is_valid(mass),
    ensures
        r@ == spec_sort_of(width, height, length, mass).spec_to_string(),
{
    safe_sort(width, height, length, mass).unwrap().to_string()
}

/// Any four valid inputs classify successfully, and the outcome is one of
/// the three sort results.
pub proof fn lemma_valid_inputs_classify(width: usize, height: usize, length: usize, mass: usize)
    requires
        width >= 1,
        height >= 1,
        length >= 1,
        mass >= 1,
    ensures
        spec_safe_sort(width, height, length, mass) matches Ok(result) && (result
            == SortResult::Standard || result == SortResult::Special || result
            == SortResult::Rejected),
{
}

} // verus!

