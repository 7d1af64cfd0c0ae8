//! The dimension set of a package — three validated lengths — and its
//! bulkiness classification.

use crate::measurements::cm::Cm;
use vstd::prelude::*;

verus! {

/// Saturating sum of three lengths is at least 150 cm: the package is BULKY.
pub const BULKY_THRESHOLD: usize = 150;

/// Bulkiness category of a dimension set.
#[derive(Clone, Debug, PartialEq)]
pub enum DimensionClass {
    STANDARD,
    BULKY,
}

/// Exactly three validated lengths: width, height and length. Immutable.
#[derive(Clone, Debug)]
pub struct PackageDimensions {
    pub width: Cm,
    pub height: Cm,
    pub length: Cm,
}

impl PackageDimensions {
    /// All three lengths hold their invariant.
    pub open spec fn wf(&self) -> bool {
        self.width.wf() && self.height.wf() && self.length.wf()
    }

    /// Saturating sum of the three underlying values.
    pub open spec fn spec_sum(&self) -> usize {
        self.width@.saturating_add(self.height@).saturating_add(self.length@)
    }

    /// Bulkiness is a pure function of the saturating sum: BULKY exactly
    /// when the sum reaches [`BULKY_THRESHOLD`], the boundary included.
    pub open spec fn spec_classify(&self) -> DimensionClass {
        if self.spec_sum() >= BULKY_THRESHOLD {
            DimensionClass::BULKY
        } else {
            DimensionClass::STANDARD
        }
    }

    pub fn new(width: Cm, height: Cm, length: Cm) -> (r: Self)
        ensures
            r == (PackageDimensions { width, height, length }),
    {
        PackageDimensions { width, height, length }
    }

    /// The saturating sum of the three lengths, as a length: never
    /// overflows, and is itself a valid measurement.
    pub fn sum(&self) -> (r: Cm)
        ensures
            r@ == self.spec_sum(),
            self.wf() ==> r.wf(),
    {
        self.width.add(self.height).add(self.length)
    }

    /// Classifies the dimension set: BULKY exactly when the saturating sum
    /// is at least [`BULKY_THRESHOLD`], STANDARD otherwise.
    pub fn classify(&self) -> (r: DimensionClass)
        ensures
            r == self.spec_classify(),
            r == DimensionClass::BULKY <==> self.spec_sum() >= BULKY_THRESHOLD,
            r == DimensionClass::STANDARD <==> self.spec_sum() < BULKY_THRESHOLD,
    {
        let threshold = Cm::new(BULKY_THRESHOLD).unwrap();
        if self.sum() >= threshold {
            DimensionClass::BULKY
        } else {
            DimensionClass::STANDARD
        }
    }
}

} // verus!
