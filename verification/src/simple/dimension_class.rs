//! Bulkiness of a package, derived directly from three raw dimensions.

use vstd::prelude::*;

verus! {

/// Bulkiness category of a set of dimensions.
#[derive(Clone, Debug, PartialEq)]
pub enum DimensionClass {
    STANDARD,
    BULKY,
}

impl DimensionClass {
    /// Bulkiness is a pure function of the saturating sum of the three
    /// dimensions: BULKY exactly when the sum reaches 150, the boundary
    /// included.
    pub open spec fn spec_from(width: usize, height: usize, length: usize) -> DimensionClass {
        if width.saturating_add(height).saturating_add(length) >= 150 {
            DimensionClass::BULKY
        } else {
            DimensionClass::STANDARD
        }
    }

    /// Classifies three raw dimensions, summing with saturating addition so
    /// that no input can overflow.
    pub fn from(width: usize, height: usize, length: usize) -> (r: DimensionClass)
        ensures
            r == Self::spec_from(width, height, length),
            r == DimensionClass::BULKY <==> width.saturating_add(height).saturating_add(length)
                >= 150,
            r == DimensionClass::STANDARD <==> width.saturating_add(height).saturating_add(length)
                < 150,
    {
        let total_dimension: usize = width.saturating_add(height).saturating_add(length);
        if total_dimension >= 150 {
            DimensionClass::BULKY
        } else {
            DimensionClass::STANDARD
        }
    }
}

} // verus!
