//! The package aggregate: one dimension set and one mass, classified along
//! both axes and combined through a fixed decision table.

use crate::sort_result::SortResult;
use vstd::prelude::*;

pub mod dimensions;
pub mod mass;

use dimensions::DimensionClass;
use mass::MassClass;

verus! {

/// The decision table over the two axis classifications:
/// BULKY and HEAVY is rejected, either alone is special, neither is standard.
/// Total over the 2x2 input space, so a classified package always sorts.
pub open spec fn spec_decide(d: DimensionClass, m: MassClass) -> SortResult {
    match (d, m) {
        (DimensionClass::BULKY, MassClass::HEAVY) => SortResult::Rejected,
        (DimensionClass::BULKY, MassClass::STANDARD) => SortResult::Special,
        (DimensionClass::STANDARD, MassClass::HEAVY) => SortResult::Special,
        (DimensionClass::STANDARD, MassClass::STANDARD) => SortResult::Standard,
    }
}

/// A package owns exactly one dimension set and one mass, by value, for its
/// entire lifetime; constructed once and never mutated.
pub struct Package {
    pub dimensions: dimensions::PackageDimensions,
    pub mass: mass::Mass,
}

impl Package {
    /// Both components hold their invariants.
    pub open spec fn wf(&self) -> bool {
        self.dimensions.wf() && self.mass.wf()
    }

    /// The sort result is a pure function of the package's measurements:
    /// the decision table applied to the two axis classifications.
    pub open spec fn spec_sort(&self) -> SortResult {
        spec_decide(self.dimensions.spec_classify(), self.mass.spec_classify())
    }

    pub fn new(dimensions: dimensions::PackageDimensions, mass: mass::Mass) -> (r: Self)
        ensures
            r == (Package { dimensions, mass }),
    {
        Package { dimensions, mass }
    }

    /// Classifies the package: the decision table applied to the bulkiness
    /// of its dimensions and the heaviness of its mass. Deterministic — the
    /// result depends on the stored measurements alone, so classifying the
    /// same package twice yields the same result.
    pub fn sort(&self) -> (r: SortResult)
        ensures
            r == self.spec_sort(),
    {
        match (self.dimensions.classify(), self.mass.classify()) {
            (DimensionClass::BULKY, MassClass::HEAVY) => SortResult::Rejected,
            (DimensionClass::BULKY, _) => SortResult::Special,
            (_, MassClass::HEAVY) => SortResult::Special,
            _ => SortResult::Standard,
        }
    }
}

/// Classifying a package has no hidden state: any two results that
/// [`Package::sort`] can return for the same package are equal.
pub proof fn lemma_sort_deterministic(p: &Package, r1: SortResult, r2: SortResult)
    requires
        call_ensures(Package::sort, (p,), r1),
        call_ensures(Package::sort, (p,), r2),
    ensures
        r1 == r2,
{
}

} // verus!
