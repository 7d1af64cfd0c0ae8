//! Heaviness of a package, derived directly from its raw mass.

use vstd::prelude::*;

verus! {

/// Heaviness category of a mass.
#[derive(Clone, Debug, PartialEq)]
pub enum MassClass {
    HEAVY,
    STANDARD,
}

impl MassClass {
    /// Heaviness is a pure function of the mass: HEAVY exactly when the
    /// mass reaches 20, the boundary included.
    pub open spec fn spec_from(mass: usize) -> MassClass {
        if mass >= 20 {
            MassClass::HEAVY
        } else {
            MassClass::STANDARD
        }
    }

    /// Classifies a raw mass.
    pub fn from(mass: usize) -> (r: MassClass)
        ensures
            r == Self::spec_from(mass),
            r == MassClass::HEAVY <==> mass >= 20,
            r == MassClass::STANDARD <==> mass < 20,
    {
        if mass >= 20 {
            MassClass::HEAVY
        } else {
            MassClass::STANDARD
        }
    }
}

} // verus!
