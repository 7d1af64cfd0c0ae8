//! The mass of a package — one validated mass measurement — and its
//! heaviness classification.

use crate::measurements::kg::Kg;
use vstd::prelude::*;

verus! {

/// A mass of at least 20 kg makes the package HEAVY.
pub const HEAVY_THRESHOLD: usize = 20;

/// Heaviness category of a package's mass.
#[derive(Clone, Debug, PartialEq)]
pub enum MassClass {
    HEAVY,
    STANDARD,
}

/// The validated mass of a package. Immutable.
#[derive(Clone, Debug)]
pub struct Mass {
    pub value: Kg,
}

impl Mass {
    /// The wrapped mass holds its invariant.
    pub open spec fn wf(&self) -> bool {
        self.value.wf()
    }

    /// Heaviness is a pure function of the underlying value: HEAVY exactly
    /// when it reaches [`HEAVY_THRESHOLD`], the boundary included.
    pub open spec fn spec_classify(&self) -> MassClass {
        if self.value@ >= HEAVY_THRESHOLD {
            MassClass::HEAVY
        } else {
            MassClass::STANDARD
        }
    }

    pub fn new(value: Kg) -> (r: Self)
        ensures
            r == (Mass { value }),
    {
        Mass { value }
    }

    /// Classifies the mass: HEAVY exactly when the underlying value is at
    /// least [`HEAVY_THRESHOLD`], STANDARD otherwise.
    pub fn classify(&self) -> (r: MassClass)
        ensures
            r == self.spec_classify(),
            r == MassClass::HEAVY <==> self.value@ >= HEAVY_THRESHOLD,
            r == MassClass::STANDARD <==> self.value@ < HEAVY_THRESHOLD,
    {
        if self.value >= Kg::new(HEAVY_THRESHOLD).unwrap() {
            MassClass::HEAVY
        } else {
            MassClass::STANDARD
        }
    }
}

} // verus!
