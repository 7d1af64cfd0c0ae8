//! A mass measurement in kilograms: a positive machine integer, obtained
//! only through the validating constructor [`Kg::new`]. A distinct type from
//! the length measurement so the two units can never be mixed up.

use core::cmp::Ordering;
use vstd::prelude::*;

verus! {

/// A validated mass in kilograms. Invariant: the wrapped value is at least 1.
/// Immutable once constructed.
#[derive(Clone, Copy, Debug)]
pub struct Kg {
    value: usize,
}

/// Failure to construct a [`Kg`], carrying the offending raw value.
#[derive(Clone, Debug)]
pub enum KgError {
    InvalidKg(usize),
}

impl View for Kg {
    type V = usize;

    closed spec fn view(&self) -> usize {
        self.value
    }
}

impl Kg {
    /// A raw value is a valid mass exactly when it is at least 1.
    pub open spec fn spec_is_valid(value: usize) -> bool {
        value >= 1
    }

    /// Invariant of every constructed measurement.
    pub open spec fn wf(&self) -> bool {
        Self::spec_is_valid(self@)
    }

    #[verifier::when_used_as_spec(spec_is_valid)]
    pub fn is_valid(value: usize) -> (r: bool)
        ensures
            r == Self::spec_is_valid(value),
    {
        value >= 1
    }

    /// Sole constructor: succeeds exactly on valid raw values and wraps the
    /// given value unchanged; rejected values come back inside the error.
    pub fn new(value: usize) -> (r: Result<Self, KgError>)
        ensures
            r is Ok <==> Self::spec_is_valid(value),
            r matches Ok(k) ==> k@ == value && k.wf(),
            r matches Err(e) ==> e == KgError::InvalidKg(value),
    {
        if !Kg::is_valid(value) {
            return Err(KgError::InvalidKg(value));
        }

        Ok(Kg { value })
    }
}

impl PartialEq for Kg {
    /// Equality is by underlying value.
    fn eq(&self, other: &Self) -> (r: bool) {
        self.value == other.value
    }
}

impl vstd::std_specs::cmp::PartialEqSpecImpl for Kg {
    open spec fn obeys_eq_spec() -> bool {
        true
    }

    open spec fn eq_spec(&self, other: &Self) -> bool {
        self@ == other@
    }
}

impl PartialOrd for Kg {
    /// Masses are totally ordered by underlying value.
    fn partial_cmp(&self, other: &Self) -> (r: Option<Ordering>) {
        if self.value < other.value {
            Some(Ordering::Less)
        } else if self.value == other.value {
            Some(Ordering::Equal)
        } else {
            Some(Ordering::Greater)
        }
    }
}

impl vstd::std_specs::cmp::PartialOrdSpecImpl for Kg {
    open spec fn obeys_partial_cmp_spec() -> bool {
        true
    }

    open spec fn partial_cmp_spec(&self, other: &Self) -> Option<Ordering> {
        if self@ < other@ {
            Some(Ordering::Less)
        } else if self@ == other@ {
            Some(Ordering::Equal)
        } else {
            Some(Ordering::Greater)
        }
    }
}

} // verus!
