//! A length measurement in centimetres: a positive machine integer, obtained
//! only through the validating constructor [`Cm::new`].

use core::cmp::Ordering;
use vstd::prelude::*;

verus! {

/// Smallest raw value a length measurement may hold.
pub const MIN: usize = 1;

/// Largest raw value a length measurement may hold.
pub const MAX: usize = usize::MAX;

/// A validated length in centimetres. Invariant: the wrapped value is at
/// least [`MIN`]. Immutable once constructed.
#[derive(Clone, Copy, Debug)]
pub struct Cm {
    value: usize,
}

/// Failure to construct a [`Cm`], carrying the offending raw value.
#[derive(Clone, Debug)]
pub enum CmError {
    InvalidCm(usize),
}

impl CmError {
    /// The raw value that failed validation.
    pub fn original_value(&self) -> (r: usize)
        ensures
            *self == CmError::InvalidCm(r),
    {
        match self {
            CmError::InvalidCm(value) => *value,
        }
    }
}

impl View for Cm {
    type V = usize;

    closed spec fn view(&self) -> usize {
        self.value
    }
}

impl Cm {
    /// A raw value is a valid length exactly when it is at least [`MIN`].
    pub open spec fn spec_is_valid(value: usize) -> bool {
        value >= MIN
    }

    /// Invariant of every constructed measurement.
    pub open spec fn wf(&self) -> bool {
        Self::spec_is_valid(self@)
    }

    #[verifier::when_used_as_spec(spec_is_valid)]
    pub fn is_valid(value: usize) -> (r: bool)
        ensures
            r == Self::spec_is_valid(value),
    {
        value >= 1
    }

    /// Sole constructor: succeeds exactly on valid raw values and wraps the
    /// given value unchanged; rejected values come back inside the error.
    pub fn new(value: usize) -> (r: Result<Self, CmError>)
        ensures
            r is Ok <==> Self::spec_is_valid(value),
            r matches Ok(c) ==> c@ == value && c.wf(),
            r matches Err(e) ==> e == CmError::InvalidCm(value),
    {
        if !Cm::is_valid(value) {
            return Err(CmError::InvalidCm(value));
        }

        Ok(Cm { value })
    }

    /// Saturating addition: the sum clamps at [`MAX`] instead of overflowing,
    /// so combining two lengths never fails and never panics.
    pub fn add(self, other: Cm) -> (r: Cm)
        ensures
            r@ == self@.saturating_add(other@),
            self.wf() ==> r.wf(),
    {
        Cm { value: self.value.saturating_add(other.value) }
    }
}

/// Adding two well-formed lengths stays within [`MAX`]; in particular two
/// maximal lengths sum to exactly the maximum representable length.
pub proof fn lemma_add_saturates(a: Cm, b: Cm)
    requires
        a.wf(),
        b.wf(),
    ensures
        a@.saturating_add(b@) <= MAX,
        a@.saturating_add(b@) >= MIN,
        a@ == MAX && b@ == MAX ==> a@.saturating_add(b@) == MAX,
{
}

impl PartialEq for Cm {
    /// Equality is by underlying value.
    fn eq(&self, other: &Self) -> (r: bool) {
        self.value == other.value
    }
}

impl vstd::std_specs::cmp::PartialEqSpecImpl for Cm {
    open spec fn obeys_eq_spec() -> bool {
        true
    }

    open spec fn eq_spec(&self, other: &Self) -> bool {
        self@ == other@
    }
}

impl PartialOrd for Cm {
    /// Lengths are totally ordered by underlying value.
    fn partial_cmp(&self, other: &Self) -> (r: Option<Ordering>) {
        if self.value < other.value {
            Some(Ordering::Less)
        } else if self.value == other.value {
            Some(Ordering::Equal)
        } else {
            Some(Ordering::Greater)
        }
    }
}

impl vstd::std_specs::cmp::PartialOrdSpecImpl for Cm {
    open spec fn obeys_partial_cmp_spec() -> bool {
        true
    }

    open spec fn partial_cmp_spec(&self, other: &Self) -> Option<Ordering> {
        if self@ < other@ {
            Some(Ordering::Less)
        } else if self@ == other@ {
            Some(Ordering::Equal)
        } else {
            Some(Ordering::Greater)
        }
    }
}

} // verus!
