//! Validated scalar measurement types: lengths in centimetres and masses in
//! kilograms. Each wraps a positive machine integer and can only be obtained
//! through a validating constructor.

pub mod cm;
pub mod kg;
