//! The error states that can occur when sorting a package. All of them are
//! input-validation errors, one per input field, each carrying the original
//! offending raw value for diagnostics.

use crate::measurements::kg::KgError;
use vstd::prelude::*;
use vstd::string::StringExecFns;

verus! {

/// The decimal digit character for a value below ten.
pub open spec fn spec_digit(d: nat) -> char {
    if d == 0 {
        '0'
    } else if d == 1 {
        '1'
    } else if d == 2 {
        '2'
    } else if d == 3 {
        '3'
    } else if d == 4 {
        '4'
    } else if d == 5 {
        '5'
    } else if d == 6 {
        '6'
    } else if d == 7 {
        '7'
    } else if d == 8 {
        '8'
    } else {
        '9'
    }
}

/// The usual decimal rendering of a number: most significant digit first,
/// no leading zeros (except for zero itself).
pub open spec fn spec_decimal(n: nat) -> Seq<char>
    decreases n,
{
    if n < 10 {
        seq![spec_digit(n)]
    } else {
        spec_decimal(n / 10).push(spec_digit(n % 10))
    }
}

fn digit_str(d: usize) -> (r: &'static str)
    requires
        d < 10,
    ensures
        r@ == seq![spec_digit(d as nat)],
{
    proof {
        reveal_strlit("0");
        reveal_strlit("1");
        reveal_strlit("2");
        reveal_strlit("3");
        reveal_strlit("4");
        reveal_strlit("5");
        reveal_strlit("6");
        reveal_strlit("7");
        reveal_strlit("8");
        reveal_strlit("9");
        assert("0"@ =~= seq!['0']);
        assert("1"@ =~= seq!['1']);
        assert("2"@ =~= seq!['2']);
        assert("3"@ =~= seq!['3']);
        assert("4"@ =~= seq!['4']);
        assert("5"@ =~= seq!['5']);
        assert("6"@ =~= seq!['6']);
        assert("7"@ =~= seq!['7']);
        assert("8"@ =~= seq!['8']);
        assert("9"@ =~= seq!['9']);
    }
    if d == 0 {
        "0"
    } else if d == 1 {
        "1"
    } else if d == 2 {
        "2"
    } else if d == 3 {
        "3"
    } else if d == 4 {
        "4"
    } else if d == 5 {
        "5"
    } else if d == 6 {
        "6"
    } else if d == 7 {
        "7"
    } else if d == 8 {
        "8"
    } else {
        "9"
    }
}

/// Renders a number in decimal, digit by digit, proved against
/// [`spec_decimal`].
fn decimal_string(n: usize) -> (r: String)
    ensures
        r@ == spec_decimal(n as nat),
    decreases n,
{
    if n < 10 {
        String::from_str(digit_str(n))
    } else {
        let mut s = decimal_string(n / 10);
        s.append(digit_str(n % 10));
        s
    }
}

/// A validation error, tagged by the input field that failed and carrying
/// the original offending value.
#[derive(Clone, Debug, PartialEq)]
pub enum SortError {
    InvalidHeight(usize),
    InvalidWidth(usize),
    InvalidLength(usize),
    InvalidMass(usize),
}

impl SortError {
    /// The rendering of each error: a sentence naming the field and the
    /// offending value.
    pub open spec fn spec_to_string(&self) -> Seq<char> {
        match *self {
            SortError::InvalidHeight(height) => "Invalid height: expecting a value of 1 or more, but got "@ + spec_decimal(
                height as nat,
            ),
            SortError::InvalidWidth(width) => "Invalid width: expecting a value of 1 or more, but got "@ + spec_decimal(
                width as nat,
            ),
            SortError::InvalidLength(length) => "Invalid length: expecting a value of 1 or more, but got "@ + spec_decimal(
                length as nat,
            ),
            SortError::InvalidMass(mass) => "Invalid mass: expecting a value of 1 or more, but got "@ + spec_decimal(
                mass as nat,
            ),
        }
    }

    /// Renders the error as a human-readable sentence.
    pub fn to_string(&self) -> (r: String)
        ensures
            r@ == self.spec_to_string(),
    {
        match self {
            SortError::InvalidHeight(height) => String::from_str(
                "Invalid height: expecting a value of 1 or more, but got ",
            ).concat(decimal_string(*height).as_str()),
            SortError::InvalidWidth(width) => String::from_str(
                "Invalid width: expecting a value of 1 or more, but got ",
            ).concat(decimal_string(*width).as_str()),
            SortError::InvalidLength(length) => String::from_str(
                "Invalid length: expecting a value of 1 or more, but got ",
            ).concat(decimal_string(*length).as_str()),
            SortError::InvalidMass(mass) => String::from_str(
                "Invalid mass: expecting a value of 1 or more, but got ",
            ).concat(decimal_string(*mass).as_str()),
        }
    }
}

impl From<KgError> for SortError {
    /// An invalid mass measurement surfaces as the mass field's error,
    /// keeping the offending value.
    fn from(error: KgError) -> (r: Self) {
        match error {
            KgError::InvalidKg(value) => SortError::InvalidMass(value),
        }
    }
}

impl vstd::std_specs::convert::FromSpecImpl<KgError> for SortError {
    open spec fn obeys_from_spec() -> bool {
        true
    }

    open spec fn from_spec(error: KgError) -> SortError {
        match error {
            KgError::InvalidKg(value) => SortError::InvalidMass(value),
        }
    }
}

} // verus!
