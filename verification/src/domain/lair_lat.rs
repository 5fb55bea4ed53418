//! The latitude of a listing.

use vstd::prelude::*;
use vstd::string::StringExecFns;

verus! {

/// The bits of the exponent in an IEEE 754 double.
pub const EXPONENT_MASK: u64 = 0x7ff0_0000_0000_0000;

/// The bits of the fraction in an IEEE 754 double.
pub const FRACTION_MASK: u64 = 0x000f_ffff_ffff_ffff;

/// Whether the bits of an IEEE 754 double are those of a NaN: the exponent
/// is all ones and the fraction is not zero.
pub open spec fn is_nan(bits: u64) -> bool {
    bits & EXPONENT_MASK == EXPONENT_MASK && bits & FRACTION_MASK != 0
}

/// Whether the bits of an IEEE 754 double are those of a NaN.
pub fn nan(bits: u64) -> (b: bool)
    ensures
        b == is_nan(bits),
{
    bits & EXPONENT_MASK == EXPONENT_MASK && bits & FRACTION_MASK != 0
}

/// A latitude that passed validation, kept as the bits of a double.
#[derive(Debug, Clone, Copy, PartialEq, Eq, Structural)]
pub struct LairLat(u64);

impl LairLat {
    /// The message that rejects a latitude. Only a NaN is rejected, and every
    /// NaN is written `NaN`.
    pub open spec fn rejection() -> Seq<char> {
        "NaN is not a valid lat value."@
    }

    /// The bits of the latitude.
    pub closed spec fn view(&self) -> u64 {
        self.0
    }

    /// Accepts the double with the bits `s` as a latitude, unless it is a
    /// NaN.
    pub fn parse(s: u64) -> (r: Result<LairLat, String>)
        ensures
            match r {
                Ok(lat) => !is_nan(s) && lat@ == s,
                Err(message) => is_nan(s) && message@ == Self::rejection(),
            },
    {
        if nan(s) {
            Err(String::from_str("NaN is not a valid lat value."))
        } else {
            Ok(LairLat(s))
        }
    }

    /// The bits of the latitude.
    pub fn as_ref(&self) -> (bits: u64)
        ensures
            bits == self@,
    {
        self.0
    }
}

} // verus!
