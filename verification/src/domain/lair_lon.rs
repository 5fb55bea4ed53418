//! The longitude of a listing.

use crate::domain::lair_lat::{is_nan, nan};
use vstd::prelude::*;
use vstd::string::StringExecFns;

verus! {

/// A longitude that passed validation, kept as the bits of a double.
#[derive(Debug, Clone, Copy, PartialEq, Eq, Structural)]
pub struct LairLon(u64);

impl LairLon {
    /// The message that rejects a longitude. Only a NaN is rejected, and
    /// every NaN is written `NaN`.
    pub open spec fn rejection() -> Seq<char> {
        "NaN is not a valid lon value."@
    }

    /// The bits of the longitude.
    pub closed spec fn view(&self) -> u64 {
        self.0
    }

    /// Accepts the double with the bits `s` as a longitude, unless it is a
    /// NaN.
    pub fn parse(s: u64) -> (r: Result<LairLon, String>)
        ensures
            match r {
                Ok(lon) => !is_nan(s) && lon@ == s,
                Err(message) => is_nan(s) && message@ == Self::rejection(),
            },
    {
        if nan(s) {
            Err(String::from_str("NaN is not a valid lon value."))
        } else {
            Ok(LairLon(s))
        }
    }

    /// The bits of the longitude.
    pub fn as_ref(&self) -> (bits: u64)
        ensures
            bits == self@,
    {
        self.0
    }
}

} // verus!
