//! The ways in which a request for a code or for a validation can be refused.

use vstd::prelude::*;

verus! {

/// Why no answer was given.
#[derive(Clone, Copy, Debug, PartialEq, Eq, Structural)]
pub enum OtpError {
    /// Ten to the power of the digit count does not fit in 32 bits.
    InvalidDigitCount,
    /// The time window holds no whole second, so no time can be divided by it.
    InvalidWindow,
}

} // verus!
