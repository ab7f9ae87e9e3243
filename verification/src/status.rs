//! Status codes returned by every fallible boundary operation.

use vstd::prelude::*;

verus! {

/// Outcome of a boundary call. A nonzero code means the call had no effect
/// on counter state: validation happens before any mutation.
#[derive(Copy, Clone, Debug, PartialEq, Eq, Structural)]
pub enum RustFfiDemoStatus {
    /// The operation succeeded.
    RustffiOk,
    /// A required pointer or slot argument was the null sentinel.
    RustffiNullArg,
    /// An argument was addressable but semantically bad: invalid text
    /// encoding, an undersized buffer, or a handle that is not live.
    RustffiInvalidArg,
    /// Reserved for unexpected failures not otherwise classified.
    RustffiInternalError,
}

impl RustFfiDemoStatus {
    /// The numeric code a foreign caller sees: zero for success.
    pub open spec fn spec_code(self) -> u32 {
        match self {
            RustFfiDemoStatus::RustffiOk => 0,
            RustFfiDemoStatus::RustffiNullArg => 1,
            RustFfiDemoStatus::RustffiInvalidArg => 2,
            RustFfiDemoStatus::RustffiInternalError => 3,
        }
    }

    /// True exactly of the success code.
    pub open spec fn spec_is_ok(self) -> bool {
        self is RustffiOk
    }

    /// Numeric code for the transport: zero means success.
    pub fn code(self) -> (r: u32)
        ensures
            r == self.spec_code(),
    {
        match self {
            RustFfiDemoStatus::RustffiOk => 0,
            RustFfiDemoStatus::RustffiNullArg => 1,
            RustFfiDemoStatus::RustffiInvalidArg => 2,
            RustFfiDemoStatus::RustffiInternalError => 3,
        }
    }

    /// True exactly when the call succeeded.
    pub fn is_ok(self) -> (r: bool)
        ensures
            r == self.spec_is_ok(),
    {
        match self {
            RustFfiDemoStatus::RustffiOk => true,
            _ => false,
        }
    }
}

} // verus!
