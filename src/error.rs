//! The one way a call can fail.

use vstd::prelude::*;

verus! {

/// Why a call failed.
#[derive(Clone, Copy, Debug, PartialEq, Eq, Structural)]
pub enum AlkaneError {
    /// The call named no operation that this alkane implements.
    Unimplemented,
}

impl AlkaneError {
    /// The text by which the error is reported to the caller.
    pub fn message(&self) -> (r: &'static str)
        ensures
            r@ == "unimplemented"@,
    {
        match self {
            AlkaneError::Unimplemented => "unimplemented",
        }
    }
}

} // verus!
