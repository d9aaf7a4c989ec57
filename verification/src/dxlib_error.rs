//! Failure tags produced by emitted wrappers.

use vstd::prelude::*;

verus! {

/// The outcome tag of a wrapped foreign call whose error condition held.
///
/// The two lifecycle entry points (library initialization and finalization)
/// carry distinguished tags; every other wrapped signature reports a generic
/// failure that names the wrapper it came from.
#[derive(Debug, PartialEq, Eq)]
pub enum DxLibError {
    InitializeError,
    FinalizeError,
    Other(String),
}

impl DxLibError {
    /// A human-readable description of the failure.
    pub fn describe(&self) -> (r: String)
        ensures
            self is InitializeError ==> r@ == "Failed to DxLib_Init()"@,
            self is FinalizeError ==> r@ == "Failed to DxLib_End()"@,
            self matches DxLibError::Other(n) ==> r@ == "Error in "@ + n@,
    {
        match self {
            DxLibError::InitializeError => String::from_str("Failed to DxLib_Init()"),
            DxLibError::FinalizeError => String::from_str("Failed to DxLib_End()"),
            DxLibError::Other(name) => String::from_str("Error in ").concat(name.as_str()),
        }
    }
}

} // verus!
