//! The ways in which building or registering probes fails.
use vstd::prelude::*;

verus! {

/// Why a step of building or registering probes failed.
#[derive(Debug, Clone, Copy, PartialEq, Eq, Structural)]
pub enum Error {
    /// The provider compiler could not be run, or its header could not be
    /// read.
    BuildFailure,
    /// The provider's source or the header is malformed: the header lacks a
    /// provider or a probe that the definition names.
    ParseFailure,
    /// The helper device could not be opened, or the control call failed. The
    /// number is the operating system's error.
    RegistrationFailure(i32),
}

} // verus!
