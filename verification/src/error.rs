//! The error surface of the library.

use vstd::prelude::*;

use crate::halo2_api::SynthError;

verus! {

/// Everything a synthesis entry point can fail with.
pub enum AesError {
    /// An error of the underlying proof system, surfaced unchanged.
    Synthesis(SynthError),
    /// `encrypt` was called before any key was scheduled.
    KeysNotScheduled,
    /// `encrypt` was called more often than the configured row budget admits.
    CapacityExceeded,
    /// A MixColumns coefficient outside {1, 2, 3} was requested.
    InvalidCoefficient,
}

} // verus!
