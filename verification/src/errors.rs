//! Failure taxonomy of the core.
//!
//! Unrecognized status or task bytes are not errors: they are logged and
//! ignored so that the wire format stays forward compatible.

use vstd::prelude::*;

verus! {

/// A condition the core cannot recover from in its execution environment.
#[derive(Copy, Clone, Debug, PartialEq, Eq, Structural)]
pub enum TeeError {
    /// No free page-table slot was left, or a buffer allocation failed.
    /// Fatal: the system has no recovery path for memory exhaustion.
    ResourceExhausted,
    /// A physical-to-virtual or virtual-to-physical lookup found no mapping.
    /// Surfaced explicitly instead of the ambiguous zero-address sentinel.
    AddressTranslationMiss,
}

} // verus!
