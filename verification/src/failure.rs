//! Why a bring-up attempt ended without a usable interface.

use vstd::prelude::*;

verus! {

/// The step at which bring-up failed. Every failure is final for the attempt:
/// nothing is retried and nothing is downgraded to a partial success.
#[derive(Clone, Copy, Debug, PartialEq, Eq, Structural)]
pub enum FailureReason {
    /// The radio could not enumerate access points.
    ScanError,
    /// Station or access-point parameters were invalid, or the radio rejected them.
    ConfigurationError,
    /// Association with the target network failed.
    ConnectionError,
    /// No address was assigned within the network stack's bound.
    LeaseTimeout,
    /// Probes to the gateway were lost, in part or in full.
    UnreachableGateway,
}

} // verus!
