//! Failure conditions of the escrow and distribution operations.

use vstd::prelude::*;

verus! {

/// Why an operation was refused. Every failure is all-or-nothing: a call
/// that returns an error leaves the escrow exactly as it was and invokes
/// no external facility.
#[derive(Clone, Copy, Debug, PartialEq, Eq, Structural)]
pub enum DistributionError {
    /// The caller's badge does not grant the capability the operation
    /// demands.
    NotAuthorized,
    /// A non-fungible entry appeared where only fungible allocations are
    /// accepted.
    UnsupportedAllocationKind,
    /// The escrow cannot cover the (rounded) total to withdraw.
    InsufficientBalance,
    /// The supplied funds are not of the asset type this escrow accepts.
    MismatchedAssetType,
}

} // verus!
