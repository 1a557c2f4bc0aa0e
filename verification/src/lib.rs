//! A reward escrow with batch distribution.
//!
//! An owner locks a quantity of a single fungible asset into an escrow
//! balance; a separately authorized airdropper later allocates portions of
//! that balance to a set of named recipients in one batch operation. The
//! core computes an exact total to withdraw for a batch, rounds it away
//! from zero when the asset's precision cannot represent it exactly,
//! hands the withdrawn funds to an external claim-based distribution
//! facility, and reconciles any leftover amount back into escrow.

pub mod asset;
pub mod component;
pub mod errors;
pub mod escrow;
pub mod laws;
pub mod request;
