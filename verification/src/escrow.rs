//! The escrow balance: holds the single fungible asset deposited by the
//! owner, and supports deposit and withdrawal of an exact or rounded
//! amount.

use vstd::prelude::*;

verus! {

use crate::asset::{AssetType, Funds, round_up_to_unit, spec_round_up};
use crate::errors::DistributionError;

/// The quantity of one fixed asset type currently held. The amount counts
/// subunits, so it is non-negative by construction and never drops below
/// zero: a withdrawal only succeeds when the balance covers it.
pub struct EscrowBalance {
    pub asset: AssetType,
    pub amount: u128,
}

impl EscrowBalance {
    pub open spec fn wf(self) -> bool {
        self.asset.wf()
    }

    /// What a withdrawal of `requested` actually removes: the requested
    /// amount rounded away from zero to this asset's precision.
    pub open spec fn spec_rounded(self, requested: u128) -> int {
        spec_round_up(requested as int, self.asset.spec_unit())
    }

    /// Created empty, with the asset type fixed for its lifetime.
    pub fn new(asset: AssetType) -> (escrow: EscrowBalance)
        requires
            asset.wf(),
        ensures
            escrow.asset == asset,
            escrow.amount == 0,
            escrow.wf(),
    {
        EscrowBalance { asset, amount: 0 }
    }

    /// Accepts funds of this escrow's asset type and unconditionally
    /// increases the balance; funds of another type are kept out by the
    /// caller's runtime type check, stated here as a precondition.
    pub fn deposit(&mut self, funds: Funds)
        requires
            funds.asset == old(self).asset,
            old(self).amount + funds.amount <= u128::MAX,
        ensures
            final(self).asset == old(self).asset,
            final(self).amount == old(self).amount + funds.amount,
    {
        self.amount = self.amount + funds.amount;
    }

    /// Removes `requested` from the balance if it is representable at the
    /// asset's native precision; if not, removes `requested` rounded away
    /// from zero, so the caller never receives less than requested. Fails,
    /// changing nothing, when the rounded amount exceeds the balance.
    pub fn withdraw_exact_or_rounded(&mut self, requested: u128) -> (result: Result<
        Funds,
        DistributionError,
    >)
        requires
            old(self).wf(),
            requested + old(self).asset.spec_unit() - 1 <= u128::MAX,
        ensures
            final(self).asset == old(self).asset,
            final(self).wf(),
            result is Ok <==> old(self).spec_rounded(requested) <= old(self).amount,
            (match result {
                Ok(funds) => funds.asset == old(self).asset && funds.amount == old(self).spec_rounded(requested)
                    && final(self).amount == old(self).amount - funds.amount,
                Err(e) => e == DistributionError::InsufficientBalance && final(self).amount == old(
                    self,
                ).amount,
            }),
    {
        let unit = self.asset.unit();
        let rounded = round_up_to_unit(requested, unit);
        if rounded <= self.amount {
            self.amount = self.amount - rounded;
            Ok(Funds { asset: self.asset, amount: rounded })
        } else {
            Err(DistributionError::InsufficientBalance)
        }
    }
}

} // verus!
