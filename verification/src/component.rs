//! The reward component: an escrow the owner fills, and a distribution
//! engine the airdropper drives. An escrow-funded distribution validates
//! the batch, withdraws the rounded total, and hands the withdrawn funds
//! with the allocation map to the external claim-based facility; the
//! facility's leftover is reconciled back into escrow. The external call
//! itself is the unverified shell's concern: this component prepares it
//! and absorbs its outcome.

use vstd::prelude::*;

verus! {

use crate::asset::{AssetType, Funds, spec_round_up};
use crate::errors::DistributionError;
use crate::escrow::EscrowBalance;
use crate::request::{
    Allocation, DistributionRequest, lemma_total_prefix_le, lemma_total_prefix_step,
    spec_all_fungible, spec_total,
};

/// What a successful distribution hands to the external claim-based
/// facility: the funds to park there, the per-recipient allocations in
/// request order, and the instruction to create a claim even for a
/// recipient without a pre-existing receiving account.
pub struct PendingDistribution {
    pub funds: Funds,
    pub allocations: Vec<(u64, Allocation)>,
    pub claim_even_if_account_missing: bool,
}

/// The component state: the badge that proves ownership, the badge that
/// proves the airdropper capability, and the escrow of future rewards.
pub struct RadicalDogeRewards {
    pub owner_badge: u64,
    pub airdropper_badge: u64,
    pub future_rewards: EscrowBalance,
}

impl RadicalDogeRewards {
    pub open spec fn wf(self) -> bool {
        self.future_rewards.wf()
    }

    /// What an escrow-funded distribution of the batch `s` withdraws: the
    /// sum of the fungible allocations, rounded away from zero to the
    /// escrowed asset's precision.
    pub open spec fn spec_withdrawal_total(self, s: Seq<(u64, Allocation)>) -> int {
        spec_round_up(spec_total(s), self.future_rewards.asset.spec_unit())
    }

    /// Instantiates the component with a fixed owner badge, an initial
    /// airdropper badge, and an empty escrow of the given asset.
    pub fn new(owner_badge_address: u64, airdropper_badge_address: u64, rewards_address: AssetType) -> (component:
        RadicalDogeRewards)
        requires
            rewards_address.wf(),
        ensures
            component.owner_badge == owner_badge_address,
            component.airdropper_badge == airdropper_badge_address,
            component.future_rewards.asset == rewards_address,
            component.future_rewards.amount == 0,
            component.wf(),
    {
        RadicalDogeRewards {
            owner_badge: owner_badge_address,
            airdropper_badge: airdropper_badge_address,
            future_rewards: EscrowBalance::new(rewards_address),
        }
    }

    /// Owner-only: locks future rewards into the escrow. A caller without
    /// the owner badge, or funds of another asset type, are rejected
    /// without mutating the escrow, and the funds travel back with the
    /// error.
    pub fn deposit_future_rewards(&mut self, caller_badge: u64, future_rewards: Funds) -> (result:
        Result<(), (DistributionError, Funds)>)
        requires
            (caller_badge == old(self).owner_badge && future_rewards.asset == old(
                self,
            ).future_rewards.asset) ==> old(self).future_rewards.amount + future_rewards.amount
                <= u128::MAX,
        ensures
            final(self).owner_badge == old(self).owner_badge,
            final(self).airdropper_badge == old(self).airdropper_badge,
            final(self).future_rewards.asset == old(self).future_rewards.asset,
            result is Ok <==> (caller_badge == old(self).owner_badge
                && future_rewards.asset == old(self).future_rewards.asset),
            (match result {
                Ok(r) => final(self).future_rewards.amount == old(self).future_rewards.amount
                    + future_rewards.amount,
                Err((e, returned)) => final(self).future_rewards.amount == old(
                    self,
                ).future_rewards.amount && returned == future_rewards && (if caller_badge != old(
                    self,
                ).owner_badge {
                    e == DistributionError::NotAuthorized
                } else {
                    e == DistributionError::MismatchedAssetType
                }),
            }),
    {
        if caller_badge != self.owner_badge {
            return Err((DistributionError::NotAuthorized, future_rewards));
        }
        if future_rewards.asset != self.future_rewards.asset {
            return Err((DistributionError::MismatchedAssetType, future_rewards));
        }
        self.future_rewards.deposit(future_rewards);
        Ok(())
    }

    /// Airdropper-only: distributes previously deposited rewards. The
    /// whole batch is validated to be fungible, its exact total is summed,
    /// and that total — rounded away from zero to the asset's precision —
    /// is withdrawn from escrow. On success the withdrawn funds and the
    /// allocation map come back as a pending distribution for the external
    /// facility; its leftover is then reported to `reconcile_remainder`.
    /// Any failure leaves the escrow exactly as it was.
    pub fn distribute_deposited_rewards(&mut self, caller_badge: u64, rewards: DistributionRequest) -> (result:
        Result<PendingDistribution, DistributionError>)
        requires
            old(self).wf(),
            rewards.wf(),
            caller_badge == old(self).airdropper_badge ==> spec_total(rewards@) + old(
                self,
            ).future_rewards.asset.spec_unit() <= u128::MAX,
        ensures
            final(self).wf(),
            final(self).owner_badge == old(self).owner_badge,
            final(self).airdropper_badge == old(self).airdropper_badge,
            final(self).future_rewards.asset == old(self).future_rewards.asset,
            result is Ok <==> (caller_badge == old(self).airdropper_badge && spec_all_fungible(
                rewards@,
            ) && old(self).spec_withdrawal_total(rewards@) <= old(self).future_rewards.amount),
            (match result {
                Ok(pending) => pending.funds.asset == old(self).future_rewards.asset
                    && pending.funds.amount == old(self).spec_withdrawal_total(rewards@) && old(
                    self,
                ).future_rewards.amount - final(self).future_rewards.amount
                    == pending.funds.amount && pending.allocations@ == rewards@
                    && pending.claim_even_if_account_missing,
                Err(e) => final(self).future_rewards.amount == old(self).future_rewards.amount && (
                if caller_badge != old(self).airdropper_badge {
                    e == DistributionError::NotAuthorized
                } else if !spec_all_fungible(rewards@) {
                    e == DistributionError::UnsupportedAllocationKind
                } else {
                    e == DistributionError::InsufficientBalance && old(self).spec_withdrawal_total(
                        rewards@,
                    ) > old(self).future_rewards.amount
                }),
            }),
    {
        if caller_badge != self.airdropper_badge {
            return Err(DistributionError::NotAuthorized);
        }
        // Validate the batch and sum the exact total in one pass.
        let ghost s = rewards@;
        let n = rewards.len();
        let mut total: u128 = 0;
        let mut i: usize = 0;
        while i < n
            invariant
                i <= n == s.len(),
                s == rewards@,
                *self == *old(self),
                self.wf(),
                caller_badge == old(self).airdropper_badge,
                spec_all_fungible(s.subrange(0, i as int)),
                total == spec_total(s.subrange(0, i as int)),
                spec_total(s) + old(self).future_rewards.asset.spec_unit() <= u128::MAX,
            decreases n - i,
        {
            let entry = rewards.entry_at(i);
            match &entry.1 {
                Allocation::Fungible(amount) => {
                    proof {
                        lemma_total_prefix_step(s, i as int);
                        lemma_total_prefix_le(s, i as int + 1);
                        assert(s.subrange(0, i as int + 1)[i as int] == s[i as int]);
                    }
                    total = total + *amount;
                },
                Allocation::NonFungible(_) => {
                    proof {
                        assert(s[i as int].1 is NonFungible);
                        assert(!spec_all_fungible(s));
                    }
                    return Err(DistributionError::UnsupportedAllocationKind);
                },
            }
            i = i + 1;
        }
        proof {
            assert(s.subrange(0, n as int) =~= s);
        }
        // Withdraw the rounded total; on insufficiency nothing has changed.
        let funds = match self.future_rewards.withdraw_exact_or_rounded(total) {
            Ok(funds) => funds,
            Err(e) => {
                return Err(e);
            },
        };
        Ok(
            PendingDistribution {
                funds,
                allocations: rewards.into_entries(),
                claim_even_if_account_missing: true,
            },
        )
    }

    /// Deposits back into escrow the leftover the external facility
    /// returned after an escrow-funded distribution — or the whole
    /// withdrawn funds, when the facility failed and the operation must
    /// roll back with no observable effect.
    pub fn reconcile_remainder(&mut self, remainder: Option<Funds>)
        requires
            (match remainder {
                Some(funds) => funds.asset == old(self).future_rewards.asset && old(
                    self,
                ).future_rewards.amount + funds.amount <= u128::MAX,
                None => true,
            }),
        ensures
            final(self).owner_badge == old(self).owner_badge,
            final(self).airdropper_badge == old(self).airdropper_badge,
            final(self).future_rewards.asset == old(self).future_rewards.asset,
            (match remainder {
                Some(funds) => final(self).future_rewards.amount == old(self).future_rewards.amount
                    + funds.amount,
                None => final(self).future_rewards.amount == old(self).future_rewards.amount,
            }),
    {
        match remainder {
            Some(funds) => self.future_rewards.deposit(funds),
            None => {},
        }
    }

    /// Airdropper-only: distributes funds the caller supplies directly,
    /// leaving the escrow untouched — the component only takes a shared
    /// borrow of itself. The batch is forwarded unvalidated, non-fungible
    /// entries included, and any leftover from the facility belongs to the
    /// caller. On rejection the funds travel back with the error.
    pub fn distribute_supplied_rewards(&self, caller_badge: u64, rewards: DistributionRequest, funds: Funds) -> (result:
        Result<PendingDistribution, (DistributionError, Funds)>)
        ensures
            result is Ok <==> caller_badge == self.airdropper_badge,
            (match result {
                Ok(pending) => pending.funds == funds && pending.allocations@ == rewards@
                    && pending.claim_even_if_account_missing,
                Err((e, returned)) => e == DistributionError::NotAuthorized && returned == funds,
            }),
    {
        if caller_badge != self.airdropper_badge {
            return Err((DistributionError::NotAuthorized, funds));
        }
        Ok(
            PendingDistribution {
                funds,
                allocations: rewards.into_entries(),
                claim_even_if_account_missing: true,
            },
        )
    }

    /// Owner-only: reassigns the airdropper capability to a new badge.
    pub fn update_airdropper_badge(&mut self, caller_badge: u64, new_airdropper_badge: u64) -> (result:
        Result<(), DistributionError>)
        ensures
            final(self).owner_badge == old(self).owner_badge,
            final(self).future_rewards == old(self).future_rewards,
            result is Ok <==> caller_badge == old(self).owner_badge,
            (match result {
                Ok(r) => final(self).airdropper_badge == new_airdropper_badge,
                Err(e) => e == DistributionError::NotAuthorized && final(self).airdropper_badge
                    == old(self).airdropper_badge,
            }),
    {
        if caller_badge != self.owner_badge {
            return Err(DistributionError::NotAuthorized);
        }
        self.airdropper_badge = new_airdropper_badge;
        Ok(())
    }
}

} // verus!
