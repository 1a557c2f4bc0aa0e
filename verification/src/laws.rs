//! Properties of the distribution engine that relate several operations,
//! stated and proved once over the specification functions the operation
//! contracts use.

use vstd::prelude::*;

verus! {

use crate::asset::{lemma_round_up_properties, spec_round_up};
use crate::request::{Allocation, spec_total};

/// Remainder reconciliation. An escrow-funded distribution withdraws the
/// requested total rounded away from zero, `spec_round_up(total, unit)`,
/// and then redeposits the facility's leftover `r`, so the escrow ends at
/// `before - spec_round_up(total, unit) + r`. The withdrawal overshoots
/// the requested total by less than one minimal unit of the asset's
/// precision; when the total is representable, the escrow ends at exactly
/// `before - total + r`; and redepositing the whole withdrawal — the
/// rollback taken when the facility itself fails — restores the escrow to
/// `before`.
pub proof fn lemma_remainder_reconciliation(before: int, total: int, unit: int, r: int)
    requires
        0 <= total,
        0 < unit,
    ensures
        0 <= spec_round_up(total, unit) - total < unit,
        total % unit == 0 ==> before - spec_round_up(total, unit) + r == before - total + r,
        r == spec_round_up(total, unit) ==> before - spec_round_up(total, unit) + r == before,
{
    lemma_round_up_properties(total, unit);
}

/// Idempotent empty distribution: an empty batch requests nothing — its
/// total is zero, and zero rounds to zero — so an escrow-funded
/// distribution of it withdraws nothing and leaves the escrow unchanged.
pub proof fn lemma_empty_distribution(s: Seq<(u64, Allocation)>, unit: int)
    requires
        s.len() == 0,
        0 < unit,
    ensures
        spec_total(s) == 0,
        spec_round_up(0, unit) == 0,
{
}

} // verus!
