//! The fungible asset model: fixed-point amounts, precision, and the
//! round-away-from-zero policy used when an amount is not representable at
//! the asset's native precision.

use vstd::prelude::*;
use vstd::arithmetic::div_mod::{
    lemma_div_pos_is_pos, lemma_fundamental_div_mod, lemma_mod_multiples_basic,
};

verus! {

/// Number of decimal places of the fixed-point representation: every amount
/// in this crate is a count of subunits, each worth `10^-18` of one whole
/// asset unit.
pub const AMOUNT_DECIMALS: u32 = 18;

/// `10^e`, for subunit computations.
pub open spec fn spec_pow10(e: nat) -> nat
    decreases e,
{
    if e == 0 {
        1
    } else {
        10 * spec_pow10((e - 1) as nat)
    }
}

proof fn lemma_pow10_18()
    ensures
        spec_pow10(18) == 1_000_000_000_000_000_000,
{
    reveal_with_fuel(spec_pow10, 19);
}

proof fn lemma_pow10_monotonic(e1: nat, e2: nat)
    requires
        e1 <= e2,
    ensures
        0 < spec_pow10(e1) <= spec_pow10(e2),
    decreases e2,
{
    if e2 > 0 {
        if e1 == e2 {
            lemma_pow10_monotonic((e2 - 1) as nat, (e2 - 1) as nat);
        } else {
            lemma_pow10_monotonic(e1, (e2 - 1) as nat);
        }
    }
}

/// The identity and precision of one fungible asset type.
///
/// `id` is an opaque identifier (a resource address, in a ledger setting);
/// `divisibility` is the number of decimal places the asset can represent,
/// at most `AMOUNT_DECIMALS`.
#[derive(Clone, Copy, PartialEq, Eq, Structural, Debug)]
pub struct AssetType {
    pub id: u64,
    pub divisibility: u32,
}

impl AssetType {
    pub open spec fn wf(self) -> bool {
        self.divisibility <= AMOUNT_DECIMALS
    }

    /// The number of subunits in one minimal representable step at this
    /// asset's precision.
    pub open spec fn spec_unit(self) -> int {
        spec_pow10((AMOUNT_DECIMALS - self.divisibility) as nat) as int
    }

    pub fn new(id: u64, divisibility: u32) -> (asset: AssetType)
        requires
            divisibility <= AMOUNT_DECIMALS,
        ensures
            asset.id == id,
            asset.divisibility == divisibility,
            asset.wf(),
    {
        AssetType { id, divisibility }
    }

    /// Computes the minimal representable step, in subunits.
    pub fn unit(&self) -> (u: u128)
        requires
            self.wf(),
        ensures
            u == self.spec_unit(),
            1 <= u <= 1_000_000_000_000_000_000u128,
    {
        let e: u32 = AMOUNT_DECIMALS - self.divisibility;
        let mut u: u128 = 1;
        let mut i: u32 = 0;
        proof {
            lemma_pow10_18();
        }
        while i < e
            invariant
                i <= e <= 18,
                u == spec_pow10(i as nat),
                spec_pow10(18) == 1_000_000_000_000_000_000,
            decreases e - i,
        {
            proof {
                lemma_pow10_monotonic((i + 1) as nat, 18);
            }
            u = u * 10;
            i = i + 1;
        }
        proof {
            lemma_pow10_monotonic(e as nat, 18);
        }
        u
    }
}

/// The smallest multiple of `unit` that is at least `amount`: for
/// non-negative quantities this is rounding away from zero to the asset's
/// precision, so a withdrawal never falls short of what was requested.
pub open spec fn spec_round_up(amount: int, unit: int) -> int {
    if amount % unit == 0 {
        amount
    } else {
        amount + unit - amount % unit
    }
}

/// Rounds `amount` up to a multiple of `unit`.
pub fn round_up_to_unit(amount: u128, unit: u128) -> (r: u128)
    requires
        1 <= unit,
        amount + unit - 1 <= u128::MAX,
    ensures
        r == spec_round_up(amount as int, unit as int),
{
    let rem: u128 = amount % unit;
    if rem == 0 {
        amount
    } else {
        proof {
            let a = amount as int;
            let u = unit as int;
            let q = a / u;
            lemma_fundamental_div_mod(a, u);
            lemma_div_pos_is_pos(a, u);
            assert(u * q >= 0) by (nonlinear_arith)
                requires
                    u > 0,
                    q >= 0,
            ;
        }
        amount - rem + unit
    }
}

/// The rounded amount is representable at the asset's precision, never less
/// than what was requested, and exceeds it by less than one minimal unit:
/// the whole surplus a withdrawal can introduce is below one representable
/// step.
pub proof fn lemma_round_up_properties(amount: int, unit: int)
    requires
        0 <= amount,
        0 < unit,
    ensures
        amount <= spec_round_up(amount, unit) < amount + unit,
        spec_round_up(amount, unit) % unit == 0,
{
    if amount % unit != 0 {
        let q = amount / unit;
        lemma_fundamental_div_mod(amount, unit);
        assert(spec_round_up(amount, unit) == (q + 1) * unit) by (nonlinear_arith)
            requires
                amount == unit * q + amount % unit,
                spec_round_up(amount, unit) == amount + unit - amount % unit,
        ;
        lemma_mod_multiples_basic(q + 1, unit);
    }
}

/// A quantity of one asset, modeled as a transferable value: funds move
/// between the escrow and an operation's scope, and are deliberately
/// neither `Clone` nor `Copy`.
pub struct Funds {
    pub asset: AssetType,
    pub amount: u128,
}

impl Funds {
    pub fn new(asset: AssetType, amount: u128) -> (funds: Funds)
        ensures
            funds.asset == asset,
            funds.amount == amount,
    {
        Funds { asset, amount }
    }
}

} // verus!
