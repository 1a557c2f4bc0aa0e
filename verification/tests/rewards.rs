use radical_doge_rewards::asset::{AssetType, Funds};
use radical_doge_rewards::component::RadicalDogeRewards;
use radical_doge_rewards::errors::DistributionError;
use radical_doge_rewards::escrow::EscrowBalance;
use radical_doge_rewards::request::{Allocation, DistributionRequest};

// One whole unit of an asset with 18 decimal places, in subunits.
const ATTO: u128 = 1_000_000_000_000_000_000;

const OWNER_BADGE: u64 = 1;
const AIRDROPPER_BADGE: u64 = 2;

fn doge() -> AssetType {
    AssetType::new(42, 18)
}

fn component_with_escrow(amount: u128) -> RadicalDogeRewards {
    let mut component = RadicalDogeRewards::new(OWNER_BADGE, AIRDROPPER_BADGE, doge());
    if amount > 0 {
        let deposited =
            component.deposit_future_rewards(OWNER_BADGE, Funds::new(doge(), amount));
        assert!(deposited.is_ok());
    }
    component
}

#[test]
fn test_radical_doge_rewards_with_test_environment() {
    // The owner and airdropper badges, and the asset: 18 decimal places,
    // 143000000000 whole coins minted.
    let doge_supply: u128 = 143000000000 * ATTO;
    let mut doge_bucket = Funds::new(doge(), doge_supply);
    let mut radical_doge_rewards =
        RadicalDogeRewards::new(OWNER_BADGE, AIRDROPPER_BADGE, doge());

    // Deposit 10000 DOGE in the component.
    let deposit_amount: u128 = 10000 * ATTO;
    doge_bucket = Funds::new(doge(), doge_bucket.amount - deposit_amount);
    let deposited = radical_doge_rewards
        .deposit_future_rewards(OWNER_BADGE, Funds::new(doge(), deposit_amount));
    assert!(deposited.is_ok());
    assert_eq!(doge_bucket.amount, doge_supply - deposit_amount);

    // Assign rewards to two accounts.
    let account: u64 = 100001;
    let another_account: u64 = 100002;
    let mut recipients = DistributionRequest::new();
    recipients.insert(account, Allocation::Fungible(100 * ATTO));
    recipients.insert(another_account, Allocation::Fungible(200 * ATTO));

    // Distribute the rewards to the accounts.
    let pending = radical_doge_rewards
        .distribute_deposited_rewards(AIRDROPPER_BADGE, recipients)
        .unwrap_or_else(|_| panic!("distribution failed"));
    assert_eq!(pending.funds.amount, 300 * ATTO);
    assert_eq!(
        radical_doge_rewards.future_rewards.amount,
        deposit_amount - 300 * ATTO
    );
}

#[test]
fn test_conservation_on_success() {
    let mut component = component_with_escrow(10000 * ATTO);
    let escrow_before = component.future_rewards.amount;

    let mut request = DistributionRequest::new();
    request.insert(11, Allocation::Fungible(100 * ATTO));
    request.insert(12, Allocation::Fungible(200 * ATTO));

    let pending = component
        .distribute_deposited_rewards(AIRDROPPER_BADGE, request)
        .unwrap_or_else(|_| panic!("distribution failed"));

    // Withdrawn exactly what left escrow, and exactly the requested total:
    // 300 is representable at 18 decimals, so no rounding happened.
    assert_eq!(pending.funds.amount, 300 * ATTO);
    assert_eq!(
        escrow_before - component.future_rewards.amount,
        pending.funds.amount
    );
    assert!(pending.claim_even_if_account_missing);
    assert_eq!(pending.allocations.len(), 2);
    assert_eq!(pending.allocations[0].0, 11);
    assert_eq!(pending.allocations[1].0, 12);

    // The ideal case: the facility consumes everything and returns nothing.
    component.reconcile_remainder(None);
    assert_eq!(component.future_rewards.amount, 9700 * ATTO);
}

#[test]
fn test_rounding_scenario() {
    // Asset precision truncates to 2 decimals: one representable step is
    // 10^16 subunits.
    let cents_asset = AssetType::new(7, 2);
    let step: u128 = 10_000_000_000_000_000;
    let mut component = RadicalDogeRewards::new(OWNER_BADGE, AIRDROPPER_BADGE, cents_asset);
    let starting: u128 = 10 * ATTO;
    component
        .deposit_future_rewards(OWNER_BADGE, Funds::new(cents_asset, starting))
        .unwrap_or_else(|_| panic!("deposit failed"));

    // The requested total sums to 3.005, which is not representable.
    let mut request = DistributionRequest::new();
    request.insert(1, Allocation::Fungible(ATTO)); // 1.000
    request.insert(2, Allocation::Fungible(2 * ATTO + step / 2)); // 2.005

    let pending = component
        .distribute_deposited_rewards(AIRDROPPER_BADGE, request)
        .unwrap_or_else(|_| panic!("distribution failed"));

    // Rounding away from zero withdraws 3.01.
    assert_eq!(pending.funds.amount, 3 * ATTO + step);
    assert_eq!(component.future_rewards.amount, starting - (3 * ATTO + step));

    // The facility consumes only 3.00 worth of claims and returns 0.01:
    // escrow afterward reflects exactly starting - 3.01 + 0.01.
    component.reconcile_remainder(Some(Funds::new(cents_asset, step)));
    assert_eq!(component.future_rewards.amount, starting - 3 * ATTO);
}

#[test]
fn test_empty_request_withdraws_nothing() {
    let mut component = component_with_escrow(5000);
    let pending = component
        .distribute_deposited_rewards(AIRDROPPER_BADGE, DistributionRequest::new())
        .unwrap_or_else(|_| panic!("distribution failed"));
    assert_eq!(pending.funds.amount, 0);
    assert!(pending.allocations.is_empty());
    assert_eq!(component.future_rewards.amount, 5000);
}

#[test]
fn test_non_fungible_entry_rejected_atomically() {
    let mut component = component_with_escrow(5000);
    let mut request = DistributionRequest::new();
    request.insert(1, Allocation::Fungible(100));
    request.insert(2, Allocation::NonFungible(vec![7, 8]));
    request.insert(3, Allocation::Fungible(200));

    let result = component.distribute_deposited_rewards(AIRDROPPER_BADGE, request);
    assert!(matches!(
        result,
        Err(DistributionError::UnsupportedAllocationKind)
    ));
    assert_eq!(component.future_rewards.amount, 5000);
}

#[test]
fn test_insufficient_balance_rejected_atomically() {
    let mut component = component_with_escrow(100);
    let mut request = DistributionRequest::new();
    request.insert(1, Allocation::Fungible(101));

    let result = component.distribute_deposited_rewards(AIRDROPPER_BADGE, request);
    assert!(matches!(result, Err(DistributionError::InsufficientBalance)));
    assert_eq!(component.future_rewards.amount, 100);
}

#[test]
fn test_rounded_withdrawal_can_exceed_balance() {
    // 0.005 in escrow at 2-decimal precision: a request for 0.001 rounds
    // up to 0.01, which the escrow cannot cover.
    let cents_asset = AssetType::new(7, 2);
    let step: u128 = 10_000_000_000_000_000;
    let mut component = RadicalDogeRewards::new(OWNER_BADGE, AIRDROPPER_BADGE, cents_asset);
    component
        .deposit_future_rewards(OWNER_BADGE, Funds::new(cents_asset, step / 2))
        .unwrap_or_else(|_| panic!("deposit failed"));

    let mut request = DistributionRequest::new();
    request.insert(1, Allocation::Fungible(step / 10));
    let result = component.distribute_deposited_rewards(AIRDROPPER_BADGE, request);
    assert!(matches!(result, Err(DistributionError::InsufficientBalance)));
    assert_eq!(component.future_rewards.amount, step / 2);
}

#[test]
fn test_deposit_requires_owner() {
    let mut component = component_with_escrow(1000);
    let result = component.deposit_future_rewards(AIRDROPPER_BADGE, Funds::new(doge(), 50));
    match result {
        Err((error, returned)) => {
            assert_eq!(error, DistributionError::NotAuthorized);
            assert_eq!(returned.amount, 50);
        }
        Ok(()) => panic!("a non-owner deposit must be rejected"),
    }
    assert_eq!(component.future_rewards.amount, 1000);
}

#[test]
fn test_deposit_of_wrong_asset_rejected() {
    let mut component = component_with_escrow(1000);
    let other_asset = AssetType::new(43, 18);
    let result = component.deposit_future_rewards(OWNER_BADGE, Funds::new(other_asset, 50));
    match result {
        Err((error, returned)) => {
            assert_eq!(error, DistributionError::MismatchedAssetType);
            assert_eq!(returned.amount, 50);
        }
        Ok(()) => panic!("a deposit of another asset must be rejected"),
    }
    assert_eq!(component.future_rewards.amount, 1000);
}

#[test]
fn test_distribution_requires_airdropper() {
    let mut component = component_with_escrow(1000);
    let mut request = DistributionRequest::new();
    request.insert(1, Allocation::Fungible(10));

    let result = component.distribute_deposited_rewards(OWNER_BADGE, request);
    assert!(matches!(result, Err(DistributionError::NotAuthorized)));
    assert_eq!(component.future_rewards.amount, 1000);
}

#[test]
fn test_supplied_distribution_requires_airdropper() {
    let component = component_with_escrow(1000);
    let mut request = DistributionRequest::new();
    request.insert(1, Allocation::Fungible(10));

    let result =
        component.distribute_supplied_rewards(OWNER_BADGE, request, Funds::new(doge(), 10));
    match result {
        Err((error, returned)) => {
            assert_eq!(error, DistributionError::NotAuthorized);
            assert_eq!(returned.amount, 10);
        }
        Ok(_) => panic!("a non-airdropper distribution must be rejected"),
    }
    assert_eq!(component.future_rewards.amount, 1000);
}

#[test]
fn test_supplied_distribution_leaves_escrow_untouched() {
    let component = component_with_escrow(1000);
    // The supplied path accepts non-fungible allocations and any asset.
    let other_asset = AssetType::new(99, 6);
    let mut request = DistributionRequest::new();
    request.insert(1, Allocation::Fungible(10));
    request.insert(2, Allocation::NonFungible(vec![4]));

    let pending = component
        .distribute_supplied_rewards(AIRDROPPER_BADGE, request, Funds::new(other_asset, 77))
        .unwrap_or_else(|_| panic!("supplied distribution failed"));
    assert_eq!(pending.funds.amount, 77);
    assert_eq!(pending.funds.asset, other_asset);
    assert!(pending.claim_even_if_account_missing);
    assert_eq!(pending.allocations.len(), 2);
    assert_eq!(component.future_rewards.amount, 1000);
}

#[test]
fn test_facility_failure_rollback_restores_escrow() {
    let mut component = component_with_escrow(1000);
    let mut request = DistributionRequest::new();
    request.insert(1, Allocation::Fungible(600));

    let pending = component
        .distribute_deposited_rewards(AIRDROPPER_BADGE, request)
        .unwrap_or_else(|_| panic!("distribution failed"));
    assert_eq!(component.future_rewards.amount, 400);

    // The facility failed: the whole withdrawal goes back, and the call
    // has no observable effect.
    component.reconcile_remainder(Some(pending.funds));
    assert_eq!(component.future_rewards.amount, 1000);
}

#[test]
fn test_update_airdropper_badge() {
    let mut component = component_with_escrow(1000);
    let new_badge: u64 = 77;

    // Only the owner may reassign the capability.
    let refused = component.update_airdropper_badge(AIRDROPPER_BADGE, new_badge);
    assert!(matches!(refused, Err(DistributionError::NotAuthorized)));

    component
        .update_airdropper_badge(OWNER_BADGE, new_badge)
        .unwrap_or_else(|_| panic!("owner update failed"));

    // The old badge no longer distributes; the new one does.
    let mut request = DistributionRequest::new();
    request.insert(1, Allocation::Fungible(10));
    let refused = component.distribute_deposited_rewards(AIRDROPPER_BADGE, request);
    assert!(matches!(refused, Err(DistributionError::NotAuthorized)));

    let mut request = DistributionRequest::new();
    request.insert(1, Allocation::Fungible(10));
    let pending = component
        .distribute_deposited_rewards(new_badge, request)
        .unwrap_or_else(|_| panic!("distribution failed"));
    assert_eq!(pending.funds.amount, 10);
    assert_eq!(component.future_rewards.amount, 990);
}

#[test]
fn test_insert_replaces_in_place() {
    let mut request = DistributionRequest::new();
    assert!(!request.insert(1, Allocation::Fungible(10)));
    assert!(!request.insert(2, Allocation::Fungible(20)));
    assert!(request.insert(1, Allocation::Fungible(30)));
    assert_eq!(request.len(), 2);
    let first = request.entry_at(0);
    assert_eq!(first.0, 1);
    assert!(matches!(first.1, Allocation::Fungible(30)));
    let second = request.entry_at(1);
    assert_eq!(second.0, 2);
    assert!(matches!(second.1, Allocation::Fungible(20)));
}

#[test]
fn test_escrow_withdraw_exact_and_rounded() {
    let cents_asset = AssetType::new(5, 2);
    let step: u128 = 10_000_000_000_000_000;
    let mut escrow = EscrowBalance::new(cents_asset);
    escrow.deposit(Funds::new(cents_asset, 100 * step));

    // Exact at the asset's precision: no rounding.
    let exact = escrow
        .withdraw_exact_or_rounded(40 * step)
        .unwrap_or_else(|_| panic!("withdrawal failed"));
    assert_eq!(exact.amount, 40 * step);
    assert_eq!(escrow.amount, 60 * step);

    // Not representable: rounded away from zero to the next step.
    let rounded = escrow
        .withdraw_exact_or_rounded(step + 1)
        .unwrap_or_else(|_| panic!("withdrawal failed"));
    assert_eq!(rounded.amount, 2 * step);
    assert_eq!(escrow.amount, 58 * step);

    // More than the balance: refused, balance unchanged.
    let refused = escrow.withdraw_exact_or_rounded(59 * step);
    assert!(matches!(refused, Err(DistributionError::InsufficientBalance)));
    assert_eq!(escrow.amount, 58 * step);
}

#[test]
fn test_unit_of_precision() {
    assert_eq!(AssetType::new(1, 18).unit(), 1);
    assert_eq!(AssetType::new(1, 2).unit(), 10_000_000_000_000_000);
    assert_eq!(AssetType::new(1, 0).unit(), ATTO);
}
