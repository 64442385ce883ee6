use carbon_credit_exchange::custody::AssetCustody;
use carbon_credit_exchange::error::ErrorCode;
use carbon_credit_exchange::exchange::Exchange;
use carbon_credit_exchange::payment::PaymentLedger;
use carbon_credit_exchange::state::CarbonCreditData;

const ALICE: u64 = 10;
const BOB: u64 = 20;
const CAROL: u64 = 30;
const ASSET: u64 = 7;

fn sample_data() -> CarbonCreditData {
    CarbonCreditData {
        project_name: String::from("Mangrove Restoration"),
        project_id: String::from("MR-001"),
        vintage_year: 2020,
        metric_tons: 5,
        validator: String::from("validator"),
        standard: String::from("standard"),
        project_type: String::from("reforestation"),
        country: String::from("somewhere"),
    }
}

/// Exchange, custody and payments with one asset minted into ALICE's hands.
fn minted_setup() -> (Exchange, AssetCustody, PaymentLedger) {
    let mut exchange = Exchange::initialize(1);
    let mut custody = AssetCustody::new();
    let payments = PaymentLedger::new();
    let minted = exchange.mint_carbon_credit(&mut custody, ALICE, ASSET, sample_data());
    assert!(minted.is_ok());
    (exchange, custody, payments)
}

#[test]
fn initialize_starts_empty() {
    let exchange = Exchange::initialize(42);
    assert_eq!(exchange.authority(), 42);
    assert_eq!(exchange.total_credits(), 0);
    assert!(exchange.get_listing(ASSET).is_none());
    assert!(exchange.get_retirement(ASSET).is_none());
}

#[test]
fn mint_creates_unit_and_counts() {
    let mut exchange = Exchange::initialize(1);
    let mut custody = AssetCustody::new();
    let event = exchange
        .mint_carbon_credit(&mut custody, ALICE, ASSET, sample_data())
        .unwrap();
    assert_eq!(event.mint, ASSET);
    assert_eq!(event.owner, ALICE);
    assert_eq!(event.project_name, "Mangrove Restoration");
    assert_eq!(event.project_id, "MR-001");
    assert_eq!(event.vintage_year, 2020);
    assert_eq!(event.metric_tons, 5);
    assert_eq!(exchange.total_credits(), 1);
    assert_eq!(custody.holder_of(ASSET), Some(ALICE));
    assert!(!custody.is_frozen(ASSET));
}

#[test]
fn mint_duplicate_asset_fails() {
    let (mut exchange, mut custody, _) = minted_setup();
    let again = exchange.mint_carbon_credit(&mut custody, BOB, ASSET, sample_data());
    assert_eq!(again.unwrap_err(), ErrorCode::InvalidMint);
    assert_eq!(exchange.total_credits(), 1);
    assert_eq!(custody.holder_of(ASSET), Some(ALICE));
}

#[test]
fn mint_after_retire_fails() {
    let (mut exchange, mut custody, _) = minted_setup();
    exchange
        .retire_carbon_credit(&mut custody, ALICE, ASSET, CAROL, 9)
        .unwrap();
    let again = exchange.mint_carbon_credit(&mut custody, ALICE, ASSET, sample_data());
    assert_eq!(again.unwrap_err(), ErrorCode::AlreadyRetired);
    assert!(!custody.has_unit(ASSET));
    assert_eq!(exchange.total_credits(), 0);
}

#[test]
fn list_creates_listing_and_locks_unit() {
    let (mut exchange, mut custody, _) = minted_setup();
    let event = exchange
        .list_for_sale(&mut custody, ALICE, ASSET, 100, 5)
        .unwrap();
    assert_eq!(event.mint, ASSET);
    assert_eq!(event.owner, ALICE);
    assert_eq!(event.price, 100);
    assert_eq!(event.timestamp, 5);
    let listing = exchange.get_listing(ASSET).unwrap();
    assert_eq!(listing.owner, ALICE);
    assert_eq!(listing.mint, ASSET);
    assert_eq!(listing.price, 100);
    assert!(custody.is_frozen(ASSET));
    assert_eq!(custody.holder_of(ASSET), Some(ALICE));
}

#[test]
fn list_zero_price_fails() {
    let (mut exchange, mut custody, _) = minted_setup();
    let listed = exchange.list_for_sale(&mut custody, ALICE, ASSET, 0, 5);
    assert_eq!(listed.unwrap_err(), ErrorCode::InvalidPrice);
    assert!(exchange.get_listing(ASSET).is_none());
    assert!(!custody.is_frozen(ASSET));
}

#[test]
fn list_twice_fails() {
    let (mut exchange, mut custody, _) = minted_setup();
    exchange
        .list_for_sale(&mut custody, ALICE, ASSET, 100, 5)
        .unwrap();
    let again = exchange.list_for_sale(&mut custody, ALICE, ASSET, 120, 6);
    assert_eq!(again.unwrap_err(), ErrorCode::ListingAlreadyExists);
    // The first listing is untouched.
    assert_eq!(exchange.get_listing(ASSET).unwrap().price, 100);
}

#[test]
fn list_without_holding_fails() {
    let mut exchange = Exchange::initialize(1);
    let mut custody = AssetCustody::new();
    let listed = exchange.list_for_sale(&mut custody, ALICE, ASSET, 100, 5);
    assert_eq!(listed.unwrap_err(), ErrorCode::InvalidTokenBalance);
    assert!(exchange.get_listing(ASSET).is_none());
}

#[test]
fn list_locked_unit_fails() {
    let (mut exchange, mut custody, _) = minted_setup();
    assert!(custody.freeze(ASSET, ALICE));
    let listed = exchange.list_for_sale(&mut custody, ALICE, ASSET, 100, 5);
    assert_eq!(listed.unwrap_err(), ErrorCode::InvalidTokenBalance);
    assert!(exchange.get_listing(ASSET).is_none());
}

#[test]
fn buy_completes_sale() {
    let (mut exchange, mut custody, mut payments) = minted_setup();
    exchange
        .list_for_sale(&mut custody, ALICE, ASSET, 100, 5)
        .unwrap();
    payments.deposit(BOB, 150);
    let event = exchange
        .buy_carbon_credit(&mut custody, &mut payments, BOB, ALICE, ASSET, 6)
        .unwrap();
    assert_eq!(event.mint, ASSET);
    assert_eq!(event.seller, ALICE);
    assert_eq!(event.buyer, BOB);
    assert_eq!(event.price, 100);
    assert_eq!(event.timestamp, 6);
    assert!(event.listing_closed);
    assert_eq!(payments.balance_of(BOB), 50);
    assert_eq!(payments.balance_of(ALICE), 100);
    assert_eq!(custody.holder_of(ASSET), Some(BOB));
    assert!(!custody.is_frozen(ASSET));
    assert!(exchange.get_listing(ASSET).is_none());
}

#[test]
fn buy_insufficient_funds_changes_nothing() {
    let (mut exchange, mut custody, mut payments) = minted_setup();
    exchange
        .list_for_sale(&mut custody, ALICE, ASSET, 100, 5)
        .unwrap();
    payments.deposit(BOB, 50);
    let sale = exchange.buy_carbon_credit(&mut custody, &mut payments, BOB, ALICE, ASSET, 6);
    assert_eq!(sale.unwrap_err(), ErrorCode::InsufficientFunds);
    // Nothing moved: balances, custody and the listing are unchanged.
    assert_eq!(payments.balance_of(BOB), 50);
    assert_eq!(payments.balance_of(ALICE), 0);
    assert_eq!(custody.holder_of(ASSET), Some(ALICE));
    assert!(custody.is_frozen(ASSET));
    assert_eq!(exchange.get_listing(ASSET).unwrap().price, 100);
}

#[test]
fn buy_overflowing_payment_changes_nothing() {
    let (mut exchange, mut custody, mut payments) = minted_setup();
    exchange
        .list_for_sale(&mut custody, ALICE, ASSET, 100, 5)
        .unwrap();
    payments.deposit(ALICE, u64::MAX);
    payments.deposit(BOB, 100);
    let sale = exchange.buy_carbon_credit(&mut custody, &mut payments, BOB, ALICE, ASSET, 6);
    assert_eq!(sale.unwrap_err(), ErrorCode::TransferFailed);
    assert_eq!(payments.balance_of(BOB), 100);
    assert_eq!(payments.balance_of(ALICE), u64::MAX);
    assert_eq!(custody.holder_of(ASSET), Some(ALICE));
    assert_eq!(exchange.get_listing(ASSET).unwrap().price, 100);
}

#[test]
fn buy_without_listing_fails() {
    let (mut exchange, mut custody, mut payments) = minted_setup();
    payments.deposit(BOB, 150);
    let sale = exchange.buy_carbon_credit(&mut custody, &mut payments, BOB, ALICE, ASSET, 6);
    assert_eq!(sale.unwrap_err(), ErrorCode::ListingNotFound);
    assert_eq!(payments.balance_of(BOB), 150);
}

#[test]
fn buy_from_wrong_seller_fails() {
    let (mut exchange, mut custody, mut payments) = minted_setup();
    exchange
        .list_for_sale(&mut custody, ALICE, ASSET, 100, 5)
        .unwrap();
    payments.deposit(BOB, 150);
    let sale = exchange.buy_carbon_credit(&mut custody, &mut payments, BOB, CAROL, ASSET, 6);
    assert_eq!(sale.unwrap_err(), ErrorCode::InvalidOwner);
    assert_eq!(payments.balance_of(BOB), 150);
    assert_eq!(exchange.get_listing(ASSET).unwrap().owner, ALICE);
}

#[test]
fn buy_after_seller_lost_unit_fails() {
    let (mut exchange, mut custody, mut payments) = minted_setup();
    exchange
        .list_for_sale(&mut custody, ALICE, ASSET, 100, 5)
        .unwrap();
    // The unit escapes the listing's lock at the custody level.
    assert!(custody.unfreeze(ASSET, ALICE));
    assert!(custody.transfer(ASSET, ALICE, CAROL));
    payments.deposit(BOB, 150);
    let sale = exchange.buy_carbon_credit(&mut custody, &mut payments, BOB, ALICE, ASSET, 6);
    assert_eq!(sale.unwrap_err(), ErrorCode::InvalidTokenBalance);
    assert_eq!(payments.balance_of(BOB), 150);
    assert_eq!(exchange.get_listing(ASSET).unwrap().owner, ALICE);
}

#[test]
fn buy_unlocked_unit_fails() {
    let (mut exchange, mut custody, mut payments) = minted_setup();
    exchange
        .list_for_sale(&mut custody, ALICE, ASSET, 100, 5)
        .unwrap();
    // The listing's lock is released at the custody level.
    assert!(custody.unfreeze(ASSET, ALICE));
    payments.deposit(BOB, 150);
    let sale = exchange.buy_carbon_credit(&mut custody, &mut payments, BOB, ALICE, ASSET, 6);
    assert_eq!(sale.unwrap_err(), ErrorCode::NFTNotLocked);
    assert_eq!(payments.balance_of(BOB), 150);
    assert_eq!(custody.holder_of(ASSET), Some(ALICE));
    assert_eq!(exchange.get_listing(ASSET).unwrap().price, 100);
}

#[test]
fn buy_own_listing_moves_no_balance() {
    let (mut exchange, mut custody, mut payments) = minted_setup();
    exchange
        .list_for_sale(&mut custody, ALICE, ASSET, 100, 5)
        .unwrap();
    payments.deposit(ALICE, 100);
    let event = exchange
        .buy_carbon_credit(&mut custody, &mut payments, ALICE, ALICE, ASSET, 6)
        .unwrap();
    assert!(event.listing_closed);
    assert_eq!(payments.balance_of(ALICE), 100);
    assert_eq!(custody.holder_of(ASSET), Some(ALICE));
    assert!(exchange.get_listing(ASSET).is_none());
}

#[test]
fn cancel_removes_listing_and_unlocks() {
    let (mut exchange, mut custody, _) = minted_setup();
    exchange
        .list_for_sale(&mut custody, ALICE, ASSET, 100, 5)
        .unwrap();
    exchange.cancel_listing(&mut custody, ALICE, ASSET).unwrap();
    assert!(exchange.get_listing(ASSET).is_none());
    assert_eq!(custody.holder_of(ASSET), Some(ALICE));
    assert!(!custody.is_frozen(ASSET));
}

#[test]
fn cancel_by_non_owner_fails() {
    let (mut exchange, mut custody, _) = minted_setup();
    exchange
        .list_for_sale(&mut custody, ALICE, ASSET, 100, 5)
        .unwrap();
    let cancelled = exchange.cancel_listing(&mut custody, BOB, ASSET);
    assert_eq!(cancelled.unwrap_err(), ErrorCode::InvalidOwner);
    // The listing is unchanged and the unit stays locked.
    let listing = exchange.get_listing(ASSET).unwrap();
    assert_eq!(listing.owner, ALICE);
    assert_eq!(listing.price, 100);
    assert!(custody.is_frozen(ASSET));
}

#[test]
fn cancel_without_listing_fails() {
    let (mut exchange, mut custody, _) = minted_setup();
    let cancelled = exchange.cancel_listing(&mut custody, ALICE, ASSET);
    assert_eq!(cancelled.unwrap_err(), ErrorCode::ListingNotFound);
}

#[test]
fn retire_burns_unit_and_records() {
    let (mut exchange, mut custody, _) = minted_setup();
    let event = exchange
        .retire_carbon_credit(&mut custody, ALICE, ASSET, CAROL, 9)
        .unwrap();
    assert_eq!(event.mint, ASSET);
    assert_eq!(event.owner, ALICE);
    assert_eq!(event.beneficiary, CAROL);
    assert_eq!(event.retirement_date, 9);
    assert_eq!(exchange.total_credits(), 0);
    assert!(!custody.has_unit(ASSET));
    let record = exchange.get_retirement(ASSET).unwrap();
    assert_eq!(record.owner, ALICE);
    assert_eq!(record.mint, ASSET);
    assert_eq!(record.retirement_date, 9);
    assert_eq!(record.beneficiary, CAROL);
}

#[test]
fn retire_twice_fails() {
    let (mut exchange, mut custody, _) = minted_setup();
    exchange
        .retire_carbon_credit(&mut custody, ALICE, ASSET, CAROL, 9)
        .unwrap();
    let again = exchange.retire_carbon_credit(&mut custody, ALICE, ASSET, CAROL, 10);
    assert_eq!(again.unwrap_err(), ErrorCode::InvalidTokenBalance);
    assert_eq!(exchange.total_credits(), 0);
    assert_eq!(exchange.get_retirement(ASSET).unwrap().retirement_date, 9);
}

#[test]
fn retire_without_holding_fails() {
    let (mut exchange, mut custody, _) = minted_setup();
    let retired = exchange.retire_carbon_credit(&mut custody, BOB, ASSET, CAROL, 9);
    assert_eq!(retired.unwrap_err(), ErrorCode::InvalidTokenBalance);
    assert!(custody.has_unit(ASSET));
    assert!(exchange.get_retirement(ASSET).is_none());
}

#[test]
fn retire_listed_asset_fails() {
    let (mut exchange, mut custody, _) = minted_setup();
    exchange
        .list_for_sale(&mut custody, ALICE, ASSET, 100, 5)
        .unwrap();
    let retired = exchange.retire_carbon_credit(&mut custody, ALICE, ASSET, CAROL, 9);
    assert_eq!(retired.unwrap_err(), ErrorCode::TokenBurnFailed);
    // The listing and the unit survive untouched.
    assert_eq!(exchange.get_listing(ASSET).unwrap().price, 100);
    assert!(custody.has_unit(ASSET));
    assert!(custody.is_frozen(ASSET));
    assert!(exchange.get_retirement(ASSET).is_none());
}

#[test]
fn retire_resurfaced_unit_fails() {
    let (mut exchange, mut custody, _) = minted_setup();
    exchange
        .retire_carbon_credit(&mut custody, ALICE, ASSET, CAROL, 9)
        .unwrap();
    // A unit of the retired asset reappears at the custody level; the
    // retirement ledger still refuses a second record.
    assert!(custody.mint_unit(ASSET, ALICE));
    let again = exchange.retire_carbon_credit(&mut custody, ALICE, ASSET, CAROL, 10);
    assert_eq!(again.unwrap_err(), ErrorCode::AlreadyRetired);
    assert_eq!(exchange.get_retirement(ASSET).unwrap().retirement_date, 9);
}

#[test]
fn retire_counter_saturates_at_zero() {
    let mut exchange = Exchange::initialize(1);
    let mut custody = AssetCustody::new();
    // A unit exists in custody that the registry never counted.
    assert!(custody.mint_unit(ASSET, ALICE));
    assert_eq!(exchange.total_credits(), 0);
    exchange
        .retire_carbon_credit(&mut custody, ALICE, ASSET, CAROL, 9)
        .unwrap();
    assert_eq!(exchange.total_credits(), 0);
}

#[test]
fn scenario_cancel_then_relist() {
    let (mut exchange, mut custody, _) = minted_setup();
    exchange
        .list_for_sale(&mut custody, ALICE, ASSET, 100, 5)
        .unwrap();
    exchange.cancel_listing(&mut custody, ALICE, ASSET).unwrap();
    assert!(exchange.get_listing(ASSET).is_none());
    assert_eq!(custody.holder_of(ASSET), Some(ALICE));
    let relisted = exchange
        .list_for_sale(&mut custody, ALICE, ASSET, 200, 6)
        .unwrap();
    assert_eq!(relisted.price, 200);
    assert_eq!(exchange.get_listing(ASSET).unwrap().price, 200);
}

#[test]
fn scenario_full_lifecycle() {
    let mut exchange = Exchange::initialize(1);
    let mut custody = AssetCustody::new();
    let mut payments = PaymentLedger::new();
    // Mint: the counter goes from zero to one.
    assert_eq!(exchange.total_credits(), 0);
    exchange
        .mint_carbon_credit(&mut custody, ALICE, ASSET, sample_data())
        .unwrap();
    assert_eq!(exchange.total_credits(), 1);
    // List, sell to BOB, and retire in BOB's hands.
    exchange
        .list_for_sale(&mut custody, ALICE, ASSET, 100, 5)
        .unwrap();
    payments.deposit(BOB, 150);
    exchange
        .buy_carbon_credit(&mut custody, &mut payments, BOB, ALICE, ASSET, 6)
        .unwrap();
    assert_eq!(payments.balance_of(BOB), 50);
    assert_eq!(payments.balance_of(ALICE), 100);
    let event = exchange
        .retire_carbon_credit(&mut custody, BOB, ASSET, CAROL, 9)
        .unwrap();
    assert_eq!(event.beneficiary, CAROL);
    assert_eq!(exchange.total_credits(), 0);
    assert!(!custody.has_unit(ASSET));
}

#[test]
fn error_messages_are_distinct() {
    let failures = [
        ErrorCode::InvalidPrice,
        ErrorCode::InvalidTokenBalance,
        ErrorCode::InsufficientFunds,
        ErrorCode::TransferFailed,
        ErrorCode::InvalidOwner,
        ErrorCode::InvalidMint,
        ErrorCode::TokenTransferFailed,
        ErrorCode::TokenBurnFailed,
        ErrorCode::NFTNotLocked,
        ErrorCode::ListingAlreadyExists,
        ErrorCode::ListingNotFound,
        ErrorCode::AlreadyRetired,
    ];
    for (i, first) in failures.iter().enumerate() {
        assert!(!first.message().is_empty());
        for second in failures.iter().skip(i + 1) {
            assert_ne!(first.message(), second.message());
        }
    }
}
