use parcelchain::carrier::{create_carrier, raise_reputation, Carrier};
use parcelchain::error::ErrorCode;
use parcelchain::escrow::{
    complete_delivery, create_escrow, funding_transfer, initialize_escrow, payout_transfers,
    split_payment, Escrow, EscrowStatus, Payout, Transfer,
};
use parcelchain::identity::{Assignment, Identity};
use parcelchain::package::{accept_delivery, register_package, Dimensions, Package, PackageStatus};
use parcelchain::platform::{initialize, Platform, ReputationPolicy};

fn id(n: u8) -> Identity {
    Identity::new([n; 32])
}

fn platform() -> Platform {
    let mut slot: Option<Platform> = None;
    initialize(&mut slot, id(1), id(2)).unwrap();
    slot.unwrap()
}

fn dims() -> Dimensions {
    Dimensions::new(30, 20, 10)
}

fn registered(platform: &mut Platform, price: u64) -> Package {
    register_package(
        platform,
        id(3),
        id(4),
        "books".to_string(),
        1200,
        dims(),
        price,
        7,
        100,
    )
    .unwrap()
}

/// A package in transit with a carrier of reputation 80, and its funded vault.
fn in_transit(platform: &mut Platform, amount: u64) -> (Package, Carrier, Escrow) {
    let carrier = create_carrier(id(5), 80).unwrap();
    let mut package = registered(platform, 1000);
    accept_delivery(&mut package, &carrier, id(5), 200).unwrap();
    let mut escrow = initialize_escrow(&package, id(3), 210);
    create_escrow(&mut escrow, &package, id(3), amount).unwrap();
    (package, carrier, escrow)
}

#[test]
fn initialize_sets_defaults() {
    let mut slot: Option<Platform> = None;
    let event = initialize(&mut slot, id(1), id(2)).unwrap();
    assert_eq!(event.authority, id(1));
    assert_eq!(event.fee_rate, 200);
    let p = slot.as_ref().unwrap();
    assert_eq!(p.authority, id(1));
    assert_eq!(p.fee_rate, 200);
    assert_eq!(p.total_packages, 0);
    assert_eq!(p.reputation_increase, 10);
    assert_eq!(p.reputation_policy, ReputationPolicy::Uncapped);
    assert_eq!(p.default_token, id(2));
    assert!(p.allowed_tokens.is_empty());
}

#[test]
fn initialize_twice_fails() {
    let mut slot: Option<Platform> = None;
    initialize(&mut slot, id(1), id(2)).unwrap();
    assert_eq!(initialize(&mut slot, id(9), id(9)), Err(ErrorCode::AlreadyInitialized));
    assert_eq!(slot.unwrap().authority, id(1));
}

#[test]
fn create_carrier_reputation_bounds() {
    assert_eq!(create_carrier(id(5), 101), Err(ErrorCode::InvalidReputation));
    assert_eq!(create_carrier(id(5), 255), Err(ErrorCode::InvalidReputation));
    let c = create_carrier(id(5), 100).unwrap();
    assert_eq!(c.authority, id(5));
    assert_eq!(c.reputation, 100);
    assert_eq!(c.completed_deliveries, 0);
    assert_eq!(create_carrier(id(5), 0).unwrap().reputation, 0);
}

#[test]
fn register_package_fields() {
    let mut p = platform();
    let pkg = registered(&mut p, 1000);
    assert_eq!(pkg.id, 7);
    assert_eq!(pkg.sender, id(3));
    assert_eq!(pkg.recipient, id(4));
    assert_eq!(pkg.carrier, Assignment::Unassigned);
    assert_eq!(pkg.description, "books");
    assert_eq!(pkg.weight, 1200);
    assert_eq!(pkg.dimensions, dims());
    assert_eq!(pkg.price, 1000);
    assert_eq!(pkg.status, PackageStatus::Registered);
    assert_eq!(pkg.registered_at, 100);
    assert_eq!(pkg.accepted_at, 0);
    assert_eq!(pkg.delivered_at, 0);
    assert_eq!(p.total_packages, 1);
}

#[test]
fn register_package_rejects_zero_dimension_and_price() {
    let mut p = platform();
    let r = register_package(&mut p, id(3), id(4), "x".to_string(), 1, Dimensions::new(1, 0, 1), 5, 1, 0);
    assert_eq!(r.unwrap_err(), ErrorCode::InvalidDimensions);
    let r = register_package(&mut p, id(3), id(4), "x".to_string(), 1, dims(), 0, 1, 0);
    assert_eq!(r.unwrap_err(), ErrorCode::InvalidPrice);
    assert_eq!(p.total_packages, 0);
}

#[test]
fn total_packages_counts_registrations() {
    let mut p = platform();
    for n in 1..=25u64 {
        registered(&mut p, 10);
        assert_eq!(p.total_packages, n);
    }
}

#[test]
fn total_packages_overflow_fails_instead_of_wrapping() {
    let mut p = platform();
    p.total_packages = u64::MAX - 1;
    registered(&mut p, 10);
    assert_eq!(p.total_packages, u64::MAX);
    let r = register_package(&mut p, id(3), id(4), "x".to_string(), 1, dims(), 10, 8, 0);
    assert_eq!(r.unwrap_err(), ErrorCode::ArithmeticOverflow);
    assert_eq!(p.total_packages, u64::MAX);
}

#[test]
fn accept_delivery_reputation_threshold() {
    let mut p = platform();
    let low = create_carrier(id(5), 49).unwrap();
    let mut pkg = registered(&mut p, 1000);
    assert_eq!(accept_delivery(&mut pkg, &low, id(5), 200), Err(ErrorCode::InsufficientReputation));
    assert_eq!(pkg.status, PackageStatus::Registered);
    assert_eq!(pkg.carrier, Assignment::Unassigned);
    let ok = create_carrier(id(5), 50).unwrap();
    assert_eq!(accept_delivery(&mut pkg, &ok, id(5), 200), Ok(()));
    assert_eq!(pkg.status, PackageStatus::InTransit);
    assert_eq!(pkg.carrier, Assignment::Assigned(id(5)));
    assert_eq!(pkg.accepted_at, 200);
}

#[test]
fn accept_delivery_wrong_signer_is_unauthorized() {
    let mut p = platform();
    let c = create_carrier(id(5), 90).unwrap();
    let mut pkg = registered(&mut p, 1000);
    assert_eq!(accept_delivery(&mut pkg, &c, id(6), 200), Err(ErrorCode::Unauthorized));
    assert_eq!(pkg.status, PackageStatus::Registered);
}

#[test]
fn accept_delivery_twice_fails_with_status() {
    let mut p = platform();
    let c = create_carrier(id(5), 90).unwrap();
    let other = create_carrier(id(6), 90).unwrap();
    let mut pkg = registered(&mut p, 1000);
    accept_delivery(&mut pkg, &c, id(5), 200).unwrap();
    assert_eq!(accept_delivery(&mut pkg, &other, id(6), 300), Err(ErrorCode::InvalidPackageStatus));
    assert_eq!(pkg.carrier, Assignment::Assigned(id(5)));
    assert_eq!(pkg.accepted_at, 200);
}

#[test]
fn split_payment_two_percent() {
    assert_eq!(
        split_payment(1000, 200),
        Ok(Payout { carrier_amount: 980, platform_fee: 20 })
    );
}

#[test]
fn split_payment_rounds_fee_down() {
    assert_eq!(split_payment(99, 200), Ok(Payout { carrier_amount: 98, platform_fee: 1 }));
    assert_eq!(split_payment(49, 200), Ok(Payout { carrier_amount: 49, platform_fee: 0 }));
    assert_eq!(split_payment(0, 200), Ok(Payout { carrier_amount: 0, platform_fee: 0 }));
    assert_eq!(split_payment(777, 10000), Ok(Payout { carrier_amount: 0, platform_fee: 777 }));
}

#[test]
fn split_payment_conserves_value() {
    for amount in [0u64, 1, 3, 999, 1000, 12345, 1 << 40] {
        for rate in [0u16, 1, 200, 333, 9999, 10000] {
            let p = split_payment(amount, rate).unwrap();
            assert_eq!(p.carrier_amount + p.platform_fee, amount);
            assert_eq!(p.platform_fee, amount * rate as u64 / 10000);
        }
    }
}

#[test]
fn split_payment_overflow() {
    assert_eq!(split_payment(u64::MAX, 200), Err(ErrorCode::ArithmeticOverflow));
    assert_eq!(split_payment(1000, 20000), Err(ErrorCode::ArithmeticOverflow));
}

#[test]
fn escrow_create_and_fund() {
    let mut p = platform();
    let carrier = create_carrier(id(5), 80).unwrap();
    let mut pkg = registered(&mut p, 1000);
    let early = initialize_escrow(&pkg, id(3), 150);
    assert_eq!(early.carrier, Assignment::Unassigned);
    accept_delivery(&mut pkg, &carrier, id(5), 200).unwrap();
    let mut e = initialize_escrow(&pkg, id(3), 210);
    assert_eq!(e.amount, 0);
    assert_eq!(e.status, EscrowStatus::Created);
    assert_eq!(e.package, 7);
    assert_eq!(e.created_at, 210);
    assert_eq!(e.released_at, 0);
    assert_eq!(create_escrow(&mut e, &pkg, id(9), 1000), Err(ErrorCode::Unauthorized));
    assert_eq!(e.status, EscrowStatus::Created);
    assert_eq!(create_escrow(&mut e, &pkg, id(3), 1000), Ok(()));
    assert_eq!(e.amount, 1000);
    assert_eq!(e.status, EscrowStatus::Funded);
    assert_eq!(e.carrier, Assignment::Assigned(id(5)));
    assert_eq!(create_escrow(&mut e, &pkg, id(3), 5), Err(ErrorCode::InvalidEscrowAccount));
    assert_eq!(e.amount, 1000);
}

#[test]
fn escrow_for_another_package_is_refused() {
    let mut p = platform();
    let pkg = registered(&mut p, 1000);
    let mut other = registered(&mut p, 1000);
    other.id = 8;
    let mut e = initialize_escrow(&pkg, id(3), 210);
    assert_eq!(create_escrow(&mut e, &other, id(3), 1000), Err(ErrorCode::InvalidEscrowAccount));
}

#[test]
fn complete_delivery_splits_and_updates() {
    let mut p = platform();
    let (mut pkg, mut carrier, mut e) = in_transit(&mut p, 1000);
    let payout = complete_delivery(&mut pkg, &mut carrier, &p, &mut e, 500).unwrap();
    assert_eq!(payout.platform_fee, 20);
    assert_eq!(payout.carrier_amount, 980);
    assert_eq!(pkg.status, PackageStatus::Delivered);
    assert_eq!(pkg.delivered_at, 500);
    assert_eq!(e.status, EscrowStatus::Released);
    assert_eq!(e.released_at, 500);
    assert_eq!(e.amount, 1000);
    assert_eq!(carrier.completed_deliveries, 1);
    assert_eq!(carrier.reputation, 90);
}

#[test]
fn complete_delivery_not_reentrant() {
    let mut p = platform();
    let (mut pkg, mut carrier, mut e) = in_transit(&mut p, 1000);
    assert!(complete_delivery(&mut pkg, &mut carrier, &p, &mut e, 500).is_ok());
    assert_eq!(
        complete_delivery(&mut pkg, &mut carrier, &p, &mut e, 600),
        Err(ErrorCode::InvalidEscrowAccount)
    );
    assert_eq!(carrier.completed_deliveries, 1);
    assert_eq!(carrier.reputation, 90);
    assert_eq!(e.released_at, 500);
    assert_eq!(pkg.delivered_at, 500);
}

#[test]
fn released_escrow_refuses_funding() {
    let mut p = platform();
    let (mut pkg, mut carrier, mut e) = in_transit(&mut p, 1000);
    complete_delivery(&mut pkg, &mut carrier, &p, &mut e, 500).unwrap();
    assert_eq!(create_escrow(&mut e, &pkg, id(3), 1), Err(ErrorCode::InvalidEscrowAccount));
    assert_eq!(e.status, EscrowStatus::Released);
}

#[test]
fn complete_delivery_requires_funded_escrow_and_transit() {
    let mut p = platform();
    let carrier0 = create_carrier(id(5), 80).unwrap();
    let mut carrier = carrier0;
    let mut pkg = registered(&mut p, 1000);
    let mut e = initialize_escrow(&pkg, id(3), 210);
    assert_eq!(
        complete_delivery(&mut pkg, &mut carrier, &p, &mut e, 500),
        Err(ErrorCode::InvalidEscrowAccount)
    );
    create_escrow(&mut e, &pkg, id(3), 1000).unwrap();
    assert_eq!(
        complete_delivery(&mut pkg, &mut carrier, &p, &mut e, 500),
        Err(ErrorCode::InvalidPackageStatus)
    );
    assert_eq!(pkg.status, PackageStatus::Registered);
    assert_eq!(e.status, EscrowStatus::Funded);
    assert_eq!(carrier, carrier0);
}

#[test]
fn complete_delivery_wrong_carrier_is_refused() {
    let mut p = platform();
    let (mut pkg, _, mut e) = in_transit(&mut p, 1000);
    let mut stranger = create_carrier(id(6), 99).unwrap();
    assert_eq!(
        complete_delivery(&mut pkg, &mut stranger, &p, &mut e, 500),
        Err(ErrorCode::InvalidEscrowAccount)
    );
    assert_eq!(pkg.status, PackageStatus::InTransit);
    assert_eq!(e.status, EscrowStatus::Funded);
    assert_eq!(stranger.completed_deliveries, 0);
}

#[test]
fn complete_delivery_overflow_aborts_everything() {
    let mut p = platform();
    let (mut pkg, mut carrier, mut e) = in_transit(&mut p, u64::MAX);
    assert_eq!(
        complete_delivery(&mut pkg, &mut carrier, &p, &mut e, 500),
        Err(ErrorCode::ArithmeticOverflow)
    );
    assert_eq!(pkg.status, PackageStatus::InTransit);
    assert_eq!(e.status, EscrowStatus::Funded);
    assert_eq!(carrier.completed_deliveries, 0);
    assert_eq!(carrier.reputation, 80);
}

#[test]
fn reputation_overflow_aborts_uncapped() {
    let mut p = platform();
    let (mut pkg, mut carrier, mut e) = in_transit(&mut p, 1000);
    carrier.reputation = 250;
    assert_eq!(
        complete_delivery(&mut pkg, &mut carrier, &p, &mut e, 500),
        Err(ErrorCode::ArithmeticOverflow)
    );
    assert_eq!(carrier.reputation, 250);
    assert_eq!(e.status, EscrowStatus::Funded);
}

#[test]
fn delivery_count_overflow_aborts() {
    let mut p = platform();
    let (mut pkg, mut carrier, mut e) = in_transit(&mut p, 1000);
    carrier.completed_deliveries = u32::MAX;
    assert_eq!(
        complete_delivery(&mut pkg, &mut carrier, &p, &mut e, 500),
        Err(ErrorCode::ArithmeticOverflow)
    );
    assert_eq!(pkg.status, PackageStatus::InTransit);
}

#[test]
fn reputation_grows_past_hundred_uncapped() {
    let mut p = platform();
    let (mut pkg, mut carrier, mut e) = in_transit(&mut p, 1000);
    carrier.reputation = 95;
    complete_delivery(&mut pkg, &mut carrier, &p, &mut e, 500).unwrap();
    assert_eq!(carrier.reputation, 105);
    assert_eq!(raise_reputation(250, 10, ReputationPolicy::Uncapped), None);
}

#[test]
fn reputation_capped_policy_stops_at_hundred() {
    let mut p = platform();
    assert_eq!(p.set_reputation_policy(id(9), ReputationPolicy::Capped), Err(ErrorCode::Unauthorized));
    assert_eq!(p.reputation_policy, ReputationPolicy::Uncapped);
    p.set_reputation_policy(id(1), ReputationPolicy::Capped).unwrap();
    let (mut pkg, mut carrier, mut e) = in_transit(&mut p, 1000);
    carrier.reputation = 95;
    complete_delivery(&mut pkg, &mut carrier, &p, &mut e, 500).unwrap();
    assert_eq!(carrier.reputation, 100);
    assert_eq!(raise_reputation(80, 10, ReputationPolicy::Capped), Some(90));
    assert_eq!(raise_reputation(100, 10, ReputationPolicy::Capped), Some(100));
    assert_eq!(raise_reputation(120, 10, ReputationPolicy::Capped), Some(120));
    assert_eq!(raise_reputation(250, 10, ReputationPolicy::Capped), Some(250));
}

#[test]
fn fee_rate_admin() {
    let mut p = platform();
    assert_eq!(p.set_fee_rate(id(9), 100), Err(ErrorCode::Unauthorized));
    assert_eq!(p.set_fee_rate(id(1), 10001), Err(ErrorCode::InvalidFeeRate));
    assert_eq!(p.fee_rate, 200);
    assert_eq!(p.set_fee_rate(id(1), 0), Ok(()));
    assert_eq!(p.fee_rate, 0);
    let (mut pkg, mut carrier, mut e) = in_transit(&mut p, 1000);
    let payout = complete_delivery(&mut pkg, &mut carrier, &p, &mut e, 500).unwrap();
    assert_eq!(payout, Payout { carrier_amount: 1000, platform_fee: 0 });
}

#[test]
fn allowed_tokens() {
    let mut p = platform();
    assert_eq!(p.check_token(id(2)), Ok(()));
    assert_eq!(p.check_token(id(7)), Err(ErrorCode::TokenNotAllowed));
    assert_eq!(p.allow_token(id(9), id(7)), Err(ErrorCode::Unauthorized));
    assert_eq!(p.allow_token(id(1), id(7)), Ok(()));
    assert_eq!(p.check_token(id(7)), Ok(()));
    assert_eq!(p.allowed_tokens, vec![id(7)]);
}

#[test]
fn payout_transfers_skip_zero_fee() {
    let vault = id(20);
    let two = payout_transfers(Payout { carrier_amount: 980, platform_fee: 20 }, vault, id(21), id(22));
    assert_eq!(
        two,
        vec![
            Transfer { from: vault, to: id(21), amount: 980 },
            Transfer { from: vault, to: id(22), amount: 20 },
        ]
    );
    let one = payout_transfers(Payout { carrier_amount: 49, platform_fee: 0 }, vault, id(21), id(22));
    assert_eq!(one, vec![Transfer { from: vault, to: id(21), amount: 49 }]);
    assert_eq!(funding_transfer(id(23), vault, 5), Transfer { from: id(23), to: vault, amount: 5 });
}

#[test]
fn identity_equality() {
    let mut b = [4u8; 32];
    assert_eq!(Identity::new(b), id(4));
    b[31] = 5;
    assert_ne!(Identity::new(b), id(4));
    assert_eq!(Identity::zero().to_bytes(), [0u8; 32]);
    assert!(Assignment::Assigned(id(4)).is_assigned_to(id(4)));
    assert!(!Assignment::Assigned(id(4)).is_assigned_to(id(5)));
    assert!(!Assignment::Unassigned.is_assigned_to(id(4)));
}

#[test]
fn end_to_end_delivery() {
    let mut slot: Option<Platform> = None;
    initialize(&mut slot, id(1), id(2)).unwrap();
    let platform = slot.as_mut().unwrap();
    assert_eq!(platform.fee_rate, 200);
    let mut carrier = create_carrier(id(5), 80).unwrap();
    let mut pkg = registered(platform, 1000);
    accept_delivery(&mut pkg, &carrier, id(5), 200).unwrap();
    let mut e = initialize_escrow(&pkg, id(3), 210);
    create_escrow(&mut e, &pkg, id(3), 1000).unwrap();
    let payout = complete_delivery(&mut pkg, &mut carrier, platform, &mut e, 500).unwrap();
    let vault = id(30);
    let carrier_custody = id(31);
    let fee_custody = id(32);
    let mut balances = std::collections::HashMap::new();
    balances.insert(vault, 1000u64);
    for t in payout_transfers(payout, vault, carrier_custody, fee_custody) {
        *balances.get_mut(&t.from).unwrap() -= t.amount;
        *balances.entry(t.to).or_insert(0) += t.amount;
    }
    assert_eq!(pkg.status, PackageStatus::Delivered);
    assert_eq!(e.status, EscrowStatus::Released);
    assert_eq!(carrier.completed_deliveries, 1);
    assert_eq!(carrier.reputation, 90);
    assert_eq!(balances[&fee_custody], 20);
    assert_eq!(balances[&carrier_custody], 980);
    assert_eq!(balances[&vault], 0);
    assert_eq!(platform.total_packages, 1);
}

#[test]
fn defaults() {
    assert_eq!(Dimensions::default(), Dimensions::new(0, 0, 0));
    assert_eq!(EscrowStatus::default(), EscrowStatus::Created);
    let p = Package::default();
    assert_eq!(p.id, 0);
    assert_eq!(p.sender, Identity::zero());
    assert_eq!(p.carrier, Assignment::Unassigned);
    assert_eq!(p.description, "");
    assert_eq!(p.status, PackageStatus::Registered);
    assert_eq!(p.price, 0);
    assert_eq!(p.registered_at, 0);
    assert_eq!(p.delivered_at, 0);
}
