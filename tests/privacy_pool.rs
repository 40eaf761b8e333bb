use bandwidth_market::ledger::{EscrowKey, EscrowTransfer, Identity};
use bandwidth_market::privacy_pool::{
    add_beneficiaries, close_pool, create_pool, extend_allocation, fund_pool, redeem_access,
    remove_beneficiary, update_auto_refill, BeneficiaryAccess, ErrorCode, PoolAccount,
};

fn id(n: u128) -> Identity {
    Identity::new(3, n)
}

const SPONSOR: u128 = 1;

fn pool(funding: u64, per_user: u64) -> PoolAccount {
    create_pool(id(SPONSOR), 42, "community".to_string(), id(9), funding, per_user, 100).unwrap().0
}

fn add(pool: &mut PoolAccount, who: u128, units: u64) -> Result<BeneficiaryAccess, ErrorCode> {
    add_beneficiaries(pool, id(SPONSOR), 42, id(who), units, None, 200).map(|(a, _)| a)
}

#[test]
fn create_pool_escrows_funding() {
    let (pool, event, transfer) =
        create_pool(id(SPONSOR), 42, "community".to_string(), id(9), 10_000, 100, 100).unwrap();
    assert!(pool.is_well_formed());
    assert_eq!(pool.total_funded, 10_000);
    assert_eq!(pool.total_used, 0);
    assert_eq!(pool.auto_refill_threshold, 2_000);
    assert!(!pool.auto_refill_enabled);
    assert!(pool.is_active);
    assert_eq!(event.name, "community");
    assert_eq!(
        transfer,
        EscrowTransfer::new(EscrowKey::Account(id(SPONSOR)), EscrowKey::PoolVault(id(SPONSOR), 42), 10_000)
    );
}

#[test]
fn create_pool_rejects_bad_inputs() {
    let long = "n".repeat(129);
    let r = create_pool(id(SPONSOR), 1, long, id(9), 10, 1, 0);
    assert_eq!(r.err(), Some(ErrorCode::PoolNameTooLong));
    let r = create_pool(id(SPONSOR), 1, "n".repeat(128), id(9), 0, 1, 0);
    assert_eq!(r.err(), Some(ErrorCode::InvalidFunding));
    let r = create_pool(id(SPONSOR), 1, "p".to_string(), id(9), 10, 0, 0);
    assert_eq!(r.err(), Some(ErrorCode::AllocationTooSmall));
}

#[test]
fn pool_capacity_follows_funding() {
    let mut p = pool(10_000, 100);
    for who in 0..100u128 {
        add(&mut p, 1_000 + who, 100).unwrap();
    }
    assert_eq!(p.beneficiary_count, 100);
    assert_eq!(add(&mut p, 5_000, 100).err(), Some(ErrorCode::PoolFull));
    assert_eq!(p.beneficiary_count, 100);
    fund_pool(&mut p, id(SPONSOR), 100, 300).unwrap();
    assert!(add(&mut p, 5_000, 100).is_ok());
    assert_eq!(p.beneficiary_count, 101);
}

#[test]
fn add_beneficiary_checks_sponsor_activity_and_allocation() {
    let mut p = pool(1_000, 10);
    let r = add_beneficiaries(&mut p, id(77), 42, id(5), 10, None, 0);
    assert_eq!(r.err(), Some(ErrorCode::Unauthorized));
    let r = add_beneficiaries(&mut p, id(SPONSOR), 43, id(5), 10, None, 0);
    assert_eq!(r.err(), Some(ErrorCode::Unauthorized));
    assert_eq!(add(&mut p, 5, 0).err(), Some(ErrorCode::AllocationTooSmall));
    let access = add(&mut p, 5, 10).unwrap();
    assert!(access.is_whitelisted);
    assert_eq!(access.used_gb, 0);
    let r = add_beneficiaries(&mut p, id(SPONSOR), 42, id(5), 10, Some(access), 0);
    assert_eq!(r.err(), Some(ErrorCode::BeneficiaryAlreadyWhitelisted));
    close_pool(&mut p, id(SPONSOR), 0).unwrap();
    assert_eq!(add(&mut p, 6, 10).err(), Some(ErrorCode::PoolNotActive));
}

#[test]
fn removed_beneficiary_keeps_record_and_can_return() {
    let mut p = pool(1_000, 10);
    let mut access = add(&mut p, 5, 10).unwrap();
    let event = remove_beneficiary(&mut p, &mut access, id(SPONSOR), 42, 300).unwrap();
    assert_eq!(event.beneficiary, id(5));
    assert!(!access.is_whitelisted);
    assert_eq!(access.allocated_gb, 10);
    assert_eq!(p.beneficiary_count, 0);
    let r = remove_beneficiary(&mut p, &mut access, id(SPONSOR), 42, 300);
    assert_eq!(r.err(), Some(ErrorCode::BeneficiaryNotWhitelisted));
    let (back, _) = add_beneficiaries(&mut p, id(SPONSOR), 42, id(5), 20, Some(access), 400).unwrap();
    assert!(back.is_whitelisted);
    assert_eq!(back.allocated_gb, 20);
    assert_eq!(p.beneficiary_count, 1);
}

#[test]
fn fund_pool_raises_funding() {
    let mut p = pool(1_000, 10);
    assert_eq!(fund_pool(&mut p, id(SPONSOR), 0, 0).err(), Some(ErrorCode::InvalidFunding));
    assert_eq!(fund_pool(&mut p, id(2), 5, 0).err(), Some(ErrorCode::Unauthorized));
    let (event, transfer) = fund_pool(&mut p, id(SPONSOR), 500, 0).unwrap();
    assert_eq!(p.total_funded, 1_500);
    assert_eq!(event.new_balance, 1_500);
    assert_eq!(transfer.to, EscrowKey::PoolVault(id(SPONSOR), 42));
    assert_eq!(fund_pool(&mut p, id(SPONSOR), u64::MAX, 0).err(), Some(ErrorCode::ArithmeticOverflow));
}

#[test]
fn redeem_access_checks_both_allocation_and_pool_balance() {
    let mut p = pool(100, 10);
    let mut a = add(&mut p, 5, 60).unwrap();
    let mut b = add(&mut p, 6, 60).unwrap();
    let (event, refill) = redeem_access(&mut p, &mut a, id(5), 60, 500).unwrap();
    assert_eq!(event.remaining_allocation, 0);
    assert!(refill.is_none());
    assert_eq!(a.used_gb, 60);
    assert_eq!(a.last_used, 500);
    assert_eq!(p.total_used, 60);
    let r = redeem_access(&mut p, &mut a, id(5), 1, 500);
    assert_eq!(r.err(), Some(ErrorCode::InsufficientAllocation));
    let r = redeem_access(&mut p, &mut b, id(6), 41, 500);
    assert_eq!(r.err(), Some(ErrorCode::InsufficientPoolBalance));
    assert_eq!(b.used_gb, 0);
    redeem_access(&mut p, &mut b, id(6), 40, 500).unwrap();
    assert_eq!(p.total_used, 100);
    assert!(p.total_used <= p.total_funded);
    assert!(a.used_gb <= a.allocated_gb && b.used_gb <= b.allocated_gb);
    let r = redeem_access(&mut p, &mut b, id(6), 0, 500);
    assert_eq!(r.err(), Some(ErrorCode::InvalidBandwidth));
    let r = redeem_access(&mut p, &mut b, id(5), 1, 500);
    assert_eq!(r.err(), Some(ErrorCode::Unauthorized));
}

#[test]
fn redeem_access_signals_refill_below_threshold() {
    let mut p = pool(1_000, 10);
    let mut a = add(&mut p, 5, 900).unwrap();
    update_auto_refill(&mut p, id(SPONSOR), true, 300, 0).unwrap();
    let (_, refill) = redeem_access(&mut p, &mut a, id(5), 700, 10).unwrap();
    assert!(refill.is_none());
    let (_, refill) = redeem_access(&mut p, &mut a, id(5), 1, 11).unwrap();
    let signal = refill.unwrap();
    assert_eq!(signal.remaining_balance, 299);
    assert_eq!(signal.threshold, 300);
    assert_eq!(p.total_funded, 1_000);
}

#[test]
fn removed_beneficiary_cannot_redeem() {
    let mut p = pool(1_000, 10);
    let mut a = add(&mut p, 5, 10).unwrap();
    remove_beneficiary(&mut p, &mut a, id(SPONSOR), 42, 0).unwrap();
    let r = redeem_access(&mut p, &mut a, id(5), 1, 0);
    assert_eq!(r.err(), Some(ErrorCode::BeneficiaryNotWhitelisted));
}

#[test]
fn close_pool_refunds_unused_funding() {
    let mut p = pool(1_000, 10);
    let mut a = add(&mut p, 5, 300).unwrap();
    redeem_access(&mut p, &mut a, id(5), 250, 0).unwrap();
    assert_eq!(close_pool(&mut p, id(2), 0).err(), Some(ErrorCode::Unauthorized));
    let (event, refund) = close_pool(&mut p, id(SPONSOR), 9).unwrap();
    assert_eq!(event.refunded_amount, 750);
    assert_eq!(
        refund,
        Some(EscrowTransfer::new(EscrowKey::PoolVault(id(SPONSOR), 42), EscrowKey::Account(id(SPONSOR)), 750))
    );
    assert!(!p.is_active);
    assert_eq!(close_pool(&mut p, id(SPONSOR), 9).err(), Some(ErrorCode::PoolNotActive));
    let r = redeem_access(&mut p, &mut a, id(5), 1, 0);
    assert_eq!(r.err(), Some(ErrorCode::PoolNotActive));
}

#[test]
fn close_fully_used_pool_moves_nothing() {
    let mut p = pool(10, 10);
    let mut a = add(&mut p, 5, 10).unwrap();
    redeem_access(&mut p, &mut a, id(5), 10, 0).unwrap();
    let (event, refund) = close_pool(&mut p, id(SPONSOR), 0).unwrap();
    assert_eq!(event.refunded_amount, 0);
    assert_eq!(refund, None);
}

#[test]
fn extend_allocation_is_not_bounded_by_funding() {
    let p = {
        let mut p = pool(10, 10);
        let _ = add(&mut p, 5, 10);
        p
    };
    let mut a = BeneficiaryAccess {
        pool_id: 42,
        beneficiary: id(5),
        allocated_gb: 10,
        used_gb: 0,
        last_used: 0,
        is_whitelisted: true,
        added_at: 0,
    };
    let event = extend_allocation(&p, &mut a, id(SPONSOR), 1_000, 0).unwrap();
    assert_eq!(event.new_allocation, 1_010);
    assert_eq!(a.allocated_gb, 1_010);
    assert_eq!(extend_allocation(&p, &mut a, id(SPONSOR), 0, 0).err(), Some(ErrorCode::InvalidBandwidth));
    assert_eq!(extend_allocation(&p, &mut a, id(5), 1, 0).err(), Some(ErrorCode::Unauthorized));
    a.is_whitelisted = false;
    assert_eq!(
        extend_allocation(&p, &mut a, id(SPONSOR), 1, 0).err(),
        Some(ErrorCode::BeneficiaryNotWhitelisted)
    );
}

#[test]
fn update_auto_refill_sponsor_only() {
    let mut p = pool(1_000, 10);
    assert_eq!(update_auto_refill(&mut p, id(2), true, 5, 0).err(), Some(ErrorCode::Unauthorized));
    let event = update_auto_refill(&mut p, id(SPONSOR), true, 5, 0).unwrap();
    assert!(event.enabled);
    assert!(p.auto_refill_enabled);
    assert_eq!(p.auto_refill_threshold, 5);
}
