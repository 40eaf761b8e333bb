use bandwidth_market::ledger::{EscrowKey, EscrowTransfer, Identity};
use bandwidth_market::node_ledger::{NodeLedger, NodeOp};
use bandwidth_market::node_registry::{
    claim_earnings, deactivate_node, initialize, reactivate_node, record_earnings, register_node,
    slash_node, stake_sol, unstake_sol, update_heartbeat, update_reputation, withdraw_unstaked,
    ErrorCode, GlobalRegistry, NodeAccount, ViolationType, MIN_STAKE, UNBONDING_PERIOD,
};

const UNIT: u64 = 1_000_000;

fn id(n: u128) -> Identity {
    Identity::new(0, n)
}

fn setup() -> (GlobalRegistry, NodeAccount) {
    let (mut registry, _) = initialize(id(1), id(2), 1_000);
    let (node, _) = register_node(
        &mut registry,
        id(10),
        "eu-west".to_string(),
        "10.0.0.1".to_string(),
        10,
        1_000,
    )
    .unwrap();
    (registry, node)
}

fn staked(amount: u64) -> (GlobalRegistry, NodeAccount) {
    let (mut registry, mut node) = setup();
    stake_sol(&mut registry, &mut node, id(10), amount, 1_100).unwrap();
    (registry, node)
}

#[test]
fn initialize_creates_empty_registry() {
    let (registry, event) = initialize(id(1), id(2), 55);
    assert_eq!(registry.authority, id(1));
    assert_eq!(registry.protocol_fee_vault, id(2));
    assert_eq!(registry.total_nodes, 0);
    assert_eq!(registry.total_stake, 0);
    assert_eq!(event.timestamp, 55);
}

#[test]
fn register_creates_inactive_node_with_full_reputation() {
    let (registry, node) = setup();
    assert_eq!(registry.total_nodes, 1);
    assert_eq!(node.operator, id(10));
    assert_eq!(node.stake_amount, 0);
    assert_eq!(node.reputation, 100);
    assert!(!node.is_active);
    assert_eq!(node.location, "eu-west");
    assert_eq!(node.ip_address, "10.0.0.1");
    assert_eq!(node.registered_at, 1_000);
    assert_eq!(node.unbonding_until, 0);
}

#[test]
fn register_rejects_bad_inputs() {
    let (mut registry, _) = initialize(id(1), id(2), 0);
    let long_location = "x".repeat(65);
    let r = register_node(&mut registry, id(3), long_location, "ip".to_string(), 1, 0);
    assert_eq!(r.err(), Some(ErrorCode::LocationTooLong));
    let ok_location = "x".repeat(64);
    let long_ip = "1".repeat(46);
    let r = register_node(&mut registry, id(3), ok_location.clone(), long_ip, 1, 0);
    assert_eq!(r.err(), Some(ErrorCode::IpAddressTooLong));
    let r = register_node(&mut registry, id(3), ok_location.clone(), "ip".to_string(), 0, 0);
    assert_eq!(r.err(), Some(ErrorCode::InvalidBandwidth));
    assert_eq!(registry.total_nodes, 0);
    let r = register_node(&mut registry, id(3), ok_location, "1".repeat(45), 1, 0);
    assert!(r.is_ok());
    assert_eq!(registry.total_nodes, 1);
}

#[test]
fn stake_activates_node_at_minimum() {
    let (mut registry, mut node) = setup();
    let (event, transfer) = stake_sol(&mut registry, &mut node, id(10), 100_000 * UNIT, 1_100).unwrap();
    assert!(node.is_active);
    assert_eq!(node.stake_amount, 100_000 * UNIT);
    assert_eq!(registry.total_stake, 100_000 * UNIT);
    assert_eq!(event.total_stake, 100_000 * UNIT);
    assert_eq!(
        transfer,
        EscrowTransfer::new(EscrowKey::Account(id(10)), EscrowKey::StakeVault(id(10)), 100_000 * UNIT)
    );
}

#[test]
fn stake_below_minimum_deposit_is_rejected_and_node_stays_active() {
    let (mut registry, mut node) = staked(100_000 * UNIT);
    let r = stake_sol(&mut registry, &mut node, id(10), 50_000 * UNIT, 1_200);
    assert_eq!(r.err(), Some(ErrorCode::InsufficientStake));
    assert!(node.is_active);
    assert_eq!(node.stake_amount, 100_000 * UNIT);
    stake_sol(&mut registry, &mut node, id(10), 100_000 * UNIT, 1_300).unwrap();
    assert!(node.is_active);
    assert_eq!(node.stake_amount, 200_000 * UNIT);
    assert_eq!(registry.total_stake, 200_000 * UNIT);
}

#[test]
fn stake_by_stranger_is_unauthorized() {
    let (mut registry, mut node) = setup();
    let r = stake_sol(&mut registry, &mut node, id(99), MIN_STAKE, 1_100);
    assert_eq!(r.err(), Some(ErrorCode::Unauthorized));
    assert_eq!(registry.total_stake, 0);
}

#[test]
fn slash_malicious_halves_stake_and_deactivates() {
    let (mut registry, mut node) = staked(150_000 * UNIT);
    let (event, transfer) =
        slash_node(&mut registry, &mut node, id(1), ViolationType::Malicious, 2_000).unwrap();
    assert_eq!(event.slash_amount, 75_000 * UNIT);
    assert_eq!(event.remaining_stake, 75_000 * UNIT);
    assert_eq!(node.stake_amount, 75_000 * UNIT);
    assert!(!node.is_active);
    assert_eq!(node.slash_count, 1);
    assert_eq!(registry.total_stake, 75_000 * UNIT);
    assert_eq!(
        transfer,
        EscrowTransfer::new(EscrowKey::StakeVault(id(10)), EscrowKey::Account(id(2)), 75_000 * UNIT)
    );
}

#[test]
fn slash_downtime_takes_five_percent() {
    let (mut registry, mut node) = staked(200_000 * UNIT);
    let (event, _) = slash_node(&mut registry, &mut node, id(1), ViolationType::Downtime, 2_000).unwrap();
    assert_eq!(event.slash_amount, 10_000 * UNIT);
    assert_eq!(node.stake_amount, 190_000 * UNIT);
    assert!(node.is_active);
}

#[test]
fn slash_requires_authority_and_active_node() {
    let (mut registry, mut node) = staked(150_000 * UNIT);
    let r = slash_node(&mut registry, &mut node, id(10), ViolationType::Downtime, 2_000);
    assert_eq!(r.err(), Some(ErrorCode::Unauthorized));
    let (mut registry, mut node) = setup();
    let r = slash_node(&mut registry, &mut node, id(1), ViolationType::Downtime, 2_000);
    assert_eq!(r.err(), Some(ErrorCode::NodeNotActive));
}

#[test]
fn unstake_leaving_sub_minimum_remainder_is_rejected() {
    let (_, mut node) = staked(150_000 * UNIT);
    let r = unstake_sol(&mut node, id(10), 100_000 * UNIT, 3_000);
    assert_eq!(r.err(), Some(ErrorCode::InsufficientStake));
    assert!(node.is_active);
    assert_eq!(node.unbonding_until, 0);
    let r = unstake_sol(&mut node, id(10), 150_000 * UNIT + 1, 3_000);
    assert_eq!(r.err(), Some(ErrorCode::InsufficientBalance));
}

#[test]
fn unstake_to_zero_or_minimum_starts_unbonding() {
    let (_, mut node) = staked(200_000 * UNIT);
    let event = unstake_sol(&mut node, id(10), 100_000 * UNIT, 3_000).unwrap();
    assert_eq!(event.unbonding_until, 3_000 + 604_800);
    assert_eq!(node.unbonding_until, 3_000 + UNBONDING_PERIOD);
    assert!(!node.is_active);
    assert_eq!(node.stake_amount, 200_000 * UNIT);
    let (_, mut node) = staked(150_000 * UNIT);
    assert!(unstake_sol(&mut node, id(10), 150_000 * UNIT, 3_000).is_ok());
}

#[test]
fn withdraw_waits_for_unbonding_and_succeeds_exactly_at_deadline() {
    let (mut registry, mut node) = staked(150_000 * UNIT);
    let r = withdraw_unstaked(&mut registry, &mut node, id(10), 3_000);
    assert_eq!(r.err(), Some(ErrorCode::NoUnbondingInProgress));
    unstake_sol(&mut node, id(10), 150_000 * UNIT, 3_000).unwrap();
    let deadline = 3_000 + UNBONDING_PERIOD;
    let r = withdraw_unstaked(&mut registry, &mut node, id(10), deadline - 1);
    assert_eq!(r.err(), Some(ErrorCode::UnbondingPeriodActive));
    assert_eq!(node.stake_amount, 150_000 * UNIT);
    let (event, transfer) = withdraw_unstaked(&mut registry, &mut node, id(10), deadline).unwrap();
    assert_eq!(event.amount, 150_000 * UNIT);
    assert_eq!(
        transfer,
        EscrowTransfer::new(EscrowKey::StakeVault(id(10)), EscrowKey::Account(id(10)), 150_000 * UNIT)
    );
    assert_eq!(node.stake_amount, 0);
    assert_eq!(node.unbonding_until, 0);
    assert_eq!(registry.total_stake, 0);
}

#[test]
fn heartbeat_accumulates_bandwidth() {
    let (mut registry, mut node) = setup();
    let r = update_heartbeat(&mut registry, &mut node, id(10), 5, 1_500);
    assert_eq!(r.err(), Some(ErrorCode::NodeNotActive));
    stake_sol(&mut registry, &mut node, id(10), MIN_STAKE, 1_600).unwrap();
    update_heartbeat(&mut registry, &mut node, id(10), 5, 1_700).unwrap();
    update_heartbeat(&mut registry, &mut node, id(10), 7, 1_800).unwrap();
    assert_eq!(node.total_bandwidth_served, 12);
    assert_eq!(registry.total_bandwidth_served, 12);
    assert_eq!(node.last_heartbeat, 1_800);
}

#[test]
fn heartbeat_overflow_is_an_error() {
    let (mut registry, mut node) = staked(MIN_STAKE);
    update_heartbeat(&mut registry, &mut node, id(10), u64::MAX, 1_700).unwrap();
    let r = update_heartbeat(&mut registry, &mut node, id(10), 1, 1_800);
    assert_eq!(r.err(), Some(ErrorCode::ArithmeticOverflow));
    assert_eq!(node.last_heartbeat, 1_700);
}

#[test]
fn reputation_is_overwritten_by_authority_only() {
    let (registry, mut node) = setup();
    let r = update_reputation(&registry, &mut node, id(10), 80, 1_100);
    assert_eq!(r.err(), Some(ErrorCode::Unauthorized));
    let r = update_reputation(&registry, &mut node, id(1), 101, 1_100);
    assert_eq!(r.err(), Some(ErrorCode::InvalidReputation));
    let event = update_reputation(&registry, &mut node, id(1), 40, 1_100).unwrap();
    assert_eq!(event.old_score, 100);
    assert_eq!(event.new_score, 40);
    assert_eq!(node.reputation, 40);
}

#[test]
fn earnings_split_protocol_fee_and_claim() {
    let (mut registry, mut node) = staked(MIN_STAKE);
    let r = claim_earnings(&mut node, id(10), 1_200);
    assert_eq!(r.err(), Some(ErrorCode::NoEarningsToClaim));
    let event = record_earnings(&mut registry, &mut node, id(10), 1_000, 1_300).unwrap();
    assert_eq!(event.protocol_fee, 200);
    assert_eq!(event.amount, 800);
    assert_eq!(node.earnings_accumulated, 800);
    assert_eq!(registry.total_earnings_distributed, 1_000);
    let (claimed, transfer) = claim_earnings(&mut node, id(10), 1_400).unwrap();
    assert_eq!(claimed.amount, 800);
    assert_eq!(transfer, EscrowTransfer::new(EscrowKey::EarningsVault, EscrowKey::Account(id(10)), 800));
    assert_eq!(node.earnings_accumulated, 0);
}

#[test]
fn record_earnings_overflow_is_an_error() {
    let (mut registry, mut node) = staked(MIN_STAKE);
    let r = record_earnings(&mut registry, &mut node, id(10), u64::MAX, 1_300);
    assert_eq!(r.err(), Some(ErrorCode::ArithmeticOverflow));
    assert_eq!(node.earnings_accumulated, 0);
    assert_eq!(registry.total_earnings_distributed, 0);
}

#[test]
fn deactivate_and_reactivate_follow_the_rules() {
    let (registry, mut node) = staked(MIN_STAKE);
    let r = reactivate_node(&mut node, id(10), 1_200);
    assert_eq!(r.err(), Some(ErrorCode::NodeAlreadyActive));
    deactivate_node(&mut node, id(10), 1_300).unwrap();
    assert!(!node.is_active);
    let r = deactivate_node(&mut node, id(10), 1_300);
    assert_eq!(r.err(), Some(ErrorCode::NodeNotActive));
    update_reputation(&registry, &mut node, id(1), 49, 1_350).unwrap();
    let r = reactivate_node(&mut node, id(10), 1_400);
    assert_eq!(r.err(), Some(ErrorCode::LowReputation));
    update_reputation(&registry, &mut node, id(1), 50, 1_450).unwrap();
    reactivate_node(&mut node, id(10), 1_500).unwrap();
    assert!(node.is_active);
    let (_, mut fresh) = setup();
    let r = reactivate_node(&mut fresh, id(10), 1_500);
    assert_eq!(r.err(), Some(ErrorCode::InsufficientStake));
}

fn stake_total(ledger: &NodeLedger) -> u64 {
    (0..ledger.node_count()).map(|i| ledger.node(i).stake_amount).sum()
}

#[test]
fn ledger_total_stake_matches_sum_of_nodes() {
    let mut ledger = NodeLedger::new(id(1), id(2), 0);
    let register = |n: u8| NodeOp::Register {
        location: format!("loc{}", n),
        ip_address: "10.0.0.1".to_string(),
        bandwidth_gbps: 1,
    };
    ledger.apply(id(10), register(1), 1).unwrap();
    ledger.apply(id(11), register(2), 1).unwrap();
    assert_eq!(ledger.apply(id(10), register(3), 1).err(), Some(ErrorCode::NodeAlreadyRegistered));
    assert_eq!(ledger.registry().total_nodes, 2);
    let steps = vec![
        (id(10), NodeOp::Stake { amount: 150_000 * UNIT }),
        (id(11), NodeOp::Stake { amount: 300_000 * UNIT }),
        (id(1), NodeOp::Slash { operator: id(10), violation_type: ViolationType::Malicious }),
        (id(1), NodeOp::Slash { operator: id(11), violation_type: ViolationType::Downtime }),
        (id(11), NodeOp::Unstake { amount: 285_000 * UNIT }),
        (id(11), NodeOp::WithdrawUnstaked),
        (id(10), NodeOp::Stake { amount: 100_000 * UNIT }),
        (id(12), NodeOp::Stake { amount: 100_000 * UNIT }),
    ];
    for (signer, op) in steps {
        let _ = ledger.apply(signer, op, 10);
        assert_eq!(ledger.registry().total_stake, stake_total(&ledger));
    }
    assert_eq!(ledger.node(0).stake_amount, 175_000 * UNIT);
    assert_eq!(ledger.node(1).stake_amount, 285_000 * UNIT);
    assert_eq!(ledger.registry().total_stake, 460_000 * UNIT);
    let r = ledger.apply(id(12), NodeOp::Deactivate, 10);
    assert_eq!(r.err(), Some(ErrorCode::NodeNotRegistered));
}

#[test]
fn ledger_withdraw_releases_stake_after_unbonding() {
    let mut ledger = NodeLedger::new(id(1), id(2), 0);
    let op = NodeOp::Register { location: "a".to_string(), ip_address: "b".to_string(), bandwidth_gbps: 1 };
    ledger.apply(id(10), op, 0).unwrap();
    ledger.apply(id(10), NodeOp::Stake { amount: MIN_STAKE }, 0).unwrap();
    ledger.apply(id(10), NodeOp::Unstake { amount: MIN_STAKE }, 100).unwrap();
    let early = ledger.apply(id(10), NodeOp::WithdrawUnstaked, 100);
    assert_eq!(early.err(), Some(ErrorCode::UnbondingPeriodActive));
    let transfer = ledger.apply(id(10), NodeOp::WithdrawUnstaked, 100 + UNBONDING_PERIOD).unwrap();
    assert_eq!(
        transfer,
        Some(EscrowTransfer::new(EscrowKey::StakeVault(id(10)), EscrowKey::Account(id(10)), MIN_STAKE))
    );
    assert_eq!(ledger.registry().total_stake, 0);
    assert_eq!(stake_total(&ledger), 0);
}

#[test]
fn ledger_apply_returns_the_single_node_outcome() {
    let mut ledger = NodeLedger::new(id(1), id(2), 0);
    let op = NodeOp::Register { location: "a".to_string(), ip_address: "b".to_string(), bandwidth_gbps: 4 };
    assert_eq!(ledger.apply(id(10), op, 5).unwrap(), None);
    let node = ledger.node(0);
    assert_eq!(node.reputation, 100);
    assert_eq!(node.registered_at, 5);
    assert_eq!(node.bandwidth_gbps, 4);
    let transfer = ledger.apply(id(10), NodeOp::Stake { amount: 150_000 * UNIT }, 6).unwrap();
    assert_eq!(
        transfer,
        Some(EscrowTransfer::new(EscrowKey::Account(id(10)), EscrowKey::StakeVault(id(10)), 150_000 * UNIT))
    );
    assert!(ledger.node(0).is_active);
    let slash = NodeOp::Slash { operator: id(10), violation_type: ViolationType::Malicious };
    let transfer = ledger.apply(id(1), slash, 7).unwrap();
    assert_eq!(
        transfer,
        Some(EscrowTransfer::new(EscrowKey::StakeVault(id(10)), EscrowKey::Account(id(2)), 75_000 * UNIT))
    );
    assert_eq!(ledger.node(0).slash_count, 1);
    assert!(!ledger.node(0).is_active);
    assert_eq!(ledger.registry().total_stake, 75_000 * UNIT);
}
