//! Node registry: staking, unbonding, slashing, earnings and reputation of
//! bandwidth-supplying nodes, with a global aggregate of all stakes.
use vstd::prelude::*;
use crate::ledger::{EscrowKey, EscrowTransfer, Identity};

verus! {

/// Smallest stake of an active node, and smallest amount of one deposit.
pub const MIN_STAKE: u64 = 100_000_000_000;

/// Seconds between an unstake request and the release of the stake.
pub const UNBONDING_PERIOD: i64 = 604800;

/// Smallest reputation with which a node may be reactivated.
pub const MIN_REPUTATION: u8 = 50;

/// Share of gross earnings kept by the protocol, in basis points.
pub const PROTOCOL_FEE_BPS: u16 = 2000;

/// Share of stake forfeited for downtime, in basis points.
pub const DOWNTIME_SLASH_BPS: u16 = 500;

/// Share of stake forfeited for malicious behaviour, in basis points.
pub const MALICIOUS_SLASH_BPS: u16 = 5000;

/// Longest location string, in bytes.
pub const MAX_LOCATION_LEN: usize = 64;

/// Longest address string, in bytes.
pub const MAX_IP_ADDRESS_LEN: usize = 45;

#[derive(Clone, Copy, Debug, PartialEq, Eq, Structural)]
pub struct GlobalRegistry {
    pub authority: Identity,
    pub total_nodes: u32,
    pub total_stake: u64,
    pub protocol_fee_vault: Identity,
    pub total_bandwidth_served: u64,
    pub total_earnings_distributed: u64,
}

#[derive(Clone, Debug)]
pub struct NodeAccount {
    pub operator: Identity,
    pub stake_amount: u64,
    pub reputation: u8,
    pub location: String,
    pub ip_address: String,
    pub bandwidth_gbps: u16,
    pub total_bandwidth_served: u64,
    pub uptime_percentage: u8,
    pub last_heartbeat: i64,
    pub earnings_accumulated: u64,
    pub is_active: bool,
    pub registered_at: i64,
    pub unbonding_until: i64,
    pub slash_count: u16,
}

#[derive(Clone, Copy, Debug, PartialEq, Eq, Structural)]
pub enum ViolationType {
    Downtime,
    Malicious,
}

#[derive(Clone, Copy, Debug, PartialEq, Eq, Structural)]
pub enum ErrorCode {
    LocationTooLong,
    IpAddressTooLong,
    InvalidBandwidth,
    InsufficientStake,
    InsufficientBalance,
    NoUnbondingInProgress,
    UnbondingPeriodActive,
    NodeNotActive,
    NodeAlreadyActive,
    InvalidReputation,
    LowReputation,
    NoEarningsToClaim,
    /// The signer is not the operator or authority that the record names.
    Unauthorized,
    /// A checked addition, subtraction or multiplication left the range of its type.
    ArithmeticOverflow,
    /// A node is already registered for this operator.
    NodeAlreadyRegistered,
    /// No node is registered for this operator.
    NodeNotRegistered,
}

#[derive(Clone, Copy, Debug, PartialEq, Eq, Structural)]
pub struct RegistryInitialized {
    pub authority: Identity,
    pub timestamp: i64,
}

#[derive(Clone, Debug)]
pub struct NodeRegistered {
    pub operator: Identity,
    pub location: String,
    pub ip_address: String,
    pub bandwidth_gbps: u16,
    pub timestamp: i64,
}

#[derive(Clone, Copy, Debug, PartialEq, Eq, Structural)]
pub struct StakeDeposited {
    pub operator: Identity,
    pub amount: u64,
    pub total_stake: u64,
    pub timestamp: i64,
}

#[derive(Clone, Copy, Debug, PartialEq, Eq, Structural)]
pub struct UnstakeInitiated {
    pub operator: Identity,
    pub amount: u64,
    pub unbonding_until: i64,
    pub timestamp: i64,
}

#[derive(Clone, Copy, Debug, PartialEq, Eq, Structural)]
pub struct StakeWithdrawn {
    pub operator: Identity,
    pub amount: u64,
    pub timestamp: i64,
}

#[derive(Clone, Copy, Debug, PartialEq, Eq, Structural)]
pub struct HeartbeatUpdated {
    pub operator: Identity,
    pub timestamp: i64,
    pub bandwidth_served_gb: u64,
}

#[derive(Clone, Copy, Debug, PartialEq, Eq, Structural)]
pub struct ReputationUpdated {
    pub operator: Identity,
    pub old_score: u8,
    pub new_score: u8,
    pub timestamp: i64,
}

#[derive(Clone, Copy, Debug, PartialEq, Eq, Structural)]
pub struct NodeSlashed {
    pub operator: Identity,
    pub violation_type: ViolationType,
    pub slash_amount: u64,
    pub remaining_stake: u64,
    pub timestamp: i64,
}

#[derive(Clone, Copy, Debug, PartialEq, Eq, Structural)]
pub struct EarningsRecorded {
    pub operator: Identity,
    pub amount: u64,
    pub protocol_fee: u64,
    pub timestamp: i64,
}

#[derive(Clone, Copy, Debug, PartialEq, Eq, Structural)]
pub struct EarningsClaimed {
    pub operator: Identity,
    pub amount: u64,
    pub timestamp: i64,
}

#[derive(Clone, Copy, Debug, PartialEq, Eq, Structural)]
pub struct NodeDeactivated {
    pub operator: Identity,
    pub timestamp: i64,
}

#[derive(Clone, Copy, Debug, PartialEq, Eq, Structural)]
pub struct NodeReactivated {
    pub operator: Identity,
    pub timestamp: i64,
}

/// Length of a string in bytes of its UTF-8 encoding, as `str::len` reports it.
pub open spec fn byte_len(s: Seq<char>) -> int {
    vstd::utf8::encode_utf8(s).len() as usize as int
}

/// The node that registration creates for `operator`: inactive, without
/// stake, with full reputation and all counters at zero.
pub open spec fn is_new_node(
    node: NodeAccount,
    operator: Identity,
    location: Seq<char>,
    ip_address: Seq<char>,
    bandwidth_gbps: u16,
    now: i64,
) -> bool {
    &&& node.operator == operator
    &&& node.stake_amount == 0
    &&& node.reputation == 100
    &&& node.location@ == location
    &&& node.ip_address@ == ip_address
    &&& node.bandwidth_gbps == bandwidth_gbps
    &&& node.total_bandwidth_served == 0
    &&& node.uptime_percentage == 100
    &&& node.last_heartbeat == now
    &&& node.earnings_accumulated == 0
    &&& !node.is_active
    &&& node.registered_at == now
    &&& node.unbonding_until == 0
    &&& node.slash_count == 0
}

/// Registry and node after a deposit of `amount`.
pub open spec fn stake_effect(registry: GlobalRegistry, node: NodeAccount, amount: u64) -> (
    GlobalRegistry,
    NodeAccount,
) {
    let stake = (node.stake_amount + amount) as u64;
    (
        GlobalRegistry { total_stake: (registry.total_stake + amount) as u64, ..registry },
        NodeAccount {
            stake_amount: stake,
            is_active: node.is_active || stake >= MIN_STAKE,
            ..node
        },
    )
}

/// The deposit moves `amount` from the operator into its stake escrow.
pub open spec fn stake_transfer(operator: Identity, amount: u64) -> EscrowTransfer {
    EscrowTransfer {
        from: EscrowKey::Account(operator),
        to: EscrowKey::StakeVault(operator),
        amount,
    }
}

/// Node after an unstake request at `now`.
pub open spec fn unstake_effect(node: NodeAccount, now: i64) -> NodeAccount {
    NodeAccount { unbonding_until: (now + UNBONDING_PERIOD) as i64, is_active: false, ..node }
}

/// Registry and node after the whole stake is withdrawn.
pub open spec fn withdraw_effect(registry: GlobalRegistry, node: NodeAccount) -> (
    GlobalRegistry,
    NodeAccount,
) {
    (
        GlobalRegistry {
            total_stake: (registry.total_stake - node.stake_amount) as u64,
            ..registry
        },
        NodeAccount { stake_amount: 0, unbonding_until: 0, ..node },
    )
}

/// The withdrawal moves the whole stake from escrow back to the operator.
pub open spec fn withdraw_transfer(operator: Identity, node: NodeAccount) -> EscrowTransfer {
    EscrowTransfer {
        from: EscrowKey::StakeVault(operator),
        to: EscrowKey::Account(operator),
        amount: node.stake_amount,
    }
}

/// Registry and node after a heartbeat reporting `served` units at `now`.
pub open spec fn heartbeat_effect(
    registry: GlobalRegistry,
    node: NodeAccount,
    served: u64,
    now: i64,
) -> (GlobalRegistry, NodeAccount) {
    (
        GlobalRegistry {
            total_bandwidth_served: (registry.total_bandwidth_served + served) as u64,
            ..registry
        },
        NodeAccount {
            last_heartbeat: now,
            total_bandwidth_served: (node.total_bandwidth_served + served) as u64,
            ..node
        },
    )
}

/// Registry and node after a slash for `violation_type`.
pub open spec fn slash_effect(
    registry: GlobalRegistry,
    node: NodeAccount,
    violation_type: ViolationType,
) -> (GlobalRegistry, NodeAccount) {
    let slashed = slash_amount_of(node.stake_amount, violation_type);
    let remaining = (node.stake_amount - slashed) as u64;
    (
        GlobalRegistry { total_stake: (registry.total_stake - slashed) as u64, ..registry },
        NodeAccount {
            stake_amount: remaining,
            slash_count: (node.slash_count + 1) as u16,
            is_active: remaining >= MIN_STAKE,
            ..node
        },
    )
}

/// The slash moves the forfeited stake from escrow to the protocol fee vault.
pub open spec fn slash_transfer(
    registry: GlobalRegistry,
    node: NodeAccount,
    violation_type: ViolationType,
) -> EscrowTransfer {
    EscrowTransfer {
        from: EscrowKey::StakeVault(node.operator),
        to: EscrowKey::Account(registry.protocol_fee_vault),
        amount: slash_amount_of(node.stake_amount, violation_type) as u64,
    }
}

/// Registry and node after gross earnings of `amount` are recorded.
pub open spec fn earnings_effect(registry: GlobalRegistry, node: NodeAccount, amount: u64) -> (
    GlobalRegistry,
    NodeAccount,
) {
    (
        GlobalRegistry {
            total_earnings_distributed: (registry.total_earnings_distributed + amount) as u64,
            ..registry
        },
        NodeAccount {
            earnings_accumulated: (node.earnings_accumulated + (amount - protocol_fee_of(
                amount,
            ))) as u64,
            ..node
        },
    )
}

/// The claim pays all accumulated earnings from the earnings escrow.
pub open spec fn claim_transfer(operator: Identity, node: NodeAccount) -> EscrowTransfer {
    EscrowTransfer {
        from: EscrowKey::EarningsVault,
        to: EscrowKey::Account(operator),
        amount: node.earnings_accumulated,
    }
}

/// Creates the registry with no nodes and no stake.
pub fn initialize(authority: Identity, protocol_fee_vault: Identity, now: i64) -> (r: (
    GlobalRegistry,
    RegistryInitialized,
))
    ensures
        r.0 == (GlobalRegistry {
            authority,
            total_nodes: 0,
            total_stake: 0,
            protocol_fee_vault,
            total_bandwidth_served: 0,
            total_earnings_distributed: 0,
        }),
        r.1 == (RegistryInitialized { authority, timestamp: now }),
{
    let registry = GlobalRegistry {
        authority,
        total_nodes: 0,
        total_stake: 0,
        protocol_fee_vault,
        total_bandwidth_served: 0,
        total_earnings_distributed: 0,
    };
    (registry, RegistryInitialized { authority, timestamp: now })
}

pub open spec fn register_error(
    registry: GlobalRegistry,
    location: Seq<char>,
    ip_address: Seq<char>,
    bandwidth_gbps: u16,
) -> Option<ErrorCode> {
    if byte_len(location) > MAX_LOCATION_LEN {
        Some(ErrorCode::LocationTooLong)
    } else if byte_len(ip_address) > MAX_IP_ADDRESS_LEN {
        Some(ErrorCode::IpAddressTooLong)
    } else if bandwidth_gbps == 0 {
        Some(ErrorCode::InvalidBandwidth)
    } else if registry.total_nodes == u32::MAX {
        Some(ErrorCode::ArithmeticOverflow)
    } else {
        None
    }
}

/// Registers a node for `operator`: inactive, without stake, with full
/// reputation. The registry counts one more node.
pub fn register_node(
    registry: &mut GlobalRegistry,
    operator: Identity,
    location: String,
    ip_address: String,
    bandwidth_gbps: u16,
    now: i64,
) -> (r: Result<(NodeAccount, NodeRegistered), ErrorCode>)
    ensures
        match register_error(*old(registry), location@, ip_address@, bandwidth_gbps) {
            Some(e) => r == Err::<(NodeAccount, NodeRegistered), ErrorCode>(e) && *final(registry)
                == *old(registry),
            None => r is Ok && {
                let (node, event) = r->Ok_0;
                &&& *final(registry) == (GlobalRegistry {
                    total_nodes: (old(registry).total_nodes + 1) as u32,
                    ..*old(registry)
                })
                &&& is_new_node(node, operator, location@, ip_address@, bandwidth_gbps, now)
                &&& event.operator == operator
                &&& event.location@ == location@
                &&& event.ip_address@ == ip_address@
                &&& event.bandwidth_gbps == bandwidth_gbps
                &&& event.timestamp == now
            },
        },
{
    if location.as_str().len() > MAX_LOCATION_LEN {
        return Err(ErrorCode::LocationTooLong);
    }
    if ip_address.as_str().len() > MAX_IP_ADDRESS_LEN {
        return Err(ErrorCode::IpAddressTooLong);
    }
    if bandwidth_gbps == 0 {
        return Err(ErrorCode::InvalidBandwidth);
    }
    if registry.total_nodes == u32::MAX {
        return Err(ErrorCode::ArithmeticOverflow);
    }
    let event = NodeRegistered {
        operator,
        location: location.clone(),
        ip_address: ip_address.clone(),
        bandwidth_gbps,
        timestamp: now,
    };
    let node = NodeAccount {
        operator,
        stake_amount: 0,
        reputation: 100,
        location,
        ip_address,
        bandwidth_gbps,
        total_bandwidth_served: 0,
        uptime_percentage: 100,
        last_heartbeat: now,
        earnings_accumulated: 0,
        is_active: false,
        registered_at: now,
        unbonding_until: 0,
        slash_count: 0,
    };
    registry.total_nodes = registry.total_nodes + 1;
    Ok((node, event))
}

pub open spec fn stake_error(
    registry: GlobalRegistry,
    node: NodeAccount,
    signer: Identity,
    amount: u64,
) -> Option<ErrorCode> {
    if signer != node.operator {
        Some(ErrorCode::Unauthorized)
    } else if amount < MIN_STAKE {
        Some(ErrorCode::InsufficientStake)
    } else if node.stake_amount + amount > u64::MAX || registry.total_stake + amount > u64::MAX {
        Some(ErrorCode::ArithmeticOverflow)
    } else {
        None
    }
}

/// Deposits `amount` into the operator's stake escrow. The node becomes
/// active once its stake reaches `MIN_STAKE`.
pub fn stake_sol(
    registry: &mut GlobalRegistry,
    node: &mut NodeAccount,
    signer: Identity,
    amount: u64,
    now: i64,
) -> (r: Result<(StakeDeposited, EscrowTransfer), ErrorCode>)
    ensures
        match stake_error(*old(registry), *old(node), signer, amount) {
            Some(e) => r == Err::<(StakeDeposited, EscrowTransfer), ErrorCode>(e)
                && *final(registry) == *old(registry) && *final(node) == *old(node),
            None => {
                let (reg, n) = stake_effect(*old(registry), *old(node), amount);
                &&& *final(registry) == reg
                &&& *final(node) == n
                &&& r == Ok::<(StakeDeposited, EscrowTransfer), ErrorCode>(
                    (
                        StakeDeposited {
                            operator: old(node).operator,
                            amount,
                            total_stake: n.stake_amount,
                            timestamp: now,
                        },
                        stake_transfer(signer, amount),
                    ),
                )
            },
        },
{
    if signer != node.operator {
        return Err(ErrorCode::Unauthorized);
    }
    if amount < MIN_STAKE {
        return Err(ErrorCode::InsufficientStake);
    }
    if node.stake_amount > u64::MAX - amount || registry.total_stake > u64::MAX - amount {
        return Err(ErrorCode::ArithmeticOverflow);
    }
    node.stake_amount = node.stake_amount + amount;
    registry.total_stake = registry.total_stake + amount;
    if node.stake_amount >= MIN_STAKE && !node.is_active {
        node.is_active = true;
    }
    let event = StakeDeposited {
        operator: node.operator,
        amount,
        total_stake: node.stake_amount,
        timestamp: now,
    };
    Ok((event, EscrowTransfer::new(EscrowKey::Account(signer), EscrowKey::StakeVault(signer), amount)))
}

pub open spec fn unstake_error(node: NodeAccount, signer: Identity, amount: u64, now: i64) -> Option<
    ErrorCode,
> {
    if signer != node.operator {
        Some(ErrorCode::Unauthorized)
    } else if node.stake_amount < amount {
        Some(ErrorCode::InsufficientBalance)
    } else if node.stake_amount - amount != 0 && node.stake_amount - amount < MIN_STAKE {
        Some(ErrorCode::InsufficientStake)
    } else if now + UNBONDING_PERIOD > i64::MAX {
        Some(ErrorCode::ArithmeticOverflow)
    } else {
        None
    }
}

/// Starts the unbonding timelock and deactivates the node. What would remain
/// staked must be zero or at least `MIN_STAKE`. No funds move: the whole
/// stake stays escrowed until it is withdrawn.
pub fn unstake_sol(node: &mut NodeAccount, signer: Identity, amount: u64, now: i64) -> (r: Result<
    UnstakeInitiated,
    ErrorCode,
>)
    ensures
        signer == old(node).operator && amount <= old(node).stake_amount && 0 < old(
            node,
        ).stake_amount - amount < MIN_STAKE ==> r == Err::<UnstakeInitiated, ErrorCode>(
            ErrorCode::InsufficientStake,
        ) && *final(node) == *old(node),
        match unstake_error(*old(node), signer, amount, now) {
            Some(e) => r == Err::<UnstakeInitiated, ErrorCode>(e) && *final(node) == *old(node),
            None => {
                &&& *final(node) == unstake_effect(*old(node), now)
                &&& r == Ok::<UnstakeInitiated, ErrorCode>(
                    UnstakeInitiated {
                        operator: old(node).operator,
                        amount,
                        unbonding_until: (now + UNBONDING_PERIOD) as i64,
                        timestamp: now,
                    },
                )
            },
        },
{
    if signer != node.operator {
        return Err(ErrorCode::Unauthorized);
    }
    if node.stake_amount < amount {
        return Err(ErrorCode::InsufficientBalance);
    }
    let remaining = node.stake_amount - amount;
    if remaining != 0 && remaining < MIN_STAKE {
        return Err(ErrorCode::InsufficientStake);
    }
    if now > i64::MAX - UNBONDING_PERIOD {
        return Err(ErrorCode::ArithmeticOverflow);
    }
    node.unbonding_until = now + UNBONDING_PERIOD;
    node.is_active = false;
    Ok(
        UnstakeInitiated {
            operator: node.operator,
            amount,
            unbonding_until: node.unbonding_until,
            timestamp: now,
        },
    )
}

pub open spec fn withdraw_error(
    registry: GlobalRegistry,
    node: NodeAccount,
    signer: Identity,
    now: i64,
) -> Option<ErrorCode> {
    if signer != node.operator {
        Some(ErrorCode::Unauthorized)
    } else if node.unbonding_until <= 0 {
        Some(ErrorCode::NoUnbondingInProgress)
    } else if now < node.unbonding_until {
        Some(ErrorCode::UnbondingPeriodActive)
    } else if registry.total_stake < node.stake_amount {
        Some(ErrorCode::ArithmeticOverflow)
    } else {
        None
    }
}

/// Once the timelock has elapsed (`now >= unbonding_until`), releases the
/// whole stake from escrow to the operator and clears the timer.
pub fn withdraw_unstaked(
    registry: &mut GlobalRegistry,
    node: &mut NodeAccount,
    signer: Identity,
    now: i64,
) -> (r: Result<(StakeWithdrawn, EscrowTransfer), ErrorCode>)
    ensures
        signer == old(node).operator && old(node).unbonding_until > 0 && now < old(
            node,
        ).unbonding_until ==> r == Err::<(StakeWithdrawn, EscrowTransfer), ErrorCode>(
            ErrorCode::UnbondingPeriodActive,
        ) && *final(node) == *old(node),
        signer == old(node).operator && old(node).unbonding_until > 0 && now == old(
            node,
        ).unbonding_until && old(registry).total_stake >= old(node).stake_amount ==> r is Ok,
        match withdraw_error(*old(registry), *old(node), signer, now) {
            Some(e) => r == Err::<(StakeWithdrawn, EscrowTransfer), ErrorCode>(e)
                && *final(registry) == *old(registry) && *final(node) == *old(node),
            None => {
                let amount = old(node).stake_amount;
                let (reg, n) = withdraw_effect(*old(registry), *old(node));
                &&& *final(registry) == reg
                &&& *final(node) == n
                &&& r == Ok::<(StakeWithdrawn, EscrowTransfer), ErrorCode>(
                    (
                        StakeWithdrawn { operator: old(node).operator, amount, timestamp: now },
                        withdraw_transfer(signer, *old(node)),
                    ),
                )
            },
        },
{
    if signer != node.operator {
        return Err(ErrorCode::Unauthorized);
    }
    if node.unbonding_until <= 0 {
        return Err(ErrorCode::NoUnbondingInProgress);
    }
    if now < node.unbonding_until {
        return Err(ErrorCode::UnbondingPeriodActive);
    }
    let amount = node.stake_amount;
    if registry.total_stake < amount {
        return Err(ErrorCode::ArithmeticOverflow);
    }
    node.stake_amount = 0;
    node.unbonding_until = 0;
    registry.total_stake = registry.total_stake - amount;
    let event = StakeWithdrawn { operator: node.operator, amount, timestamp: now };
    Ok((event, EscrowTransfer::new(EscrowKey::StakeVault(signer), EscrowKey::Account(signer), amount)))
}

pub open spec fn heartbeat_error(
    registry: GlobalRegistry,
    node: NodeAccount,
    signer: Identity,
    bandwidth_served_gb: u64,
) -> Option<ErrorCode> {
    if signer != node.operator {
        Some(ErrorCode::Unauthorized)
    } else if !node.is_active {
        Some(ErrorCode::NodeNotActive)
    } else if node.total_bandwidth_served + bandwidth_served_gb > u64::MAX
        || registry.total_bandwidth_served + bandwidth_served_gb > u64::MAX {
        Some(ErrorCode::ArithmeticOverflow)
    } else {
        None
    }
}

/// Records a heartbeat of an active node and the bandwidth it served since
/// the last one, on the node and on the registry.
pub fn update_heartbeat(
    registry: &mut GlobalRegistry,
    node: &mut NodeAccount,
    signer: Identity,
    bandwidth_served_gb: u64,
    now: i64,
) -> (r: Result<HeartbeatUpdated, ErrorCode>)
    ensures
        match heartbeat_error(*old(registry), *old(node), signer, bandwidth_served_gb) {
            Some(e) => r == Err::<HeartbeatUpdated, ErrorCode>(e) && *final(registry) == *old(
                registry,
            ) && *final(node) == *old(node),
            None => {
                let (reg, n) = heartbeat_effect(*old(registry), *old(node), bandwidth_served_gb, now);
                &&& *final(registry) == reg
                &&& *final(node) == n
                &&& r == Ok::<HeartbeatUpdated, ErrorCode>(
                    HeartbeatUpdated {
                        operator: old(node).operator,
                        timestamp: now,
                        bandwidth_served_gb,
                    },
                )
            },
        },
{
    if signer != node.operator {
        return Err(ErrorCode::Unauthorized);
    }
    if !node.is_active {
        return Err(ErrorCode::NodeNotActive);
    }
    if node.total_bandwidth_served > u64::MAX - bandwidth_served_gb
        || registry.total_bandwidth_served > u64::MAX - bandwidth_served_gb {
        return Err(ErrorCode::ArithmeticOverflow);
    }
    node.last_heartbeat = now;
    node.total_bandwidth_served = node.total_bandwidth_served + bandwidth_served_gb;
    registry.total_bandwidth_served = registry.total_bandwidth_served + bandwidth_served_gb;
    Ok(HeartbeatUpdated { operator: node.operator, timestamp: now, bandwidth_served_gb })
}

pub open spec fn reputation_error(registry: GlobalRegistry, signer: Identity, new_score: u8) -> Option<
    ErrorCode,
> {
    if signer != registry.authority {
        Some(ErrorCode::Unauthorized)
    } else if new_score > 100 {
        Some(ErrorCode::InvalidReputation)
    } else {
        None
    }
}

/// Overwrites a node's reputation with a score in `0..=100`; registry
/// authority only.
pub fn update_reputation(
    registry: &GlobalRegistry,
    node: &mut NodeAccount,
    signer: Identity,
    new_score: u8,
    now: i64,
) -> (r: Result<ReputationUpdated, ErrorCode>)
    ensures
        match reputation_error(*registry, signer, new_score) {
            Some(e) => r == Err::<ReputationUpdated, ErrorCode>(e) && *final(node) == *old(node),
            None => {
                &&& *final(node) == (NodeAccount { reputation: new_score, ..*old(node) })
                &&& r == Ok::<ReputationUpdated, ErrorCode>(
                    ReputationUpdated {
                        operator: old(node).operator,
                        old_score: old(node).reputation,
                        new_score,
                        timestamp: now,
                    },
                )
            },
        },
{
    if signer != registry.authority {
        return Err(ErrorCode::Unauthorized);
    }
    if new_score > 100 {
        return Err(ErrorCode::InvalidReputation);
    }
    let old_score = node.reputation;
    node.reputation = new_score;
    Ok(ReputationUpdated { operator: node.operator, old_score, new_score, timestamp: now })
}

/// Basis points of stake forfeited for a violation.
pub open spec fn slash_bps(violation_type: ViolationType) -> u64 {
    match violation_type {
        ViolationType::Downtime => DOWNTIME_SLASH_BPS as u64,
        ViolationType::Malicious => MALICIOUS_SLASH_BPS as u64,
    }
}

/// Amount forfeited from `stake` for a violation.
pub open spec fn slash_amount_of(stake: u64, violation_type: ViolationType) -> int {
    stake * slash_bps(violation_type) / 10000
}

/// A slash never takes more than the stake.
pub proof fn lemma_slash_amount_bounded(stake: u64, violation_type: ViolationType)
    ensures
        0 <= slash_amount_of(stake, violation_type) <= stake,
{
    let bps = slash_bps(violation_type);
    assert(0 <= stake * bps / 10000 <= stake) by (nonlinear_arith)
        requires
            0 <= bps <= 10000,
    ;
}

pub open spec fn slash_error(
    registry: GlobalRegistry,
    node: NodeAccount,
    signer: Identity,
    violation_type: ViolationType,
) -> Option<ErrorCode> {
    if signer != registry.authority {
        Some(ErrorCode::Unauthorized)
    } else if !node.is_active {
        Some(ErrorCode::NodeNotActive)
    } else if node.stake_amount * slash_bps(violation_type) > u64::MAX || node.slash_count
        == u16::MAX || registry.total_stake < slash_amount_of(node.stake_amount, violation_type) {
        Some(ErrorCode::ArithmeticOverflow)
    } else {
        None
    }
}

/// Forfeits a share of an active node's stake, by violation kind, to the
/// protocol fee vault; registry authority only. The node is deactivated when
/// what remains is below `MIN_STAKE`.
pub fn slash_node(
    registry: &mut GlobalRegistry,
    node: &mut NodeAccount,
    signer: Identity,
    violation_type: ViolationType,
    now: i64,
) -> (r: Result<(NodeSlashed, EscrowTransfer), ErrorCode>)
    ensures
        match slash_error(*old(registry), *old(node), signer, violation_type) {
            Some(e) => r == Err::<(NodeSlashed, EscrowTransfer), ErrorCode>(e)
                && *final(registry) == *old(registry) && *final(node) == *old(node),
            None => {
                let slashed = slash_amount_of(old(node).stake_amount, violation_type);
                let (reg, n) = slash_effect(*old(registry), *old(node), violation_type);
                let remaining = n.stake_amount;
                &&& *final(registry) == reg
                &&& *final(node) == n
                &&& r == Ok::<(NodeSlashed, EscrowTransfer), ErrorCode>(
                    (
                        NodeSlashed {
                            operator: old(node).operator,
                            violation_type,
                            slash_amount: slashed as u64,
                            remaining_stake: remaining,
                            timestamp: now,
                        },
                        slash_transfer(*old(registry), *old(node), violation_type),
                    ),
                )
            },
        },
{
    if signer != registry.authority {
        return Err(ErrorCode::Unauthorized);
    }
    if !node.is_active {
        return Err(ErrorCode::NodeNotActive);
    }
    let bps: u64 = match violation_type {
        ViolationType::Downtime => DOWNTIME_SLASH_BPS as u64,
        ViolationType::Malicious => MALICIOUS_SLASH_BPS as u64,
    };
    if node.stake_amount > u64::MAX / bps {
        proof {
            assert(node.stake_amount * bps > u64::MAX) by (nonlinear_arith)
                requires
                    node.stake_amount > u64::MAX / bps,
                    bps > 0,
            ;
        }
        return Err(ErrorCode::ArithmeticOverflow);
    }
    proof {
        assert(node.stake_amount * bps <= u64::MAX) by (nonlinear_arith)
            requires
                node.stake_amount <= u64::MAX / bps,
                bps > 0,
        ;
    }
    let slash_amount = node.stake_amount * bps / 10000;
    if node.slash_count == u16::MAX || registry.total_stake < slash_amount {
        return Err(ErrorCode::ArithmeticOverflow);
    }
    proof {
        assert(slash_amount <= node.stake_amount) by (nonlinear_arith)
            requires
                slash_amount == node.stake_amount * bps / 10000,
                bps <= 10000,
        ;
    }
    node.stake_amount = node.stake_amount - slash_amount;
    node.slash_count = node.slash_count + 1;
    registry.total_stake = registry.total_stake - slash_amount;
    if node.stake_amount < MIN_STAKE {
        node.is_active = false;
    }
    let event = NodeSlashed {
        operator: node.operator,
        violation_type,
        slash_amount,
        remaining_stake: node.stake_amount,
        timestamp: now,
    };
    let transfer = EscrowTransfer::new(
        EscrowKey::StakeVault(node.operator),
        EscrowKey::Account(registry.protocol_fee_vault),
        slash_amount,
    );
    Ok((event, transfer))
}

/// The protocol's fee out of gross earnings `amount`.
pub open spec fn protocol_fee_of(amount: u64) -> int {
    amount * PROTOCOL_FEE_BPS / 10000
}

pub open spec fn earnings_error(
    registry: GlobalRegistry,
    node: NodeAccount,
    signer: Identity,
    amount: u64,
) -> Option<ErrorCode> {
    if signer != node.operator {
        Some(ErrorCode::Unauthorized)
    } else if !node.is_active {
        Some(ErrorCode::NodeNotActive)
    } else if amount * PROTOCOL_FEE_BPS > u64::MAX || node.earnings_accumulated + (amount
        - protocol_fee_of(amount)) > u64::MAX || registry.total_earnings_distributed + amount
        > u64::MAX {
        Some(ErrorCode::ArithmeticOverflow)
    } else {
        None
    }
}

/// Splits gross earnings into the protocol fee and the operator's share,
/// adds the share to the node's claimable earnings and the gross amount to
/// the registry's total.
pub fn record_earnings(
    registry: &mut GlobalRegistry,
    node: &mut NodeAccount,
    signer: Identity,
    amount: u64,
    now: i64,
) -> (r: Result<EarningsRecorded, ErrorCode>)
    ensures
        match earnings_error(*old(registry), *old(node), signer, amount) {
            Some(e) => r == Err::<EarningsRecorded, ErrorCode>(e) && *final(registry) == *old(
                registry,
            ) && *final(node) == *old(node),
            None => {
                let fee = protocol_fee_of(amount);
                let (reg, n) = earnings_effect(*old(registry), *old(node), amount);
                &&& *final(registry) == reg
                &&& *final(node) == n
                &&& r == Ok::<EarningsRecorded, ErrorCode>(
                    EarningsRecorded {
                        operator: old(node).operator,
                        amount: (amount - fee) as u64,
                        protocol_fee: fee as u64,
                        timestamp: now,
                    },
                )
            },
        },
{
    if signer != node.operator {
        return Err(ErrorCode::Unauthorized);
    }
    if !node.is_active {
        return Err(ErrorCode::NodeNotActive);
    }
    let bps = PROTOCOL_FEE_BPS as u64;
    if amount > u64::MAX / bps {
        proof {
            assert(amount * bps > u64::MAX) by (nonlinear_arith)
                requires
                    amount > u64::MAX / bps,
                    bps > 0,
            ;
        }
        return Err(ErrorCode::ArithmeticOverflow);
    }
    proof {
        assert(amount * bps <= u64::MAX) by (nonlinear_arith)
            requires
                amount <= u64::MAX / bps,
                bps > 0,
        ;
    }
    let protocol_fee = amount * bps / 10000;
    proof {
        assert(protocol_fee <= amount) by (nonlinear_arith)
            requires
                protocol_fee == amount * bps / 10000,
                bps <= 10000,
        ;
    }
    let operator_earnings = amount - protocol_fee;
    if node.earnings_accumulated > u64::MAX - operator_earnings
        || registry.total_earnings_distributed > u64::MAX - amount {
        return Err(ErrorCode::ArithmeticOverflow);
    }
    node.earnings_accumulated = node.earnings_accumulated + operator_earnings;
    registry.total_earnings_distributed = registry.total_earnings_distributed + amount;
    Ok(
        EarningsRecorded {
            operator: node.operator,
            amount: operator_earnings,
            protocol_fee,
            timestamp: now,
        },
    )
}

pub open spec fn claim_error(node: NodeAccount, signer: Identity) -> Option<ErrorCode> {
    if signer != node.operator {
        Some(ErrorCode::Unauthorized)
    } else if node.earnings_accumulated == 0 {
        Some(ErrorCode::NoEarningsToClaim)
    } else {
        None
    }
}

/// Pays out all accumulated earnings from the protocol's earnings escrow.
///
/// Nothing in this registry moves funds into that escrow: it is topped up
/// from outside, and the runtime's transfer fails (and with it the whole
/// claim) when it holds less than the claim. Claims therefore never overdraw
/// it, and an unpaid claim stays accumulated.
pub fn claim_earnings(node: &mut NodeAccount, signer: Identity, now: i64) -> (r: Result<
    (EarningsClaimed, EscrowTransfer),
    ErrorCode,
>)
    ensures
        match claim_error(*old(node), signer) {
            Some(e) => r == Err::<(EarningsClaimed, EscrowTransfer), ErrorCode>(e) && *final(node)
                == *old(node),
            None => {
                let amount = old(node).earnings_accumulated;
                &&& *final(node) == (NodeAccount { earnings_accumulated: 0, ..*old(node) })
                &&& r == Ok::<(EarningsClaimed, EscrowTransfer), ErrorCode>(
                    (
                        EarningsClaimed { operator: old(node).operator, amount, timestamp: now },
                        claim_transfer(signer, *old(node)),
                    ),
                )
            },
        },
{
    if signer != node.operator {
        return Err(ErrorCode::Unauthorized);
    }
    if node.earnings_accumulated == 0 {
        return Err(ErrorCode::NoEarningsToClaim);
    }
    let amount = node.earnings_accumulated;
    node.earnings_accumulated = 0;
    let event = EarningsClaimed { operator: node.operator, amount, timestamp: now };
    Ok((event, EscrowTransfer::new(EscrowKey::EarningsVault, EscrowKey::Account(signer), amount)))
}

pub open spec fn deactivate_error(node: NodeAccount, signer: Identity) -> Option<ErrorCode> {
    if signer != node.operator {
        Some(ErrorCode::Unauthorized)
    } else if !node.is_active {
        Some(ErrorCode::NodeNotActive)
    } else {
        None
    }
}

/// Takes an active node out of service.
pub fn deactivate_node(node: &mut NodeAccount, signer: Identity, now: i64) -> (r: Result<
    NodeDeactivated,
    ErrorCode,
>)
    ensures
        match deactivate_error(*old(node), signer) {
            Some(e) => r == Err::<NodeDeactivated, ErrorCode>(e) && *final(node) == *old(node),
            None => *final(node) == (NodeAccount { is_active: false, ..*old(node) }) && r == Ok::<
                NodeDeactivated,
                ErrorCode,
            >(NodeDeactivated { operator: old(node).operator, timestamp: now }),
        },
{
    if signer != node.operator {
        return Err(ErrorCode::Unauthorized);
    }
    if !node.is_active {
        return Err(ErrorCode::NodeNotActive);
    }
    node.is_active = false;
    Ok(NodeDeactivated { operator: node.operator, timestamp: now })
}

pub open spec fn reactivate_error(node: NodeAccount, signer: Identity) -> Option<ErrorCode> {
    if signer != node.operator {
        Some(ErrorCode::Unauthorized)
    } else if node.is_active {
        Some(ErrorCode::NodeAlreadyActive)
    } else if node.stake_amount < MIN_STAKE {
        Some(ErrorCode::InsufficientStake)
    } else if node.reputation < MIN_REPUTATION {
        Some(ErrorCode::LowReputation)
    } else {
        None
    }
}

/// Puts an inactive node back in service, given enough stake and reputation.
pub fn reactivate_node(node: &mut NodeAccount, signer: Identity, now: i64) -> (r: Result<
    NodeReactivated,
    ErrorCode,
>)
    ensures
        match reactivate_error(*old(node), signer) {
            Some(e) => r == Err::<NodeReactivated, ErrorCode>(e) && *final(node) == *old(node),
            None => *final(node) == (NodeAccount { is_active: true, ..*old(node) }) && r == Ok::<
                NodeReactivated,
                ErrorCode,
            >(NodeReactivated { operator: old(node).operator, timestamp: now }),
        },
{
    if signer != node.operator {
        return Err(ErrorCode::Unauthorized);
    }
    if node.is_active {
        return Err(ErrorCode::NodeAlreadyActive);
    }
    if node.stake_amount < MIN_STAKE {
        return Err(ErrorCode::InsufficientStake);
    }
    if node.reputation < MIN_REPUTATION {
        return Err(ErrorCode::LowReputation);
    }
    node.is_active = true;
    Ok(NodeReactivated { operator: node.operator, timestamp: now })
}

} // verus!
