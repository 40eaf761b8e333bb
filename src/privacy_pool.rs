//! Sponsorship pools: a sponsor funds a pool, whitelists beneficiaries with
//! personal allocations, and beneficiaries redeem against both their own
//! allocation and the pool's remaining funding.
use vstd::prelude::*;
use vstd::arithmetic::div_mod::lemma_div_is_ordered;
use crate::ledger::{EscrowKey, EscrowTransfer, Identity};
use crate::node_registry::byte_len;

verus! {

/// Smallest per-beneficiary allocation, in units.
pub const MIN_ALLOCATION_GB: u64 = 1;

/// Longest pool name, in bytes.
pub const MAX_POOL_NAME_LEN: usize = 128;

#[derive(Clone, Debug)]
pub struct PoolAccount {
    pub sponsor: Identity,
    pub pool_id: u64,
    pub name: String,
    pub token_mint: Identity,
    pub total_funded: u64,
    pub total_used: u64,
    pub beneficiary_count: u32,
    pub allocation_per_user: u64,
    pub is_active: bool,
    pub created_at: i64,
    pub auto_refill_threshold: u64,
    pub auto_refill_enabled: bool,
}

#[derive(Clone, Copy, Debug, PartialEq, Eq, Structural)]
pub struct BeneficiaryAccess {
    pub pool_id: u64,
    pub beneficiary: Identity,
    pub allocated_gb: u64,
    pub used_gb: u64,
    pub last_used: i64,
    pub is_whitelisted: bool,
    pub added_at: i64,
}

#[derive(Clone, Copy, Debug, PartialEq, Eq, Structural)]
pub enum ErrorCode {
    PoolNameTooLong,
    InvalidFunding,
    AllocationTooSmall,
    PoolNotActive,
    PoolFull,
    BeneficiaryNotWhitelisted,
    InvalidBandwidth,
    InsufficientAllocation,
    InsufficientPoolBalance,
    /// The signer, or a record handed in with the pool, does not belong to it.
    Unauthorized,
    /// A checked addition or subtraction left the range of its type.
    ArithmeticOverflow,
    /// The beneficiary is already whitelisted in this pool.
    BeneficiaryAlreadyWhitelisted,
}

#[derive(Clone, Debug)]
pub struct PoolCreated {
    pub pool_id: u64,
    pub sponsor: Identity,
    pub name: String,
    pub total_funding: u64,
    pub allocation_per_user: u64,
    pub timestamp: i64,
}

#[derive(Clone, Copy, Debug, PartialEq, Eq, Structural)]
pub struct BeneficiaryAdded {
    pub pool_id: u64,
    pub beneficiary: Identity,
    pub allocated_gb: u64,
    pub timestamp: i64,
}

#[derive(Clone, Copy, Debug, PartialEq, Eq, Structural)]
pub struct BeneficiaryRemoved {
    pub pool_id: u64,
    pub beneficiary: Identity,
    pub timestamp: i64,
}

#[derive(Clone, Copy, Debug, PartialEq, Eq, Structural)]
pub struct PoolFunded {
    pub pool_id: u64,
    pub sponsor: Identity,
    pub amount: u64,
    pub new_balance: u64,
    pub timestamp: i64,
}

#[derive(Clone, Copy, Debug, PartialEq, Eq, Structural)]
pub struct AccessRedeemed {
    pub pool_id: u64,
    pub beneficiary: Identity,
    pub bandwidth_gb: u64,
    pub remaining_allocation: u64,
    pub timestamp: i64,
}

#[derive(Clone, Copy, Debug, PartialEq, Eq, Structural)]
pub struct PoolClosed {
    pub pool_id: u64,
    pub sponsor: Identity,
    pub refunded_amount: u64,
    pub total_used: u64,
    pub timestamp: i64,
}

#[derive(Clone, Copy, Debug, PartialEq, Eq, Structural)]
pub struct AutoRefillTriggered {
    pub pool_id: u64,
    pub remaining_balance: u64,
    pub threshold: u64,
    pub timestamp: i64,
}

#[derive(Clone, Copy, Debug, PartialEq, Eq, Structural)]
pub struct AutoRefillUpdated {
    pub pool_id: u64,
    pub enabled: bool,
    pub threshold: u64,
    pub timestamp: i64,
}

#[derive(Clone, Copy, Debug, PartialEq, Eq, Structural)]
pub struct AllocationExtended {
    pub pool_id: u64,
    pub beneficiary: Identity,
    pub additional_gb: u64,
    pub new_allocation: u64,
    pub timestamp: i64,
}

/// Most beneficiaries a pool's funding admits.
pub open spec fn capacity_of(pool: PoolAccount) -> int {
    pool.total_funded as int / pool.allocation_per_user as int
}

impl PoolAccount {
    /// Use never exceeds funding, and the beneficiaries fit the capacity
    /// that funding gives.
    pub open spec fn wf(&self) -> bool {
        &&& self.total_used <= self.total_funded
        &&& self.allocation_per_user >= MIN_ALLOCATION_GB
        &&& self.beneficiary_count <= capacity_of(*self)
    }

    pub fn is_well_formed(&self) -> (r: bool)
        ensures
            r == self.wf(),
    {
        self.total_used <= self.total_funded && self.allocation_per_user >= MIN_ALLOCATION_GB
            && self.beneficiary_count as u64 <= self.total_funded / self.allocation_per_user
    }

    /// Funding not yet used.
    pub open spec fn remaining(&self) -> int {
        self.total_funded - self.total_used
    }
}

impl BeneficiaryAccess {
    /// A beneficiary never uses more than its allocation.
    pub open spec fn wf(&self) -> bool {
        self.used_gb <= self.allocated_gb
    }

    pub fn is_well_formed(&self) -> (r: bool)
        ensures
            r == self.wf(),
    {
        self.used_gb <= self.allocated_gb
    }
}

pub open spec fn create_error(name: Seq<char>, total_funding: u64, allocation_per_user: u64) -> Option<
    ErrorCode,
> {
    if byte_len(name) > MAX_POOL_NAME_LEN {
        Some(ErrorCode::PoolNameTooLong)
    } else if total_funding == 0 {
        Some(ErrorCode::InvalidFunding)
    } else if allocation_per_user < MIN_ALLOCATION_GB {
        Some(ErrorCode::AllocationTooSmall)
    } else {
        None
    }
}

/// Opens a pool funded by `sponsor` with `total_funding`, moved into the
/// pool's escrow. Auto-refill starts disabled, with a threshold of a fifth
/// of the funding.
pub fn create_pool(
    sponsor: Identity,
    pool_id: u64,
    name: String,
    token_mint: Identity,
    total_funding: u64,
    allocation_per_user: u64,
    now: i64,
) -> (r: Result<(PoolAccount, PoolCreated, EscrowTransfer), ErrorCode>)
    ensures
        match create_error(name@, total_funding, allocation_per_user) {
            Some(e) => r == Err::<(PoolAccount, PoolCreated, EscrowTransfer), ErrorCode>(e),
            None => r is Ok && {
                let (pool, event, transfer) = r->Ok_0;
                &&& pool.wf()
                &&& pool.sponsor == sponsor
                &&& pool.pool_id == pool_id
                &&& pool.name@ == name@
                &&& pool.token_mint == token_mint
                &&& pool.total_funded == total_funding
                &&& pool.total_used == 0
                &&& pool.beneficiary_count == 0
                &&& pool.allocation_per_user == allocation_per_user
                &&& pool.is_active
                &&& pool.created_at == now
                &&& pool.auto_refill_threshold == total_funding / 5
                &&& !pool.auto_refill_enabled
                &&& event.pool_id == pool_id
                &&& event.sponsor == sponsor
                &&& event.name@ == name@
                &&& event.total_funding == total_funding
                &&& event.allocation_per_user == allocation_per_user
                &&& event.timestamp == now
                &&& transfer == (EscrowTransfer {
                    from: EscrowKey::Account(sponsor),
                    to: EscrowKey::PoolVault(sponsor, pool_id),
                    amount: total_funding,
                })
            },
        },
{
    if name.as_str().len() > MAX_POOL_NAME_LEN {
        return Err(ErrorCode::PoolNameTooLong);
    }
    if total_funding == 0 {
        return Err(ErrorCode::InvalidFunding);
    }
    if allocation_per_user < MIN_ALLOCATION_GB {
        return Err(ErrorCode::AllocationTooSmall);
    }
    let event = PoolCreated {
        pool_id,
        sponsor,
        name: name.clone(),
        total_funding,
        allocation_per_user,
        timestamp: now,
    };
    let pool = PoolAccount {
        sponsor,
        pool_id,
        name,
        token_mint,
        total_funded: total_funding,
        total_used: 0,
        beneficiary_count: 0,
        allocation_per_user,
        is_active: true,
        created_at: now,
        auto_refill_threshold: total_funding / 5,
        auto_refill_enabled: false,
    };
    let transfer = EscrowTransfer::new(
        EscrowKey::Account(sponsor),
        EscrowKey::PoolVault(sponsor, pool_id),
        total_funding,
    );
    Ok((pool, event, transfer))
}

pub open spec fn add_error(
    pool: PoolAccount,
    signer: Identity,
    pool_id: u64,
    beneficiary: Identity,
    allocated_gb: u64,
    previous: Option<BeneficiaryAccess>,
) -> Option<ErrorCode> {
    if signer != pool.sponsor || pool_id != pool.pool_id {
        Some(ErrorCode::Unauthorized)
    } else if previous is Some && (previous->Some_0.pool_id != pool_id
        || previous->Some_0.beneficiary != beneficiary) {
        Some(ErrorCode::Unauthorized)
    } else if previous is Some && previous->Some_0.is_whitelisted {
        Some(ErrorCode::BeneficiaryAlreadyWhitelisted)
    } else if !pool.is_active {
        Some(ErrorCode::PoolNotActive)
    } else if allocated_gb < MIN_ALLOCATION_GB {
        Some(ErrorCode::AllocationTooSmall)
    } else if pool.beneficiary_count >= capacity_of(pool) {
        Some(ErrorCode::PoolFull)
    } else if pool.beneficiary_count == u32::MAX {
        Some(ErrorCode::ArithmeticOverflow)
    } else {
        None
    }
}

/// Whitelists `beneficiary` in the pool with `allocated_gb` units, while
/// the pool's funding admits another beneficiary. `previous` is the
/// beneficiary's earlier record in this pool, if one exists: a removed
/// beneficiary is re-admitted with a fresh record.
pub fn add_beneficiaries(
    pool: &mut PoolAccount,
    signer: Identity,
    pool_id: u64,
    beneficiary: Identity,
    allocated_gb: u64,
    previous: Option<BeneficiaryAccess>,
    now: i64,
) -> (r: Result<(BeneficiaryAccess, BeneficiaryAdded), ErrorCode>)
    requires
        old(pool).wf(),
    ensures
        final(pool).wf(),
        match add_error(*old(pool), signer, pool_id, beneficiary, allocated_gb, previous) {
            Some(e) => r == Err::<(BeneficiaryAccess, BeneficiaryAdded), ErrorCode>(e)
                && *final(pool) == *old(pool),
            None => {
                &&& *final(pool) == (PoolAccount {
                    beneficiary_count: (old(pool).beneficiary_count + 1) as u32,
                    ..*old(pool)
                })
                &&& r == Ok::<(BeneficiaryAccess, BeneficiaryAdded), ErrorCode>(
                    (
                        BeneficiaryAccess {
                            pool_id,
                            beneficiary,
                            allocated_gb,
                            used_gb: 0,
                            last_used: 0,
                            is_whitelisted: true,
                            added_at: now,
                        },
                        BeneficiaryAdded { pool_id, beneficiary, allocated_gb, timestamp: now },
                    ),
                )
            },
        },
{
    if signer != pool.sponsor || pool_id != pool.pool_id {
        return Err(ErrorCode::Unauthorized);
    }
    if let Some(earlier) = previous {
        if earlier.pool_id != pool_id || earlier.beneficiary != beneficiary {
            return Err(ErrorCode::Unauthorized);
        }
        if earlier.is_whitelisted {
            return Err(ErrorCode::BeneficiaryAlreadyWhitelisted);
        }
    }
    if !pool.is_active {
        return Err(ErrorCode::PoolNotActive);
    }
    if allocated_gb < MIN_ALLOCATION_GB {
        return Err(ErrorCode::AllocationTooSmall);
    }
    let max_beneficiaries = pool.total_funded / pool.allocation_per_user;
    if pool.beneficiary_count as u64 >= max_beneficiaries {
        return Err(ErrorCode::PoolFull);
    }
    if pool.beneficiary_count == u32::MAX {
        return Err(ErrorCode::ArithmeticOverflow);
    }
    let access = BeneficiaryAccess {
        pool_id,
        beneficiary,
        allocated_gb,
        used_gb: 0,
        last_used: 0,
        is_whitelisted: true,
        added_at: now,
    };
    pool.beneficiary_count = pool.beneficiary_count + 1;
    Ok((access, BeneficiaryAdded { pool_id, beneficiary, allocated_gb, timestamp: now }))
}

pub open spec fn remove_error(
    pool: PoolAccount,
    access: BeneficiaryAccess,
    signer: Identity,
    pool_id: u64,
) -> Option<ErrorCode> {
    if signer != pool.sponsor || pool_id != pool.pool_id || access.pool_id != pool_id {
        Some(ErrorCode::Unauthorized)
    } else if !access.is_whitelisted {
        Some(ErrorCode::BeneficiaryNotWhitelisted)
    } else if pool.beneficiary_count == 0 {
        Some(ErrorCode::ArithmeticOverflow)
    } else {
        None
    }
}

/// Takes a beneficiary off the whitelist. Its record stays, for history.
pub fn remove_beneficiary(
    pool: &mut PoolAccount,
    access: &mut BeneficiaryAccess,
    signer: Identity,
    pool_id: u64,
    now: i64,
) -> (r: Result<BeneficiaryRemoved, ErrorCode>)
    requires
        old(pool).wf(),
        old(access).wf(),
    ensures
        final(pool).wf(),
        final(access).wf(),
        match remove_error(*old(pool), *old(access), signer, pool_id) {
            Some(e) => r == Err::<BeneficiaryRemoved, ErrorCode>(e) && *final(pool) == *old(pool)
                && *final(access) == *old(access),
            None => {
                &&& *final(pool) == (PoolAccount {
                    beneficiary_count: (old(pool).beneficiary_count - 1) as u32,
                    ..*old(pool)
                })
                &&& *final(access) == (BeneficiaryAccess { is_whitelisted: false, ..*old(access) })
                &&& r == Ok::<BeneficiaryRemoved, ErrorCode>(
                    BeneficiaryRemoved {
                        pool_id,
                        beneficiary: old(access).beneficiary,
                        timestamp: now,
                    },
                )
            },
        },
{
    if signer != pool.sponsor || pool_id != pool.pool_id || access.pool_id != pool_id {
        return Err(ErrorCode::Unauthorized);
    }
    if !access.is_whitelisted {
        return Err(ErrorCode::BeneficiaryNotWhitelisted);
    }
    if pool.beneficiary_count == 0 {
        return Err(ErrorCode::ArithmeticOverflow);
    }
    access.is_whitelisted = false;
    pool.beneficiary_count = pool.beneficiary_count - 1;
    Ok(BeneficiaryRemoved { pool_id, beneficiary: access.beneficiary, timestamp: now })
}

pub open spec fn fund_error(pool: PoolAccount, signer: Identity, amount: u64) -> Option<ErrorCode> {
    if signer != pool.sponsor {
        Some(ErrorCode::Unauthorized)
    } else if amount == 0 {
        Some(ErrorCode::InvalidFunding)
    } else if !pool.is_active {
        Some(ErrorCode::PoolNotActive)
    } else if pool.total_funded + amount > u64::MAX {
        Some(ErrorCode::ArithmeticOverflow)
    } else {
        None
    }
}

/// Adds `amount` to an active pool's funding, moved into its escrow.
pub fn fund_pool(pool: &mut PoolAccount, signer: Identity, amount: u64, now: i64) -> (r: Result<
    (PoolFunded, EscrowTransfer),
    ErrorCode,
>)
    requires
        old(pool).wf(),
    ensures
        final(pool).wf(),
        match fund_error(*old(pool), signer, amount) {
            Some(e) => r == Err::<(PoolFunded, EscrowTransfer), ErrorCode>(e) && *final(pool)
                == *old(pool),
            None => {
                let funded = (old(pool).total_funded + amount) as u64;
                &&& *final(pool) == (PoolAccount { total_funded: funded, ..*old(pool) })
                &&& r == Ok::<(PoolFunded, EscrowTransfer), ErrorCode>(
                    (
                        PoolFunded {
                            pool_id: old(pool).pool_id,
                            sponsor: old(pool).sponsor,
                            amount,
                            new_balance: (funded - old(pool).total_used) as u64,
                            timestamp: now,
                        },
                        EscrowTransfer {
                            from: EscrowKey::Account(signer),
                            to: EscrowKey::PoolVault(old(pool).sponsor, old(pool).pool_id),
                            amount,
                        },
                    ),
                )
            },
        },
{
    if signer != pool.sponsor {
        return Err(ErrorCode::Unauthorized);
    }
    if amount == 0 {
        return Err(ErrorCode::InvalidFunding);
    }
    if !pool.is_active {
        return Err(ErrorCode::PoolNotActive);
    }
    if pool.total_funded > u64::MAX - amount {
        return Err(ErrorCode::ArithmeticOverflow);
    }
    proof {
        lemma_div_is_ordered(
            pool.total_funded as int,
            pool.total_funded + amount,
            pool.allocation_per_user as int,
        );
    }
    pool.total_funded = pool.total_funded + amount;
    let event = PoolFunded {
        pool_id: pool.pool_id,
        sponsor: pool.sponsor,
        amount,
        new_balance: pool.total_funded - pool.total_used,
        timestamp: now,
    };
    let transfer = EscrowTransfer::new(
        EscrowKey::Account(signer),
        EscrowKey::PoolVault(pool.sponsor, pool.pool_id),
        amount,
    );
    Ok((event, transfer))
}

pub open spec fn redeem_access_error(
    pool: PoolAccount,
    access: BeneficiaryAccess,
    signer: Identity,
    bandwidth_gb: u64,
) -> Option<ErrorCode> {
    if signer != access.beneficiary || access.pool_id != pool.pool_id {
        Some(ErrorCode::Unauthorized)
    } else if !pool.is_active {
        Some(ErrorCode::PoolNotActive)
    } else if !access.is_whitelisted {
        Some(ErrorCode::BeneficiaryNotWhitelisted)
    } else if bandwidth_gb == 0 {
        Some(ErrorCode::InvalidBandwidth)
    } else if access.allocated_gb - access.used_gb < bandwidth_gb {
        Some(ErrorCode::InsufficientAllocation)
    } else if pool.total_funded - pool.total_used < bandwidth_gb {
        Some(ErrorCode::InsufficientPoolBalance)
    } else {
        None
    }
}

/// Draws `bandwidth_gb` units for a whitelisted beneficiary, within both its
/// own remaining allocation and the pool's remaining funding. When
/// auto-refill is on and the pool's remaining funding falls below the
/// threshold, a refill signal comes back as well; no funds are pulled.
pub fn redeem_access(
    pool: &mut PoolAccount,
    access: &mut BeneficiaryAccess,
    signer: Identity,
    bandwidth_gb: u64,
    now: i64,
) -> (r: Result<(AccessRedeemed, Option<AutoRefillTriggered>), ErrorCode>)
    requires
        old(pool).wf(),
        old(access).wf(),
    ensures
        final(pool).wf(),
        final(access).wf(),
        match redeem_access_error(*old(pool), *old(access), signer, bandwidth_gb) {
            Some(e) => r == Err::<(AccessRedeemed, Option<AutoRefillTriggered>), ErrorCode>(e)
                && *final(pool) == *old(pool) && *final(access) == *old(access),
            None => {
                let used = (old(pool).total_used + bandwidth_gb) as u64;
                let pool_remaining = (old(pool).total_funded - used) as u64;
                let access_used = (old(access).used_gb + bandwidth_gb) as u64;
                let refill = if old(pool).auto_refill_enabled && pool_remaining
                    < old(pool).auto_refill_threshold {
                    Some(
                        AutoRefillTriggered {
                            pool_id: old(pool).pool_id,
                            remaining_balance: pool_remaining,
                            threshold: old(pool).auto_refill_threshold,
                            timestamp: now,
                        },
                    )
                } else {
                    None
                };
                &&& *final(pool) == (PoolAccount { total_used: used, ..*old(pool) })
                &&& *final(access) == (BeneficiaryAccess {
                    used_gb: access_used,
                    last_used: now,
                    ..*old(access)
                })
                &&& r == Ok::<(AccessRedeemed, Option<AutoRefillTriggered>), ErrorCode>(
                    (
                        AccessRedeemed {
                            pool_id: old(pool).pool_id,
                            beneficiary: old(access).beneficiary,
                            bandwidth_gb,
                            remaining_allocation: (old(access).allocated_gb - access_used) as u64,
                            timestamp: now,
                        },
                        refill,
                    ),
                )
            },
        },
{
    if signer != access.beneficiary || access.pool_id != pool.pool_id {
        return Err(ErrorCode::Unauthorized);
    }
    if !pool.is_active {
        return Err(ErrorCode::PoolNotActive);
    }
    if !access.is_whitelisted {
        return Err(ErrorCode::BeneficiaryNotWhitelisted);
    }
    if bandwidth_gb == 0 {
        return Err(ErrorCode::InvalidBandwidth);
    }
    if access.allocated_gb - access.used_gb < bandwidth_gb {
        return Err(ErrorCode::InsufficientAllocation);
    }
    if pool.total_funded - pool.total_used < bandwidth_gb {
        return Err(ErrorCode::InsufficientPoolBalance);
    }
    access.used_gb = access.used_gb + bandwidth_gb;
    access.last_used = now;
    pool.total_used = pool.total_used + bandwidth_gb;
    let remaining_balance = pool.total_funded - pool.total_used;
    let refill = if pool.auto_refill_enabled && remaining_balance < pool.auto_refill_threshold {
        Some(
            AutoRefillTriggered {
                pool_id: pool.pool_id,
                remaining_balance,
                threshold: pool.auto_refill_threshold,
                timestamp: now,
            },
        )
    } else {
        None
    };
    let event = AccessRedeemed {
        pool_id: pool.pool_id,
        beneficiary: access.beneficiary,
        bandwidth_gb,
        remaining_allocation: access.allocated_gb - access.used_gb,
        timestamp: now,
    };
    Ok((event, refill))
}

/// Closes an active pool for good and returns its unused funding, if any,
/// from the pool's escrow to the sponsor.
pub fn close_pool(pool: &mut PoolAccount, signer: Identity, now: i64) -> (r: Result<
    (PoolClosed, Option<EscrowTransfer>),
    ErrorCode,
>)
    requires
        old(pool).wf(),
    ensures
        final(pool).wf(),
        signer != old(pool).sponsor ==> r == Err::<(PoolClosed, Option<EscrowTransfer>), ErrorCode>(
            ErrorCode::Unauthorized,
        ) && *final(pool) == *old(pool),
        signer == old(pool).sponsor && !old(pool).is_active ==> r == Err::<
            (PoolClosed, Option<EscrowTransfer>),
            ErrorCode,
        >(ErrorCode::PoolNotActive) && *final(pool) == *old(pool),
        signer == old(pool).sponsor && old(pool).is_active ==> {
            let remaining = old(pool).remaining() as u64;
            let refund = if remaining > 0 {
                Some(
                    EscrowTransfer {
                        from: EscrowKey::PoolVault(old(pool).sponsor, old(pool).pool_id),
                        to: EscrowKey::Account(old(pool).sponsor),
                        amount: remaining,
                    },
                )
            } else {
                None
            };
            &&& *final(pool) == (PoolAccount { is_active: false, ..*old(pool) })
            &&& r == Ok::<(PoolClosed, Option<EscrowTransfer>), ErrorCode>(
                (
                    PoolClosed {
                        pool_id: old(pool).pool_id,
                        sponsor: old(pool).sponsor,
                        refunded_amount: remaining,
                        total_used: old(pool).total_used,
                        timestamp: now,
                    },
                    refund,
                ),
            )
        },
{
    if signer != pool.sponsor {
        return Err(ErrorCode::Unauthorized);
    }
    if !pool.is_active {
        return Err(ErrorCode::PoolNotActive);
    }
    let remaining = pool.total_funded - pool.total_used;
    let refund = if remaining > 0 {
        Some(
            EscrowTransfer::new(
                EscrowKey::PoolVault(pool.sponsor, pool.pool_id),
                EscrowKey::Account(pool.sponsor),
                remaining,
            ),
        )
    } else {
        None
    };
    pool.is_active = false;
    let event = PoolClosed {
        pool_id: pool.pool_id,
        sponsor: pool.sponsor,
        refunded_amount: remaining,
        total_used: pool.total_used,
        timestamp: now,
    };
    Ok((event, refund))
}

/// Sets the auto-refill switch and threshold; sponsor only, with no other
/// condition on the values.
pub fn update_auto_refill(
    pool: &mut PoolAccount,
    signer: Identity,
    enabled: bool,
    threshold: u64,
    now: i64,
) -> (r: Result<AutoRefillUpdated, ErrorCode>)
    requires
        old(pool).wf(),
    ensures
        final(pool).wf(),
        signer != old(pool).sponsor ==> r == Err::<AutoRefillUpdated, ErrorCode>(
            ErrorCode::Unauthorized,
        ) && *final(pool) == *old(pool),
        signer == old(pool).sponsor ==> *final(pool) == (PoolAccount {
            auto_refill_enabled: enabled,
            auto_refill_threshold: threshold,
            ..*old(pool)
        }) && r == Ok::<AutoRefillUpdated, ErrorCode>(
            AutoRefillUpdated { pool_id: old(pool).pool_id, enabled, threshold, timestamp: now },
        ),
{
    if signer != pool.sponsor {
        return Err(ErrorCode::Unauthorized);
    }
    pool.auto_refill_enabled = enabled;
    pool.auto_refill_threshold = threshold;
    Ok(AutoRefillUpdated { pool_id: pool.pool_id, enabled, threshold, timestamp: now })
}

pub open spec fn extend_allocation_error(
    pool: PoolAccount,
    access: BeneficiaryAccess,
    signer: Identity,
    additional_gb: u64,
) -> Option<ErrorCode> {
    if signer != pool.sponsor || access.pool_id != pool.pool_id {
        Some(ErrorCode::Unauthorized)
    } else if !access.is_whitelisted {
        Some(ErrorCode::BeneficiaryNotWhitelisted)
    } else if additional_gb == 0 {
        Some(ErrorCode::InvalidBandwidth)
    } else if access.allocated_gb + additional_gb > u64::MAX {
        Some(ErrorCode::ArithmeticOverflow)
    } else {
        None
    }
}

/// Raises a whitelisted beneficiary's allocation. The pool's funding is not
/// consulted here: it bounds use only at redemption.
pub fn extend_allocation(
    pool: &PoolAccount,
    access: &mut BeneficiaryAccess,
    signer: Identity,
    additional_gb: u64,
    now: i64,
) -> (r: Result<AllocationExtended, ErrorCode>)
    requires
        old(access).wf(),
    ensures
        final(access).wf(),
        match extend_allocation_error(*pool, *old(access), signer, additional_gb) {
            Some(e) => r == Err::<AllocationExtended, ErrorCode>(e) && *final(access) == *old(
                access,
            ),
            None => {
                let allocated = (old(access).allocated_gb + additional_gb) as u64;
                &&& *final(access) == (BeneficiaryAccess {
                    allocated_gb: allocated,
                    ..*old(access)
                })
                &&& r == Ok::<AllocationExtended, ErrorCode>(
                    AllocationExtended {
                        pool_id: old(access).pool_id,
                        beneficiary: old(access).beneficiary,
                        additional_gb,
                        new_allocation: allocated,
                        timestamp: now,
                    },
                )
            },
        },
{
    if signer != pool.sponsor || access.pool_id != pool.pool_id {
        return Err(ErrorCode::Unauthorized);
    }
    if !access.is_whitelisted {
        return Err(ErrorCode::BeneficiaryNotWhitelisted);
    }
    if additional_gb == 0 {
        return Err(ErrorCode::InvalidBandwidth);
    }
    if access.allocated_gb > u64::MAX - additional_gb {
        return Err(ErrorCode::ArithmeticOverflow);
    }
    access.allocated_gb = access.allocated_gb + additional_gb;
    Ok(
        AllocationExtended {
            pool_id: access.pool_id,
            beneficiary: access.beneficiary,
            additional_gb,
            new_allocation: access.allocated_gb,
            timestamp: now,
        },
    )
}

} // verus!
