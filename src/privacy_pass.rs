//! Access passes: tiered pricing, purchase of pay-per-volume passes and
//! subscriptions, pool-sponsored passes, and redemption, extension, top-up,
//! validation and deactivation of a pass.
use vstd::prelude::*;
use crate::ledger::{EscrowKey, EscrowTransfer, Identity};

verus! {

/// Base price of one unit of bandwidth, in the smallest payment unit.
pub const BASE_PRICE_PER_GB_USDC: u64 = 500_000;

/// Lifetime of a purchased pass, in days.
pub const DEFAULT_EXPIRY_DAYS: i64 = 30;

/// Lifetime of a pool-sponsored pass, in days.
pub const POOL_PASS_EXPIRY_DAYS: i64 = 365;

pub const SECONDS_PER_DAY: i64 = 86400;

pub const TIER_1_THRESHOLD_GB: u64 = 100;

pub const TIER_1_DISCOUNT_BPS: u16 = 500;

pub const TIER_2_THRESHOLD_GB: u64 = 1000;

pub const TIER_2_DISCOUNT_BPS: u16 = 1500;

#[derive(Clone, Copy, Debug, PartialEq, Eq, Structural)]
pub struct PricingConfig {
    pub authority: Identity,
    pub base_price_per_gb: u64,
    pub price_oracle: Identity,
    pub pass_mint: Identity,
    pub treasury: Identity,
    pub total_passes_sold: u64,
    pub total_revenue: u64,
    pub tier_1_threshold: u64,
    pub tier_1_discount: u16,
    pub tier_2_threshold: u64,
    pub tier_2_discount: u16,
    pub is_active: bool,
}

#[derive(Clone, Copy, Debug, PartialEq, Eq, Structural)]
pub enum PassType {
    PayPerGb,
    Subscription,
    PoolSponsored,
}

#[derive(Clone, Copy, Debug, PartialEq, Eq, Structural)]
pub enum SubscriptionType {
    Monthly,
    Quarterly,
    Yearly,
}

#[derive(Clone, Copy, Debug, PartialEq, Eq, Structural)]
pub struct PassAccount {
    pub user: Identity,
    pub remaining_gb: u64,
    pub expiry_timestamp: i64,
    pub pool_id: Option<u64>,
    pub purchased_at: i64,
    pub total_spent: u64,
    pub pass_type: PassType,
    pub is_active: bool,
}

#[derive(Clone, Copy, Debug, PartialEq, Eq, Structural)]
pub enum ErrorCode {
    SystemNotActive,
    InvalidBandwidth,
    PassNotActive,
    PassExpired,
    InsufficientBalance,
    InvalidDuration,
    InvalidPrice,
    /// The signer is not the owner or authority that the record names.
    Unauthorized,
    /// A checked addition, subtraction or multiplication left the range of its type.
    ArithmeticOverflow,
}

#[derive(Clone, Copy, Debug, PartialEq, Eq, Structural)]
pub struct PassSystemInitialized {
    pub authority: Identity,
    pub base_price: u64,
    pub timestamp: i64,
}

#[derive(Clone, Copy, Debug, PartialEq, Eq, Structural)]
pub struct PassPurchased {
    pub user: Identity,
    pub bandwidth_gb: u64,
    pub price_paid: u64,
    pub expiry: i64,
    pub timestamp: i64,
}

#[derive(Clone, Copy, Debug, PartialEq, Eq, Structural)]
pub struct SubscriptionPurchased {
    pub user: Identity,
    pub subscription_type: SubscriptionType,
    pub bandwidth_gb: u64,
    pub price_paid: u64,
    pub expiry: i64,
    pub timestamp: i64,
}

#[derive(Clone, Copy, Debug, PartialEq, Eq, Structural)]
pub struct PoolPassCreated {
    pub user: Identity,
    pub pool_id: u64,
    pub allocated_gb: u64,
    pub timestamp: i64,
}

#[derive(Clone, Copy, Debug, PartialEq, Eq, Structural)]
pub struct PassRedeemed {
    pub user: Identity,
    pub node_operator: Identity,
    pub bandwidth_gb: u64,
    pub remaining_gb: u64,
    pub timestamp: i64,
}

#[derive(Clone, Copy, Debug, PartialEq, Eq, Structural)]
pub struct PassExtended {
    pub user: Identity,
    pub additional_days: u16,
    pub new_expiry: i64,
    pub price_paid: u64,
    pub timestamp: i64,
}

#[derive(Clone, Copy, Debug, PartialEq, Eq, Structural)]
pub struct PassToppedUp {
    pub user: Identity,
    pub additional_gb: u64,
    pub new_balance: u64,
    pub price_paid: u64,
    pub timestamp: i64,
}

#[derive(Clone, Copy, Debug, PartialEq, Eq, Structural)]
pub struct PassValidated {
    pub user: Identity,
    pub required_gb: u64,
    pub is_valid: bool,
    pub timestamp: i64,
}

#[derive(Clone, Copy, Debug, PartialEq, Eq, Structural)]
pub struct PassDeactivated {
    pub user: Identity,
    pub remaining_gb: u64,
    pub timestamp: i64,
}

#[derive(Clone, Copy, Debug, PartialEq, Eq, Structural)]
pub struct PricingUpdated {
    pub old_price: u64,
    pub new_price: u64,
    pub timestamp: i64,
}

/// Discount in basis points for buying `units` at once: the tier is chosen
/// by the volume of this one call.
pub open spec fn discount_bps(units: u64, cfg: PricingConfig) -> int {
    if units >= cfg.tier_2_threshold {
        cfg.tier_2_discount as int
    } else if units >= cfg.tier_1_threshold {
        cfg.tier_1_discount as int
    } else {
        0
    }
}

/// Undiscounted cost of `units`.
pub open spec fn base_cost(units: u64, cfg: PricingConfig) -> int {
    units * cfg.base_price_per_gb
}

/// Price of `units`: the base cost less its tier discount, rounded down.
pub open spec fn price_of(units: u64, cfg: PricingConfig) -> int {
    base_cost(units, cfg) - base_cost(units, cfg) * discount_bps(units, cfg) / 10000
}

/// Whether computing the price of `units` leaves the range of `u64`.
pub open spec fn price_overflows(units: u64, cfg: PricingConfig) -> bool {
    ||| base_cost(units, cfg) > u64::MAX
    ||| base_cost(units, cfg) * discount_bps(units, cfg) > u64::MAX
    ||| base_cost(units, cfg) * discount_bps(units, cfg) / 10000 > base_cost(units, cfg)
}

/// The tiered price of `bandwidth_gb` units.
pub fn calculate_price(bandwidth_gb: u64, config: &PricingConfig) -> (r: Result<u64, ErrorCode>)
    ensures
        price_overflows(bandwidth_gb, *config) ==> r == Err::<u64, ErrorCode>(
            ErrorCode::ArithmeticOverflow,
        ),
        !price_overflows(bandwidth_gb, *config) ==> r == Ok::<u64, ErrorCode>(
            price_of(bandwidth_gb, *config) as u64,
        ),
{
    let base_price = match bandwidth_gb.checked_mul(config.base_price_per_gb) {
        Some(v) => v,
        None => {
            return Err(ErrorCode::ArithmeticOverflow);
        },
    };
    let discount_bps = if bandwidth_gb >= config.tier_2_threshold {
        config.tier_2_discount
    } else if bandwidth_gb >= config.tier_1_threshold {
        config.tier_1_discount
    } else {
        0
    };
    let scaled = match base_price.checked_mul(discount_bps as u64) {
        Some(v) => v,
        None => {
            return Err(ErrorCode::ArithmeticOverflow);
        },
    };
    let discount = scaled / 10000;
    if discount > base_price {
        return Err(ErrorCode::ArithmeticOverflow);
    }
    Ok(base_price - discount)
}

/// Creates the pricing configuration with the base price and the two
/// volume tiers, open for sales.
pub fn initialize_pass_system(
    authority: Identity,
    price_oracle: Identity,
    pass_mint: Identity,
    treasury: Identity,
    now: i64,
) -> (r: (PricingConfig, PassSystemInitialized))
    ensures
        r.0 == (PricingConfig {
            authority,
            base_price_per_gb: BASE_PRICE_PER_GB_USDC,
            price_oracle,
            pass_mint,
            treasury,
            total_passes_sold: 0,
            total_revenue: 0,
            tier_1_threshold: TIER_1_THRESHOLD_GB,
            tier_1_discount: TIER_1_DISCOUNT_BPS,
            tier_2_threshold: TIER_2_THRESHOLD_GB,
            tier_2_discount: TIER_2_DISCOUNT_BPS,
            is_active: true,
        }),
        r.1 == (PassSystemInitialized {
            authority,
            base_price: BASE_PRICE_PER_GB_USDC,
            timestamp: now,
        }),
{
    let config = PricingConfig {
        authority,
        base_price_per_gb: BASE_PRICE_PER_GB_USDC,
        price_oracle,
        pass_mint,
        treasury,
        total_passes_sold: 0,
        total_revenue: 0,
        tier_1_threshold: TIER_1_THRESHOLD_GB,
        tier_1_discount: TIER_1_DISCOUNT_BPS,
        tier_2_threshold: TIER_2_THRESHOLD_GB,
        tier_2_discount: TIER_2_DISCOUNT_BPS,
        is_active: true,
    };
    let event = PassSystemInitialized {
        authority,
        base_price: BASE_PRICE_PER_GB_USDC,
        timestamp: now,
    };
    (config, event)
}

/// `now` moved `days` days ahead, if that fits in an `i64`.
pub open spec fn later_by_days(now: i64, days: int) -> Option<i64> {
    if now + days * SECONDS_PER_DAY > i64::MAX || now + days * SECONDS_PER_DAY < i64::MIN {
        None
    } else {
        Some((now + days * SECONDS_PER_DAY) as i64)
    }
}

fn add_days(now: i64, days: u16) -> (r: Option<i64>)
    ensures
        r == later_by_days(now, days as int),
{
    let seconds: i64 = days as i64 * SECONDS_PER_DAY;
    now.checked_add(seconds)
}

pub open spec fn sale_counters_overflow(config: PricingConfig, price: int) -> bool {
    config.total_passes_sold + 1 > u64::MAX || config.total_revenue + price > u64::MAX
}

pub open spec fn purchase_error(config: PricingConfig, bandwidth_gb: u64, now: i64) -> Option<
    ErrorCode,
> {
    if !config.is_active {
        Some(ErrorCode::SystemNotActive)
    } else if bandwidth_gb == 0 {
        Some(ErrorCode::InvalidBandwidth)
    } else if price_overflows(bandwidth_gb, config) {
        Some(ErrorCode::ArithmeticOverflow)
    } else if later_by_days(now, DEFAULT_EXPIRY_DAYS as int) is None || sale_counters_overflow(
        config,
        price_of(bandwidth_gb, config),
    ) {
        Some(ErrorCode::ArithmeticOverflow)
    } else {
        None
    }
}

/// Sells `user` a pay-per-volume pass of `bandwidth_gb` units at the tiered
/// price, valid for the default number of days.
pub fn purchase_pass(config: &mut PricingConfig, user: Identity, bandwidth_gb: u64, now: i64) -> (r:
    Result<(PassAccount, PassPurchased, EscrowTransfer), ErrorCode>)
    ensures
        match purchase_error(*old(config), bandwidth_gb, now) {
            Some(e) => r == Err::<(PassAccount, PassPurchased, EscrowTransfer), ErrorCode>(e)
                && *final(config) == *old(config),
            None => {
                let price = price_of(bandwidth_gb, *old(config)) as u64;
                let expiry = later_by_days(now, DEFAULT_EXPIRY_DAYS as int)->Some_0;
                &&& *final(config) == (PricingConfig {
                    total_passes_sold: (old(config).total_passes_sold + 1) as u64,
                    total_revenue: (old(config).total_revenue + price) as u64,
                    ..*old(config)
                })
                &&& r == Ok::<(PassAccount, PassPurchased, EscrowTransfer), ErrorCode>(
                    (
                        PassAccount {
                            user,
                            remaining_gb: bandwidth_gb,
                            expiry_timestamp: expiry,
                            pool_id: None,
                            purchased_at: now,
                            total_spent: price,
                            pass_type: PassType::PayPerGb,
                            is_active: true,
                        },
                        PassPurchased {
                            user,
                            bandwidth_gb,
                            price_paid: price,
                            expiry,
                            timestamp: now,
                        },
                        EscrowTransfer {
                            from: EscrowKey::Account(user),
                            to: EscrowKey::Account(old(config).treasury),
                            amount: price,
                        },
                    ),
                )
            },
        },
{
    if !config.is_active {
        return Err(ErrorCode::SystemNotActive);
    }
    if bandwidth_gb == 0 {
        return Err(ErrorCode::InvalidBandwidth);
    }
    let price = match calculate_price(bandwidth_gb, config) {
        Ok(p) => p,
        Err(e) => {
            return Err(e);
        },
    };
    let expiry = match add_days(now, DEFAULT_EXPIRY_DAYS as u16) {
        Some(t) => t,
        None => {
            return Err(ErrorCode::ArithmeticOverflow);
        },
    };
    if config.total_passes_sold == u64::MAX || config.total_revenue > u64::MAX - price {
        return Err(ErrorCode::ArithmeticOverflow);
    }
    config.total_passes_sold = config.total_passes_sold + 1;
    config.total_revenue = config.total_revenue + price;
    let pass = PassAccount {
        user,
        remaining_gb: bandwidth_gb,
        expiry_timestamp: expiry,
        pool_id: None,
        purchased_at: now,
        total_spent: price,
        pass_type: PassType::PayPerGb,
        is_active: true,
    };
    let event = PassPurchased { user, bandwidth_gb, price_paid: price, expiry, timestamp: now };
    let transfer = EscrowTransfer::new(
        EscrowKey::Account(user),
        EscrowKey::Account(config.treasury),
        price,
    );
    Ok((pass, event, transfer))
}

/// Units, flat price and lifetime in days of a subscription tier.
pub open spec fn subscription_terms_of(subscription_type: SubscriptionType) -> (u64, u64, u16) {
    match subscription_type {
        SubscriptionType::Monthly => (500, 200_000_000, 30),
        SubscriptionType::Quarterly => (1500, 540_000_000, 90),
        SubscriptionType::Yearly => (6000, 1920_000_000, 365),
    }
}

/// Units, flat price and lifetime in days of a subscription tier.
pub fn subscription_terms(subscription_type: SubscriptionType) -> (r: (u64, u64, u16))
    ensures
        r == subscription_terms_of(subscription_type),
{
    match subscription_type {
        SubscriptionType::Monthly => (500, 200_000_000, 30),
        SubscriptionType::Quarterly => (1500, 540_000_000, 90),
        SubscriptionType::Yearly => (6000, 1920_000_000, 365),
    }
}

pub open spec fn subscription_error(
    config: PricingConfig,
    subscription_type: SubscriptionType,
    now: i64,
) -> Option<ErrorCode> {
    let (_units, price, days) = subscription_terms_of(subscription_type);
    if !config.is_active {
        Some(ErrorCode::SystemNotActive)
    } else if later_by_days(now, days as int) is None || sale_counters_overflow(
        config,
        price as int,
    ) {
        Some(ErrorCode::ArithmeticOverflow)
    } else {
        None
    }
}

/// Sells `user` a subscription pass: a fixed volume for a flat price and a
/// fixed lifetime, by tier.
pub fn purchase_subscription(
    config: &mut PricingConfig,
    user: Identity,
    subscription_type: SubscriptionType,
    now: i64,
) -> (r: Result<(PassAccount, SubscriptionPurchased, EscrowTransfer), ErrorCode>)
    ensures
        match subscription_error(*old(config), subscription_type, now) {
            Some(e) => r == Err::<(PassAccount, SubscriptionPurchased, EscrowTransfer), ErrorCode>(
                e,
            ) && *final(config) == *old(config),
            None => {
                let (units, price, days) = subscription_terms_of(subscription_type);
                let expiry = later_by_days(now, days as int)->Some_0;
                &&& *final(config) == (PricingConfig {
                    total_passes_sold: (old(config).total_passes_sold + 1) as u64,
                    total_revenue: (old(config).total_revenue + price) as u64,
                    ..*old(config)
                })
                &&& r == Ok::<(PassAccount, SubscriptionPurchased, EscrowTransfer), ErrorCode>(
                    (
                        PassAccount {
                            user,
                            remaining_gb: units,
                            expiry_timestamp: expiry,
                            pool_id: None,
                            purchased_at: now,
                            total_spent: price,
                            pass_type: PassType::Subscription,
                            is_active: true,
                        },
                        SubscriptionPurchased {
                            user,
                            subscription_type,
                            bandwidth_gb: units,
                            price_paid: price,
                            expiry,
                            timestamp: now,
                        },
                        EscrowTransfer {
                            from: EscrowKey::Account(user),
                            to: EscrowKey::Account(old(config).treasury),
                            amount: price,
                        },
                    ),
                )
            },
        },
{
    if !config.is_active {
        return Err(ErrorCode::SystemNotActive);
    }
    let (bandwidth_gb, price, duration_days) = subscription_terms(subscription_type);
    let expiry = match add_days(now, duration_days) {
        Some(t) => t,
        None => {
            return Err(ErrorCode::ArithmeticOverflow);
        },
    };
    if config.total_passes_sold == u64::MAX || config.total_revenue > u64::MAX - price {
        return Err(ErrorCode::ArithmeticOverflow);
    }
    config.total_passes_sold = config.total_passes_sold + 1;
    config.total_revenue = config.total_revenue + price;
    let pass = PassAccount {
        user,
        remaining_gb: bandwidth_gb,
        expiry_timestamp: expiry,
        pool_id: None,
        purchased_at: now,
        total_spent: price,
        pass_type: PassType::Subscription,
        is_active: true,
    };
    let event = SubscriptionPurchased {
        user,
        subscription_type,
        bandwidth_gb,
        price_paid: price,
        expiry,
        timestamp: now,
    };
    let transfer = EscrowTransfer::new(
        EscrowKey::Account(user),
        EscrowKey::Account(config.treasury),
        price,
    );
    Ok((pass, event, transfer))
}

/// Grants `beneficiary` a free pass of `allocated_gb` units on behalf of the
/// pool `pool_id`, valid for the pool-pass lifetime.
pub fn create_pool_pass(beneficiary: Identity, pool_id: u64, allocated_gb: u64, now: i64) -> (r:
    Result<(PassAccount, PoolPassCreated), ErrorCode>)
    ensures
        allocated_gb == 0 ==> r == Err::<(PassAccount, PoolPassCreated), ErrorCode>(
            ErrorCode::InvalidBandwidth,
        ),
        allocated_gb > 0 && later_by_days(now, POOL_PASS_EXPIRY_DAYS as int) is None ==> r == Err::<
            (PassAccount, PoolPassCreated),
            ErrorCode,
        >(ErrorCode::ArithmeticOverflow),
        allocated_gb > 0 && later_by_days(now, POOL_PASS_EXPIRY_DAYS as int) is Some ==> r == Ok::<
            (PassAccount, PoolPassCreated),
            ErrorCode,
        >(
            (
                PassAccount {
                    user: beneficiary,
                    remaining_gb: allocated_gb,
                    expiry_timestamp: later_by_days(now, POOL_PASS_EXPIRY_DAYS as int)->Some_0,
                    pool_id: Some(pool_id),
                    purchased_at: now,
                    total_spent: 0,
                    pass_type: PassType::PoolSponsored,
                    is_active: true,
                },
                PoolPassCreated { user: beneficiary, pool_id, allocated_gb, timestamp: now },
            ),
        ),
{
    if allocated_gb == 0 {
        return Err(ErrorCode::InvalidBandwidth);
    }
    let expiry = match add_days(now, POOL_PASS_EXPIRY_DAYS as u16) {
        Some(t) => t,
        None => {
            return Err(ErrorCode::ArithmeticOverflow);
        },
    };
    let pass = PassAccount {
        user: beneficiary,
        remaining_gb: allocated_gb,
        expiry_timestamp: expiry,
        pool_id: Some(pool_id),
        purchased_at: now,
        total_spent: 0,
        pass_type: PassType::PoolSponsored,
        is_active: true,
    };
    Ok((pass, PoolPassCreated { user: beneficiary, pool_id, allocated_gb, timestamp: now }))
}

pub open spec fn redeem_error(pass: PassAccount, signer: Identity, bandwidth_gb: u64, now: i64) -> Option<
    ErrorCode,
> {
    if signer != pass.user {
        Some(ErrorCode::Unauthorized)
    } else if !pass.is_active {
        Some(ErrorCode::PassNotActive)
    } else if now > pass.expiry_timestamp {
        Some(ErrorCode::PassExpired)
    } else if bandwidth_gb == 0 {
        Some(ErrorCode::InvalidBandwidth)
    } else if pass.remaining_gb < bandwidth_gb {
        Some(ErrorCode::InsufficientBalance)
    } else {
        None
    }
}

/// Debits `bandwidth_gb` units from an active, unexpired pass. The pass
/// deactivates itself when it reaches zero. `node_operator` is recorded in
/// the event only; it is supplied by the caller and not checked.
pub fn redeem_pass(
    pass: &mut PassAccount,
    signer: Identity,
    bandwidth_gb: u64,
    node_operator: Identity,
    now: i64,
) -> (r: Result<PassRedeemed, ErrorCode>)
    ensures
        match redeem_error(*old(pass), signer, bandwidth_gb, now) {
            Some(e) => r == Err::<PassRedeemed, ErrorCode>(e) && *final(pass) == *old(pass),
            None => {
                let remaining = (old(pass).remaining_gb - bandwidth_gb) as u64;
                &&& *final(pass) == (PassAccount {
                    remaining_gb: remaining,
                    is_active: remaining != 0,
                    ..*old(pass)
                })
                &&& r == Ok::<PassRedeemed, ErrorCode>(
                    PassRedeemed {
                        user: old(pass).user,
                        node_operator,
                        bandwidth_gb,
                        remaining_gb: remaining,
                        timestamp: now,
                    },
                )
            },
        },
{
    if signer != pass.user {
        return Err(ErrorCode::Unauthorized);
    }
    if !pass.is_active {
        return Err(ErrorCode::PassNotActive);
    }
    if now > pass.expiry_timestamp {
        return Err(ErrorCode::PassExpired);
    }
    if bandwidth_gb == 0 {
        return Err(ErrorCode::InvalidBandwidth);
    }
    if pass.remaining_gb < bandwidth_gb {
        return Err(ErrorCode::InsufficientBalance);
    }
    pass.remaining_gb = pass.remaining_gb - bandwidth_gb;
    if pass.remaining_gb == 0 {
        pass.is_active = false;
    }
    Ok(
        PassRedeemed {
            user: pass.user,
            node_operator,
            bandwidth_gb,
            remaining_gb: pass.remaining_gb,
            timestamp: now,
        },
    )
}

/// Price of extending a pass by `days`: the base unit price prorated over
/// thirty days, rounded down.
pub open spec fn extension_price(config: PricingConfig, days: u16) -> int {
    config.base_price_per_gb * days / 30
}

pub open spec fn extend_error(
    pass: PassAccount,
    config: PricingConfig,
    signer: Identity,
    additional_days: u16,
) -> Option<ErrorCode> {
    if signer != pass.user {
        Some(ErrorCode::Unauthorized)
    } else if additional_days == 0 {
        Some(ErrorCode::InvalidDuration)
    } else if !pass.is_active {
        Some(ErrorCode::PassNotActive)
    } else if config.base_price_per_gb * additional_days > u64::MAX || later_by_days(
        pass.expiry_timestamp,
        additional_days as int,
    ) is None || pass.total_spent + extension_price(config, additional_days) > u64::MAX {
        Some(ErrorCode::ArithmeticOverflow)
    } else {
        None
    }
}

/// Moves the expiry of an active pass `additional_days` days later, for the
/// prorated price. The remaining volume is untouched.
pub fn extend_expiry(
    pass: &mut PassAccount,
    config: &PricingConfig,
    signer: Identity,
    additional_days: u16,
    now: i64,
) -> (r: Result<(PassExtended, EscrowTransfer), ErrorCode>)
    ensures
        match extend_error(*old(pass), *config, signer, additional_days) {
            Some(e) => r == Err::<(PassExtended, EscrowTransfer), ErrorCode>(e) && *final(pass)
                == *old(pass),
            None => {
                let price = extension_price(*config, additional_days) as u64;
                let expiry = later_by_days(old(pass).expiry_timestamp, additional_days as int)->Some_0;
                &&& *final(pass) == (PassAccount {
                    expiry_timestamp: expiry,
                    total_spent: (old(pass).total_spent + price) as u64,
                    ..*old(pass)
                })
                &&& r == Ok::<(PassExtended, EscrowTransfer), ErrorCode>(
                    (
                        PassExtended {
                            user: old(pass).user,
                            additional_days,
                            new_expiry: expiry,
                            price_paid: price,
                            timestamp: now,
                        },
                        EscrowTransfer {
                            from: EscrowKey::Account(signer),
                            to: EscrowKey::Account(config.treasury),
                            amount: price,
                        },
                    ),
                )
            },
        },
{
    if signer != pass.user {
        return Err(ErrorCode::Unauthorized);
    }
    if additional_days == 0 {
        return Err(ErrorCode::InvalidDuration);
    }
    if !pass.is_active {
        return Err(ErrorCode::PassNotActive);
    }
    let price = match config.base_price_per_gb.checked_mul(additional_days as u64) {
        Some(v) => v / 30,
        None => {
            return Err(ErrorCode::ArithmeticOverflow);
        },
    };
    let expiry = match add_days(pass.expiry_timestamp, additional_days) {
        Some(t) => t,
        None => {
            return Err(ErrorCode::ArithmeticOverflow);
        },
    };
    if pass.total_spent > u64::MAX - price {
        return Err(ErrorCode::ArithmeticOverflow);
    }
    pass.expiry_timestamp = expiry;
    pass.total_spent = pass.total_spent + price;
    let event = PassExtended {
        user: pass.user,
        additional_days,
        new_expiry: expiry,
        price_paid: price,
        timestamp: now,
    };
    let transfer = EscrowTransfer::new(
        EscrowKey::Account(signer),
        EscrowKey::Account(config.treasury),
        price,
    );
    Ok((event, transfer))
}

pub open spec fn top_up_error(
    pass: PassAccount,
    config: PricingConfig,
    signer: Identity,
    additional_gb: u64,
) -> Option<ErrorCode> {
    if signer != pass.user {
        Some(ErrorCode::Unauthorized)
    } else if additional_gb == 0 {
        Some(ErrorCode::InvalidBandwidth)
    } else if !pass.is_active {
        Some(ErrorCode::PassNotActive)
    } else if price_overflows(additional_gb, config) {
        Some(ErrorCode::ArithmeticOverflow)
    } else if pass.remaining_gb + additional_gb > u64::MAX || pass.total_spent + price_of(
        additional_gb,
        config,
    ) > u64::MAX || config.total_revenue + price_of(additional_gb, config) > u64::MAX {
        Some(ErrorCode::ArithmeticOverflow)
    } else {
        None
    }
}

/// Adds `additional_gb` units to an active pass at the tiered price of the
/// added units alone.
pub fn top_up_pass(
    pass: &mut PassAccount,
    config: &mut PricingConfig,
    signer: Identity,
    additional_gb: u64,
    now: i64,
) -> (r: Result<(PassToppedUp, EscrowTransfer), ErrorCode>)
    ensures
        match top_up_error(*old(pass), *old(config), signer, additional_gb) {
            Some(e) => r == Err::<(PassToppedUp, EscrowTransfer), ErrorCode>(e) && *final(pass)
                == *old(pass) && *final(config) == *old(config),
            None => {
                let price = price_of(additional_gb, *old(config)) as u64;
                let balance = (old(pass).remaining_gb + additional_gb) as u64;
                &&& *final(pass) == (PassAccount {
                    remaining_gb: balance,
                    total_spent: (old(pass).total_spent + price) as u64,
                    ..*old(pass)
                })
                &&& *final(config) == (PricingConfig {
                    total_revenue: (old(config).total_revenue + price) as u64,
                    ..*old(config)
                })
                &&& r == Ok::<(PassToppedUp, EscrowTransfer), ErrorCode>(
                    (
                        PassToppedUp {
                            user: old(pass).user,
                            additional_gb,
                            new_balance: balance,
                            price_paid: price,
                            timestamp: now,
                        },
                        EscrowTransfer {
                            from: EscrowKey::Account(signer),
                            to: EscrowKey::Account(old(config).treasury),
                            amount: price,
                        },
                    ),
                )
            },
        },
{
    if signer != pass.user {
        return Err(ErrorCode::Unauthorized);
    }
    if additional_gb == 0 {
        return Err(ErrorCode::InvalidBandwidth);
    }
    if !pass.is_active {
        return Err(ErrorCode::PassNotActive);
    }
    let price = match calculate_price(additional_gb, config) {
        Ok(p) => p,
        Err(e) => {
            return Err(e);
        },
    };
    if pass.remaining_gb > u64::MAX - additional_gb || pass.total_spent > u64::MAX - price
        || config.total_revenue > u64::MAX - price {
        return Err(ErrorCode::ArithmeticOverflow);
    }
    pass.remaining_gb = pass.remaining_gb + additional_gb;
    pass.total_spent = pass.total_spent + price;
    config.total_revenue = config.total_revenue + price;
    let event = PassToppedUp {
        user: pass.user,
        additional_gb,
        new_balance: pass.remaining_gb,
        price_paid: price,
        timestamp: now,
    };
    let transfer = EscrowTransfer::new(
        EscrowKey::Account(signer),
        EscrowKey::Account(config.treasury),
        price,
    );
    Ok((event, transfer))
}

/// Whether the pass can serve `required_gb` units now.
pub open spec fn pass_is_valid(pass: PassAccount, required_gb: u64, now: i64) -> bool {
    pass.is_active && now <= pass.expiry_timestamp && pass.remaining_gb >= required_gb
}

/// Reads whether the pass is active, unexpired and holds at least
/// `required_gb` units, with the event that records the check.
pub fn validate_pass(pass: &PassAccount, required_gb: u64, now: i64) -> (r: (bool, PassValidated))
    ensures
        r.0 == pass_is_valid(*pass, required_gb, now),
        r.1 == (PassValidated { user: pass.user, required_gb, is_valid: r.0, timestamp: now }),
{
    let is_valid = pass.is_active && now <= pass.expiry_timestamp && pass.remaining_gb
        >= required_gb;
    (is_valid, PassValidated { user: pass.user, required_gb, is_valid, timestamp: now })
}

/// Deactivates an active pass for good: no operation reactivates it.
pub fn deactivate_pass(pass: &mut PassAccount, signer: Identity, now: i64) -> (r: Result<
    PassDeactivated,
    ErrorCode,
>)
    ensures
        signer != old(pass).user ==> r == Err::<PassDeactivated, ErrorCode>(ErrorCode::Unauthorized)
            && *final(pass) == *old(pass),
        signer == old(pass).user && !old(pass).is_active ==> r == Err::<PassDeactivated, ErrorCode>(
            ErrorCode::PassNotActive,
        ) && *final(pass) == *old(pass),
        signer == old(pass).user && old(pass).is_active ==> *final(pass) == (PassAccount {
            is_active: false,
            ..*old(pass)
        }) && r == Ok::<PassDeactivated, ErrorCode>(
            PassDeactivated {
                user: old(pass).user,
                remaining_gb: old(pass).remaining_gb,
                timestamp: now,
            },
        ),
{
    if signer != pass.user {
        return Err(ErrorCode::Unauthorized);
    }
    if !pass.is_active {
        return Err(ErrorCode::PassNotActive);
    }
    pass.is_active = false;
    Ok(PassDeactivated { user: pass.user, remaining_gb: pass.remaining_gb, timestamp: now })
}

/// Sets a new base unit price; pricing authority only.
pub fn update_pricing(config: &mut PricingConfig, signer: Identity, new_base_price: u64, now: i64) -> (r:
    Result<PricingUpdated, ErrorCode>)
    ensures
        signer != old(config).authority ==> r == Err::<PricingUpdated, ErrorCode>(
            ErrorCode::Unauthorized,
        ) && *final(config) == *old(config),
        signer == old(config).authority && new_base_price == 0 ==> r == Err::<
            PricingUpdated,
            ErrorCode,
        >(ErrorCode::InvalidPrice) && *final(config) == *old(config),
        signer == old(config).authority && new_base_price > 0 ==> *final(config) == (PricingConfig {
            base_price_per_gb: new_base_price,
            ..*old(config)
        }) && r == Ok::<PricingUpdated, ErrorCode>(
            PricingUpdated {
                old_price: old(config).base_price_per_gb,
                new_price: new_base_price,
                timestamp: now,
            },
        ),
{
    if signer != config.authority {
        return Err(ErrorCode::Unauthorized);
    }
    if new_base_price == 0 {
        return Err(ErrorCode::InvalidPrice);
    }
    let old_price = config.base_price_per_gb;
    config.base_price_per_gb = new_base_price;
    Ok(PricingUpdated { old_price, new_price: new_base_price, timestamp: now })
}

/// The configuration uses the standard volume tiers.
pub open spec fn has_standard_tiers(cfg: PricingConfig) -> bool {
    &&& cfg.tier_1_threshold == TIER_1_THRESHOLD_GB
    &&& cfg.tier_1_discount == TIER_1_DISCOUNT_BPS
    &&& cfg.tier_2_threshold == TIER_2_THRESHOLD_GB
    &&& cfg.tier_2_discount == TIER_2_DISCOUNT_BPS
}

/// With the standard tiers and any positive base price, the price per unit
/// falls strictly from below the first threshold to the first tier, and from
/// the first tier to the second: for `u < 100 <= v < 1000 <= w`,
/// `price(u)/u > price(v)/v > price(w)/w` (compared by cross-multiplying).
pub proof fn lemma_tier_rates_decrease(cfg: PricingConfig, u: u64, v: u64, w: u64)
    requires
        has_standard_tiers(cfg),
        cfg.base_price_per_gb >= 1,
        1 <= u < TIER_1_THRESHOLD_GB <= v < TIER_2_THRESHOLD_GB <= w,
    ensures
        price_of(u, cfg) * v > price_of(v, cfg) * u,
        price_of(v, cfg) * w > price_of(w, cfg) * v,
{
    let p = cfg.base_price_per_gb as int;
    let ui = u as int;
    let vi = v as int;
    let wi = w as int;
    assert(discount_bps(u, cfg) == 0);
    assert(discount_bps(v, cfg) == 500);
    assert(discount_bps(w, cfg) == 1500);
    assert(price_of(u, cfg) == ui * p) by (nonlinear_arith)
        requires
            price_of(u, cfg) == ui * p - (ui * p) * 0 / 10000,
    ;
    let a = (vi * p) * 500 / 10000;
    let b = (wi * p) * 1500 / 10000;
    assert(price_of(v, cfg) == vi * p - a);
    assert(price_of(w, cfg) == wi * p - b);
    assert(20 * a <= vi * p && a >= 1) by (nonlinear_arith)
        requires
            a == (vi * p) * 500 / 10000,
            vi >= 100,
            p >= 1,
    ;
    assert(20 * b > 3 * (wi * p) - 20) by (nonlinear_arith)
        requires
            b == (wi * p) * 1500 / 10000,
    ;
    assert((ui * p) * vi > (vi * p - a) * ui) by (nonlinear_arith)
        requires
            a >= 1,
            ui >= 1,
    ;
    assert(b * vi > a * wi) by (nonlinear_arith)
        requires
            20 * a <= vi * p,
            20 * b > 3 * (wi * p) - 20,
            wi >= 1000,
            vi >= 100,
            p >= 1,
    ;
    assert((vi * p - a) * wi > (wi * p - b) * vi) by (nonlinear_arith)
        requires
            b * vi > a * wi,
    ;
}

} // verus!
