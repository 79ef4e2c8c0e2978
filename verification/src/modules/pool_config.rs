//! Per-pool configuration, its validation and its limits.
use crate::decimal::Decimal;
use crate::modules::market_config::check_outcome;
use crate::modules::utils::{is_valid_rate, valid_rate};
use vstd::prelude::*;

verus! {

#[derive(Clone, Copy, Debug)]
pub enum UpdatePoolConfigInput {
    ProtocolInterestFeeRate(Decimal),
    ProtocolFlashloanFeeRate(Decimal),
    ProtocolLiquidationFeeRate(Decimal),
    FlashloanFeeRate(Decimal),
    DepositLimit(Option<Decimal>),
    BorrowLimit(Option<Decimal>),
    UtilizationLimit(Option<Decimal>),
    AssetType(u8),
    LiquidationBonusRate(Decimal),
    LoanCloseFactor(Decimal),
    InterestUpdatePeriod(i64),
    PriceUpdatePeriod(i64),
    PriceExpirationPeriod(i64),
    OptimalUsage(Decimal),
}

#[derive(Clone, Copy, Debug)]
pub enum CheckPoolConfigLimitInput {
    DepositLimit(Decimal),
    BorrowLimit(Decimal),
    UtilizationLimit(Decimal),
}

#[derive(Clone, Copy, Debug)]
pub struct PoolConfig {
    pub protocol_interest_fee_rate: Decimal,
    pub protocol_flashloan_fee_rate: Decimal,
    pub protocol_liquidation_fee_rate: Decimal,
    pub flashloan_fee_rate: Decimal,
    pub asset_type: u8,
    pub liquidation_bonus_rate: Decimal,
    pub loan_close_factor: Decimal,
    pub deposit_limit: Option<Decimal>,
    pub borrow_limit: Option<Decimal>,
    pub utilization_limit: Option<Decimal>,
    /// Minutes between two interest updates
    pub interest_update_period: i64,
    /// Minutes between two price updates
    pub price_update_period: i64,
    /// Minutes after which an oracle price is too old
    pub price_expiration_period: i64,
    pub optimal_usage: Decimal,
}

/// The first rule that `c` breaks, as its error message, or `None` when it breaks none.
pub open spec fn pool_config_error(c: PoolConfig) -> Option<Seq<char>> {
    if !valid_rate(c.protocol_interest_fee_rate@) {
        Some("Lending fee rate must be between 0 and 1"@)
    } else if !valid_rate(c.protocol_flashloan_fee_rate@) {
        Some("Flashloan fee rate must be between 0 and 1"@)
    } else if !valid_rate(c.protocol_liquidation_fee_rate@) {
        Some("Liquidation fee rate must be between 0 and 1"@)
    } else if !valid_rate(c.flashloan_fee_rate@) {
        Some("Flashloan fee rate must be between 0 and 1"@)
    } else if !valid_rate(c.liquidation_bonus_rate@) {
        Some("Liquidation bonus rate must be between 0 and 1"@)
    } else if !valid_rate(c.loan_close_factor@) {
        Some("Loan close factor must be between 0 and 1"@)
    } else if c.deposit_limit matches Some(l) && l@ < 0 {
        Some("Deposit limit must be positive"@)
    } else if c.borrow_limit matches Some(l) && l@ < 0 {
        Some("Borrow limit must be positive"@)
    } else if c.utilization_limit matches Some(l) && !valid_rate(l@) {
        Some("Utilization limit must be between 0 and 1"@)
    } else if c.interest_update_period <= 0 {
        Some("Interest update period must be greater than 0"@)
    } else if c.price_update_period <= 0 {
        Some("Price update period must be greater than 0"@)
    } else if c.price_expiration_period <= 0 {
        Some("Price expiration period must be greater than 0"@)
    } else if c.price_expiration_period <= c.price_update_period {
        Some("Price expiration period must be greater than price update period"@)
    } else if !valid_rate(c.optimal_usage@) {
        Some("Optimal usage must be between 0 and 1"@)
    } else {
        None
    }
}

/// `c` with the field that `input` names set to the value it carries.
pub open spec fn pool_config_updated(c: PoolConfig, input: UpdatePoolConfigInput) -> PoolConfig {
    match input {
        UpdatePoolConfigInput::ProtocolInterestFeeRate(v) => PoolConfig { protocol_interest_fee_rate: v, ..c },
        UpdatePoolConfigInput::ProtocolFlashloanFeeRate(v) => PoolConfig { protocol_flashloan_fee_rate: v, ..c },
        UpdatePoolConfigInput::ProtocolLiquidationFeeRate(v) => PoolConfig {
            protocol_liquidation_fee_rate: v,
            ..c
        },
        UpdatePoolConfigInput::FlashloanFeeRate(v) => PoolConfig { flashloan_fee_rate: v, ..c },
        UpdatePoolConfigInput::DepositLimit(v) => PoolConfig { deposit_limit: v, ..c },
        UpdatePoolConfigInput::BorrowLimit(v) => PoolConfig { borrow_limit: v, ..c },
        UpdatePoolConfigInput::UtilizationLimit(v) => PoolConfig { utilization_limit: v, ..c },
        UpdatePoolConfigInput::AssetType(v) => PoolConfig { asset_type: v, ..c },
        UpdatePoolConfigInput::LiquidationBonusRate(v) => PoolConfig { liquidation_bonus_rate: v, ..c },
        UpdatePoolConfigInput::LoanCloseFactor(v) => PoolConfig { loan_close_factor: v, ..c },
        UpdatePoolConfigInput::InterestUpdatePeriod(v) => PoolConfig { interest_update_period: v, ..c },
        UpdatePoolConfigInput::PriceUpdatePeriod(v) => PoolConfig { price_update_period: v, ..c },
        UpdatePoolConfigInput::PriceExpirationPeriod(v) => PoolConfig { price_expiration_period: v, ..c },
        UpdatePoolConfigInput::OptimalUsage(v) => PoolConfig { optimal_usage: v, ..c },
    }
}

/// Whether `current` exceeds the optional `limit`.
pub open spec fn exceeds(current: int, limit: Option<Decimal>) -> bool {
    limit matches Some(l) && current > l@
}

/// The message of the limit that `input` breaks under `c`, or `None` when within it.
pub open spec fn pool_limit_error(c: PoolConfig, input: CheckPoolConfigLimitInput) -> Option<Seq<char>> {
    match input {
        CheckPoolConfigLimitInput::DepositLimit(v) => if exceeds(v@, c.deposit_limit) {
            Some("Deposit limit reached. Please try again with a smaller amount."@)
        } else {
            None
        },
        CheckPoolConfigLimitInput::BorrowLimit(v) => if exceeds(v@, c.borrow_limit) {
            Some("Borrow limit reached. Please try again with a smaller amount."@)
        } else {
            None
        },
        CheckPoolConfigLimitInput::UtilizationLimit(v) => if exceeds(v@, c.utilization_limit) {
            Some("Utilization limit reached. Please try again with a smaller amount."@)
        } else {
            None
        },
    }
}

fn over_limit(current: Decimal, limit: Option<Decimal>) -> (r: bool)
    ensures
        r == exceeds(current@, limit),
{
    match limit {
        Some(l) => l.less_than(&current),
        None => false,
    }
}

fn is_negative(v: Decimal) -> (r: bool)
    ensures
        r == (v@ < 0),
{
    v.less_than(&Decimal::zero())
}

impl PoolConfig {
    /// Perform a check on the pool configuration
    ///
    /// *Error*
    /// - If the configuration is invalid, with the message of the first rule broken
    pub fn check(&self) -> (r: Result<(), String>)
        ensures
            check_outcome(r, pool_config_error(*self)),
    {
        if !is_valid_rate(self.protocol_interest_fee_rate) {
            return Err("Lending fee rate must be between 0 and 1".to_owned());
        }
        if !is_valid_rate(self.protocol_flashloan_fee_rate) {
            return Err("Flashloan fee rate must be between 0 and 1".to_owned());
        }
        if !is_valid_rate(self.protocol_liquidation_fee_rate) {
            return Err("Liquidation fee rate must be between 0 and 1".to_owned());
        }
        if !is_valid_rate(self.flashloan_fee_rate) {
            return Err("Flashloan fee rate must be between 0 and 1".to_owned());
        }
        if !is_valid_rate(self.liquidation_bonus_rate) {
            return Err("Liquidation bonus rate must be between 0 and 1".to_owned());
        }
        if !is_valid_rate(self.loan_close_factor) {
            return Err("Loan close factor must be between 0 and 1".to_owned());
        }
        if let Some(l) = self.deposit_limit {
            if is_negative(l) {
                return Err("Deposit limit must be positive".to_owned());
            }
        }
        if let Some(l) = self.borrow_limit {
            if is_negative(l) {
                return Err("Borrow limit must be positive".to_owned());
            }
        }
        if let Some(l) = self.utilization_limit {
            if !is_valid_rate(l) {
                return Err("Utilization limit must be between 0 and 1".to_owned());
            }
        }
        if self.interest_update_period <= 0 {
            return Err("Interest update period must be greater than 0".to_owned());
        }
        if self.price_update_period <= 0 {
            return Err("Price update period must be greater than 0".to_owned());
        }
        if self.price_expiration_period <= 0 {
            return Err("Price expiration period must be greater than 0".to_owned());
        }
        if self.price_expiration_period <= self.price_update_period {
            return Err("Price expiration period must be greater than price update period".to_owned());
        }
        if !is_valid_rate(self.optimal_usage) {
            return Err("Optimal usage must be between 0 and 1".to_owned());
        }
        Ok(())
    }

    /// Update the pool configuration: the field is set, then the whole configuration checked.
    ///
    /// *Errors*
    /// - If the updated configuration is invalid (the field stays set)
    pub fn update(&mut self, pool_config_input: UpdatePoolConfigInput) -> (r: Result<(), String>)
        ensures
            *final(self) == pool_config_updated(*old(self), pool_config_input),
            check_outcome(r, pool_config_error(*final(self))),
    {
        match pool_config_input {
            UpdatePoolConfigInput::DepositLimit(deposit_limit) => {
                self.deposit_limit = deposit_limit;
            },
            UpdatePoolConfigInput::BorrowLimit(borrow_limit) => {
                self.borrow_limit = borrow_limit;
            },
            UpdatePoolConfigInput::UtilizationLimit(utilization_limit) => {
                self.utilization_limit = utilization_limit;
            },
            UpdatePoolConfigInput::FlashloanFeeRate(flashloan_fee_rate) => {
                self.flashloan_fee_rate = flashloan_fee_rate;
            },
            UpdatePoolConfigInput::ProtocolInterestFeeRate(fee_rate) => {
                self.protocol_interest_fee_rate = fee_rate;
            },
            UpdatePoolConfigInput::ProtocolFlashloanFeeRate(fee_rate) => {
                self.protocol_flashloan_fee_rate = fee_rate;
            },
            UpdatePoolConfigInput::ProtocolLiquidationFeeRate(fee_rate) => {
                self.protocol_liquidation_fee_rate = fee_rate;
            },
            UpdatePoolConfigInput::LiquidationBonusRate(liquidation_bonus_rate) => {
                self.liquidation_bonus_rate = liquidation_bonus_rate;
            },
            UpdatePoolConfigInput::LoanCloseFactor(loan_close_factor) => {
                self.loan_close_factor = loan_close_factor;
            },
            UpdatePoolConfigInput::AssetType(asset_type) => {
                self.asset_type = asset_type;
            },
            UpdatePoolConfigInput::InterestUpdatePeriod(interest_update_period) => {
                self.interest_update_period = interest_update_period;
            },
            UpdatePoolConfigInput::PriceUpdatePeriod(price_update_period) => {
                self.price_update_period = price_update_period;
            },
            UpdatePoolConfigInput::PriceExpirationPeriod(price_expiration_period) => {
                self.price_expiration_period = price_expiration_period;
            },
            UpdatePoolConfigInput::OptimalUsage(optimal_usage) => {
                self.optimal_usage = optimal_usage;
            },
        }
        self.check()
    }

    /// Check a current amount or ratio against the configured limit, if any
    ///
    /// *Error*
    /// - If the value exceeds the limit
    pub fn check_limit(&self, input: CheckPoolConfigLimitInput) -> (r: Result<(), String>)
        ensures
            check_outcome(r, pool_limit_error(*self, input)),
    {
        match input {
            CheckPoolConfigLimitInput::DepositLimit(current_deposit) => {
                if over_limit(current_deposit, self.deposit_limit) {
                    return Err(
                        "Deposit limit reached. Please try again with a smaller amount.".to_owned(),
                    );
                }
            },
            CheckPoolConfigLimitInput::BorrowLimit(current_borrow) => {
                if over_limit(current_borrow, self.borrow_limit) {
                    return Err(
                        "Borrow limit reached. Please try again with a smaller amount.".to_owned(),
                    );
                }
            },
            CheckPoolConfigLimitInput::UtilizationLimit(current_utilization) => {
                if over_limit(current_utilization, self.utilization_limit) {
                    return Err(
                        "Utilization limit reached. Please try again with a smaller amount.".to_owned(),
                    );
                }
            },
        }
        Ok(())
    }
}

/// A limit accepts every value below one it accepts, and no limit accepts everything.
pub proof fn lemma_limit_accepts_below(c: PoolConfig, smaller: Decimal, larger: Decimal)
    requires
        smaller@ <= larger@,
    ensures
        pool_limit_error(c, CheckPoolConfigLimitInput::DepositLimit(larger)) is None
            ==> pool_limit_error(c, CheckPoolConfigLimitInput::DepositLimit(smaller)) is None,
        pool_limit_error(c, CheckPoolConfigLimitInput::BorrowLimit(larger)) is None
            ==> pool_limit_error(c, CheckPoolConfigLimitInput::BorrowLimit(smaller)) is None,
        pool_limit_error(c, CheckPoolConfigLimitInput::UtilizationLimit(larger)) is None
            ==> pool_limit_error(c, CheckPoolConfigLimitInput::UtilizationLimit(smaller)) is None,
        c.deposit_limit is None ==> pool_limit_error(c, CheckPoolConfigLimitInput::DepositLimit(larger))
            is None,
        c.borrow_limit is None ==> pool_limit_error(c, CheckPoolConfigLimitInput::BorrowLimit(larger))
            is None,
        c.utilization_limit is None ==> pool_limit_error(
            c,
            CheckPoolConfigLimitInput::UtilizationLimit(larger),
        ) is None,
{
}

} // verus!
