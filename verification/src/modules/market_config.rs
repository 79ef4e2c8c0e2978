//! The market-wide configuration and its validation.
use crate::decimal::Decimal;
use crate::modules::utils::{is_valid_rate, valid_rate};
use vstd::prelude::*;

verus! {

/// Input to update market configuration
#[derive(Clone, Copy, Debug)]
pub enum UpdateMarketConfigInput {
    MaxCDPPosition(u8),
    MaxLiquidableValue(Decimal),
    LiquidationDexSwapRate(Decimal),
}

/// The lending market configuration
#[derive(Clone, Copy, Debug)]
pub struct MarketConfig {
    /// Max positions per CDP per user
    pub max_cdp_position: u8,
    /// Max liquidable value to take out of collateral when partially liquidating a CDP (rate)
    pub max_liquidable_value: Decimal,
    /// Dex swap efficiency: 1 means the whole collateral is converted to the loan asset
    /// when liquidating; below 1 tolerates that part of the collateral is not used
    pub liquidation_dex_swap_rate: Decimal,
}

/// The first rule that `c` breaks, as its error message, or `None` when it breaks none.
pub open spec fn market_config_error(c: MarketConfig) -> Option<Seq<char>> {
    if c.max_cdp_position == 0 {
        Some("Max CDP position must be greater than 0"@)
    } else if !valid_rate(c.max_liquidable_value@) {
        Some("Max liquidable value must be in range 0..1"@)
    } else if !valid_rate(c.liquidation_dex_swap_rate@) {
        Some("Liquidation dex swap rate value must be in range 0..1"@)
    } else {
        None
    }
}

/// `c` with the field that `input` names set to the value it carries.
pub open spec fn market_config_updated(c: MarketConfig, input: UpdateMarketConfigInput) -> MarketConfig {
    match input {
        UpdateMarketConfigInput::MaxCDPPosition(v) => MarketConfig { max_cdp_position: v, ..c },
        UpdateMarketConfigInput::MaxLiquidableValue(v) => MarketConfig { max_liquidable_value: v, ..c },
        UpdateMarketConfigInput::LiquidationDexSwapRate(v) => MarketConfig {
            liquidation_dex_swap_rate: v,
            ..c
        },
    }
}

/// The outcome of a check whose first broken rule is `error`.
pub open spec fn check_outcome(r: Result<(), String>, error: Option<Seq<char>>) -> bool {
    match r {
        Ok(_) => error is None,
        Err(e) => error == Some(e@),
    }
}

impl MarketConfig {
    /// Perform a check on the market configuration
    ///
    /// *Error*
    /// - If the configuration is invalid
    pub fn check(&self) -> (r: Result<(), String>)
        ensures
            check_outcome(r, market_config_error(*self)),
    {
        if self.max_cdp_position == 0 {
            return Err("Max CDP position must be greater than 0".to_owned());
        }
        if !is_valid_rate(self.max_liquidable_value) {
            return Err("Max liquidable value must be in range 0..1".to_owned());
        }
        if !is_valid_rate(self.liquidation_dex_swap_rate) {
            return Err("Liquidation dex swap rate value must be in range 0..1".to_owned());
        }
        Ok(())
    }

    /// Update the market configuration: the field is set, then the whole configuration checked.
    ///
    /// *Errors*
    /// - If the updated configuration is invalid (the field stays set)
    pub fn update(&mut self, pool_config_input: UpdateMarketConfigInput) -> (r: Result<(), String>)
        ensures
            *final(self) == market_config_updated(*old(self), pool_config_input),
            check_outcome(r, market_config_error(*final(self))),
    {
        match pool_config_input {
            UpdateMarketConfigInput::MaxCDPPosition(max_cdp_position) => {
                self.max_cdp_position = max_cdp_position;
            },
            UpdateMarketConfigInput::MaxLiquidableValue(max_liquidable_value) => {
                self.max_liquidable_value = max_liquidable_value;
            },
            UpdateMarketConfigInput::LiquidationDexSwapRate(liquidation_dex_swap_rate) => {
                self.liquidation_dex_swap_rate = liquidation_dex_swap_rate;
            },
        }
        self.check()
    }
}

} // verus!
