use lending_market::decimal::Decimal;
use lending_market::modules::market_config::{MarketConfig, UpdateMarketConfigInput};
use std::str::FromStr;

fn mc_dec(s: &str) -> Decimal {
    let d = scrypto::math::Decimal::from_str(s).unwrap();
    Decimal::from_limbs(d.attos().to_digits())
}

fn sample_market_config() -> MarketConfig {
    MarketConfig {
        max_cdp_position: 10,
        max_liquidable_value: mc_dec("0.4"),
        liquidation_dex_swap_rate: mc_dec("1"),
    }
}

#[test]
fn test_check_valid_max_cdp_position() {
    let market_config = sample_market_config();
    assert_eq!(market_config.check(), Ok(()));
}

#[test]
fn test_check_invalid_max_cdp_position() {
    let market_config = MarketConfig { max_cdp_position: 0, ..sample_market_config() };
    assert_eq!(
        market_config.check(),
        Err("Max CDP position must be greater than 0".into())
    );
}

#[test]
fn test_update_max_cdp_position_valid() {
    let mut market_config = sample_market_config();
    assert_eq!(market_config.update(UpdateMarketConfigInput::MaxCDPPosition(20)), Ok(()));
    assert_eq!(market_config.max_cdp_position, 20);
}

#[test]
fn test_update_max_cdp_position_invalid() {
    let mut market_config = sample_market_config();
    assert_eq!(
        market_config.update(UpdateMarketConfigInput::MaxCDPPosition(0)),
        Err("Max CDP position must be greater than 0".into())
    );
}

#[test]
fn test_check_valid_max_liquidable_value() {
    let market_config = sample_market_config();
    assert_eq!(market_config.check(), Ok(()));
}

#[test]
fn test_check_invalid_max_liquidable_value() {
    let market_config = MarketConfig { max_liquidable_value: mc_dec("100"), ..sample_market_config() };
    assert_eq!(
        market_config.check(),
        Err("Max liquidable value must be in range 0..1".into())
    );
}

#[test]
fn test_update_max_liquidable_value() {
    let mut market_config = sample_market_config();
    assert_eq!(
        market_config.update(UpdateMarketConfigInput::MaxLiquidableValue(mc_dec("0.3"))),
        Ok(())
    );
    assert_eq!(market_config.max_liquidable_value, mc_dec("0.3"));
}

#[test]
fn test_update_max_liquidable_value_invalid() {
    let mut market_config = sample_market_config();
    assert_eq!(
        market_config.update(UpdateMarketConfigInput::MaxLiquidableValue(mc_dec("-0.3"))),
        Err("Max liquidable value must be in range 0..1".into())
    );
}

#[test]
fn invalid_dex_swap_rate_is_refused() {
    let mut market_config = sample_market_config();
    assert_eq!(
        market_config.update(UpdateMarketConfigInput::LiquidationDexSwapRate(mc_dec("1.5"))),
        Err("Liquidation dex swap rate value must be in range 0..1".into())
    );
    // the field stays set
    assert_eq!(market_config.liquidation_dex_swap_rate, mc_dec("1.5"));
}

#[test]
fn first_broken_rule_wins() {
    let market_config = MarketConfig {
        max_cdp_position: 0,
        max_liquidable_value: mc_dec("2"),
        liquidation_dex_swap_rate: mc_dec("2"),
    };
    assert_eq!(
        market_config.check(),
        Err("Max CDP position must be greater than 0".into())
    );
}
