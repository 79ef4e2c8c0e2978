use lending_market::decimal::Decimal;
use lending_market::modules::pool_config::{CheckPoolConfigLimitInput, PoolConfig, UpdatePoolConfigInput};
use std::str::FromStr;

fn pc_dec(s: &str) -> Decimal {
    let d = scrypto::math::Decimal::from_str(s).unwrap();
    Decimal::from_limbs(d.attos().to_digits())
}

fn get_default_pool_config() -> PoolConfig {
    PoolConfig {
        protocol_interest_fee_rate: pc_dec("0.01"),
        protocol_flashloan_fee_rate: pc_dec("0.005"),
        protocol_liquidation_fee_rate: pc_dec("0.05"),
        flashloan_fee_rate: pc_dec("0.005"),
        asset_type: 1,
        liquidation_bonus_rate: pc_dec("0.05"),
        loan_close_factor: pc_dec("0.5"),
        deposit_limit: None,
        borrow_limit: None,
        utilization_limit: None,
        price_update_period: 3600,
        interest_update_period: 3600,
        price_expiration_period: 3601,
        optimal_usage: pc_dec("0.75"),
    }
}

#[test]
fn test_check_valid_config() {
    let config = get_default_pool_config();
    assert!(config.check().is_ok());
}

#[test]
fn test_check_invalid_protocol_interest_fee_rate() {
    let config = PoolConfig {
        protocol_interest_fee_rate: pc_dec("-0.01"),
        ..get_default_pool_config()
    };

    assert!(config.check().is_err());

    let config = PoolConfig {
        protocol_interest_fee_rate: pc_dec("1.01"),
        ..get_default_pool_config()
    };

    assert!(config.check().is_err());
}

#[test]
fn test_check_invalid_protocol_flashloan_fee_rate() {
    let config = PoolConfig {
        protocol_flashloan_fee_rate: pc_dec("-0.01"),
        ..get_default_pool_config()
    };

    assert!(config.check().is_err());

    let config = PoolConfig {
        protocol_flashloan_fee_rate: pc_dec("1.01"),
        ..get_default_pool_config()
    };

    assert!(config.check().is_err());
}

#[test]
fn test_check_invalid_protocol_liquidation_fee_rate() {
    let config = PoolConfig {
        protocol_liquidation_fee_rate: pc_dec("-0.01"),
        ..get_default_pool_config()
    };

    assert!(config.check().is_err());

    let config = PoolConfig {
        protocol_liquidation_fee_rate: pc_dec("1.01"),
        ..get_default_pool_config()
    };

    assert!(config.check().is_err());
}

#[test]
fn test_check_invalid_flashloan_fee_rate() {
    let config = PoolConfig {
        flashloan_fee_rate: pc_dec("-0.005"),
        ..get_default_pool_config()
    };

    assert!(config.check().is_err());

    let config = PoolConfig {
        flashloan_fee_rate: pc_dec("1.005"),
        ..get_default_pool_config()
    };

    assert!(config.check().is_err());
}

#[test]
fn test_check_invalid_deposit_limit() {
    let config = PoolConfig {
        deposit_limit: Some(pc_dec("-100")),
        ..get_default_pool_config()
    };

    assert!(config.check().is_err());
}

#[test]
fn test_check_invalid_borrow_limit() {
    let config = PoolConfig {
        borrow_limit: Some(pc_dec("-1000")),
        ..get_default_pool_config()
    };

    assert!(config.check().is_err());
}

#[test]
fn test_check_invalid_utilization_limit() {
    let config = PoolConfig {
        utilization_limit: Some(pc_dec("-0.8")),
        ..get_default_pool_config()
    };

    assert!(config.check().is_err());

    let config = PoolConfig {
        utilization_limit: Some(pc_dec("1.2")),
        ..get_default_pool_config()
    };

    assert!(config.check().is_err());
}

#[test]
fn test_check_invalid_liquidation_bonus_rate() {
    let config = PoolConfig {
        liquidation_bonus_rate: pc_dec("-0.05"),
        ..get_default_pool_config()
    };

    assert!(config.check().is_err());

    let config = PoolConfig {
        liquidation_bonus_rate: pc_dec("1.05"),
        ..get_default_pool_config()
    };

    assert!(config.check().is_err());
}

#[test]
fn test_check_invalid_loan_close_factor() {
    let config = PoolConfig {
        loan_close_factor: pc_dec("-0.5"),
        ..get_default_pool_config()
    };

    assert!(config.check().is_err());

    let config = PoolConfig {
        loan_close_factor: pc_dec("1.5"),
        ..get_default_pool_config()
    };

    assert!(config.check().is_err());
}

#[test]
fn test_check_invalid_price_update_period() {
    let config = PoolConfig {
        price_update_period: -3600,
        ..get_default_pool_config()
    };

    assert!(config.check().is_err());
}

#[test]
fn test_check_invalid_interest_update_period() {
    let config = PoolConfig {
        interest_update_period: -3600,
        ..get_default_pool_config()
    };

    assert!(config.check().is_err());
}

#[test]
fn test_check_invalid_price_expiration_period() {
    let config = PoolConfig {
        price_expiration_period: -3600,
        ..get_default_pool_config()
    };

    assert!(config.check().is_err());

    let config = PoolConfig {
        price_update_period: 3600,
        price_expiration_period: 3600,
        ..get_default_pool_config()
    };

    assert!(config.check().is_err());
}

#[test]
fn pool_check_reports_first_rule_message() {
    let config = PoolConfig {
        price_update_period: 3600,
        price_expiration_period: 3600,
        ..get_default_pool_config()
    };
    assert_eq!(
        config.check(),
        Err("Price expiration period must be greater than price update period".to_string())
    );
    let config = PoolConfig {
        optimal_usage: pc_dec("1.1"),
        ..get_default_pool_config()
    };
    assert_eq!(config.check(), Err("Optimal usage must be between 0 and 1".to_string()));
}

#[test]
fn pool_update_sets_field_then_checks() {
    let mut config = get_default_pool_config();
    assert_eq!(config.update(UpdatePoolConfigInput::LoanCloseFactor(pc_dec("0.4"))), Ok(()));
    assert_eq!(config.loan_close_factor, pc_dec("0.4"));
    assert_eq!(
        config.update(UpdatePoolConfigInput::PriceUpdatePeriod(0)),
        Err("Price update period must be greater than 0".to_string())
    );
    assert_eq!(config.price_update_period, 0);
}

#[test]
fn pool_limits_accept_values_up_to_the_limit() {
    let config = PoolConfig {
        deposit_limit: Some(pc_dec("100")),
        borrow_limit: Some(pc_dec("50")),
        utilization_limit: Some(pc_dec("0.9")),
        ..get_default_pool_config()
    };
    assert_eq!(config.check_limit(CheckPoolConfigLimitInput::DepositLimit(pc_dec("100"))), Ok(()));
    assert_eq!(config.check_limit(CheckPoolConfigLimitInput::DepositLimit(pc_dec("99"))), Ok(()));
    assert_eq!(
        config.check_limit(CheckPoolConfigLimitInput::DepositLimit(pc_dec("100.000000000000000001"))),
        Err("Deposit limit reached. Please try again with a smaller amount.".to_string())
    );
    assert_eq!(
        config.check_limit(CheckPoolConfigLimitInput::BorrowLimit(pc_dec("51"))),
        Err("Borrow limit reached. Please try again with a smaller amount.".to_string())
    );
    assert_eq!(
        config.check_limit(CheckPoolConfigLimitInput::UtilizationLimit(pc_dec("0.95"))),
        Err("Utilization limit reached. Please try again with a smaller amount.".to_string())
    );
    let unlimited = get_default_pool_config();
    assert_eq!(
        unlimited.check_limit(CheckPoolConfigLimitInput::DepositLimit(pc_dec("1000000000"))),
        Ok(())
    );
}
