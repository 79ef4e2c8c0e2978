use lending_market::decimal::Decimal;
use lending_market::staking::{
    check_claimable, check_fee_deposit_resources, claim, check_refinance_payment, converted_fees_amount,
    fees_withdrawal, market_entry_index, refinance_target, refinance_withdrawal, unstaking_receipt,
    StakeResWithdrawalData, StakeResWithdrawalUse, StakingConfig, UnstakingReceiptData,
};
use std::str::FromStr;

fn st_dec(s: &str) -> Decimal {
    let d = scrypto::math::Decimal::from_str(s).unwrap();
    Decimal::from_limbs(d.attos().to_digits())
}

#[test]
fn staking_defaults() {
    let config = StakingConfig::new();
    assert_eq!(config.treasury_share, st_dec("0.5"));
    assert_eq!(config.collection_bonus_rate, st_dec("0.03"));
    assert_eq!(config.refinance_bonus_rate, st_dec("0.03"));
    assert_eq!(config.unstake_waiting_time, 604800);
    assert_eq!(config.unstake_expiration_time, 172800);
}

#[test]
fn collected_fees_owe_ninety_nine_percent_of_their_value() {
    let collected = vec![(st_dec("2"), st_dec("10")), (st_dec("0.5"), st_dec("4"))];
    let record = fees_withdrawal(&collected);
    // 2 * 10 + 0.5 * 4 = 22, of which 99%
    assert_eq!(record.value, st_dec("21.78"));
    assert_eq!(record.usage, StakeResWithdrawalUse::FeesConversion);
}

#[test]
fn converted_fees_need_enough_assets() {
    let record = StakeResWithdrawalData { value: st_dec("21.78"), usage: StakeResWithdrawalUse::FeesConversion };
    assert_eq!(converted_fees_amount(&record, st_dec("2"), st_dec("20")), Ok(st_dec("10.89")));
    assert_eq!(
        converted_fees_amount(&record, st_dec("2"), st_dec("10")),
        Err("Insufficient assets provided".to_string())
    );
    let refinance = StakeResWithdrawalData { value: st_dec("1"), usage: StakeResWithdrawalUse::Refinance(0, 3) };
    assert_eq!(
        converted_fees_amount(&refinance, st_dec("2"), st_dec("20")),
        Err("Invalid withdrawal transient provided".to_string())
    );
    assert_eq!(check_fee_deposit_resources(true, true), Ok(()));
    assert_eq!(check_fee_deposit_resources(true, false), Err("Invalid assets provided".to_string()));
}

#[test]
fn unstaking_receipt_waits_a_week() {
    let config = StakingConfig::new();
    let receipt = unstaking_receipt(&config, st_dec("5"), 1000);
    assert_eq!(receipt.created_at, 1000);
    assert_eq!(receipt.claimable_at, 1000 + 604800);
    assert_eq!(receipt.expires_at, 1000 + 604800 + 172800);
    assert_eq!(receipt.pool_unit_amount, st_dec("5"));
    assert_eq!(
        check_claimable(&receipt, 1000),
        Err("Unstaking receipt is not claimable yet".to_string())
    );
    assert_eq!(check_claimable(&receipt, 1000 + 604799).is_err(), true);
    assert_eq!(check_claimable(&receipt, 1000 + 604800), Ok(()));
}

#[test]
fn refinance_owes_value_less_bonus() {
    let config = StakingConfig::new();
    let record = refinance_withdrawal(&config, st_dec("100"), st_dec("2"), 1, 42);
    assert_eq!(record.value, st_dec("194"));
    assert_eq!(refinance_target(&record), Ok((1, 42)));
    let fees = StakeResWithdrawalData { value: st_dec("1"), usage: StakeResWithdrawalUse::FeesConversion };
    assert_eq!(refinance_target(&fees), Err("Invalid withdrawal transient provided".to_string()));
}

#[test]
fn refinance_payment_within_bonus_rate() {
    let config = StakingConfig::new();
    assert_eq!(check_refinance_payment(&config, st_dec("200"), st_dec("194")), Ok(()));
    assert_eq!(check_refinance_payment(&config, st_dec("190"), st_dec("194")), Ok(()));
    assert_eq!(
        check_refinance_payment(&config, st_dec("100"), st_dec("194")),
        Err("Payment value is not equal to expected payment value".to_string())
    );
}

#[test]
fn market_indices_wrap_at_a_byte() {
    assert_eq!(market_entry_index(0), 0);
    assert_eq!(market_entry_index(3), 3);
    assert_eq!(market_entry_index(256), 0);
}

#[test]
fn claim_redeems_all_units_of_the_receipt() {
    let receipt = UnstakingReceiptData {
        pool_unit_amount: Decimal::from_attos(5_000_000_000_000_000_000),
        created_at: 0,
        claimable_at: 100,
        expires_at: 200,
    };
    assert!(check_claimable(&receipt, 99).is_err());
    assert_eq!(check_claimable(&receipt, 100), Ok(()));
    assert_eq!(claim(&receipt, 100), Decimal::from_attos(5_000_000_000_000_000_000));
}
