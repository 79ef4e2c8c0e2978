use lending_market::address::ResourceAddress;
use lending_market::decimal::{Decimal, PreciseDecimal};
use lending_market::market::{
    collateral_shortfall, compound_yearly, liquidable_scan_range, payment_shortfall, liquidation_collateral_step, liquidation_payment_accepted,
    liquidation_payment_target, market_stats_all_pools, market_stats_pool, payment_complete,
    repay_step, start_liquidation_refusal,
};
use lending_market::modules::interest_strategy::{InterestStrategy, InterestStrategyBreakPoints};
use lending_market::modules::liquidation_threshold::LiquidationThreshold;
use lending_market::modules::operation_status::{OperatingService, OperatingStatus};
use lending_market::modules::pool_config::PoolConfig;
use lending_market::modules::pool_state::{pool_utilization, LendingPoolState};
use lending_market::modules::utils::{is_valid_rate, price_from_feed, PriceInfo};
use lending_market::single_resource_pool::{DepositType, SingleResourcePool, WithdrawType};
use std::str::FromStr;

fn pl_dec(s: &str) -> Decimal {
    let d = scrypto::math::Decimal::from_str(s).unwrap();
    Decimal::from_limbs(d.attos().to_digits())
}

fn pl_pdec(s: &str) -> PreciseDecimal {
    let d = scrypto::math::PreciseDecimal::from_str(s).unwrap();
    PreciseDecimal::from_limbs(d.precise_subunits().to_digits())
}

fn pl_address(a: scrypto::prelude::ResourceAddress) -> ResourceAddress {
    ResourceAddress::from_bytes(a.as_bytes().try_into().unwrap())
}

fn sample_pool_config() -> PoolConfig {
    PoolConfig {
        protocol_interest_fee_rate: pl_dec("0.01"),
        protocol_flashloan_fee_rate: pl_dec("0.005"),
        protocol_liquidation_fee_rate: pl_dec("0.05"),
        flashloan_fee_rate: pl_dec("0.005"),
        asset_type: 1,
        liquidation_bonus_rate: pl_dec("0.05"),
        loan_close_factor: pl_dec("0.5"),
        deposit_limit: Some(pl_dec("1000")),
        borrow_limit: None,
        utilization_limit: None,
        price_update_period: 5,
        interest_update_period: 3600,
        price_expiration_period: 10,
        optimal_usage: pl_dec("0.75"),
    }
}

fn sample_pool_state() -> LendingPoolState {
    let mut interest_strategy = InterestStrategy::new();
    interest_strategy
        .set_breakpoints(InterestStrategyBreakPoints { r0: pl_dec("0.01"), r1: pl_dec("0.04"), r2: pl_dec("0.75") })
        .unwrap();
    LendingPoolState {
        pool_res_address: pl_address(scrypto::prelude::XRD),
        price: pl_dec("2"),
        price_updated_at: 0,
        interest_rate: pl_dec("0"),
        interest_updated_at: 0,
        total_loan: pl_pdec("0"),
        total_deposit: pl_pdec("0"),
        total_loan_unit: pl_pdec("0"),
        total_deposit_unit: pl_pdec("0"),
        interest_strategy,
        liquidation_threshold: LiquidationThreshold::default(),
        pool_config: sample_pool_config(),
        operating_status: OperatingStatus::new(),
        pool_utilization: pl_dec("0"),
        total_reserved_amount: pl_dec("0"),
    }
}

#[test]
fn flash_loan_round_trip_restores_pool() {
    let mut pool = SingleResourcePool::instantiate_locally();
    let units = pool.contribute(pl_dec("100"));
    assert_eq!(units, pl_dec("100"));
    let before = pool;
    let taken = pool.protected_withdraw(pl_dec("40"), WithdrawType::ForTemporaryUse);
    assert_eq!(taken, pl_dec("40"));
    assert_eq!(pool.get_pooled_amount(), (pl_dec("60"), pl_dec("40")));
    assert_eq!(pool.unit_to_asset_ratio, before.unit_to_asset_ratio);
    pool.protected_deposit(pl_dec("40"), DepositType::FromTemporaryUse);
    assert_eq!(pool.get_pooled_amount(), before.get_pooled_amount());
    assert_eq!(pool.get_pool_unit_supply(), before.get_pool_unit_supply());
    assert_eq!(pool.get_pool_unit_ratio(), before.get_pool_unit_ratio());
}

#[test]
fn new_pool_redeems_contribution_exactly() {
    let mut pool = SingleResourcePool::instantiate_locally();
    let units = pool.contribute(pl_dec("12.345"));
    assert_eq!(pool.redeem(units), pl_dec("12.345"));
    assert_eq!(pool.get_pooled_amount(), (pl_dec("0"), pl_dec("0")));
}

#[test]
fn interest_lowers_units_per_asset() {
    let mut pool = SingleResourcePool::instantiate_locally();
    pool.contribute(pl_dec("100"));
    pool.increase_external_liquidity(pl_dec("25"));
    assert_eq!(pool.get_pool_unit_ratio(), pl_pdec("0.8"));
    // a later contribution gets fewer units per asset
    assert_eq!(pool.contribute(pl_dec("10")), pl_dec("8"));
}

#[test]
fn utilization_is_borrowed_share() {
    assert_eq!(pool_utilization(pl_dec("75"), pl_dec("25")), pl_dec("0.25"));
    assert_eq!(pool_utilization(pl_dec("0"), pl_dec("0")), pl_dec("0"));
    assert!(is_valid_rate(pl_dec("1")));
    assert!(!is_valid_rate(pl_dec("1.000000000000000001")));
}

#[test]
fn contribution_respects_deposit_limit() {
    let mut state = sample_pool_state();
    let units = state.contribute_proxy(pl_dec("100"), pl_dec("0"), pl_dec("0")).unwrap();
    assert_eq!(units, pl_pdec("100"));
    assert_eq!(state.total_deposit, pl_pdec("100"));
    assert_eq!(
        state.contribute_proxy(pl_dec("901"), pl_dec("100"), pl_dec("0")),
        Err("Deposit limit reached. Please try again with a smaller amount.".to_string())
    );
    assert_eq!(state.total_deposit, pl_pdec("100"));
}

#[test]
fn price_freshness_rules() {
    let mut state = sample_pool_state();
    let plan = state.update_interest_and_price(299, None);
    assert!(!plan.update_price);
    let plan = state.update_interest_and_price(300, None);
    assert!(plan.update_price);
    assert_eq!(plan.interest_period, None);
    let plan = state.update_interest_and_price(300, Some((false, true)));
    assert_eq!(plan.interest_period, Some(300));
    assert_eq!(
        state._update_price(1000, PriceInfo { timestamp: 400, price: pl_dec("3") }),
        Err("Price info is too old".to_string())
    );
    assert_eq!(state._update_price(1000, PriceInfo { timestamp: 500, price: pl_dec("3") }), Ok(()));
    assert_eq!(state.price, pl_dec("3"));
    assert_eq!(state.price_updated_at, 1000);
}

#[test]
fn base_asset_is_priced_one() {
    let p = price_from_feed(true, 7, None).unwrap();
    assert_eq!((p.price, p.timestamp), (pl_dec("1"), 7));
    assert_eq!(price_from_feed(false, 7, None).unwrap_err(), "Price not found".to_string());
}

#[test]
fn repay_step_takes_what_is_owed() {
    let state = sample_pool_state();
    // 10 units owed at one unit per asset, payment of 4 at price 2
    let step = repay_step(&state, pl_pdec("10"), pl_dec("4"), pl_dec("100"), false, None).unwrap();
    assert_eq!(step.max_loan_value, pl_dec("8"));
    assert_eq!(step.repay_amount, pl_dec("4"));
    // in a liquidation only the close factor's share can be repaid, and at most what is expected
    let step = repay_step(&state, pl_pdec("10"), pl_dec("9"), pl_dec("100"), true, Some(pl_dec("6"))).unwrap();
    assert_eq!(step.max_loan_value, pl_dec("6"));
    assert_eq!(step.repay_amount, pl_dec("3"));
    assert_eq!(step.expected_payment_value, pl_dec("0"));
    assert!(payment_complete(step.expected_payment_value));
    let mut disabled = sample_pool_state();
    disabled.operating_status.update(OperatingService::Repay, false, true).unwrap();
    assert!(repay_step(&disabled, pl_pdec("10"), pl_dec("4"), pl_dec("100"), false, None).is_err());
}

#[test]
fn liquidation_step_adds_bonus() {
    let state = sample_pool_state();
    // 100 units at one unit per asset, price 2: 200 of collateral; 50 requested, 52.5 with bonus
    let step = liquidation_collateral_step(&state, pl_pdec("1"), pl_pdec("100"), pl_dec("50")).unwrap();
    assert_eq!(step.collateral_value, pl_dec("52.5"));
    assert_eq!(step.remaining_requested_value, pl_dec("0"));
    assert_eq!(step.collateral_units, pl_pdec("26.25"));
    // too little collateral: the rest is still requested
    let step = liquidation_collateral_step(&state, pl_pdec("1"), pl_pdec("10"), pl_dec("50")).unwrap();
    assert_eq!(step.collateral_value, pl_dec("20"));
    assert!(step.remaining_requested_value.less_eq(&pl_dec("49")));
    assert!(pl_dec("30.9").less_eq(&step.remaining_requested_value));
}

#[test]
fn liquidation_payments_and_refusals() {
    assert_eq!(liquidation_payment_target(Some(pl_dec("10")), pl_dec("8")), pl_dec("8"));
    assert_eq!(liquidation_payment_target(None, pl_dec("8")), pl_dec("8"));
    assert!(liquidation_payment_accepted(pl_dec("8"), pl_dec("8"), pl_dec("0.4")));
    assert!(!liquidation_payment_accepted(pl_dec("7"), pl_dec("8"), pl_dec("0.4")));
    assert_eq!(start_liquidation_refusal(true, false), Err("cdp info is too old.".to_string()));
    assert_eq!(start_liquidation_refusal(false, true), Err("The cdp is not liquidable.".to_string()));
    assert_eq!(start_liquidation_refusal(true, true), Ok(()));
    assert_eq!(liquidable_scan_range(2, 100, 9), (2, 10));
    assert_eq!(liquidable_scan_range(2, 5, 9), (2, 7));
    assert_eq!(liquidable_scan_range(0, 5, 9), (0, 5));
    assert_eq!(liquidable_scan_range(12, 5, 9), (12, 10));
    assert_eq!(liquidable_scan_range(3, u64::MAX, 9), (3, 10));
}

#[test]
fn market_stats_sum_pools() {
    let state = sample_pool_state();
    let stats = market_stats_pool(&state, pl_dec("75"), pl_dec("25")).unwrap();
    assert_eq!(stats.available_liquidity, pl_dec("75"));
    let all = market_stats_all_pools(vec![stats, stats]);
    assert_eq!(all.market_stats_pools.len(), 2);
    assert_eq!(compound_yearly(pl_dec("0")), Some(pl_pdec("0")));
}

#[test]
fn interest_accrues_over_a_year() {
    let mut state = sample_pool_state();
    state.interest_rate = pl_dec("0.1");
    state.total_loan = pl_pdec("100");
    state.total_deposit = pl_pdec("200");
    let increase = state._update_interest(500, 31_556_952, pl_dec("100"), pl_dec("100")).unwrap();
    // loans grow by 0.1 * (1 + 100); deposits by 0.5 * 0.1 * 0.99 * (1 + 200)
    assert_eq!(state.total_loan, pl_pdec("110.1"));
    assert_eq!(state.total_deposit, pl_pdec("209.9495"));
    assert_eq!(state.total_reserved_amount, pl_dec("0.1505"));
    assert_eq!(increase, Some(pl_dec("10.1")));
    assert_eq!(state.pool_utilization, pool_utilization(pl_dec("100"), pl_dec("110.1")));
    assert!(pl_dec("0.01").less_eq(&state.interest_rate));
    assert!(state.interest_rate.less_eq(&pl_dec("0.05")));
    assert_eq!(state.interest_updated_at, 500);
}

#[test]
fn loans_are_capped_at_deposits() {
    let mut state = sample_pool_state();
    state.interest_rate = pl_dec("1");
    state.total_loan = pl_pdec("100");
    state.total_deposit = pl_pdec("100");
    state._update_interest(0, 31_556_952, pl_dec("0"), pl_dec("100")).unwrap();
    assert_eq!(state.total_loan, state.total_deposit);
}

#[test]
fn yearly_compounding_matches_scrypto() {
    let rate = pl_dec("0.1");
    let apy = compound_yearly(rate).unwrap();
    let per_second = scrypto::math::Decimal::from_str("0.1").unwrap() / scrypto::math::Decimal::from(31536000i64);
    let term = scrypto::math::PreciseDecimal::ONE + scrypto::math::PreciseDecimal::from(per_second);
    let expected = term.checked_powi(31536000).unwrap() - scrypto::math::PreciseDecimal::ONE;
    assert_eq!(apy, PreciseDecimal::from_limbs(expected.precise_subunits().to_digits()));
    // about e^0.1 - 1
    assert!(pl_pdec("0.105").less_eq(&apy));
    assert!(apy.less_eq(&pl_pdec("0.106")));
}

#[test]
fn contributions_keep_the_deposit_ratio() {
    let mut state = sample_pool_state();
    state.total_deposit = pl_pdec("100");
    state.total_deposit_unit = pl_pdec("80");
    let before = state.get_deposit_unit_ratio().unwrap();
    assert_eq!(before, pl_pdec("0.8"));
    let units = state.contribute_proxy(pl_dec("10"), pl_dec("100"), pl_dec("0")).unwrap();
    assert_eq!(units, pl_pdec("8"));
    let after = state.get_deposit_unit_ratio().unwrap();
    assert!(after.less_eq(&before));
    // a pool with more units than assets is refused
    state.total_deposit_unit = pl_pdec("200");
    assert!(state.get_deposit_unit_ratio().is_err());
}

#[test]
fn yearly_compounding_overflow_gives_none() {
    assert_eq!(compound_yearly(Decimal::max_value()), None);
}

#[test]
fn payment_shortfall_reports_the_amounts() {
    assert_eq!(payment_shortfall(pl_dec("100"), pl_dec("100"), pl_dec("0.0000000001")), Ok(()));
    assert_eq!(
        payment_shortfall(pl_dec("100"), pl_dec("60"), pl_dec("40")),
        Err("Insufficient payment value, 100 required, 60 total, 40 remaining to pay".to_string())
    );
}

#[test]
fn collateral_shortfall_reports_the_remainder() {
    assert_eq!(collateral_shortfall(pl_dec("0")), Ok(()));
    assert_eq!(
        collateral_shortfall(pl_dec("12.5")),
        Err("Insufficient collateral value, 12.5 remaining".to_string())
    );
}

#[test]
fn interest_debounce_counts_minutes() {
    let mut state = sample_pool_state();
    state.pool_config.interest_update_period = 2;
    // 119 seconds are one whole minute: not yet due
    assert_eq!(state.update_interest_and_price(119, None).interest_period, None);
    // 120 seconds are two minutes: due, accruing over the 120 seconds
    assert_eq!(state.update_interest_and_price(120, None).interest_period, Some(120));
}

#[test]
fn borrowing_a_negative_amount_is_refused() {
    let mut state = sample_pool_state();
    let before_loan = state.total_loan;
    assert_eq!(
        state.withdraw_for_borrow(pl_dec("-0.000000000000000001"), pl_dec("100"), pl_dec("0")),
        Err("Amount must be positive".to_string())
    );
    assert_eq!(state.total_loan, before_loan);
    assert_eq!(
        state.withdraw_for_borrow(pl_dec("0"), pl_dec("100"), pl_dec("0")),
        Err("Amount must be positive".to_string())
    );
}
