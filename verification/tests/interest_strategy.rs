use lending_market::decimal::Decimal;
use lending_market::modules::interest_strategy::{InterestStrategy, InterestStrategyBreakPoints};
use std::str::FromStr;

fn is_dec(s: &str) -> Decimal {
    let d = scrypto::math::Decimal::from_str(s).unwrap();
    Decimal::from_limbs(d.attos().to_digits())
}

fn breakpoints(r0: &str, r1: &str, r2: &str) -> InterestStrategyBreakPoints {
    InterestStrategyBreakPoints { r0: is_dec(r0), r1: is_dec(r1), r2: is_dec(r2) }
}

#[test]
fn test_interest_strategy_check() {
    let breakpoints_with_errors_1 = breakpoints("0.05", "5", "3");
    let breakpoints_with_errors_2 = breakpoints("0.05", "3", "-5");
    let breakpoints_with_errors_3 = breakpoints("-0.05", "3", "5");
    let breakpoints_with_errors_4 = breakpoints("0.05", "3", "3");

    assert!(InterestStrategy::new().set_breakpoints(breakpoints_with_errors_1).is_err());
    assert!(InterestStrategy::new().set_breakpoints(breakpoints_with_errors_2).is_err());
    assert!(InterestStrategy::new().set_breakpoints(breakpoints_with_errors_3).is_err());
    assert!(InterestStrategy::new().set_breakpoints(breakpoints_with_errors_4).is_err());
}

#[test]
fn test_interest_strategy_check_get_rate() {
    let mut interest_strategy = InterestStrategy::new();
    let result = interest_strategy.set_breakpoints(breakpoints("0", "0.04", "0.75"));
    assert!(result.is_ok());

    assert!(interest_strategy.get_interest_rate(is_dec("-0.1"), is_dec("0.5")).is_err());
    assert!(interest_strategy.get_interest_rate(is_dec("1.1"), is_dec("0.9")).is_err());
}

#[test]
fn test_interest_strategy_get_rate_value() {
    let mut interest_strategy = InterestStrategy::new();
    let result = interest_strategy.set_breakpoints(breakpoints("0.01", "0.04", "0.75"));
    assert!(result.is_ok());

    assert_eq!(interest_strategy.get_interest_rate(is_dec("0.6"), is_dec("0.8")), Ok(is_dec("0.04")));
    assert_eq!(interest_strategy.get_interest_rate(is_dec("0.9"), is_dec("0.8")), Ok(is_dec("0.425")));
    assert_eq!(interest_strategy.get_interest_rate(is_dec("0"), is_dec("0.8")), Ok(is_dec("0.01")));
    assert_eq!(interest_strategy.get_interest_rate(is_dec("1"), is_dec("0.8")), Ok(is_dec("0.8")));

    assert!(interest_strategy.get_interest_rate(is_dec("-0.1"), is_dec("0.500")).is_err());
    assert!(interest_strategy.get_interest_rate(is_dec("1.1"), is_dec("0.500")).is_err());
}

#[test]
fn rejected_breakpoints_leave_strategy_unchanged() {
    let mut interest_strategy = InterestStrategy::new();
    interest_strategy.set_breakpoints(breakpoints("0.01", "0.04", "0.75")).unwrap();
    assert_eq!(
        interest_strategy.set_breakpoints(breakpoints("-0.05", "3", "5")),
        Err("The initial rate must be greater than or equal to 0".to_string())
    );
    assert_eq!(
        interest_strategy.set_breakpoints(breakpoints("0.05", "3", "3")),
        Err("Slope must be monotonically increasing".to_string())
    );
    // the earlier break points still apply
    assert_eq!(interest_strategy.get_interest_rate(is_dec("1"), is_dec("0.8")), Ok(is_dec("0.8")));
}

#[test]
fn rate_at_optimal_usage_is_r0_plus_r1() {
    let mut interest_strategy = InterestStrategy::new();
    interest_strategy.set_breakpoints(breakpoints("0.01", "0.04", "0.75")).unwrap();
    assert_eq!(interest_strategy.get_interest_rate(is_dec("0.8"), is_dec("0.8")), Ok(is_dec("0.05")));
}

#[test]
fn rate_grows_with_usage() {
    let mut interest_strategy = InterestStrategy::new();
    interest_strategy.set_breakpoints(breakpoints("0.01", "0.04", "0.75")).unwrap();
    let mut previous = is_dec("0");
    for step in 0..=20 {
        let usage = is_dec(&format!("{}", step as f64 / 20.0));
        let rate = interest_strategy.get_interest_rate(usage, is_dec("0.8")).unwrap();
        assert!(previous.less_eq(&rate));
        previous = rate;
    }
}

#[test]
fn optimal_usage_above_one_is_rejected() {
    let interest_strategy = InterestStrategy::new();
    assert_eq!(
        interest_strategy.get_interest_rate(is_dec("0.5"), is_dec("1.5")),
        Err("Usage must be between 0 exclusive and 1 inclusive".to_string())
    );
    assert_eq!(
        interest_strategy.get_interest_rate(is_dec("1.2"), is_dec("0.5")),
        Err("Usage must be between 0 and 1, inclusive, was 1.2".to_string())
    );
}

#[test]
fn full_usage_with_full_optimal_usage_is_r0_plus_r1() {
    let mut interest_strategy = InterestStrategy::new();
    interest_strategy.set_breakpoints(breakpoints("0.01", "0.04", "0.75")).unwrap();
    assert_eq!(interest_strategy.get_interest_rate(is_dec("1"), is_dec("1")), Ok(is_dec("0.05")));
    assert_eq!(interest_strategy.get_interest_rate(is_dec("0.5"), is_dec("1")), Ok(is_dec("0.03")));
}
