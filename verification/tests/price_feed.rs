use lending_market::address::ResourceAddress;
use lending_market::decimal::Decimal;
use lending_market::faucet::{check_faucet_payment, faucet_amount, find_resource};
use lending_market::mock_oracle::MockSupraOracle;
use lending_market::price_feed::{
    data_pairs_price, price_info_price, updater_refusal, DerivedData, PriceData, PriceFeed,
};
use std::str::FromStr;

fn pf_dec(s: &str) -> Decimal {
    let d = scrypto::math::Decimal::from_str(s).unwrap();
    Decimal::from_limbs(d.attos().to_digits())
}

fn pf_address(a: scrypto::prelude::ResourceAddress) -> ResourceAddress {
    ResourceAddress::from_bytes(a.as_bytes().try_into().unwrap())
}

fn pair(pair_index: u32, price: u128, decimal: u16) -> PriceData {
    PriceData { pair_index, price, timestamp: 0, round: 0, decimal }
}

#[test]
fn oracle_price_has_its_decimal_places() {
    assert_eq!(pair(1, 42, 3).to_decimal_price(), pf_dec("0.042"));
    assert_eq!(pair(1, 123456789, 0).to_decimal_price(), pf_dec("123456789"));
    assert_eq!(pair(1, 1, 9).to_decimal_price(), pf_dec("0.000000001"));
}

#[test]
fn price_info_takes_first_pair_and_inverts() {
    let data = vec![pair(7, 5, 1), pair(276, 42, 3), pair(276, 1, 0)];
    let p = price_info_price(&data, 276, 0, 99).unwrap();
    assert_eq!(p.price, pf_dec("0.042"));
    assert_eq!(p.timestamp, 99);
    let inv = price_info_price(&data, 7, 1, 5).unwrap();
    assert_eq!(inv.price, pf_dec("2"));
    assert!(price_info_price(&data, 8, 0, 5).is_none());
}

#[test]
fn data_pairs_multiply() {
    let derived = vec![
        DerivedData { round_difference: 0, derived_price: 3, decimal: 0 },
        DerivedData { round_difference: 0, derived_price: 7, decimal: 0 },
    ];
    let p = data_pairs_price(&derived, 11);
    assert_eq!(p.price, pf_dec("21"));
    assert_eq!(p.timestamp, 11);
    assert_eq!(data_pairs_price(&vec![], 0).price, pf_dec("1"));
}

#[test]
fn feed_answers_stored_price_before_oracle() {
    let xrd = pf_address(scrypto::prelude::XRD);
    let other = pf_address(scrypto::prelude::GLOBAL_CALLER_RESOURCE);
    let mut feed = PriceFeed::instantiate();
    assert!(feed.stored_price(&xrd).is_none());
    feed.admin_update_price(xrd, pf_dec("0.05"), 60);
    let p = feed.stored_price(&xrd).unwrap();
    assert_eq!((p.price, p.timestamp), (pf_dec("0.05"), 60));
    let oracle = Some(lending_market::modules::utils::PriceInfo { timestamp: 1, price: pf_dec("9") });
    assert_eq!(feed.get_price(&xrd, oracle).unwrap().price, pf_dec("0.05"));
    assert_eq!(feed.get_price(&other, oracle).unwrap().price, pf_dec("9"));
    feed.admin_remove_price(xrd);
    assert!(feed.stored_price(&xrd).is_none());
    assert_eq!(feed.get_price(&xrd, oracle).unwrap().price, pf_dec("9"));
}

#[test]
fn inactive_updater_is_refused() {
    let xrd = pf_address(scrypto::prelude::XRD);
    let mut feed = PriceFeed::instantiate();
    assert_eq!(updater_refusal(false), Err("Updater badge is not active.".to_string()));
    assert!(feed.stored_price(&xrd).is_none());
    assert_eq!(updater_refusal(true), Ok(()));
    feed.update_price(true, xrd, pf_dec("1"), 0);
    assert_eq!(feed.stored_price(&xrd).unwrap().price, pf_dec("1"));
    assert_eq!(feed.mint_updater_badge(), 1);
    assert_eq!(feed.mint_updater_badge(), 2);
}

#[test]
fn mock_oracle_answers_fixed_data() {
    let oracle = MockSupraOracle::instantiate();
    let data = oracle.verify_proofs_and_get_data(vec![1, 2, 3]);
    assert_eq!(data.len(), 1);
    assert_eq!(data[0].pair_index, 276);
    // XRD/USDT = 0.042
    assert_eq!(data[0].to_decimal_price(), pf_dec("0.042"));
    assert_eq!(oracle.get_derived_svalue(1, 2, 0).derived_price, 1);
}

#[test]
fn faucet_exchanges_at_price_ratio() {
    assert_eq!(faucet_amount(pf_dec("100"), pf_dec("0.05"), pf_dec("2")), pf_dec("2.5"));
    let xrd = pf_address(scrypto::prelude::XRD);
    let other = pf_address(scrypto::prelude::GLOBAL_CALLER_RESOURCE);
    assert_eq!(check_faucet_payment(&xrd, &xrd), Ok(()));
    assert_eq!(check_faucet_payment(&other, &xrd), Err("Provide XRD to get faucet tokens".to_string()));
    let list = vec![other, xrd, xrd];
    assert_eq!(find_resource(&list, &xrd), Ok(1));
    assert_eq!(find_resource(&vec![other], &xrd), Err("Resource not found".to_string()));
}
