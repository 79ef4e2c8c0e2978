use indexmap::IndexMap;
use lending_market::address::ResourceAddress;
use lending_market::decimal::{Decimal, PreciseDecimal};
use lending_market::modules::cdp_data::{CDPType, CollaterizedDebtPositionData, WrappedCDPData};
use lending_market::modules::cdp_health_checker::{
    CDPHealthChecker, ExtendedCollateralPositionData, ExtendedLoanPositionData, PositionData,
};
use lending_market::modules::liquidation_threshold::LiquidationThreshold;
use std::str::FromStr;

fn cd_dec(s: &str) -> Decimal {
    let d = scrypto::math::Decimal::from_str(s).unwrap();
    Decimal::from_limbs(d.attos().to_digits())
}

fn cd_pdec(s: &str) -> PreciseDecimal {
    let d = scrypto::math::PreciseDecimal::from_str(s).unwrap();
    PreciseDecimal::from_limbs(d.precise_subunits().to_digits())
}

fn cd_address(a: scrypto::prelude::ResourceAddress) -> ResourceAddress {
    ResourceAddress::from_bytes(a.as_bytes().try_into().unwrap())
}

fn xrd() -> ResourceAddress {
    cd_address(scrypto::prelude::XRD)
}

fn cdp_with(
    collaterals: IndexMap<ResourceAddress, PreciseDecimal>,
    loans: IndexMap<ResourceAddress, PreciseDecimal>,
) -> WrappedCDPData {
    let cdp_data = CollaterizedDebtPositionData {
        key_image_url: "url".to_string(),
        name: "name".to_string(),
        description: "description".to_string(),
        cdp_type: CDPType::Standard,
        collaterals,
        loans,
        liquidated: IndexMap::new(),
        minted_at: 0,
        updated_at: 0,
        liquidable: None,
    };
    WrappedCDPData {
        cdp_data,
        cdp_id: 1u64,
        cdp_type_updated: false,
        collateral_updated: false,
        loan_updated: false,
        liquidated_updated: false,
        liquidable_updated: false,
    }
}

#[test]
fn test_get_collateral_units() {
    let res_address = xrd();
    let mut collaterals = IndexMap::new();
    collaterals.insert(res_address, cd_pdec("10"));
    let wrapped_cdp_data = cdp_with(collaterals, IndexMap::new());
    assert_eq!(wrapped_cdp_data.get_collateral_units(res_address), cd_pdec("10"));
}

#[test]
fn test_get_loan_unit() {
    let res_address = xrd();
    let mut loans = IndexMap::new();
    loans.insert(res_address, cd_pdec("10"));
    let wrapped_cdp_data = cdp_with(IndexMap::new(), loans);
    assert_eq!(wrapped_cdp_data.get_loan_units(res_address), cd_pdec("10"));
}

#[test]
fn test_update_collateral() {
    let res_address = xrd();
    let mut wrapped_cdp_data = cdp_with(IndexMap::new(), IndexMap::new());
    wrapped_cdp_data.update_collateral(res_address, cd_pdec("10")).unwrap();
    let mut collaterals = IndexMap::new();
    collaterals.insert(res_address, cd_pdec("10"));
    assert_eq!(wrapped_cdp_data.cdp_data.collaterals, collaterals);
}

#[test]
fn test_update_loan() {
    let res_address = xrd();
    let mut wrapped_cdp_data = cdp_with(IndexMap::new(), IndexMap::new());
    wrapped_cdp_data.update_loan(res_address, cd_pdec("10")).unwrap();
    let mut loans = IndexMap::new();
    loans.insert(res_address, cd_pdec("10"));
    assert_eq!(wrapped_cdp_data.cdp_data.loans, loans);
}

fn threshold_70() -> LiquidationThreshold {
    LiquidationThreshold {
        identical_resource: Some(cd_dec("0.7")),
        identical_asset_type: Some(cd_dec("0.7")),
        default_value: cd_dec("0.7"),
        ..LiquidationThreshold::default()
    }
}

#[test]
fn test_ltv() {
    let btc = cd_address(scrypto::prelude::SECP256K1_SIGNATURE_RESOURCE);
    let eth = cd_address(scrypto::prelude::ED25519_SIGNATURE_RESOURCE);

    let mut collateral_positions = IndexMap::new();
    collateral_positions.insert(
        btc,
        ExtendedCollateralPositionData {
            asset_type: 0,
            data: PositionData {
                amount: cd_dec("0.274917797779976621"),
                units: cd_pdec("0.284664061926028008"),
                unit_ratio: cd_pdec("0.93125564662493945763045950808534333"),
                value: cd_dec("0"),
            },
            liquidation_bonus_rate: cd_dec("0"),
            liquidation_threshold: threshold_70(),
            pool_res_address: btc,
            price: cd_dec("2538907.8490715"),
        },
    );
    collateral_positions.insert(
        xrd(),
        ExtendedCollateralPositionData {
            asset_type: 0,
            data: PositionData {
                amount: cd_dec("463.974351813320909609"),
                units: cd_pdec("463.971851662752889651"),
                unit_ratio: cd_pdec("0.999994611446606372136152486067018011"),
                value: cd_dec("0"),
            },
            liquidation_bonus_rate: cd_dec("0"),
            liquidation_threshold: threshold_70(),
            pool_res_address: xrd(),
            price: cd_dec("1"),
        },
    );
    let mut loan_positions = IndexMap::new();
    loan_positions.insert(
        eth,
        ExtendedLoanPositionData {
            asset_type: 0,
            data: PositionData {
                amount: cd_dec("0"),
                units: cd_pdec("4.445769177458039212"),
                unit_ratio: cd_pdec("0.97488430868568543145060850964372638"),
                value: cd_dec("0"),
            },
            discounted_collateral_value: cd_dec("0"),
            pool_res_address: eth,
            loan_close_factor: cd_dec("0"),
            price: cd_dec("107211.80214007"),
        },
    );

    let mut health_check = CDPHealthChecker {
        cdp_type: CDPType::Standard,
        collateral_positions,
        loan_positions,
        self_closable_loan_value: cd_dec("0"),
        total_loan_to_value_ratio: cd_dec("0"),
        total_loan_value: cd_dec("0"),
    };

    health_check.check_cdp().unwrap();

    assert_eq!(cd_dec("0.899431648740609894"), health_check.total_loan_to_value_ratio)
}

#[test]
fn adding_units_accumulates_and_dust_is_dropped() {
    let res = xrd();
    let mut cdp = cdp_with(IndexMap::new(), IndexMap::new());
    cdp.update_collateral(res, cd_pdec("10")).unwrap();
    cdp.update_collateral(res, cd_pdec("5")).unwrap();
    assert_eq!(cdp.get_collateral_units(res), cd_pdec("15"));
    // leaving less than 10^-9 removes the entry
    cdp.update_collateral(res, cd_pdec("-14.9999999999")).unwrap();
    assert_eq!(cdp.get_collateral_units(res), cd_pdec("0"));
    assert_eq!(cdp.cdp_data.collaterals.len(), 0);
    assert!(cdp.collateral_updated);
    assert!(!cdp.loan_updated);
}

#[test]
fn liquidation_moves_loans_once_collateral_is_gone() {
    let res = xrd();
    let mut loans = IndexMap::new();
    loans.insert(res, cd_pdec("3"));
    let mut cdp = cdp_with(IndexMap::new(), loans);
    cdp.on_liquidation().unwrap();
    assert_eq!(cdp.cdp_data.loans.len(), 0);
    assert_eq!(cdp.cdp_data.liquidated.get(&res), Some(&cd_pdec("3")));
    assert!(cdp.liquidated_updated && cdp.loan_updated);

    // with collateral left, nothing moves
    let mut collaterals = IndexMap::new();
    collaterals.insert(res, cd_pdec("1"));
    let mut loans = IndexMap::new();
    loans.insert(res, cd_pdec("3"));
    let mut cdp = cdp_with(collaterals, loans);
    cdp.on_liquidation().unwrap();
    assert_eq!(cdp.cdp_data.loans.len(), 1);
    assert!(!cdp.liquidated_updated);
}

#[test]
fn save_writes_what_changed() {
    let res = xrd();
    let cdp = cdp_with(IndexMap::new(), IndexMap::new());
    let writes = cdp.save_cdp(3);
    assert!(!writes.updated_at && !writes.collaterals && !writes.loans);

    let mut cdp = cdp_with(IndexMap::new(), IndexMap::new());
    cdp.update_loan(res, cd_pdec("1")).unwrap();
    assert!(cdp.within_position_limit(1));
    assert!(!cdp.within_position_limit(0));
    let writes = cdp.save_cdp(1);
    assert!(writes.loans && writes.updated_at && !writes.collaterals);
}

#[test]
fn healthy_position_cannot_be_liquidated() {
    let mut health_check = CDPHealthChecker::new_empty(CDPType::Standard);
    assert!(health_check.check_cdp().is_ok());
    assert!(health_check.can_liquidate().is_err());
    assert_eq!(health_check.total_loan_to_value_ratio, cd_dec("0"));
}

fn usdc_threshold() -> LiquidationThreshold {
    LiquidationThreshold {
        identical_resource: None,
        identical_asset_type: Some(cd_dec("0.8")),
        default_value: cd_dec("0"),
        ..LiquidationThreshold::default()
    }
}

fn usdc_health_check(collateral: &str, loan: &str) -> CDPHealthChecker {
    let usdc = cd_address(scrypto::prelude::SECP256K1_SIGNATURE_RESOURCE);
    let mut collateral_positions = IndexMap::new();
    collateral_positions.insert(
        usdc,
        ExtendedCollateralPositionData {
            asset_type: 1,
            data: PositionData {
                amount: cd_dec("0"),
                units: cd_pdec(collateral),
                unit_ratio: cd_pdec("1"),
                value: cd_dec("0"),
            },
            liquidation_bonus_rate: cd_dec("0"),
            liquidation_threshold: usdc_threshold(),
            pool_res_address: usdc,
            price: cd_dec("25"),
        },
    );
    let mut loan_positions = IndexMap::new();
    loan_positions.insert(
        usdc,
        ExtendedLoanPositionData {
            asset_type: 1,
            data: PositionData {
                amount: cd_dec("0"),
                units: cd_pdec(loan),
                unit_ratio: cd_pdec("1"),
                value: cd_dec("0"),
            },
            discounted_collateral_value: cd_dec("0"),
            pool_res_address: usdc,
            loan_close_factor: cd_dec("0"),
            price: cd_dec("25"),
        },
    );
    CDPHealthChecker {
        cdp_type: CDPType::Standard,
        collateral_positions,
        loan_positions,
        self_closable_loan_value: cd_dec("0"),
        total_loan_to_value_ratio: cd_dec("0"),
        total_loan_value: cd_dec("0"),
    }
}

#[test]
fn borrowing_own_collateral_resource_within_identical_asset_type_threshold() {
    // 3500 borrowed against 5000 at 0.8: the ratio is 0.875
    let mut health_check = usdc_health_check("5000", "3500");
    assert_eq!(health_check.check_cdp(), Ok(()));
    assert_eq!(health_check.total_loan_to_value_ratio, cd_dec("0.875"));
    assert!(health_check.can_liquidate().is_err());

    // 5000 borrowed against 5000 at 0.8: the ratio is 1.25
    let mut health_check = usdc_health_check("5000", "5000");
    assert_eq!(
        health_check.check_cdp(),
        Err("total_loan_to_value_ratio need to be lower than 1, but is 1.25.".to_string())
    );
    assert_eq!(health_check.can_liquidate(), Ok(()));
}

#[test]
fn liquidation_refusal_reports_the_ratio() {
    let mut health_check = usdc_health_check("5000", "3500");
    assert_eq!(
        health_check.can_liquidate(),
        Err("CDP can not be liquidated: LTV ratio of 0.875 is lower than 1".to_string())
    );
}

#[test]
fn liquidation_keeps_the_descriptive_fields() {
    let res = xrd();
    let mut loans = IndexMap::new();
    loans.insert(res, cd_pdec("3"));
    let mut cdp = cdp_with(IndexMap::new(), loans);
    cdp.cdp_data.minted_at = 11;
    cdp.cdp_data.updated_at = 12;
    cdp.on_liquidation().unwrap();
    assert_eq!(cdp.cdp_data.key_image_url, "url");
    assert_eq!(cdp.cdp_data.name, "name");
    assert_eq!(cdp.cdp_data.description, "description");
    assert_eq!(cdp.cdp_data.minted_at, 11);
    assert_eq!(cdp.cdp_data.updated_at, 12);
}

#[test]
fn position_limit_counts_every_position() {
    let mut loans = IndexMap::new();
    for i in 0..257u32 {
        let mut bytes = [0u8; 30];
        bytes[0] = 93;
        bytes[1] = (i / 256) as u8;
        bytes[2] = (i % 256) as u8;
        loans.insert(ResourceAddress::from_bytes(bytes), cd_pdec("1"));
    }
    let cdp = cdp_with(IndexMap::new(), loans);
    assert!(!cdp.within_position_limit(255));
    assert!(!cdp.within_position_limit(1));
}

#[test]
fn zero_units_change_nothing_and_other_entries_stay() {
    let res = xrd();
    let other = cd_address(scrypto::prelude::ED25519_SIGNATURE_RESOURCE);
    let mut collaterals = IndexMap::new();
    collaterals.insert(res, cd_pdec("2"));
    collaterals.insert(other, cd_pdec("7"));
    let mut cdp = cdp_with(collaterals, IndexMap::new());
    cdp.update_collateral(res, cd_pdec("0")).unwrap();
    assert_eq!(cdp.get_collateral_units(res), cd_pdec("2"));
    cdp.update_collateral(res, cd_pdec("-2")).unwrap();
    assert_eq!(cdp.get_collateral_units(res), cd_pdec("0"));
    assert_eq!(cdp.get_collateral_units(other), cd_pdec("7"));
    assert_eq!(cdp.cdp_data.collaterals.len(), 1);
}

#[test]
fn clearing_the_liquidable_value_is_written() {
    let mut cdp = cdp_with(IndexMap::new(), IndexMap::new());
    cdp.cdp_data.liquidable = Some(cd_dec("5"));
    // a check that finds the CDP no longer liquidable clears the value, and saving writes it
    cdp.update_liquidable(None);
    assert_eq!(cdp.cdp_data.liquidable, None);
    let writes = cdp.save_cdp(3);
    assert!(writes.liquidable && writes.updated_at);

    // no value before and none after: nothing to write
    let mut cdp = cdp_with(IndexMap::new(), IndexMap::new());
    cdp.update_liquidable(None);
    let writes = cdp.save_cdp(3);
    assert!(!writes.liquidable && !writes.updated_at);

    // a value found is written
    let mut cdp = cdp_with(IndexMap::new(), IndexMap::new());
    cdp.update_liquidable(Some(cd_dec("2")));
    assert!(cdp.save_cdp(3).liquidable);
}

#[test]
fn open_positions_need_collateral_and_loans() {
    let res = xrd();
    let mut loans = IndexMap::new();
    loans.insert(res, cd_pdec("3"));
    assert!(!cdp_with(IndexMap::new(), loans.clone()).has_open_positions());
    let mut collaterals = IndexMap::new();
    collaterals.insert(res, cd_pdec("1"));
    assert!(cdp_with(collaterals, loans).has_open_positions());
}
