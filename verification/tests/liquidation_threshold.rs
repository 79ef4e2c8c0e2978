use indexmap::IndexMap;
use lending_market::address::ResourceAddress;
use lending_market::decimal::Decimal;
use lending_market::modules::liquidation_threshold::{LiquidationThreshold, UpdateLiquidationThresholdInput};
use std::str::FromStr;

fn lt_dec(s: &str) -> Decimal {
    let d = scrypto::math::Decimal::from_str(s).unwrap();
    Decimal::from_limbs(d.attos().to_digits())
}

fn lt_address(a: scrypto::prelude::ResourceAddress) -> ResourceAddress {
    ResourceAddress::from_bytes(a.as_bytes().try_into().unwrap())
}

fn res_a_1() -> ResourceAddress {
    lt_address(scrypto::prelude::SECP256K1_SIGNATURE_RESOURCE)
}

fn res_a_2() -> ResourceAddress {
    lt_address(scrypto::prelude::ED25519_SIGNATURE_RESOURCE)
}

fn res_a_3() -> ResourceAddress {
    lt_address(scrypto::prelude::PACKAGE_OF_DIRECT_CALLER_RESOURCE)
}

fn res_a_4() -> ResourceAddress {
    lt_address(scrypto::prelude::GLOBAL_CALLER_RESOURCE)
}

fn create_sample_liquidation_threshold() -> LiquidationThreshold {
    let asset_type_1 = 0;
    let asset_type_2 = 1;
    let asset_type_3 = 2;

    let mut resource = IndexMap::new();
    resource.insert(res_a_1(), lt_dec("0.2"));
    resource.insert(res_a_2(), lt_dec("0.3"));
    resource.insert(res_a_3(), lt_dec("0.4"));
    let mut asset_type = IndexMap::new();
    asset_type.insert(asset_type_1, lt_dec("0.5"));
    asset_type.insert(asset_type_2, lt_dec("0.6"));
    asset_type.insert(asset_type_3, lt_dec("0.7"));

    LiquidationThreshold {
        identical_resource: Some(lt_dec("0.8")),
        identical_asset_type: Some(lt_dec("0.1")),
        resource,
        asset_type,
        default_value: lt_dec("0"),
    }
}

#[test]
fn test_check_valid_threshold() {
    let liquidation_threshold = create_sample_liquidation_threshold();
    assert!(liquidation_threshold.check().is_ok());
}

#[test]
fn test_get_ratio_fallback_to_default() {
    let liquidation_threshold = create_sample_liquidation_threshold();
    let ratio = liquidation_threshold.get_ratio(res_a_1(), 0, res_a_4(), 3);
    assert_eq!(ratio, lt_dec("0"));
}

#[test]
fn test_get_ratio_identical_resource() {
    let liquidation_threshold = create_sample_liquidation_threshold();
    let ratio = liquidation_threshold.get_ratio(res_a_1(), 0, res_a_1(), 3);
    assert_eq!(ratio, lt_dec("0.8"));
}

#[test]
fn test_get_ratio_identical_asset_type() {
    let liquidation_threshold = create_sample_liquidation_threshold();
    let ratio = liquidation_threshold.get_ratio(res_a_1(), 0, res_a_2(), 0);
    assert_eq!(ratio, lt_dec("0.1"));
}

#[test]
fn test_get_ratio_resource_1() {
    let liquidation_threshold = create_sample_liquidation_threshold();
    let ratio = liquidation_threshold.get_ratio(res_a_2(), 1, res_a_1(), 0);
    assert_eq!(ratio, lt_dec("0.2"));
}

#[test]
fn test_get_ratio_asset_type_1() {
    let liquidation_threshold = create_sample_liquidation_threshold();
    let ratio = liquidation_threshold.get_ratio(res_a_1(), 1, res_a_4(), 0);
    assert_eq!(ratio, lt_dec("0.5"));
}

#[test]
fn invalid_entries_are_refused_in_order() {
    let mut t = create_sample_liquidation_threshold();
    t.default_value = lt_dec("1.5");
    assert_eq!(t.check(), Err("Invalid liquidation threshold default value".to_string()));

    let mut t = create_sample_liquidation_threshold();
    t.identical_asset_type = Some(lt_dec("-0.1"));
    assert_eq!(t.check(), Err("Invalid liquidation threshold identical asset type".to_string()));

    let mut t = create_sample_liquidation_threshold();
    t.resource.insert(res_a_4(), lt_dec("2"));
    assert_eq!(t.check(), Err("Invalid liquidation threshold resource entry".to_string()));

    let mut t = create_sample_liquidation_threshold();
    t.asset_type.insert(7, lt_dec("2"));
    assert_eq!(t.check(), Err("Invalid liquidation threshold asset type entry".to_string()));
}

#[test]
fn resource_entry_update_is_read_back_and_removal_falls_back() {
    let mut t = create_sample_liquidation_threshold();
    assert_eq!(
        t.update_liquidation_threshold(UpdateLiquidationThresholdInput::ResourceEntry(res_a_4(), Some(lt_dec("0.9")))),
        Ok(())
    );
    assert_eq!(t.get_ratio(res_a_1(), 1, res_a_4(), 0), lt_dec("0.9"));

    assert_eq!(
        t.update_liquidation_threshold(UpdateLiquidationThresholdInput::ResourceEntry(res_a_4(), None)),
        Ok(())
    );
    // back to the loan's asset type entry
    assert_eq!(t.get_ratio(res_a_1(), 1, res_a_4(), 0), lt_dec("0.5"));

    assert_eq!(
        t.update_liquidation_threshold(UpdateLiquidationThresholdInput::AssetTypeEntry(0, None)),
        Ok(())
    );
    // then to the default
    assert_eq!(t.get_ratio(res_a_1(), 1, res_a_4(), 0), lt_dec("0"));
}

#[test]
fn invalid_update_stays_applied_and_fails_check() {
    let mut t = create_sample_liquidation_threshold();
    assert_eq!(
        t.update_liquidation_threshold(UpdateLiquidationThresholdInput::IdenticalResource(Some(lt_dec("1.2")))),
        Err("Invalid liquidation threshold identical resource".to_string())
    );
    assert_eq!(t.identical_resource, Some(lt_dec("1.2")));
}

#[test]
fn default_threshold_is_zero_everywhere() {
    let t = LiquidationThreshold::default();
    assert!(t.check().is_ok());
    assert_eq!(t.get_ratio(res_a_1(), 0, res_a_2(), 0), lt_dec("0"));
    // the same resource falls through to the default without any other threshold
    assert_eq!(t.get_ratio(res_a_1(), 0, res_a_1(), 0), lt_dec("0"));
}

#[test]
fn same_resource_without_identical_resource_threshold_uses_asset_type_threshold() {
    let t = LiquidationThreshold {
        identical_resource: None,
        identical_asset_type: Some(lt_dec("0.8")),
        ..LiquidationThreshold::default()
    };
    assert_eq!(t.get_ratio(res_a_1(), 0, res_a_1(), 0), lt_dec("0.8"));
    // with neither identical threshold, the resource entry applies
    let mut resource = IndexMap::new();
    resource.insert(res_a_1(), lt_dec("0.6"));
    let t = LiquidationThreshold { resource, ..LiquidationThreshold::default() };
    assert_eq!(t.get_ratio(res_a_1(), 0, res_a_1(), 0), lt_dec("0.6"));
}

#[test]
fn asset_type_entry_update_is_read_back() {
    let mut t = create_sample_liquidation_threshold();
    assert_eq!(
        t.update_liquidation_threshold(UpdateLiquidationThresholdInput::AssetTypeEntry(5, Some(lt_dec("0.45")))),
        Ok(())
    );
    assert_eq!(t.asset_type.get(&5), Some(&lt_dec("0.45")));
    assert_eq!(t.asset_type.get(&0), Some(&lt_dec("0.5")));
    assert_eq!(t.get_ratio(res_a_1(), 1, res_a_4(), 5), lt_dec("0.45"));
}
