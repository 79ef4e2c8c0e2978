use lending_market::modules::operation_status::{OperatingService, OperatingStatus};

fn all_services() -> Vec<OperatingService> {
    vec![
        OperatingService::Contribute,
        OperatingService::Redeem,
        OperatingService::AddCollateral,
        OperatingService::RemoveCollateral,
        OperatingService::Borrow,
        OperatingService::Repay,
        OperatingService::Liquidation,
    ]
}

#[test]
fn test_update_operating_status() {
    let mut operating_status = OperatingStatus::new();

    for service in all_services() {
        operating_status.update(service, false, false).unwrap();
        assert_eq!(operating_status.check(service), false);

        operating_status.update(service, true, true).unwrap();
        assert_eq!(operating_status.check(service), true);
    }
}

#[test]
fn test_update_operating_status_error() {
    let mut operating_status = OperatingStatus::new();

    for service in all_services() {
        operating_status.update(service, false, false).unwrap();
        assert_eq!(operating_status.check(service), false);

        operating_status.update(service, true, true).unwrap();
        assert_eq!(operating_status.check(service), true);

        operating_status
            .update(service, false, false)
            .expect_err("Should return an error");
    }
}

#[test]
fn new_status_enables_every_service() {
    let operating_status = OperatingStatus::new();
    for service in all_services() {
        assert!(operating_status.check(service));
    }
}

#[test]
fn refused_update_leaves_status_and_names_service() {
    let mut operating_status = OperatingStatus::new();
    operating_status.update(OperatingService::Borrow, false, true).unwrap();
    let err = operating_status.update(OperatingService::Borrow, true, false).unwrap_err();
    assert_eq!(err, "The operating status for Borrow is set by admin");
    assert!(!operating_status.check(OperatingService::Borrow));
    // an admin can always change it back
    operating_status.update(OperatingService::Borrow, true, true).unwrap();
    assert!(operating_status.check(OperatingService::Borrow));
}

#[test]
fn update_touches_only_its_service() {
    let mut operating_status = OperatingStatus::new();
    operating_status.update(OperatingService::Repay, false, false).unwrap();
    for service in all_services() {
        let expected = service != OperatingService::Repay;
        assert_eq!(operating_status.check(service), expected);
    }
}
