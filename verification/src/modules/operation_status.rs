//! Which operations are enabled, and who last set them.
use vstd::prelude::*;

verus! {

/// A semaphore to the pool operating status
#[derive(PartialEq, Eq, Structural, Clone, Copy, Debug)]
pub struct OperatingStatusValue {
    enabled: bool,
    set_by_admin: bool,
}

impl OperatingStatusValue {
    pub closed spec fn is_enabled(self) -> bool {
        self.enabled
    }

    pub closed spec fn is_set_by_admin(self) -> bool {
        self.set_by_admin
    }
}

/// Enumeration of the possible operations on the pool
#[derive(PartialEq, Eq, Structural, Clone, Copy, Debug)]
pub enum OperatingService {
    Contribute,
    Redeem,
    AddCollateral,
    RemoveCollateral,
    Borrow,
    Repay,
    Liquidation,
}

/// The operating status of the pool
#[derive(Clone, Copy, Debug)]
pub struct OperatingStatus {
    pub is_contribute_enabled: OperatingStatusValue,
    pub is_redeem_enabled: OperatingStatusValue,
    pub is_deposit_enabled: OperatingStatusValue,
    pub is_withdraw_enabled: OperatingStatusValue,
    pub is_borrow_enabled: OperatingStatusValue,
    pub is_repay_enabled: OperatingStatusValue,
    pub is_liquidate_enabled: OperatingStatusValue,
}

/// The error for a change of `service` that only an admin may make.
pub open spec fn set_by_admin_error(service: OperatingService) -> Seq<char> {
    match service {
        OperatingService::Contribute => "The operating status for Contribute is set by admin"@,
        OperatingService::Redeem => "The operating status for Redeem is set by admin"@,
        OperatingService::AddCollateral => "The operating status for AddCollateral is set by admin"@,
        OperatingService::RemoveCollateral => "The operating status for RemoveCollateral is set by admin"@,
        OperatingService::Borrow => "The operating status for Borrow is set by admin"@,
        OperatingService::Repay => "The operating status for Repay is set by admin"@,
        OperatingService::Liquidation => "The operating status for Liquidation is set by admin"@,
    }
}

fn set_by_admin_message(service: OperatingService) -> (r: String)
    ensures
        r@ == set_by_admin_error(service),
{
    match service {
        OperatingService::Contribute => "The operating status for Contribute is set by admin".to_owned(),
        OperatingService::Redeem => "The operating status for Redeem is set by admin".to_owned(),
        OperatingService::AddCollateral => "The operating status for AddCollateral is set by admin".to_owned(),
        OperatingService::RemoveCollateral => "The operating status for RemoveCollateral is set by admin".to_owned(),
        OperatingService::Borrow => "The operating status for Borrow is set by admin".to_owned(),
        OperatingService::Repay => "The operating status for Repay is set by admin".to_owned(),
        OperatingService::Liquidation => "The operating status for Liquidation is set by admin".to_owned(),
    }
}

impl OperatingStatus {
    /// The semaphore that governs `service`.
    pub open spec fn value_of(self, service: OperatingService) -> OperatingStatusValue {
        match service {
            OperatingService::Contribute => self.is_contribute_enabled,
            OperatingService::Redeem => self.is_redeem_enabled,
            OperatingService::AddCollateral => self.is_deposit_enabled,
            OperatingService::RemoveCollateral => self.is_withdraw_enabled,
            OperatingService::Borrow => self.is_borrow_enabled,
            OperatingService::Repay => self.is_repay_enabled,
            OperatingService::Liquidation => self.is_liquidate_enabled,
        }
    }

    /// The status with `service` set to `enabled`, marked as set by an admin or not.
    pub closed spec fn with_status(
        self,
        service: OperatingService,
        enabled: bool,
        set_by_admin: bool,
    ) -> OperatingStatus {
        let v = OperatingStatusValue { enabled, set_by_admin };
        match service {
            OperatingService::Contribute => OperatingStatus { is_contribute_enabled: v, ..self },
            OperatingService::Redeem => OperatingStatus { is_redeem_enabled: v, ..self },
            OperatingService::AddCollateral => OperatingStatus { is_deposit_enabled: v, ..self },
            OperatingService::RemoveCollateral => OperatingStatus { is_withdraw_enabled: v, ..self },
            OperatingService::Borrow => OperatingStatus { is_borrow_enabled: v, ..self },
            OperatingService::Repay => OperatingStatus { is_repay_enabled: v, ..self },
            OperatingService::Liquidation => OperatingStatus { is_liquidate_enabled: v, ..self },
        }
    }

    /// Whether a change of `service` by someone who is not an admin is refused: an admin
    /// set its current status.
    pub open spec fn locked_for(self, service: OperatingService, set_by_admin: bool) -> bool {
        self.value_of(service).is_set_by_admin() && !set_by_admin
    }

    /// Constructor: every operation enabled, none set by an admin
    ///
    /// *Output*
    /// An `OperatingStatus`
    pub fn new() -> (r: Self)
        ensures
            forall|s: OperatingService|
                #[trigger] r.value_of(s).is_enabled() && !r.value_of(s).is_set_by_admin(),
    {
        let fresh = OperatingStatusValue { enabled: true, set_by_admin: false };
        Self {
            is_contribute_enabled: fresh,
            is_redeem_enabled: fresh,
            is_deposit_enabled: fresh,
            is_withdraw_enabled: fresh,
            is_borrow_enabled: fresh,
            is_repay_enabled: fresh,
            is_liquidate_enabled: fresh,
        }
    }

    /// Update the operating status
    ///
    /// *Params*
    /// - `operating_status`: The current pool operation
    /// - `enabled`: Whether to enable or disable the operation
    /// - `set_by_admin`: Whether the operating status change is performed by an admin
    ///
    /// *Errors*
    /// - If an admin set the status and this change is not by an admin
    pub fn update(
        &mut self,
        operating_status: OperatingService,
        enabled: bool,
        set_by_admin: bool,
    ) -> (r: Result<(), String>)
        ensures
            r is Err <==> old(self).locked_for(operating_status, set_by_admin),
            r is Err ==> *final(self) == *old(self),
            r matches Err(e) ==> e@ == set_by_admin_error(operating_status),
            r is Ok ==> *final(self) == old(self).with_status(operating_status, enabled, set_by_admin),
            r is Ok ==> final(self).value_of(operating_status).is_enabled() == enabled
                && final(self).value_of(operating_status).is_set_by_admin() == set_by_admin,
            forall|s: OperatingService|
                s != operating_status ==> #[trigger] final(self).value_of(s) == old(self).value_of(s),
    {
        let field = match operating_status {
            OperatingService::Contribute => &mut self.is_contribute_enabled,
            OperatingService::Redeem => &mut self.is_redeem_enabled,
            OperatingService::AddCollateral => &mut self.is_deposit_enabled,
            OperatingService::RemoveCollateral => &mut self.is_withdraw_enabled,
            OperatingService::Borrow => &mut self.is_borrow_enabled,
            OperatingService::Repay => &mut self.is_repay_enabled,
            OperatingService::Liquidation => &mut self.is_liquidate_enabled,
        };

        if field.set_by_admin && !set_by_admin {
            return Err(set_by_admin_message(operating_status));
        }

        field.enabled = enabled;
        field.set_by_admin = set_by_admin;

        Ok(())
    }

    /// Whether an admin made the last change of the operation's status
    ///
    /// *Params*
    /// - `value`: The operation to check
    pub fn set_by_admin(&self, value: OperatingService) -> (r: bool)
        ensures
            r == self.value_of(value).is_set_by_admin(),
    {
        match value {
            OperatingService::Contribute => self.is_contribute_enabled.set_by_admin,
            OperatingService::Redeem => self.is_redeem_enabled.set_by_admin,
            OperatingService::AddCollateral => self.is_deposit_enabled.set_by_admin,
            OperatingService::RemoveCollateral => self.is_withdraw_enabled.set_by_admin,
            OperatingService::Borrow => self.is_borrow_enabled.set_by_admin,
            OperatingService::Repay => self.is_repay_enabled.set_by_admin,
            OperatingService::Liquidation => self.is_liquidate_enabled.set_by_admin,
        }
    }

    /// Whether the operation is currently enabled
    ///
    /// *Params*
    /// - `value`: The operation to check
    pub fn check(&self, value: OperatingService) -> (r: bool)
        ensures
            r == self.value_of(value).is_enabled(),
    {
        match value {
            OperatingService::Contribute => self.is_contribute_enabled.enabled,
            OperatingService::Redeem => self.is_redeem_enabled.enabled,
            OperatingService::AddCollateral => self.is_deposit_enabled.enabled,
            OperatingService::RemoveCollateral => self.is_withdraw_enabled.enabled,
            OperatingService::Borrow => self.is_borrow_enabled.enabled,
            OperatingService::Repay => self.is_repay_enabled.enabled,
            OperatingService::Liquidation => self.is_liquidate_enabled.enabled,
        }
    }
}

/// What an update leaves `s` as: the change when it is allowed, `s` itself when refused.
pub open spec fn status_after_update(
    s: OperatingStatus,
    service: OperatingService,
    enabled: bool,
    set_by_admin: bool,
) -> OperatingStatus {
    if s.locked_for(service, set_by_admin) {
        s
    } else {
        s.with_status(service, enabled, set_by_admin)
    }
}

/// An update that is allowed makes the service's check answer `enabled`, records who
/// made it, and leaves every other service as it was.
pub proof fn lemma_update_then_check(
    s: OperatingStatus,
    service: OperatingService,
    enabled: bool,
    set_by_admin: bool,
    other: OperatingService,
)
    requires
        !s.locked_for(service, set_by_admin),
    ensures
        status_after_update(s, service, enabled, set_by_admin).value_of(service).is_enabled()
            == enabled,
        status_after_update(s, service, enabled, set_by_admin).value_of(service).is_set_by_admin()
            == set_by_admin,
        other != service ==> status_after_update(s, service, enabled, set_by_admin).value_of(other)
            == s.value_of(other),
{
}

/// An admin's update is never refused.
pub proof fn lemma_admin_update_always_applies(
    s: OperatingStatus,
    service: OperatingService,
    enabled: bool,
)
    ensures
        !s.locked_for(service, true),
        status_after_update(s, service, enabled, true).value_of(service).is_enabled() == enabled,
{
}

/// Once an admin has set a service's status, nobody else can change it: the update is
/// refused and every service keeps its status, until an admin changes it again.
pub proof fn lemma_admin_status_locks(
    s: OperatingStatus,
    service: OperatingService,
    admin_enabled: bool,
    enabled: bool,
)
    ensures
        status_after_update(s, service, admin_enabled, true).locked_for(service, false),
        status_after_update(status_after_update(s, service, admin_enabled, true), service, enabled, false)
            == status_after_update(s, service, admin_enabled, true),
{
}

} // verus!
