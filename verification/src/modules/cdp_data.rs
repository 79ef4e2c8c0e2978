//! Collateralized debt positions and the bookkeeping of their unit amounts.
use crate::address::ResourceAddress;
use crate::decimal::{in_pdec_range, widen, Decimal, PreciseDecimal};
use crate::maps::{
    has_key, inserted, keys_unique, lemma_lookup_inserted, lemma_lookup_swap_removed, lookup, swap_removed, unit_entries, units_clear, units_clone, units_get,
    units_get_index, units_insert, units_len, units_swap_remove, UnitMap,
};
use vstd::prelude::*;

verus! {

/// Amount at which a position is considered zeroed: 10^-9.
pub fn zero_epsilon() -> (r: Decimal)
    ensures
        r@ == zero_epsilon_attos(),
{
    Decimal::from_attos(1_000_000_000)
}

/// The number of 10^-18 units in the zero threshold.
pub open spec fn zero_epsilon_attos() -> int {
    1_000_000_000
}

/// Type of CDP
#[derive(PartialEq, Eq, Structural, Clone, Copy, Debug)]
pub enum CDPType {
    /// A CDP where an user is directly responsible of his borrows and collaterals, subject to liquidation
    Standard,
}

/// Data describing the CDP
#[derive(Debug)]
pub struct CollaterizedDebtPositionData {
    /// Image to display when exploring Radix transactions
    pub key_image_url: String,
    /// Name of the CDP
    pub name: String,
    /// Textual description of the CDP
    pub description: String,
    /// Immutable timestamp of CDP minting
    pub minted_at: i64,
    /// Timestamp of CDP update
    pub updated_at: i64,
    /// Type of the CDP
    pub cdp_type: CDPType,
    /// Collateral pool units per asset
    pub collaterals: UnitMap,
    /// Loan units per asset
    pub loans: UnitMap,
    /// Liquidated loan units per asset
    pub liquidated: UnitMap,
    /// The maximum amount of liquidable value for this collateralized debt position
    pub liquidable: Option<Decimal>,
}

impl CollaterizedDebtPositionData {
    /// The same position: equal fields and equal entries in the same order.
    pub open spec fn same_as(self, other: CollaterizedDebtPositionData) -> bool {
        &&& self.key_image_url@ == other.key_image_url@
        &&& self.name@ == other.name@
        &&& self.description@ == other.description@
        &&& self.minted_at == other.minted_at
        &&& self.updated_at == other.updated_at
        &&& self.cdp_type == other.cdp_type
        &&& unit_entries(self.collaterals) == unit_entries(other.collaterals)
        &&& unit_entries(self.loans) == unit_entries(other.loans)
        &&& unit_entries(self.liquidated) == unit_entries(other.liquidated)
        &&& self.liquidable == other.liquidable
    }

    /// A copy of the position.
    pub fn duplicate(&self) -> (r: CollaterizedDebtPositionData)
        ensures
            r.same_as(*self),
    {
        CollaterizedDebtPositionData {
            key_image_url: self.key_image_url.clone(),
            name: self.name.clone(),
            description: self.description.clone(),
            minted_at: self.minted_at,
            updated_at: self.updated_at,
            cdp_type: self.cdp_type,
            collaterals: units_clone(&self.collaterals),
            loans: units_clone(&self.loans),
            liquidated: units_clone(&self.liquidated),
            liquidable: self.liquidable,
        }
    }
}

/// The units held for `key`, zero when there is no entry.
pub open spec fn units_of(s: Seq<(ResourceAddress, PreciseDecimal)>, key: ResourceAddress) -> int {
    match lookup(s, key) {
        Some(v) => v@,
        None => 0,
    }
}

/// Whether adding `units` to the entry of `key` stays within `PreciseDecimal`.
pub open spec fn units_addable(s: Seq<(ResourceAddress, PreciseDecimal)>, key: ResourceAddress, units: int) -> bool {
    units != 0 && has_key(s, key) ==> in_pdec_range(units_of(s, key) + units)
}

/// Whether adding `units` to the existing entry of `key` takes it below 10^-9, so that
/// the entry is dropped.
pub open spec fn entry_dropped(s: Seq<(ResourceAddress, PreciseDecimal)>, key: ResourceAddress, units: int) -> bool {
    units != 0 && has_key(s, key) && units_of(s, key) + units < widen(zero_epsilon_attos())
}

/// The units read for `key` after adding `units` to its entry: the sum, or zero when
/// the entry is dropped.
pub open spec fn units_after_add(s: Seq<(ResourceAddress, PreciseDecimal)>, key: ResourceAddress, units: int) -> int {
    if entry_dropped(s, key, units) {
        0
    } else {
        units_of(s, key) + units
    }
}

/// Whether `key` has an entry after adding `units` to it: as before when `units` is
/// zero, else unless the entry is dropped.
pub open spec fn entry_kept(s: Seq<(ResourceAddress, PreciseDecimal)>, key: ResourceAddress, units: int) -> bool {
    if units == 0 {
        has_key(s, key)
    } else {
        !entry_dropped(s, key, units)
    }
}

/// The entries after adding `units` to `key`: unchanged when `units` is zero; a new
/// last entry when `key` is absent; else the entry is raised by `units`, and
/// dropped (the last entry taking its place) when it falls below 10^-9.
pub open spec fn units_added(
    s: Seq<(ResourceAddress, PreciseDecimal)>,
    key: ResourceAddress,
    units: PreciseDecimal,
) -> Seq<(ResourceAddress, PreciseDecimal)> {
    if units@ == 0 {
        s
    } else if !has_key(s, key) {
        inserted(s, key, units)
    } else if units_of(s, key) + units@ < widen(zero_epsilon_attos()) {
        swap_removed(s, key)
    } else {
        inserted(s, key, choose|v: PreciseDecimal| v@ == units_of(s, key) + units@)
    }
}

/// The liquidated entries after moving every loan entry, in order, onto `liquidated`.
pub open spec fn loans_moved(
    liquidated: Seq<(ResourceAddress, PreciseDecimal)>,
    loans: Seq<(ResourceAddress, PreciseDecimal)>,
) -> Seq<(ResourceAddress, PreciseDecimal)>
    decreases loans.len(),
{
    if loans.len() == 0 {
        liquidated
    } else {
        let prior = loans_moved(liquidated, loans.drop_last());
        units_added(prior, loans.last().0, loans.last().1)
    }
}

/// Whether every step of moving the loan entries onto `liquidated` stays within `PreciseDecimal`.
pub open spec fn loans_movable(
    liquidated: Seq<(ResourceAddress, PreciseDecimal)>,
    loans: Seq<(ResourceAddress, PreciseDecimal)>,
) -> bool
    decreases loans.len(),
{
    if loans.len() == 0 {
        true
    } else {
        &&& loans_movable(liquidated, loans.drop_last())
        &&& units_addable(loans_moved(liquidated, loans.drop_last()), loans.last().0, loans.last().1@)
    }
}

/// Being movable holds of every prefix of the loans.
proof fn lemma_movable_prefix(
    liquidated: Seq<(ResourceAddress, PreciseDecimal)>,
    loans: Seq<(ResourceAddress, PreciseDecimal)>,
    k: int,
)
    requires
        loans_movable(liquidated, loans),
        0 <= k <= loans.len(),
    ensures
        loans_movable(liquidated, loans.take(k)),
    decreases loans.len() - k,
{
    if k < loans.len() {
        lemma_movable_prefix(liquidated, loans, k + 1);
        assert(loans.take(k + 1).drop_last() =~= loans.take(k));
    } else {
        assert(loans.take(k) =~= loans);
    }
}

/// Wrapper of the `CollaterizedDebtPositionData` that keeps trace of the modifications,
/// so that only the required changes are written on chain.
#[derive(Debug)]
pub struct WrappedCDPData {
    /// The wrapped CDP data
    pub cdp_data: CollaterizedDebtPositionData,
    /// The wrapped CDP id
    pub cdp_id: u64,
    /// (UNUSED)
    pub cdp_type_updated: bool,
    /// Indicator of an update in the collateral values
    pub collateral_updated: bool,
    /// Indicator of an update in the loaned values
    pub loan_updated: bool,
    /// Indicator of an update in the liquidated values
    pub liquidated_updated: bool,
    /// Indicator of a change of the liquidable value
    pub liquidable_updated: bool,
}

/// The ledger fields that saving a CDP writes.
#[derive(PartialEq, Eq, Structural, Clone, Copy, Debug)]
pub struct CdpWrites {
    pub cdp_type: bool,
    pub collaterals: bool,
    pub loans: bool,
    pub liquidated: bool,
    pub liquidable: bool,
    /// Whether anything was written, so that the update time is written too
    pub updated_at: bool,
}

impl WrappedCDPData {
    /// Whether any field is to be written.
    pub open spec fn touched(self) -> bool {
        self.cdp_type_updated || self.collateral_updated || self.loan_updated
            || self.liquidated_updated || self.liquidable_updated || self.cdp_data.liquidable is Some
    }

    /// The number of positions: collateral entries and loan entries together.
    pub open spec fn position_count(self) -> nat {
        unit_entries(self.cdp_data.collaterals).len() + unit_entries(self.cdp_data.loans).len()
    }

    /// Constructor from the data read from the ledger: nothing updated yet.
    ///
    /// *Params*
    /// - `cdp_data`: The CDP data
    /// - `cdp_id`: The id of the CDP
    pub fn new(cdp_data: CollaterizedDebtPositionData, cdp_id: u64) -> (r: WrappedCDPData)
        ensures
            r.cdp_data == cdp_data,
            r.cdp_id == cdp_id,
            !r.cdp_type_updated && !r.collateral_updated && !r.loan_updated && !r.liquidated_updated,
            !r.liquidable_updated,
    {
        WrappedCDPData {
            cdp_id,
            cdp_data,
            cdp_type_updated: false,
            collateral_updated: false,
            loan_updated: false,
            liquidated_updated: false,
            liquidable_updated: false,
        }
    }

    /// Getter of `CDPType`
    pub fn get_type(&self) -> (r: CDPType)
        ensures
            r == self.cdp_data.cdp_type,
    {
        self.cdp_data.cdp_type
    }

    /// Getter of `CollaterizedDebtPositionData`
    pub fn get_data(&self) -> (r: CollaterizedDebtPositionData)
        ensures
            r.same_as(self.cdp_data),
    {
        self.cdp_data.duplicate()
    }

    /// Getter of the collateral units amount
    ///
    /// *Params*
    ///  - `collateral`: The resource address of the collateral units to get
    pub fn get_collateral_units(&self, collateral: ResourceAddress) -> (r: PreciseDecimal)
        ensures
            r@ == units_of(unit_entries(self.cdp_data.collaterals), collateral),
    {
        Self::get_units(&self.cdp_data.collaterals, collateral)
    }

    /// Getter of the loan units amount
    pub fn get_loan_units(&self, loan: ResourceAddress) -> (r: PreciseDecimal)
        ensures
            r@ == units_of(unit_entries(self.cdp_data.loans), loan),
    {
        Self::get_units(&self.cdp_data.loans, loan)
    }

    /// (UNUSED)
    pub fn update_cdp_type(&mut self, cdp_type: CDPType)
        ensures
            final(self).cdp_data.cdp_type == cdp_type,
            final(self).cdp_type_updated,
            final(self).cdp_id == old(self).cdp_id,
            final(self).collateral_updated == old(self).collateral_updated,
            final(self).loan_updated == old(self).loan_updated,
            final(self).liquidated_updated == old(self).liquidated_updated,
            final(self).liquidable_updated == old(self).liquidable_updated,
            final(self).cdp_data.collaterals == old(self).cdp_data.collaterals,
            final(self).cdp_data.loans == old(self).cdp_data.loans,
            final(self).cdp_data.liquidated == old(self).cdp_data.liquidated,
            final(self).cdp_data.liquidable == old(self).cdp_data.liquidable,
    {
        self.cdp_data.cdp_type = cdp_type;
        self.cdp_type_updated = true;
    }

    /// Add `units` to the collateral units of `res_address`
    ///
    /// *Params*
    /// - `res_address`: The resource to update among the collateralized values
    /// - `units`: The amount of units to add (negative to remove)
    pub fn update_collateral(&mut self, res_address: ResourceAddress, units: PreciseDecimal) -> (r: Result<
        (),
        String,
    >)
        requires
            units_addable(unit_entries(old(self).cdp_data.collaterals), res_address, units@),
        ensures
            r is Ok,
            unit_entries(final(self).cdp_data.collaterals) == units_added(
                unit_entries(old(self).cdp_data.collaterals),
                res_address,
                units,
            ),
            units@ != 0 ==> keys_unique(unit_entries(final(self).cdp_data.collaterals)),
            units_of(unit_entries(final(self).cdp_data.collaterals), res_address) == units_after_add(
                unit_entries(old(self).cdp_data.collaterals),
                res_address,
                units@,
            ),
            has_key(unit_entries(final(self).cdp_data.collaterals), res_address) == entry_kept(
                unit_entries(old(self).cdp_data.collaterals),
                res_address,
                units@,
            ),
            forall|other: ResourceAddress|
                other != res_address ==> #[trigger] lookup(unit_entries(final(self).cdp_data.collaterals), other)
                    == lookup(unit_entries(old(self).cdp_data.collaterals), other),
            final(self).collateral_updated,
            final(self).cdp_id == old(self).cdp_id,
            final(self).cdp_type_updated == old(self).cdp_type_updated,
            final(self).loan_updated == old(self).loan_updated,
            final(self).liquidated_updated == old(self).liquidated_updated,
            final(self).liquidable_updated == old(self).liquidable_updated,
            final(self).cdp_data.cdp_type == old(self).cdp_data.cdp_type,
            final(self).cdp_data.loans == old(self).cdp_data.loans,
            final(self).cdp_data.liquidated == old(self).cdp_data.liquidated,
            final(self).cdp_data.liquidable == old(self).cdp_data.liquidable,
    {
        let result = Self::update_map(&mut self.cdp_data.collaterals, res_address, units);
        self.collateral_updated = true;
        result
    }

    /// Add `units` to the loan units of `res_address`
    ///
    /// *Params*
    /// - `res_address`: The resource to update among the loaned values
    /// - `units`: The amount of units to add (negative to remove)
    pub fn update_loan(&mut self, res_address: ResourceAddress, units: PreciseDecimal) -> (r: Result<
        (),
        String,
    >)
        requires
            units_addable(unit_entries(old(self).cdp_data.loans), res_address, units@),
        ensures
            r is Ok,
            unit_entries(final(self).cdp_data.loans) == units_added(
                unit_entries(old(self).cdp_data.loans),
                res_address,
                units,
            ),
            units@ != 0 ==> keys_unique(unit_entries(final(self).cdp_data.loans)),
            units_of(unit_entries(final(self).cdp_data.loans), res_address) == units_after_add(
                unit_entries(old(self).cdp_data.loans),
                res_address,
                units@,
            ),
            has_key(unit_entries(final(self).cdp_data.loans), res_address) == entry_kept(
                unit_entries(old(self).cdp_data.loans),
                res_address,
                units@,
            ),
            forall|other: ResourceAddress|
                other != res_address ==> #[trigger] lookup(unit_entries(final(self).cdp_data.loans), other)
                    == lookup(unit_entries(old(self).cdp_data.loans), other),
            final(self).loan_updated,
            final(self).cdp_id == old(self).cdp_id,
            final(self).cdp_type_updated == old(self).cdp_type_updated,
            final(self).collateral_updated == old(self).collateral_updated,
            final(self).liquidated_updated == old(self).liquidated_updated,
            final(self).liquidable_updated == old(self).liquidable_updated,
            final(self).cdp_data.cdp_type == old(self).cdp_data.cdp_type,
            final(self).cdp_data.collaterals == old(self).cdp_data.collaterals,
            final(self).cdp_data.liquidated == old(self).cdp_data.liquidated,
            final(self).cdp_data.liquidable == old(self).cdp_data.liquidable,
    {
        let result = Self::update_map(&mut self.cdp_data.loans, res_address, units);
        self.loan_updated = true;
        result
    }

    /// Cleanup upon liquidation: once no collateral is left, every loan entry is
    /// moved, in order, onto the liquidated entries and the loans are cleared.
    ///
    /// *Error*
    /// - If update of the internal state fails
    pub fn on_liquidation(&mut self) -> (r: Result<(), String>)
        requires
            unit_entries(old(self).cdp_data.collaterals).len() == 0 && unit_entries(
                old(self).cdp_data.loans,
            ).len() > 0 ==> loans_movable(
                unit_entries(old(self).cdp_data.liquidated),
                unit_entries(old(self).cdp_data.loans),
            ),
        ensures
            r is Ok,
            final(self).cdp_id == old(self).cdp_id,
            final(self).cdp_type_updated == old(self).cdp_type_updated,
            final(self).collateral_updated == old(self).collateral_updated,
            final(self).cdp_data.key_image_url == old(self).cdp_data.key_image_url,
            final(self).cdp_data.name == old(self).cdp_data.name,
            final(self).cdp_data.description == old(self).cdp_data.description,
            final(self).cdp_data.minted_at == old(self).cdp_data.minted_at,
            final(self).cdp_data.updated_at == old(self).cdp_data.updated_at,
            final(self).cdp_data.cdp_type == old(self).cdp_data.cdp_type,
            final(self).cdp_data.collaterals == old(self).cdp_data.collaterals,
            final(self).cdp_data.liquidable == old(self).cdp_data.liquidable,
            final(self).liquidable_updated == old(self).liquidable_updated,
            if unit_entries(old(self).cdp_data.collaterals).len() == 0 && unit_entries(
                old(self).cdp_data.loans,
            ).len() > 0 {
                &&& unit_entries(final(self).cdp_data.liquidated) == loans_moved(
                    unit_entries(old(self).cdp_data.liquidated),
                    unit_entries(old(self).cdp_data.loans),
                )
                &&& unit_entries(final(self).cdp_data.loans).len() == 0
                &&& final(self).liquidated_updated && final(self).loan_updated
            } else {
                &&& final(self).cdp_data.liquidated == old(self).cdp_data.liquidated
                &&& final(self).cdp_data.loans == old(self).cdp_data.loans
                &&& final(self).liquidated_updated == old(self).liquidated_updated
                &&& final(self).loan_updated == old(self).loan_updated
            },
    {
        if units_len(&self.cdp_data.collaterals) == 0 && units_len(&self.cdp_data.loans) > 0 {
            let ghost loans = unit_entries(self.cdp_data.loans);
            let ghost start = unit_entries(self.cdp_data.liquidated);
            let n = units_len(&self.cdp_data.loans);
            let mut i: usize = 0;
            while i < n
                invariant
                    n == loans.len(),
                    i <= n,
                    loans == unit_entries(self.cdp_data.loans),
                    loans_movable(start, loans),
                    unit_entries(self.cdp_data.liquidated) == loans_moved(start, loans.take(i as int)),
                    self.cdp_id == old(self).cdp_id,
                    self.cdp_type_updated == old(self).cdp_type_updated,
                    self.collateral_updated == old(self).collateral_updated,
                    self.cdp_data.key_image_url == old(self).cdp_data.key_image_url,
                    self.cdp_data.name == old(self).cdp_data.name,
                    self.cdp_data.description == old(self).cdp_data.description,
                    self.cdp_data.minted_at == old(self).cdp_data.minted_at,
                    self.cdp_data.updated_at == old(self).cdp_data.updated_at,
                    self.cdp_data.cdp_type == old(self).cdp_data.cdp_type,
                    self.cdp_data.collaterals == old(self).cdp_data.collaterals,
                    self.cdp_data.liquidable == old(self).cdp_data.liquidable,
                    self.liquidable_updated == old(self).liquidable_updated,
                    start == unit_entries(old(self).cdp_data.liquidated),
                    loans == unit_entries(old(self).cdp_data.loans),
                decreases n - i,
            {
                let (res_address, units) = units_get_index(&self.cdp_data.loans, i);
                proof {
                    assert(loans.take(i as int + 1).drop_last() =~= loans.take(i as int));
                    lemma_movable_prefix(start, loans, i as int + 1);
                }
                Self::update_map(&mut self.cdp_data.liquidated, res_address, units)?;
                i = i + 1;
            }
            proof {
                assert(loans.take(n as int) =~= loans);
            }
            units_clear(&mut self.cdp_data.loans);
            self.liquidated_updated = true;
            self.loan_updated = true;
        }
        Ok(())
    }

    /// Record `value` as the liquidable value; a change (to or from none included) is
    /// flagged so that saving writes it.
    pub fn update_liquidable(&mut self, value: Option<Decimal>)
        ensures
            final(self).cdp_data.liquidable == value,
            final(self).liquidable_updated == (old(self).liquidable_updated || old(self).cdp_data.liquidable
                != value),
            final(self).cdp_id == old(self).cdp_id,
            final(self).cdp_type_updated == old(self).cdp_type_updated,
            final(self).collateral_updated == old(self).collateral_updated,
            final(self).loan_updated == old(self).loan_updated,
            final(self).liquidated_updated == old(self).liquidated_updated,
            final(self).cdp_data.key_image_url == old(self).cdp_data.key_image_url,
            final(self).cdp_data.name == old(self).cdp_data.name,
            final(self).cdp_data.description == old(self).cdp_data.description,
            final(self).cdp_data.minted_at == old(self).cdp_data.minted_at,
            final(self).cdp_data.updated_at == old(self).cdp_data.updated_at,
            final(self).cdp_data.cdp_type == old(self).cdp_data.cdp_type,
            final(self).cdp_data.collaterals == old(self).cdp_data.collaterals,
            final(self).cdp_data.loans == old(self).cdp_data.loans,
            final(self).cdp_data.liquidated == old(self).cdp_data.liquidated,
    {
        let changed = match (self.cdp_data.liquidable, value) {
            (None, None) => false,
            (Some(a), Some(b)) => {
                proof {
                    if a@ == b@ {
                        Decimal::lemma_view_injective(a, b);
                    }
                }
                !a.equals(&b)
            },
            _ => true,
        };
        if changed {
            self.liquidable_updated = true;
        }
        self.cdp_data.liquidable = value;
    }

    /// The ledger writes that saving this CDP makes: each flagged map, the
    /// liquidable value when set or changed, and the update time when anything is written.
    ///
    /// *Params*
    /// - `max_cdp_position`: The configured amount of positions for the CDP
    pub fn save_cdp(&self, max_cdp_position: u8) -> (r: CdpWrites)
        requires
            self.touched() ==> self.position_count() <= max_cdp_position,
        ensures
            r.cdp_type == self.cdp_type_updated,
            r.collaterals == self.collateral_updated,
            r.loans == self.loan_updated,
            r.liquidated == self.liquidated_updated,
            r.liquidable == (self.liquidable_updated || self.cdp_data.liquidable is Some),
            r.updated_at == self.touched(),
    {
        let updated = self.cdp_type_updated || self.collateral_updated || self.loan_updated
            || self.liquidated_updated || self.liquidable_updated || self.cdp_data.liquidable.is_some();
        CdpWrites {
            cdp_type: self.cdp_type_updated,
            collaterals: self.collateral_updated,
            loans: self.loan_updated,
            liquidated: self.liquidated_updated,
            liquidable: self.liquidable_updated || self.cdp_data.liquidable.is_some(),
            updated_at: updated,
        }
    }

    /// Whether the CDP has both collateral and loans, so that a liquidation can concern it.
    pub fn has_open_positions(&self) -> (r: bool)
        ensures
            r == (unit_entries(self.cdp_data.collaterals).len() > 0 && unit_entries(self.cdp_data.loans).len()
                > 0),
    {
        units_len(&self.cdp_data.collaterals) > 0 && units_len(&self.cdp_data.loans) > 0
    }

    /// Whether the number of positions is within `max_cdp_position`.
    pub fn within_position_limit(&self, max_cdp_position: u8) -> (r: bool)
        ensures
            r == (self.position_count() <= max_cdp_position),
    {
        let count = units_len(&self.cdp_data.collaterals) as u128 + units_len(&self.cdp_data.loans) as u128;
        count <= max_cdp_position as u128
    }

    // local methods

    fn get_units(map: &UnitMap, key: ResourceAddress) -> (r: PreciseDecimal)
        ensures
            r@ == units_of(unit_entries(*map), key),
    {
        match units_get(map, &key) {
            Some(v) => v,
            None => PreciseDecimal::zero(),
        }
    }

    fn update_map(map: &mut UnitMap, key: ResourceAddress, units: PreciseDecimal) -> (r: Result<(), String>)
        requires
            units_addable(unit_entries(*old(map)), key, units@),
        ensures
            r is Ok,
            unit_entries(*final(map)) == units_added(unit_entries(*old(map)), key, units),
            units@ != 0 ==> keys_unique(unit_entries(*final(map))),
            units_of(unit_entries(*final(map)), key) == units_after_add(unit_entries(*old(map)), key, units@),
            has_key(unit_entries(*final(map)), key) == entry_kept(unit_entries(*old(map)), key, units@),
            forall|other: ResourceAddress|
                other != key ==> #[trigger] lookup(unit_entries(*final(map)), other) == lookup(
                    unit_entries(*old(map)),
                    other,
                ),
    {
        if units.is_zero() {
            return Ok(());
        }
        let ghost before = unit_entries(*map);
        match units_get(map, &key) {
            Some(entry) => {
                let new_entry = entry.plus(&units);
                let epsilon = zero_epsilon().to_precise();
                if new_entry.less_than(&epsilon) {
                    units_swap_remove(map, &key);
                } else {
                    proof {
                        let c = choose|v: PreciseDecimal| v@ == entry@ + units@;
                        PreciseDecimal::lemma_view_injective(c, new_entry);
                    }
                    units_insert(map, key, new_entry);
                }
            },
            None => {
                units_insert(map, key, units);
            },
        }
        proof {
            // the map's own keys never repeat, which the write above has shown of `before`
            assert(keys_unique(before));
            assert(unit_entries(*map) == units_added(before, key, units));
            assert forall|other: ResourceAddress| other != key implies #[trigger] lookup(
                unit_entries(*map),
                other,
            ) == lookup(before, other) by {
                lemma_units_read_after_add(before, key, units, other);
            }
            lemma_units_read_after_add(before, key, units, key);
        }
        Ok(())
    }
}

/// Adding units to a resource's entry is what a later read of that resource gives: the
/// previous units plus the added ones, or zero when an existing entry falls below 10^-9
/// (a new entry is kept whatever its units). Other resources read as before.
pub proof fn lemma_units_read_after_add(
    s: Seq<(ResourceAddress, PreciseDecimal)>,
    key: ResourceAddress,
    units: PreciseDecimal,
    other: ResourceAddress,
)
    requires
        keys_unique(s),
        units_addable(s, key, units@),
    ensures
        keys_unique(units_added(s, key, units)),
        units_of(units_added(s, key, units), key) == units_after_add(s, key, units@),
        has_key(units_added(s, key, units), key) == entry_kept(s, key, units@),
        other != key ==> lookup(units_added(s, key, units), other) == lookup(s, other),
        other != key ==> units_of(units_added(s, key, units), other) == units_of(s, other),
{
    if units@ == 0 {
    } else if !has_key(s, key) {
        lemma_lookup_inserted(s, key, units, other);
    } else if units_of(s, key) + units@ < widen(zero_epsilon_attos()) {
        lemma_lookup_swap_removed(s, key, other);
    } else {
        crate::decimal::lemma_pdec_exists(units_of(s, key) + units@);
        let v = choose|v: PreciseDecimal| v@ == units_of(s, key) + units@;
        lemma_lookup_inserted(s, key, v, other);
    }
}

} // verus!
