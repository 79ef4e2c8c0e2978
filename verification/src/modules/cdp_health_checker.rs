//! The health check of a CDP: the value of its collaterals, discounted by their
//! liquidation thresholds, against the value of its loans.
use crate::address::ResourceAddress;
use crate::decimal::{
    dec_bound, dec_div, dec_mul, dec_of, decimal_text, dec_scale, in_dec_range, in_pdec_range, lemma_dec_of, pdec_div,
    pdec_scale, round_half_even, Decimal, PreciseDecimal,
};
use crate::maps::{has_key, keys_unique, lookup};
use crate::modules::cdp_data::{zero_epsilon, zero_epsilon_attos, CDPType};
use crate::modules::liquidation_threshold::LiquidationThreshold;
use crate::modules::pool_state::{unit_ratio_computable, LendingPoolState};
use indexmap::IndexMap;
use vstd::prelude::*;

verus! {

/// Type of position
#[derive(PartialEq, Eq, Structural, Clone, Copy, Debug)]
pub enum LoadPositionType {
    Collateral,
    Loan,
}

/// Type of load
#[derive(PartialEq, Eq, Structural, Clone, Copy, Debug)]
pub enum LoadDataType {
    Own,
}

/// Position data
#[derive(Clone, Copy, Debug)]
pub struct PositionData {
    /// Unit amount
    pub units: PreciseDecimal,
    /// Asset amount
    pub amount: Decimal,
    /// Value of the position according to the asset price
    pub value: Decimal,
    /// Pool unit ratio from the respective pool
    pub unit_ratio: PreciseDecimal,
}

/// The asset amount of a position: its units over the unit ratio, to the nearest `Decimal`.
pub open spec fn position_amount(d: PositionData) -> int {
    round_half_even(pdec_div(d.units@, d.unit_ratio@))
}

/// The value of a position at `price`.
pub open spec fn position_value(d: PositionData, price: int) -> int {
    dec_mul(position_amount(d), price)
}

/// Whether pricing the position divides by a non-zero ratio and stays in range.
pub open spec fn position_updatable(d: PositionData, price: int) -> bool {
    &&& d.unit_ratio@ != 0
    &&& in_pdec_range(pdec_div(d.units@, d.unit_ratio@))
    &&& in_dec_range(position_amount(d))
    &&& in_dec_range(position_value(d, price))
}

/// The position priced at `price`.
pub open spec fn refreshed_data(d: PositionData, price: int) -> PositionData {
    PositionData {
        amount: dec_of(position_amount(d)),
        value: dec_of(position_value(d, price)),
        ..d
    }
}

impl PositionData {
    /// Add `units` to the position
    ///
    /// *Params*
    /// - `units`: The position units
    /// - `load_type`: The load type
    pub fn load_onledger_data(&mut self, units: PreciseDecimal, load_type: LoadDataType) -> (r: Result<
        (),
        String,
    >)
        requires
            in_pdec_range(old(self).units@ + units@),
        ensures
            r is Ok,
            final(self).units@ == old(self).units@ + units@,
            final(self).amount == old(self).amount,
            final(self).value == old(self).value,
            final(self).unit_ratio == old(self).unit_ratio,
    {
        match load_type {
            LoadDataType::Own => {
                self.units = self.units.plus(&units);
            },
        }
        Ok(())
    }

    /// Price the position: the amount is its units over the unit ratio, the value that amount at `price`
    ///
    /// *Params*
    /// - `price`: This position's asset price
    pub fn update_data(&mut self, price: Decimal) -> (r: Result<(), String>)
        requires
            position_updatable(*old(self), price@),
        ensures
            r is Ok,
            *final(self) == refreshed_data(*old(self), price@),
    {
        self.amount = self.units.over(&self.unit_ratio).truncated();
        self.value = self.amount.times(&price);
        proof {
            lemma_dec_of(self.amount);
            lemma_dec_of(self.value);
        }
        Ok(())
    }
}

/// Extends the collateral position with necessary information for the CDP health check
#[derive(Debug)]
pub struct ExtendedCollateralPositionData {
    /// The pool resource address
    pub pool_res_address: ResourceAddress,
    /// Price of the asset
    pub price: Decimal,
    /// Type of the asset from pool state (0 for cryptocurrencies and 1 for stable coins by convention)
    pub asset_type: u8,
    /// Liquidation threshold information from pool state
    pub liquidation_threshold: LiquidationThreshold,
    /// Liquidation bonus rate information from pool state
    pub liquidation_bonus_rate: Decimal,
    /// The position data
    pub data: PositionData,
}

/// Extends the loan position with necessary information for the CDP health check
#[derive(Clone, Copy, Debug)]
pub struct ExtendedLoanPositionData {
    /// The pool resource address
    pub pool_res_address: ResourceAddress,
    /// Price of the asset
    pub price: Decimal,
    /// Type of the asset from pool state
    pub asset_type: u8,
    /// Ratio to be repaid before the loan can be closed
    pub loan_close_factor: Decimal,
    /// The position data
    pub data: PositionData,
    /// The amount of collateral needed to sustain this loan so that the position is not liquidable
    pub discounted_collateral_value: Decimal,
}

/// Map from a pool's resource to a collateral position.
pub type CollateralPositions = IndexMap<ResourceAddress, ExtendedCollateralPositionData>;

/// Map from a pool's resource to a loan position.
pub type LoanPositions = IndexMap<ResourceAddress, ExtendedLoanPositionData>;

/// The entries of a map of collateral positions, in insertion order. The wrappers below
/// that write state that no key repeats in the map they write to; those that only read
/// leave it unsaid.
pub uninterp spec fn collateral_entries(m: CollateralPositions) -> Seq<(ResourceAddress, ExtendedCollateralPositionData)>;

/// The entries of a map of loan positions, in insertion order.
pub uninterp spec fn loan_entries(m: LoanPositions) -> Seq<(ResourceAddress, ExtendedLoanPositionData)>;

/// `IndexMap::new`: no collateral positions.
#[verifier::external_body]
fn collaterals_new() -> (r: CollateralPositions)
    ensures
        collateral_entries(r) == Seq::<(ResourceAddress, ExtendedCollateralPositionData)>::empty(),
{
    IndexMap::new()
}

/// `IndexMap::len`: the number of collateral positions.
#[verifier::external_body]
fn collaterals_len(m: &CollateralPositions) -> (r: usize)
    ensures
        r == collateral_entries(*m).len(),
{
    m.len()
}

/// `IndexMap::get_index`: the collateral position at index `i`.
#[verifier::external_body]
fn collaterals_get_index(m: &CollateralPositions, i: usize) -> (r: &ExtendedCollateralPositionData)
    requires
        i < collateral_entries(*m).len(),
    ensures
        *r == collateral_entries(*m)[i as int].1,
{
    m.get_index(i).unwrap().1
}

/// `IndexMap::get_index_of`: the index of the collateral position for `k`.
#[verifier::external_body]
fn collaterals_index_of(m: &CollateralPositions, k: &ResourceAddress) -> (r: Option<usize>)
    ensures
        r is None <==> !has_key(collateral_entries(*m), *k),
        r matches Some(i) ==> i < collateral_entries(*m).len() && collateral_entries(*m)[i as int].0 == *k,
{
    m.get_index_of(k)
}

/// `IndexMap::insert` of a key that is absent: a new last entry.
#[verifier::external_body]
fn collaterals_push(m: &mut CollateralPositions, k: ResourceAddress, v: ExtendedCollateralPositionData)
    requires
        !has_key(collateral_entries(*old(m)), k),
    ensures
        keys_unique(collateral_entries(*old(m))),
        collateral_entries(*final(m)) == collateral_entries(*old(m)).push((k, v)),
{
    m.insert(k, v);
}

/// The collateral position at index `i` gets position data `d` (through `IndexMut`).
#[verifier::external_body]
fn collaterals_set_data(m: &mut CollateralPositions, i: usize, d: PositionData)
    requires
        i < collateral_entries(*old(m)).len(),
    ensures
        keys_unique(collateral_entries(*old(m))),
        collateral_entries(*final(m)) == collateral_entries(*old(m)).update(
            i as int,
            (
                collateral_entries(*old(m))[i as int].0,
                ExtendedCollateralPositionData { data: d, ..collateral_entries(*old(m))[i as int].1 },
            ),
        ),
{
    m[i].data = d;
}

/// `IndexMap::new`: no loan positions.
#[verifier::external_body]
fn loans_new() -> (r: LoanPositions)
    ensures
        loan_entries(r) == Seq::<(ResourceAddress, ExtendedLoanPositionData)>::empty(),
{
    IndexMap::new()
}

/// `IndexMap::len`: the number of loan positions.
#[verifier::external_body]
fn loans_len(m: &LoanPositions) -> (r: usize)
    ensures
        r == loan_entries(*m).len(),
{
    m.len()
}

/// `IndexMap::get_index`: the loan position at index `i`.
#[verifier::external_body]
fn loans_get_index(m: &LoanPositions, i: usize) -> (r: ExtendedLoanPositionData)
    requires
        i < loan_entries(*m).len(),
    ensures
        r == loan_entries(*m)[i as int].1,
{
    *m.get_index(i).unwrap().1
}

/// `IndexMap::get_index_of`: the index of the loan position for `k`.
#[verifier::external_body]
fn loans_index_of(m: &LoanPositions, k: &ResourceAddress) -> (r: Option<usize>)
    ensures
        r is None <==> !has_key(loan_entries(*m), *k),
        r matches Some(i) ==> i < loan_entries(*m).len() && loan_entries(*m)[i as int].0 == *k,
{
    m.get_index_of(k)
}

/// `IndexMap::insert` of a key that is absent: a new last entry.
#[verifier::external_body]
fn loans_push(m: &mut LoanPositions, k: ResourceAddress, v: ExtendedLoanPositionData)
    requires
        !has_key(loan_entries(*old(m)), k),
    ensures
        keys_unique(loan_entries(*old(m))),
        loan_entries(*final(m)) == loan_entries(*old(m)).push((k, v)),
{
    m.insert(k, v);
}

/// The loan position at index `i` becomes `v` (through `IndexMut`).
#[verifier::external_body]
fn loans_set(m: &mut LoanPositions, i: usize, v: ExtendedLoanPositionData)
    requires
        i < loan_entries(*old(m)).len(),
    ensures
        keys_unique(loan_entries(*old(m))),
        loan_entries(*final(m)) == loan_entries(*old(m)).update(i as int, (loan_entries(*old(m))[i as int].0, v)),
{
    m[i] = v;
}


/// The share of a collateral's value that may back loan `l`: the collateral's
/// liquidation threshold for the pair, capped at one less the liquidation bonus.
pub open spec fn discount_factor(c: ExtendedCollateralPositionData, l: ExtendedLoanPositionData) -> int {
    let threshold = c.liquidation_threshold.ratio(c.pool_res_address, c.asset_type, l.pool_res_address, l.asset_type);
    let cap = dec_scale() - c.liquidation_bonus_rate@;
    if cap <= threshold {
        cap
    } else {
        threshold
    }
}

/// A collateral never backs a loan with more than one less its liquidation bonus of its
/// value, nor more than its liquidation threshold for the pair: the share counted is the
/// smaller of the two.
pub proof fn lemma_backing_capped_by_bonus(c: ExtendedCollateralPositionData, l: ExtendedLoanPositionData)
    ensures
        discount_factor(c, l) <= dec_scale() - c.liquidation_bonus_rate@,
        discount_factor(c, l) <= c.liquidation_threshold.ratio(
            c.pool_res_address,
            c.asset_type,
            l.pool_res_address,
            l.asset_type,
        ),
        discount_factor(c, l) == dec_scale() - c.liquidation_bonus_rate@ || discount_factor(c, l)
            == c.liquidation_threshold.ratio(c.pool_res_address, c.asset_type, l.pool_res_address, l.asset_type),
        0 <= c.data.value@ ==> discount_term(c, l) <= dec_mul(dec_scale() - c.liquidation_bonus_rate@, c.data.value@),
{
    let f = discount_factor(c, l);
    let cap = dec_scale() - c.liquidation_bonus_rate@;
    let v = c.data.value@;
    if 0 <= v {
        lemma_dec_mul_monotone(f, cap, v);
    }
}

/// A `Decimal` product with a non-negative factor keeps the order of the other factor.
proof fn lemma_dec_mul_monotone(a: int, b: int, v: int)
    requires
        a <= b,
        0 <= v,
    ensures
        dec_mul(a, v) <= dec_mul(b, v),
{
    let s = dec_scale();
    assert(a * v <= b * v) by (nonlinear_arith)
        requires
            a <= b,
            0 <= v,
    ;
    // truncation toward zero is monotone: floor above zero, ceiling below
    if a * v >= 0 {
        vstd::arithmetic::div_mod::lemma_div_is_ordered(a * v, b * v, s);
    } else if b * v >= 0 {
        vstd::arithmetic::div_mod::lemma_div_pos_is_pos(b * v, s);
        vstd::arithmetic::div_mod::lemma_div_pos_is_pos(-(a * v), s);
    } else {
        vstd::arithmetic::div_mod::lemma_div_is_ordered(-(b * v), -(a * v), s);
    }
}

/// The collateral's value that may back loan `l`.
pub open spec fn discount_term(c: ExtendedCollateralPositionData, l: ExtendedLoanPositionData) -> int {
    dec_mul(discount_factor(c, l), c.data.value@)
}

/// The collateral value backing loan `l`, summed over the collaterals in order.
pub open spec fn discount_sum(
    cs: Seq<(ResourceAddress, ExtendedCollateralPositionData)>,
    l: ExtendedLoanPositionData,
) -> int
    decreases cs.len(),
{
    if cs.len() == 0 {
        0
    } else {
        discount_sum(cs.drop_last(), l) + discount_term(cs.last().1, l)
    }
}

/// Whether every step of the sum stays within `Decimal`.
pub open spec fn discount_computable(
    cs: Seq<(ResourceAddress, ExtendedCollateralPositionData)>,
    l: ExtendedLoanPositionData,
) -> bool
    decreases cs.len(),
{
    if cs.len() == 0 {
        true
    } else {
        let c = cs.last().1;
        &&& discount_computable(cs.drop_last(), l)
        &&& in_dec_range(dec_scale() - c.liquidation_bonus_rate@)
        &&& in_dec_range(discount_term(c, l))
        &&& in_dec_range(discount_sum(cs, l))
    }
}

/// The collateral position priced at its own price.
pub open spec fn refreshed_collateral(c: ExtendedCollateralPositionData) -> ExtendedCollateralPositionData {
    ExtendedCollateralPositionData { data: refreshed_data(c.data, c.price@), ..c }
}

/// The loan position priced at its own price and backed by collaterals `cs`.
pub open spec fn refreshed_loan(
    l: ExtendedLoanPositionData,
    cs: Seq<(ResourceAddress, ExtendedCollateralPositionData)>,
) -> ExtendedLoanPositionData {
    ExtendedLoanPositionData {
        data: refreshed_data(l.data, l.price@),
        discounted_collateral_value: dec_of(discount_sum(cs, l)),
        ..l
    }
}

impl ExtendedCollateralPositionData {
    /// Add `units` to the position; a position without a unit ratio takes the pool's.
    ///
    /// *Params*
    /// - `units`: The position units
    /// - `load_type`: The load type
    /// - `pool_unit_ratio`: the pool component's units per asset
    pub fn load_onledger_data(
        &mut self,
        units: PreciseDecimal,
        load_type: LoadDataType,
        pool_unit_ratio: PreciseDecimal,
    ) -> (r: Result<(), String>)
        requires
            in_pdec_range(old(self).data.units@ + units@),
        ensures
            r is Ok,
            final(self).data.units@ == old(self).data.units@ + units@,
            final(self).data.unit_ratio == if old(self).data.unit_ratio@ == 0 {
                pool_unit_ratio
            } else {
                old(self).data.unit_ratio
            },
            final(self).data.amount == old(self).data.amount,
            final(self).data.value == old(self).data.value,
            final(self).pool_res_address == old(self).pool_res_address,
            final(self).price == old(self).price,
            final(self).asset_type == old(self).asset_type,
            final(self).liquidation_threshold == old(self).liquidation_threshold,
            final(self).liquidation_bonus_rate == old(self).liquidation_bonus_rate,
    {
        self.data.load_onledger_data(units, load_type)?;
        if self.data.unit_ratio.is_zero() {
            self.data.unit_ratio = pool_unit_ratio;
        }
        Ok(())
    }

    /// Price the position at its own price
    pub fn update_data(&mut self) -> (r: Result<(), String>)
        requires
            position_updatable(old(self).data, old(self).price@),
        ensures
            r is Ok,
            *final(self) == refreshed_collateral(*old(self)),
    {
        let price = self.price;
        self.data.update_data(price)
    }
}

impl ExtendedLoanPositionData {
    /// Add `units` to the position; a position without a unit ratio takes the pool's loan unit ratio.
    ///
    /// *Params*
    /// - `units`: The position units
    /// - `load_type`: The load type
    /// - `pool_state`: The state of the position's pool
    ///
    /// *Error*
    /// - If the pool's loan unit ratio is above 1
    pub fn load_onledger_data(
        &mut self,
        units: PreciseDecimal,
        load_type: LoadDataType,
        pool_state: &LendingPoolState,
    ) -> (r: Result<(), String>)
        requires
            in_pdec_range(old(self).data.units@ + units@),
            old(self).data.unit_ratio@ == 0 ==> unit_ratio_computable(
                pool_state.total_loan_unit@,
                pool_state.total_loan@,
            ),
        ensures
            final(self).data.units@ == old(self).data.units@ + units@,
            old(self).data.unit_ratio@ != 0 ==> r is Ok && final(self).data.unit_ratio == old(self).data.unit_ratio,
            old(self).data.unit_ratio@ == 0 ==> (r is Ok <==> pool_state.loan_unit_ratio() <= pdec_scale()),
            old(self).data.unit_ratio@ == 0 && r is Ok ==> final(self).data.unit_ratio@ == pool_state.loan_unit_ratio(),
            final(self).data.amount == old(self).data.amount,
            final(self).data.value == old(self).data.value,
            final(self).pool_res_address == old(self).pool_res_address,
            final(self).price == old(self).price,
            final(self).asset_type == old(self).asset_type,
            final(self).loan_close_factor == old(self).loan_close_factor,
            final(self).discounted_collateral_value == old(self).discounted_collateral_value,
    {
        self.data.load_onledger_data(units, load_type)?;
        if self.data.unit_ratio.is_zero() {
            self.data.unit_ratio = pool_state.get_loan_unit_ratio()?;
        }
        Ok(())
    }

    /// Price the position at its own price and sum the collateral value backing it
    ///
    /// *Params*
    /// - `collateral_positions`: the CDP's collateral positions, already priced
    pub fn update_data(&mut self, collateral_positions: &CollateralPositions) -> (r: Result<(), String>)
        requires
            position_updatable(old(self).data, old(self).price@),
            discount_computable(collateral_entries(*collateral_positions), *old(self)),
        ensures
            r is Ok,
            *final(self) == refreshed_loan(*old(self), collateral_entries(*collateral_positions)),
    {
        let ghost cs = collateral_entries(*collateral_positions);
        let ghost me = *self;
        let price = self.price;
        self.data.update_data(price)?;

        let one = Decimal::one();
        let n = collaterals_len(collateral_positions);
        let mut discounted_collateral_value = Decimal::zero();
        let mut i: usize = 0;
        while i < n
            invariant
                n == cs.len(),
                i <= n,
                cs == collateral_entries(*collateral_positions),
                discount_computable(cs, me),
                self.pool_res_address == me.pool_res_address,
                self.asset_type == me.asset_type,
                one@ == dec_scale(),
                discounted_collateral_value@ == discount_sum(cs.take(i as int), me),
            decreases n - i,
        {
            proof {
                assert(cs.take(i as int + 1).drop_last() =~= cs.take(i as int));
                lemma_discount_prefix(cs, me, i as int + 1);
                assert(cs.take(i as int + 1).last() == cs[i as int]);
            }
            let collateral_position = collaterals_get_index(collateral_positions, i);
            let threshold = collateral_position.liquidation_threshold.get_ratio(
                collateral_position.pool_res_address,
                collateral_position.asset_type,
                self.pool_res_address,
                self.asset_type,
            );
            let cap = one.minus(&collateral_position.liquidation_bonus_rate);
            let liquidation_threshold = cap.min(threshold);
            let term = liquidation_threshold.times(&collateral_position.data.value);
            discounted_collateral_value = discounted_collateral_value.plus(&term);
            i = i + 1;
        }
        proof {
            assert(cs.take(n as int) =~= cs);
            lemma_dec_of(discounted_collateral_value);
        }
        self.discounted_collateral_value = discounted_collateral_value;
        Ok(())
    }
}

/// Being computable holds of every prefix of the collaterals.
proof fn lemma_discount_prefix(
    cs: Seq<(ResourceAddress, ExtendedCollateralPositionData)>,
    l: ExtendedLoanPositionData,
    k: int,
)
    requires
        discount_computable(cs, l),
        0 <= k <= cs.len(),
    ensures
        discount_computable(cs.take(k), l),
    decreases cs.len() - k,
{
    if k < cs.len() {
        lemma_discount_prefix(cs, l, k + 1);
        assert(cs.take(k + 1).drop_last() =~= cs.take(k));
    } else {
        assert(cs.take(k) =~= cs);
    }
}


/// Every collateral position priced at its own price.
pub open spec fn refreshed_collaterals(
    cs: Seq<(ResourceAddress, ExtendedCollateralPositionData)>,
) -> Seq<(ResourceAddress, ExtendedCollateralPositionData)> {
    cs.map(|i: int, e: (ResourceAddress, ExtendedCollateralPositionData)| (e.0, refreshed_collateral(e.1)))
}

/// Every loan position priced and backed by the collaterals `cs`.
pub open spec fn refreshed_loans(
    ls: Seq<(ResourceAddress, ExtendedLoanPositionData)>,
    cs: Seq<(ResourceAddress, ExtendedCollateralPositionData)>,
) -> Seq<(ResourceAddress, ExtendedLoanPositionData)> {
    ls.map(|i: int, e: (ResourceAddress, ExtendedLoanPositionData)| (e.0, refreshed_loan(e.1, cs)))
}

/// Whether every collateral position can be priced.
pub open spec fn collaterals_updatable(cs: Seq<(ResourceAddress, ExtendedCollateralPositionData)>) -> bool {
    forall|i: int| 0 <= i < cs.len() ==> position_updatable(#[trigger] cs[i].1.data, cs[i].1.price@)
}

/// Whether every loan position can be priced and its backing summed.
pub open spec fn loans_updatable(
    ls: Seq<(ResourceAddress, ExtendedLoanPositionData)>,
    cs: Seq<(ResourceAddress, ExtendedCollateralPositionData)>,
) -> bool {
    forall|i: int|
        0 <= i < ls.len() ==> position_updatable(#[trigger] ls[i].1.data, ls[i].1.price@)
            && discount_computable(cs, ls[i].1)
}

/// Over the loans in order: (sum of backing times loan value, sum of loan values,
/// sum of loan values times their close factors).
pub open spec fn loan_totals(ls: Seq<(ResourceAddress, ExtendedLoanPositionData)>) -> (int, int, int)
    decreases ls.len(),
{
    if ls.len() == 0 {
        (0, 0, 0)
    } else {
        let p = loan_totals(ls.drop_last());
        let l = ls.last().1;
        (
            p.0 + dec_mul(l.discounted_collateral_value@, l.data.value@),
            p.1 + l.data.value@,
            p.2 + dec_mul(l.data.value@, l.loan_close_factor@),
        )
    }
}

/// Whether every step of the totals stays within `Decimal`.
pub open spec fn totals_computable(ls: Seq<(ResourceAddress, ExtendedLoanPositionData)>) -> bool
    decreases ls.len(),
{
    if ls.len() == 0 {
        true
    } else {
        let p = loan_totals(ls.drop_last());
        let l = ls.last().1;
        &&& totals_computable(ls.drop_last())
        &&& in_dec_range(p.1 + l.data.value@)
        &&& in_dec_range(dec_mul(l.discounted_collateral_value@, l.data.value@))
        &&& in_dec_range(p.0 + dec_mul(l.discounted_collateral_value@, l.data.value@))
        &&& in_dec_range(dec_mul(l.data.value@, l.loan_close_factor@))
        &&& in_dec_range(p.2 + dec_mul(l.data.value@, l.loan_close_factor@))
    }
}

/// The collateral value backing all loans: the loan-weighted mean of each loan's backing,
/// zero when the loans are worth less than 10^-9.
pub open spec fn total_discounted_collateral(weighted: int, total_loan: int) -> int {
    if total_loan < zero_epsilon_attos() {
        0
    } else {
        dec_div(weighted, total_loan)
    }
}

/// Loans over backing collateral; zero without loans, the largest `Decimal` without backing.
pub open spec fn loan_to_value(weighted: int, total_loan: int) -> int {
    let backing = total_discounted_collateral(weighted, total_loan);
    if backing == 0 {
        if total_loan < zero_epsilon_attos() {
            0
        } else {
            dec_bound() - 1
        }
    } else {
        dec_div(total_loan, backing)
    }
}

/// Whether computing the ratio stays within `Decimal`.
pub open spec fn loan_to_value_computable(weighted: int, total_loan: int) -> bool {
    &&& total_loan >= zero_epsilon_attos() ==> in_dec_range(dec_div(weighted, total_loan))
    &&& total_discounted_collateral(weighted, total_loan) != 0 ==> in_dec_range(
        dec_div(total_loan, total_discounted_collateral(weighted, total_loan)),
    )
}

/// The CDP extended with what its health check needs: each position priced with the
/// data of its pool, and the totals computed from them.
#[derive(Debug)]
pub struct CDPHealthChecker {
    /// The type of the CDP
    pub cdp_type: CDPType,
    /// The total value of the loan in the CDP
    pub total_loan_value: Decimal,
    /// The loan to value ratio is the ratio between the total loan value, and the total collateral value.
    pub total_loan_to_value_ratio: Decimal,
    /// Max loan value in the CDP that can be repaid
    pub self_closable_loan_value: Decimal,
    /// All the collateral positions in the CDP, by the resource used as collateral.
    pub collateral_positions: CollateralPositions,
    /// All the loan positions in the CDP, by the borrowed resource.
    pub loan_positions: LoanPositions,
}

/// The error of a health check whose loan-to-value ratio is `ratio`, above 1.
pub open spec fn unhealthy_text(ratio: int) -> Seq<char> {
    "total_loan_to_value_ratio need to be lower than 1, but is "@ + decimal_text(ratio) + "."@
}

/// The error of a liquidation whose loan-to-value ratio is `ratio`, not above 1.
pub open spec fn healthy_text(ratio: int) -> Seq<char> {
    "CDP can not be liquidated: LTV ratio of "@ + decimal_text(ratio) + " is lower than 1"@
}

/// Formats the error of a health check whose ratio is above 1.
fn unhealthy_message(ratio: &Decimal) -> (r: String)
    ensures
        r@ == unhealthy_text(ratio@),
{
    let mut message = "total_loan_to_value_ratio need to be lower than 1, but is ".to_owned();
    let text = ratio.to_text();
    message.append(text.as_str());
    message.append(".");
    message
}

/// Formats the error of a liquidation whose ratio is not above 1.
fn healthy_message(ratio: &Decimal) -> (r: String)
    ensures
        r@ == healthy_text(ratio@),
{
    let mut message = "CDP can not be liquidated: LTV ratio of ".to_owned();
    let text = ratio.to_text();
    message.append(text.as_str());
    message.append(" is lower than 1");
    message
}

impl CDPHealthChecker {
    /// Whether the health data can be computed from these positions.
    pub open spec fn health_computable(self) -> bool {
        let cs = collateral_entries(self.collateral_positions);
        let cr = refreshed_collaterals(cs);
        let lr = refreshed_loans(loan_entries(self.loan_positions), cr);
        let t = loan_totals(lr);
        &&& collaterals_updatable(cs)
        &&& loans_updatable(loan_entries(self.loan_positions), cr)
        &&& totals_computable(lr)
        &&& loan_to_value_computable(t.0, t.1)
    }

    /// The loan-to-value ratio these positions give.
    pub open spec fn ratio_after_refresh(self) -> int {
        let cr = refreshed_collaterals(collateral_entries(self.collateral_positions));
        let t = loan_totals(refreshed_loans(loan_entries(self.loan_positions), cr));
        loan_to_value(t.0, t.1)
    }

    /// `new` is `old` with every position priced and the totals computed.
    pub open spec fn refreshed_from(new: CDPHealthChecker, old: CDPHealthChecker) -> bool {
        let cr = refreshed_collaterals(collateral_entries(old.collateral_positions));
        let lr = refreshed_loans(loan_entries(old.loan_positions), cr);
        let t = loan_totals(lr);
        &&& new.cdp_type == old.cdp_type
        &&& collateral_entries(new.collateral_positions) == cr
        &&& loan_entries(new.loan_positions) == lr
        &&& new.total_loan_value@ == t.1
        &&& new.self_closable_loan_value@ == t.2
        &&& new.total_loan_to_value_ratio@ == loan_to_value(t.0, t.1)
    }

    /// An empty health check for a CDP of type `cdp_type`.
    pub fn new_empty(cdp_type: CDPType) -> (r: CDPHealthChecker)
        ensures
            r.cdp_type == cdp_type,
            collateral_entries(r.collateral_positions).len() == 0,
            loan_entries(r.loan_positions).len() == 0,
            r.total_loan_value@ == 0 && r.total_loan_to_value_ratio@ == 0 && r.self_closable_loan_value@ == 0,
    {
        CDPHealthChecker {
            cdp_type,
            collateral_positions: collaterals_new(),
            loan_positions: loans_new(),
            total_loan_value: Decimal::zero(),
            total_loan_to_value_ratio: Decimal::zero(),
            self_closable_loan_value: Decimal::zero(),
        }
    }

    /// Perform health check: the loan-to-value ratio must not exceed 1
    ///
    /// *Error*
    /// - If the ratio exceeds 1
    pub fn check_cdp(&mut self) -> (r: Result<(), String>)
        requires
            old(self).health_computable(),
        ensures
            CDPHealthChecker::refreshed_from(*final(self), *old(self)),
            r is Ok <==> old(self).ratio_after_refresh() <= dec_scale(),
            r matches Err(e) ==> e@ == unhealthy_text(old(self).ratio_after_refresh()),
    {
        self.update_health_check_data()?;
        if Decimal::one().less_than(&self.total_loan_to_value_ratio) {
            return Err(unhealthy_message(&self.total_loan_to_value_ratio));
        }
        Ok(())
    }

    /// Check if CDP can be liquidated: the loan-to-value ratio must exceed 1
    ///
    /// *Error*
    /// - If the ratio does not exceed 1
    pub fn can_liquidate(&mut self) -> (r: Result<(), String>)
        requires
            old(self).health_computable(),
        ensures
            CDPHealthChecker::refreshed_from(*final(self), *old(self)),
            r is Ok <==> old(self).ratio_after_refresh() > dec_scale(),
            r matches Err(e) ==> e@ == healthy_text(old(self).ratio_after_refresh()),
    {
        self.update_health_check_data()?;
        if self.total_loan_to_value_ratio.less_eq(&Decimal::one()) {
            return Err(healthy_message(&self.total_loan_to_value_ratio));
        }
        Ok(())
    }

    /// Price every position and compute the totals and the loan-to-value ratio
    ///
    /// *Error*
    /// - If update of the internal state fails
    pub fn update_health_check_data(&mut self) -> (r: Result<(), String>)
        requires
            old(self).health_computable(),
        ensures
            r is Ok,
            CDPHealthChecker::refreshed_from(*final(self), *old(self)),
    {
        let ghost cs = collateral_entries(self.collateral_positions);
        let ghost cr = refreshed_collaterals(cs);
        let ghost ls = loan_entries(self.loan_positions);
        let ghost lr = refreshed_loans(ls, cr);

        // Price the collateral positions
        let n = collaterals_len(&self.collateral_positions);
        let mut i: usize = 0;
        while i < n
            invariant
                n == cs.len(),
                i <= n,
                cr == refreshed_collaterals(cs),
                collaterals_updatable(cs),
                collateral_entries(self.collateral_positions).len() == n,
                forall|j: int| 0 <= j < i ==> #[trigger] collateral_entries(self.collateral_positions)[j] == cr[j],
                forall|j: int| i <= j < n ==> #[trigger] collateral_entries(self.collateral_positions)[j] == cs[j],
                self.loan_positions == old(self).loan_positions,
                self.cdp_type == old(self).cdp_type,
            decreases n - i,
        {
            let position = collaterals_get_index(&self.collateral_positions, i);
            let mut data = position.data;
            let price = position.price;
            assert(position_updatable(cs[i as int].1.data, cs[i as int].1.price@));
            data.update_data(price)?;
            collaterals_set_data(&mut self.collateral_positions, i, data);
            i = i + 1;
        }
        assert(collateral_entries(self.collateral_positions) =~= cr);

        // Price the loan positions and sum the totals
        let m = loans_len(&self.loan_positions);
        let mut total_weighted_discounted_collateral_value = Decimal::zero();
        let mut total_loan_value = Decimal::zero();
        let mut self_closable_loan_value = Decimal::zero();
        let mut k: usize = 0;
        while k < m
            invariant
                m == ls.len(),
                k <= m,
                cr == refreshed_collaterals(cs),
                lr == refreshed_loans(ls, cr),
                collateral_entries(self.collateral_positions) == cr,
                loans_updatable(ls, cr),
                totals_computable(lr),
                loan_entries(self.loan_positions).len() == m,
                forall|j: int| 0 <= j < k ==> #[trigger] loan_entries(self.loan_positions)[j] == lr[j],
                forall|j: int| k <= j < m ==> #[trigger] loan_entries(self.loan_positions)[j] == ls[j],
                (total_weighted_discounted_collateral_value@, total_loan_value@, self_closable_loan_value@)
                    == loan_totals(lr.take(k as int)),
                self.cdp_type == old(self).cdp_type,
            decreases m - k,
        {
            proof {
                assert(lr.take(k as int + 1).drop_last() =~= lr.take(k as int));
                lemma_totals_prefix(lr, k as int + 1);
                assert(lr.take(k as int + 1).last() == lr[k as int]);
            }
            let mut loan = loans_get_index(&self.loan_positions, k);
            assert(position_updatable(ls[k as int].1.data, ls[k as int].1.price@));
            loan.update_data(&self.collateral_positions)?;
            loans_set(&mut self.loan_positions, k, loan);

            let position_total_loan_value = loan.data.value;
            total_loan_value = total_loan_value.plus(&position_total_loan_value);
            let weighted = loan.discounted_collateral_value.times(&position_total_loan_value);
            total_weighted_discounted_collateral_value = total_weighted_discounted_collateral_value.plus(&weighted);
            let closable = loan.data.value.times(&loan.loan_close_factor);
            self_closable_loan_value = self_closable_loan_value.plus(&closable);
            k = k + 1;
        }
        proof {
            assert(loan_entries(self.loan_positions) =~= lr);
            assert(lr.take(m as int) =~= lr);
        }

        let epsilon = zero_epsilon();
        let total_discounted_collateral_value = if total_loan_value.less_than(&epsilon) {
            Decimal::zero()
        } else {
            total_weighted_discounted_collateral_value.over(&total_loan_value)
        };

        let total_loan_to_value_ratio = if total_discounted_collateral_value.is_zero() {
            if total_loan_value.less_than(&epsilon) {
                Decimal::zero()
            } else {
                Decimal::max_value()
            }
        } else {
            total_loan_value.over(&total_discounted_collateral_value)
        };

        self.self_closable_loan_value = self_closable_loan_value;
        self.total_loan_value = total_loan_value;
        self.total_loan_to_value_ratio = total_loan_to_value_ratio;

        Ok(())
    }
}

/// Being computable holds of every prefix of the loans.
proof fn lemma_totals_prefix(ls: Seq<(ResourceAddress, ExtendedLoanPositionData)>, k: int)
    requires
        totals_computable(ls),
        0 <= k <= ls.len(),
    ensures
        totals_computable(ls.take(k)),
    decreases ls.len() - k,
{
    if k < ls.len() {
        lemma_totals_prefix(ls, k + 1);
        assert(ls.take(k + 1).drop_last() =~= ls.take(k));
    } else {
        assert(ls.take(k) =~= ls);
    }
}


/// Whether `c` is a fresh collateral position for the pool of `pool_state`.
pub open spec fn fresh_collateral(c: ExtendedCollateralPositionData, pool_state: LendingPoolState) -> bool {
    &&& c.pool_res_address == pool_state.pool_res_address
    &&& c.asset_type == pool_state.pool_config.asset_type
    &&& c.liquidation_bonus_rate == pool_state.pool_config.liquidation_bonus_rate
    &&& c.liquidation_threshold.same_as(pool_state.liquidation_threshold)
    &&& c.price == pool_state.price
    &&& c.data.units@ == 0 && c.data.amount@ == 0 && c.data.value@ == 0 && c.data.unit_ratio@ == 0
}

/// Whether `l` is a fresh loan position for the pool of `pool_state`.
pub open spec fn fresh_loan(l: ExtendedLoanPositionData, pool_state: LendingPoolState) -> bool {
    &&& l.pool_res_address == pool_state.pool_res_address
    &&& l.price == pool_state.price
    &&& l.asset_type == pool_state.pool_config.asset_type
    &&& l.loan_close_factor == pool_state.pool_config.loan_close_factor
    &&& l.data.units@ == 0 && l.data.amount@ == 0 && l.data.value@ == 0 && l.data.unit_ratio@ == 0
    &&& l.discounted_collateral_value@ == 0
}

/// A position with nothing in it.
pub open spec fn zero_position_spec() -> PositionData {
    PositionData {
        units: PreciseDecimal::zero_spec(),
        amount: Decimal::zero_spec(),
        value: Decimal::zero_spec(),
        unit_ratio: PreciseDecimal::zero_spec(),
    }
}

fn zero_position() -> (r: PositionData)
    ensures
        r.units@ == 0 && r.amount@ == 0 && r.value@ == 0 && r.unit_ratio@ == 0,
        r == zero_position_spec(),
{
    PositionData {
        units: PreciseDecimal::zero(),
        amount: Decimal::zero(),
        value: Decimal::zero(),
        unit_ratio: PreciseDecimal::zero(),
    }
}

impl CDPHealthChecker {
    /// The index of the collateral position for the pool of `pool_state`, adding a
    /// fresh one last when there is none.
    pub fn get_collateral_position(&mut self, pool_state: &LendingPoolState) -> (r: Result<usize, String>)
        ensures
            ({
                let key = pool_state.pool_res_address;
                let before = collateral_entries(old(self).collateral_positions);
                let after = collateral_entries(final(self).collateral_positions);
                &&& r matches Ok(i) && i < after.len() && after[i as int].0 == key
                &&& has_key(before, key) ==> final(self).collateral_positions == old(self).collateral_positions
                &&& !has_key(before, key) ==> after.len() == before.len() + 1 && after.drop_last() == before
                    && after.last().0 == key && fresh_collateral(after.last().1, *pool_state)
            }),
            final(self).loan_positions == old(self).loan_positions,
            final(self).cdp_type == old(self).cdp_type,
            final(self).total_loan_value == old(self).total_loan_value,
            final(self).total_loan_to_value_ratio == old(self).total_loan_to_value_ratio,
            final(self).self_closable_loan_value == old(self).self_closable_loan_value,
    {
        let key = pool_state.pool_res_address;
        match collaterals_index_of(&self.collateral_positions, &key) {
            Some(i) => Ok(i),
            None => {
                let position = ExtendedCollateralPositionData {
                    pool_res_address: key,
                    asset_type: pool_state.pool_config.asset_type,
                    liquidation_bonus_rate: pool_state.pool_config.liquidation_bonus_rate,
                    liquidation_threshold: pool_state.liquidation_threshold.duplicate(),
                    price: pool_state.price,
                    data: zero_position(),
                };
                let ghost before = collateral_entries(self.collateral_positions);
                let n = collaterals_len(&self.collateral_positions);
                collaterals_push(&mut self.collateral_positions, key, position);
                proof {
                    assert(collateral_entries(self.collateral_positions).drop_last() =~= before);
                }
                Ok(n)
            },
        }
    }

    /// The index of the loan position for the pool of `pool_state`, adding a fresh one
    /// last when there is none.
    pub fn _get_loan_position(&mut self, pool_state: &LendingPoolState) -> (r: Result<usize, String>)
        ensures
            ({
                let key = pool_state.pool_res_address;
                let before = loan_entries(old(self).loan_positions);
                let after = loan_entries(final(self).loan_positions);
                &&& r matches Ok(i) && i < after.len() && after[i as int].0 == key
                &&& has_key(before, key) ==> final(self).loan_positions == old(self).loan_positions
                &&& !has_key(before, key) ==> after == before.push((key, after.last().1)) && fresh_loan(
                    after.last().1,
                    *pool_state,
                )
            }),
            final(self).collateral_positions == old(self).collateral_positions,
            final(self).cdp_type == old(self).cdp_type,
            final(self).total_loan_value == old(self).total_loan_value,
            final(self).total_loan_to_value_ratio == old(self).total_loan_to_value_ratio,
            final(self).self_closable_loan_value == old(self).self_closable_loan_value,
    {
        let key = pool_state.pool_res_address;
        match loans_index_of(&self.loan_positions, &key) {
            Some(i) => Ok(i),
            None => {
                let position = ExtendedLoanPositionData {
                    pool_res_address: key,
                    price: pool_state.price,
                    asset_type: pool_state.pool_config.asset_type,
                    loan_close_factor: pool_state.pool_config.loan_close_factor,
                    data: zero_position(),
                    discounted_collateral_value: Decimal::zero(),
                };
                let n = loans_len(&self.loan_positions);
                loans_push(&mut self.loan_positions, key, position);
                Ok(n)
            },
        }
    }

    /// Load `units` of collateral held in the pool of `pool_state` into its position
    /// (creating it when missing); the position takes `pool_unit_ratio` when it has none yet.
    ///
    /// *Params*
    /// - `pool_state`: the state of the collateral's pool
    /// - `units`: the pool units held as collateral
    /// - `pool_unit_ratio`: the pool component's units per asset
    pub fn load_collateral_position(
        &mut self,
        pool_state: &LendingPoolState,
        units: PreciseDecimal,
        pool_unit_ratio: PreciseDecimal,
    ) -> (r: Result<(), String>)
        requires
            keys_unique(collateral_entries(old(self).collateral_positions)),
            match lookup(collateral_entries(old(self).collateral_positions), pool_state.pool_res_address) {
                Some(c) => in_pdec_range(c.data.units@ + units@),
                None => true,
            },
        ensures
            r is Ok,
            keys_unique(collateral_entries(final(self).collateral_positions)),
            ({
                let before = collateral_entries(old(self).collateral_positions);
                let after = collateral_entries(final(self).collateral_positions);
                let key = pool_state.pool_res_address;
                let prior = match lookup(before, key) {
                    Some(c) => c.data,
                    None => PositionData { units: PreciseDecimal::zero_spec(), ..zero_position_spec() },
                };
                &&& after.len() == if has_key(before, key) { before.len() } else { before.len() + 1 }
                &&& lookup(after, key) matches Some(c) && c.data.units@ == prior.units@ + units@
                    && c.data.unit_ratio@ == if prior.unit_ratio@ == 0 { pool_unit_ratio@ } else { prior.unit_ratio@ }
            }),
            final(self).loan_positions == old(self).loan_positions,
            final(self).cdp_type == old(self).cdp_type,
    {
        let ghost before = collateral_entries(self.collateral_positions);
        let ghost key = pool_state.pool_res_address;
        let i = self.get_collateral_position(pool_state)?;
        let ghost mid = collateral_entries(self.collateral_positions);
        proof {
            if !has_key(before, key) {
                assert forall|a: int, b: int| 0 <= a < mid.len() && 0 <= b < mid.len() && a != b implies mid[a].0
                    != mid[b].0 by {
                    if a < before.len() && b < before.len() {
                        assert(mid[a] == before[a] && mid[b] == before[b]);
                    } else if a < before.len() {
                        assert(mid[a] == before[a]);
                    } else if b < before.len() {
                        assert(mid[b] == before[b]);
                    }
                }
            }
            crate::maps::lemma_lookup_at(mid, i as int);
            if has_key(before, key) {
                assert(mid == before);
                crate::maps::lemma_lookup_at(before, i as int);
            } else {
                assert(i == before.len());
                assert(mid[i as int] == mid.last());
            }
            crate::decimal::lemma_pdec_in_range(units);
            PreciseDecimal::lemma_zero_spec();
        }
        let position = collaterals_get_index(&self.collateral_positions, i);
        let mut data = position.data;
        data.load_onledger_data(units, LoadDataType::Own)?;
        if data.unit_ratio.is_zero() {
            data.unit_ratio = pool_unit_ratio;
        }
        collaterals_set_data(&mut self.collateral_positions, i, data);
        proof {
            let after = collateral_entries(self.collateral_positions);
            assert forall|a: int, b: int| 0 <= a < after.len() && 0 <= b < after.len() && a != b implies after[a].0
                != after[b].0 by {
                assert(after[a].0 == mid[a].0 && after[b].0 == mid[b].0);
            }
            crate::maps::lemma_lookup_at(after, i as int);
        }
        Ok(())
    }
}

impl CDPHealthChecker {
    /// Load `units` of loan taken from the pool of `pool_state` into its position
    /// (creating it when missing); the position takes the pool's loan unit ratio when it
    /// has none yet.
    ///
    /// *Params*
    /// - `pool_state`: the state of the loan's pool
    /// - `units`: the loan units
    ///
    /// *Error*
    /// - If the position needs the pool's loan unit ratio and that is above 1
    pub fn load_loan_position(&mut self, pool_state: &LendingPoolState, units: PreciseDecimal) -> (r: Result<
        (),
        String,
    >)
        requires
            keys_unique(loan_entries(old(self).loan_positions)),
            unit_ratio_computable(pool_state.total_loan_unit@, pool_state.total_loan@),
            match lookup(loan_entries(old(self).loan_positions), pool_state.pool_res_address) {
                Some(l) => in_pdec_range(l.data.units@ + units@),
                None => true,
            },
        ensures
            keys_unique(loan_entries(final(self).loan_positions)),
            ({
                let before = loan_entries(old(self).loan_positions);
                let after = loan_entries(final(self).loan_positions);
                let key = pool_state.pool_res_address;
                let prior = match lookup(before, key) {
                    Some(l) => l.data,
                    None => zero_position_spec(),
                };
                let needs_ratio = prior.unit_ratio@ == 0;
                &&& (r is Ok <==> !needs_ratio || pool_state.loan_unit_ratio() <= crate::decimal::pdec_scale())
                &&& r is Ok ==> {
                    &&& after.len() == if has_key(before, key) { before.len() } else { before.len() + 1 }
                    &&& lookup(after, key) matches Some(l) && l.data.units@ == prior.units@ + units@
                        && l.data.unit_ratio@ == if needs_ratio { pool_state.loan_unit_ratio() } else { prior.unit_ratio@ }
                }
            }),
            final(self).collateral_positions == old(self).collateral_positions,
            final(self).cdp_type == old(self).cdp_type,
    {
        let ghost before = loan_entries(self.loan_positions);
        let ghost key = pool_state.pool_res_address;
        let i = self._get_loan_position(pool_state)?;
        let ghost mid = loan_entries(self.loan_positions);
        proof {
            if !has_key(before, key) {
                assert forall|a: int, b: int| 0 <= a < mid.len() && 0 <= b < mid.len() && a != b implies mid[a].0
                    != mid[b].0 by {
                    if a < before.len() && b < before.len() {
                        assert(mid[a] == before[a] && mid[b] == before[b]);
                    } else if a < before.len() {
                        assert(mid[a] == before[a]);
                    } else if b < before.len() {
                        assert(mid[b] == before[b]);
                    }
                }
                assert(i == before.len());
                assert(mid[i as int] == mid.last());
            } else {
                assert(mid == before);
                crate::maps::lemma_lookup_at(before, i as int);
            }
            crate::maps::lemma_lookup_at(mid, i as int);
            crate::decimal::lemma_pdec_in_range(units);
            PreciseDecimal::lemma_zero_spec();
        }
        let mut position = loans_get_index(&self.loan_positions, i);
        position.load_onledger_data(units, LoadDataType::Own, pool_state)?;
        loans_set(&mut self.loan_positions, i, position);
        proof {
            let after = loan_entries(self.loan_positions);
            assert forall|a: int, b: int| 0 <= a < after.len() && 0 <= b < after.len() && a != b implies after[a].0
                != after[b].0 by {
                assert(after[a].0 == mid[a].0 && after[b].0 == mid[b].0);
            }
            crate::maps::lemma_lookup_at(after, i as int);
        }
        Ok(())
    }
}

/// For the same positions, exactly one of the health check and the liquidation check
/// passes: a position can be liquidated exactly when it is not healthy.
pub proof fn lemma_liquidable_iff_unhealthy(c: CDPHealthChecker)
    ensures
        (c.ratio_after_refresh() <= dec_scale()) != (c.ratio_after_refresh() > dec_scale()),
{
}

/// A position without loans is always healthy, so it can never be liquidated.
pub proof fn lemma_no_loans_is_healthy(c: CDPHealthChecker)
    requires
        loan_entries(c.loan_positions).len() == 0,
    ensures
        c.ratio_after_refresh() == 0,
        c.ratio_after_refresh() <= dec_scale(),
{
    let cr = refreshed_collaterals(collateral_entries(c.collateral_positions));
    let lr = refreshed_loans(loan_entries(c.loan_positions), cr);
    assert(lr.len() == 0);
    assert(loan_totals(lr) == (0int, 0int, 0int));
}

} // verus!
