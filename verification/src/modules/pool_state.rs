//! The state of one lending pool: loan and deposit accounting, unit ratios,
//! limits, interest accrual and price freshness.
//!
//! The pool's liquidity lives in a separate pool component; what this state
//! reads of it (the available and the lent-out amounts) is passed in, and what
//! it asks of it (liquidity to add, units to mint) is handed back.
use crate::address::ResourceAddress;
use crate::decimal::{
    dec_div, dec_mul, dec_scale, in_dec_range, in_pdec_range, pdec_div, pdec_mul, pdec_scale,
    precise_decimal_text, round_half_even, widen, Decimal, PreciseDecimal,
};
use crate::modules::interest_strategy::{interest_rate, interest_rate_computable, InterestStrategy};
use crate::modules::liquidation_threshold::LiquidationThreshold;
use crate::modules::market_config::check_outcome;
use crate::modules::operation_status::{OperatingService, OperatingStatus};
use crate::modules::pool_config::{exceeds, CheckPoolConfigLimitInput, PoolConfig};
use crate::modules::utils::{valid_rate, PriceInfo, SECOND_PER_MINUTE};
use vstd::prelude::*;

verus! {

/// The pool state
#[derive(Debug)]
pub struct LendingPoolState {
    /// The pool resource address
    pub pool_res_address: ResourceAddress,
    /// The asset price
    pub price: Decimal,
    /// The timestamp when the price update happened
    pub price_updated_at: i64,
    /// The interest rate
    pub interest_rate: Decimal,
    /// The timestamp when the interest was updated
    pub interest_updated_at: i64,
    /// The total loan amount
    pub total_loan: PreciseDecimal,
    /// The total deposit amount
    pub total_deposit: PreciseDecimal,
    /// The total loan unit
    pub total_loan_unit: PreciseDecimal,
    /// The total deposit unit
    pub total_deposit_unit: PreciseDecimal,
    /// The pool interest strategy
    pub interest_strategy: InterestStrategy,
    /// The pool liquidation threshold
    pub liquidation_threshold: LiquidationThreshold,
    /// The pool config
    pub pool_config: PoolConfig,
    /// The operating status
    pub operating_status: OperatingStatus,
    /// The pool utilization
    pub pool_utilization: Decimal,
    /// The total reserve amount from pool operation fees
    pub total_reserved_amount: Decimal,
}

/// Share of the lent-out amount in the pool's whole liquidity, zero for an empty pool.
pub open spec fn utilization(available: int, borrowed: int) -> int {
    if available + borrowed == 0 {
        0
    } else {
        dec_div(borrowed, available + borrowed)
    }
}

/// Whether computing the utilization stays within `Decimal`.
pub open spec fn utilization_computable(available: int, borrowed: int) -> bool {
    &&& in_dec_range(available + borrowed)
    &&& available + borrowed != 0 ==> in_dec_range(dec_div(borrowed, available + borrowed))
}

/// Share of the lent-out amount in the pool's liquidity, zero for an empty pool.
///
/// *Params*
/// - `available_amount`: liquidity held by the pool component
/// - `borrowed_amount`: liquidity lent out of it
pub fn pool_utilization(available_amount: Decimal, borrowed_amount: Decimal) -> (r: Decimal)
    requires
        utilization_computable(available_amount@, borrowed_amount@),
    ensures
        r@ == utilization(available_amount@, borrowed_amount@),
{
    let pool_total_liquidity = available_amount.plus(&borrowed_amount);
    if pool_total_liquidity.is_zero() {
        Decimal::zero()
    } else {
        borrowed_amount.over(&pool_total_liquidity)
    }
}

/// The error for a loan unit ratio `ratio` above 1, with the loan total `total`.
pub open spec fn loan_ratio_text(ratio: int, total: int) -> Seq<char> {
    "Loan unit ratio cannot be greater than 1, was "@ + precise_decimal_text(ratio) + " (total_loan is "@
        + precise_decimal_text(total) + ")"@
}

/// The error for a deposit unit ratio `ratio` above 1, with the deposit total `total`.
pub open spec fn deposit_ratio_text(ratio: int, total: int) -> Seq<char> {
    "Deposit unit ratio cannot be greater than 1, was "@ + precise_decimal_text(ratio) + " (total_deposit is "@
        + precise_decimal_text(total) + ")"@
}

/// Formats the error for a loan unit ratio above 1.
fn loan_ratio_message(ratio: &PreciseDecimal, total: &PreciseDecimal) -> (r: String)
    ensures
        r@ == loan_ratio_text(ratio@, total@),
{
    let mut message = "Loan unit ratio cannot be greater than 1, was ".to_owned();
    let ratio_text = ratio.to_text();
    let total_text = total.to_text();
    message.append(ratio_text.as_str());
    message.append(" (total_loan is ");
    message.append(total_text.as_str());
    message.append(")");
    message
}

/// Formats the error for a deposit unit ratio above 1.
fn deposit_ratio_message(ratio: &PreciseDecimal, total: &PreciseDecimal) -> (r: String)
    ensures
        r@ == deposit_ratio_text(ratio@, total@),
{
    let mut message = "Deposit unit ratio cannot be greater than 1, was ".to_owned();
    let ratio_text = ratio.to_text();
    let total_text = total.to_text();
    message.append(ratio_text.as_str());
    message.append(" (total_deposit is ");
    message.append(total_text.as_str());
    message.append(")");
    message
}

/// Units per asset: `units / total`, or 1 while the total is zero.
pub open spec fn unit_ratio(units: int, total: int) -> int {
    if total != 0 {
        pdec_div(units, total)
    } else {
        pdec_scale()
    }
}

/// Whether computing the unit ratio stays within `PreciseDecimal`.
pub open spec fn unit_ratio_computable(units: int, total: int) -> bool {
    total != 0 ==> in_pdec_range(pdec_div(units, total))
}

impl LendingPoolState {
    /// Loan units per loaned asset.
    pub open spec fn loan_unit_ratio(self) -> int {
        unit_ratio(self.total_loan_unit@, self.total_loan@)
    }

    /// Deposit units per deposited asset.
    pub open spec fn deposit_unit_ratio(self) -> int {
        unit_ratio(self.total_deposit_unit@, self.total_deposit@)
    }

    /// `b` differs from `a` at most in the four totals.
    pub open spec fn same_but_totals(a: LendingPoolState, b: LendingPoolState) -> bool {
        &&& b.pool_res_address == a.pool_res_address
        &&& b.price == a.price
        &&& b.price_updated_at == a.price_updated_at
        &&& b.interest_rate == a.interest_rate
        &&& b.interest_updated_at == a.interest_updated_at
        &&& b.interest_strategy == a.interest_strategy
        &&& b.liquidation_threshold == a.liquidation_threshold
        &&& b.pool_config == a.pool_config
        &&& b.operating_status == a.operating_status
        &&& b.pool_utilization == a.pool_utilization
        &&& b.total_reserved_amount == a.total_reserved_amount
    }

    /// Whether moving the loan totals by `amount` stays within `PreciseDecimal`.
    pub open spec fn loan_unit_update_computable(self, amount: int) -> bool {
        &&& unit_ratio_computable(self.total_loan_unit@, self.total_loan@)
        &&& self.loan_unit_ratio() <= pdec_scale() ==> {
            &&& in_pdec_range(pdec_mul(widen(amount), self.loan_unit_ratio()))
            &&& in_pdec_range(self.total_loan@ + widen(amount))
            &&& in_pdec_range(self.total_loan_unit@ + pdec_mul(widen(amount), self.loan_unit_ratio()))
        }
    }

    /// Whether moving the deposit totals by `amount` stays within `PreciseDecimal`.
    pub open spec fn deposit_unit_update_computable(self, amount: int) -> bool {
        &&& unit_ratio_computable(self.total_deposit_unit@, self.total_deposit@)
        &&& self.deposit_unit_ratio() <= pdec_scale() ==> {
            &&& in_pdec_range(pdec_mul(widen(amount), self.deposit_unit_ratio()))
            &&& in_pdec_range(self.total_deposit@ + widen(amount))
            &&& in_pdec_range(
                self.total_deposit_unit@ + pdec_mul(widen(amount), self.deposit_unit_ratio()),
            )
        }
    }

    /// Perform a check on the operating status of the pool
    ///
    /// *Params*
    /// - `value`: The wanted operating status
    ///
    /// *Error*
    /// - If the operating status is not allowed at this time
    pub fn check_operating_status(&self, value: OperatingService) -> (r: Result<(), String>)
        ensures
            r is Ok <==> self.operating_status.value_of(value).is_enabled(),
            r matches Err(e) ==> e@ == "Operation not allowed"@,
    {
        if !self.operating_status.check(value) {
            return Err("Operation not allowed".to_owned());
        }
        Ok(())
    }

    /// Getter of the current loan unit ratio
    ///
    /// *Error*
    /// - If the ratio is above 1, which marks an unhealthy pool
    pub fn get_loan_unit_ratio(&self) -> (r: Result<PreciseDecimal, String>)
        requires
            unit_ratio_computable(self.total_loan_unit@, self.total_loan@),
        ensures
            r is Ok <==> self.loan_unit_ratio() <= pdec_scale(),
            r matches Ok(v) ==> v@ == self.loan_unit_ratio(),
            r matches Err(e) ==> e@ == loan_ratio_text(self.loan_unit_ratio(), self.total_loan@),
    {
        let ratio = if !self.total_loan.is_zero() {
            self.total_loan_unit.over(&self.total_loan)
        } else {
            PreciseDecimal::one()
        };
        if PreciseDecimal::one().less_than(&ratio) {
            return Err(loan_ratio_message(&ratio, &self.total_loan));
        }
        Ok(ratio)
    }

    /// Getter of the current deposit unit ratio
    ///
    /// *Error*
    /// - If the ratio is above 1, which marks an unhealthy pool
    pub fn get_deposit_unit_ratio(&self) -> (r: Result<PreciseDecimal, String>)
        requires
            unit_ratio_computable(self.total_deposit_unit@, self.total_deposit@),
        ensures
            r is Ok <==> self.deposit_unit_ratio() <= pdec_scale(),
            r matches Ok(v) ==> v@ == self.deposit_unit_ratio(),
            r matches Err(e) ==> e@ == deposit_ratio_text(self.deposit_unit_ratio(), self.total_deposit@),
    {
        let ratio = if !self.total_deposit.is_zero() {
            self.total_deposit_unit.over(&self.total_deposit)
        } else {
            PreciseDecimal::one()
        };
        if PreciseDecimal::one().less_than(&ratio) {
            return Err(deposit_ratio_message(&ratio, &self.total_deposit));
        }
        Ok(ratio)
    }

    /// Move the loan totals by `amount` of asset and the matching units.
    ///
    /// *Output*
    /// - The loan units matching `amount` (negative when `amount` is)
    ///
    /// *Error*
    /// - If the loan unit ratio is above 1 (nothing changes)
    /// - If a total turns negative (the totals stay moved)
    pub fn _update_loan_unit(&mut self, amount: Decimal) -> (r: Result<PreciseDecimal, String>)
        requires
            old(self).loan_unit_update_computable(amount@),
        ensures
            LendingPoolState::same_but_totals(*old(self), *final(self)),
            final(self).total_deposit == old(self).total_deposit,
            final(self).total_deposit_unit == old(self).total_deposit_unit,
            old(self).loan_unit_ratio() > pdec_scale() ==> (r matches Err(e) && e@ == loan_ratio_text(
                old(self).loan_unit_ratio(),
                old(self).total_loan@,
            )) && final(self).total_loan == old(self).total_loan && final(self).total_loan_unit
                == old(self).total_loan_unit,
            old(self).loan_unit_ratio() <= pdec_scale() ==> {
                let units = pdec_mul(widen(amount@), old(self).loan_unit_ratio());
                &&& final(self).total_loan@ == old(self).total_loan@ + widen(amount@)
                &&& final(self).total_loan_unit@ == old(self).total_loan_unit@ + units
                &&& (r is Ok <==> final(self).total_loan_unit@ >= 0 && final(self).total_loan@ >= 0)
                &&& (r matches Ok(u) ==> u@ == units)
                &&& (final(self).total_loan_unit@ < 0 ==> (r matches Err(e) && e@
                    == "Total loan unit cannot be negative"@))
                &&& (final(self).total_loan_unit@ >= 0 && final(self).total_loan@ < 0 ==> (r matches Err(e)
                    && e@ == "Total loan cannot be negative"@))
            },
    {
        let unit_ratio = self.get_loan_unit_ratio()?;
        let units = amount.times_precise(&unit_ratio);
        self.total_loan = self.total_loan.plus(&amount.to_precise());
        self.total_loan_unit = self.total_loan_unit.plus(&units);
        let zero = PreciseDecimal::zero();
        if self.total_loan_unit.less_than(&zero) {
            return Err("Total loan unit cannot be negative".to_owned());
        }
        if self.total_loan.less_than(&zero) {
            return Err("Total loan cannot be negative".to_owned());
        }
        Ok(units)
    }

    /// Move the deposit totals by `amount` of asset and the matching units,
    /// flooring both totals at zero.
    ///
    /// *Output*
    /// - The deposit units matching `amount` (negative when `amount` is)
    ///
    /// *Error*
    /// - If the deposit unit ratio is above 1 (nothing changes)
    pub fn _update_deposit_unit(&mut self, amount: Decimal) -> (r: Result<PreciseDecimal, String>)
        requires
            old(self).deposit_unit_update_computable(amount@),
        ensures
            LendingPoolState::same_but_totals(*old(self), *final(self)),
            final(self).total_loan == old(self).total_loan,
            final(self).total_loan_unit == old(self).total_loan_unit,
            old(self).deposit_unit_ratio() > pdec_scale() ==> (r matches Err(e) && e@ == deposit_ratio_text(
                old(self).deposit_unit_ratio(),
                old(self).total_deposit@,
            )) && final(self).total_deposit
                == old(self).total_deposit && final(self).total_deposit_unit
                == old(self).total_deposit_unit,
            old(self).deposit_unit_ratio() <= pdec_scale() ==> {
                let units = pdec_mul(widen(amount@), old(self).deposit_unit_ratio());
                let deposit = old(self).total_deposit@ + widen(amount@);
                let deposit_units = old(self).total_deposit_unit@ + units;
                &&& final(self).total_deposit@ == if deposit < 0 { 0 } else { deposit }
                &&& final(self).total_deposit_unit@ == if deposit_units < 0 { 0 } else { deposit_units }
                &&& r matches Ok(u) && u@ == units
            },
    {
        let unit_ratio = self.get_deposit_unit_ratio()?;
        let units = amount.times_precise(&unit_ratio);
        self.total_deposit = self.total_deposit.plus(&amount.to_precise());
        self.total_deposit_unit = self.total_deposit_unit.plus(&units);
        let zero = PreciseDecimal::zero();
        if self.total_deposit_unit.less_than(&zero) {
            self.total_deposit_unit = zero;
        }
        if self.total_deposit.less_than(&zero) {
            self.total_deposit = zero;
        }
        Ok(units)
    }
}


/// Seconds in the year that interest accrues over.
pub open spec fn one_year_seconds() -> int {
    31_556_952
}

/// Interest at the precise rate `rate` on `1 + total` over `period` seconds:
/// `rate * (1 + total) * period / one_year`, each step truncated as `PreciseDecimal` does.
pub open spec fn accrual(rate: int, total: int, period: int) -> int {
    pdec_div(
        pdec_mul(pdec_mul(rate, pdec_scale() + total), period * pdec_scale()),
        one_year_seconds() * pdec_scale(),
    )
}

/// Whether computing the accrual stays within `PreciseDecimal`.
pub open spec fn accrual_computable(rate: int, total: int, period: int) -> bool {
    &&& in_pdec_range(pdec_scale() + total)
    &&& in_pdec_range(pdec_mul(rate, pdec_scale() + total))
    &&& in_pdec_range(pdec_mul(pdec_mul(rate, pdec_scale() + total), period * pdec_scale()))
    &&& in_pdec_range(accrual(rate, total, period))
}

/// The part of an accrual that raises the pool's liquidity: the growth over the
/// current total, or the whole accrual when it does not exceed the total.
pub open spec fn growth(accrued: int, total: int) -> int {
    if accrued - total < 0 {
        accrued
    } else {
        accrued - total
    }
}

/// What the interest step decides.
pub struct InterestAccrual {
    /// Utilization used to weigh the deposit rate
    pub utilization_before: int,
    /// Deposit rate: utilization times the loan rate, less the protocol fee
    pub active_rate: int,
    /// Interest owed on the loans
    pub new_loan: int,
    /// Interest earned on the deposits
    pub new_deposit: int,
    /// Loan total afterwards
    pub total_loan: int,
    /// Deposit total afterwards
    pub total_deposit: int,
    /// Growth of the pool's liquidity, as a precise amount
    pub accrued: int,
    /// Liquidity added to the pool component, zero when the growth is not positive
    pub liquidity_increase: int,
    /// Utilization after the liquidity increase
    pub utilization_after: int,
}

impl LendingPoolState {
    /// The interest step over `period` seconds, given the pool's available and lent-out amounts.
    pub open spec fn interest_accrual(self, period: int, available: int, borrowed: int) -> InterestAccrual {
        let util0 = if self.pool_utilization@ == 0 {
            utilization(available, borrowed)
        } else {
            self.pool_utilization@
        };
        let active = pdec_mul(
            widen(dec_mul(util0, self.interest_rate@)),
            pdec_scale() - widen(self.pool_config.protocol_interest_fee_rate@),
        );
        let new_loan = accrual(widen(self.interest_rate@), self.total_loan@, period);
        let new_deposit = accrual(active, self.total_deposit@, period);
        let overflowing = self.total_loan@ + new_loan > self.total_deposit@;
        let deposit_after = self.total_deposit@ + new_deposit;
        let loan_after = if overflowing {
            deposit_after
        } else {
            self.total_loan@ + new_loan
        };
        let accrued = if overflowing {
            growth(deposit_after - self.total_loan@, self.total_loan@)
        } else {
            growth(new_loan, self.total_loan@)
        };
        let increase = if accrued > 0 {
            round_half_even(accrued)
        } else {
            0
        };
        InterestAccrual {
            utilization_before: util0,
            active_rate: active,
            new_loan,
            new_deposit,
            total_loan: loan_after,
            total_deposit: deposit_after,
            accrued,
            liquidity_increase: increase,
            utilization_after: utilization(available, borrowed + increase),
        }
    }

    /// Whether every step of the interest update stays within range and divides by non-zero.
    pub open spec fn interest_computable(self, period: int, available: int, borrowed: int) -> bool {
        let a = self.interest_accrual(period, available, borrowed);
        &&& self.pool_utilization@ == 0 ==> utilization_computable(available, borrowed)
        &&& in_dec_range(dec_mul(a.utilization_before, self.interest_rate@))
        &&& in_pdec_range(a.active_rate)
        &&& accrual_computable(widen(self.interest_rate@), self.total_loan@, period)
        &&& accrual_computable(a.active_rate, self.total_deposit@, period)
        &&& in_pdec_range(a.new_loan - a.new_deposit)
        &&& in_dec_range(round_half_even(a.new_loan - a.new_deposit))
        &&& in_dec_range(self.total_reserved_amount@ + round_half_even(a.new_loan - a.new_deposit))
        &&& in_pdec_range(self.total_loan@ + a.new_loan)
        &&& in_pdec_range(a.total_deposit)
        &&& in_pdec_range(a.total_deposit - self.total_loan@)
        &&& in_pdec_range(a.total_deposit - self.total_loan@ - self.total_loan@)
        &&& in_pdec_range(a.new_loan - self.total_loan@)
        &&& (a.accrued > 0 ==> in_dec_range(round_half_even(a.accrued)))
        &&& in_dec_range(borrowed + a.liquidity_increase)
        &&& utilization_computable(available, borrowed + a.liquidity_increase)
        &&& valid_rate(a.utilization_after) && self.pool_config.optimal_usage@ <= dec_scale()
            ==> interest_rate_computable(
            self.interest_strategy.break_points(),
            a.utilization_after,
            self.pool_config.optimal_usage@,
        )
    }
}

/// Truncating toward zero a non-negative numerator by a positive divisor gives a
/// non-negative quotient.
proof fn lemma_quot_of_nonneg(a: int, b: int)
    requires
        0 <= a,
        0 < b,
    ensures
        0 <= crate::decimal::quot_toward_zero(a, b),
{
    vstd::arithmetic::div_mod::lemma_div_pos_is_pos(a, b);
}

/// Products of non-negative numbers are non-negative.
proof fn lemma_product_nonneg(a: int, b: int)
    requires
        0 <= a,
        0 <= b,
    ensures
        0 <= a * b,
{
    assert(0 <= a * b) by (nonlinear_arith)
        requires
            0 <= a,
            0 <= b,
    ;
}

/// Accrual at a non-negative rate on a non-negative total over a non-negative period
/// is non-negative.
proof fn lemma_accrual_nonneg(rate: int, total: int, period: int)
    requires
        0 <= rate,
        0 <= total,
        0 <= period,
    ensures
        0 <= accrual(rate, total, period),
{
    lemma_product_nonneg(rate, pdec_scale() + total);
    lemma_quot_of_nonneg(rate * (pdec_scale() + total), pdec_scale());
    let m = pdec_mul(rate, pdec_scale() + total);
    lemma_product_nonneg(period, pdec_scale());
    lemma_product_nonneg(m, period * pdec_scale());
    lemma_quot_of_nonneg(m * (period * pdec_scale()), pdec_scale());
    let n = pdec_mul(m, period * pdec_scale());
    lemma_product_nonneg(n, pdec_scale());
    lemma_product_nonneg(one_year_seconds(), pdec_scale());
    lemma_quot_of_nonneg(n * pdec_scale(), one_year_seconds() * pdec_scale());
}

/// Interest accrues in proportion to the time elapsed: at a non-negative rate on a
/// non-negative total, nothing accrues over no time, the accrual is the yearly interest
/// `rate * (1 + total)` times the period over one year (rounded down), and it never
/// falls as the period grows, so a period shorter than a year accrues at most a year's
/// interest.
pub proof fn lemma_accrual_proportional_to_period(rate: int, total: int, p1: int, p2: int)
    requires
        0 <= rate,
        0 <= total,
        0 <= p1 <= p2,
    ensures
        accrual(rate, total, 0) == 0,
        accrual(rate, total, p1) == (pdec_mul(rate, pdec_scale() + total) * p1) / one_year_seconds(),
        accrual(rate, total, p1) <= accrual(rate, total, p2),
        p1 <= one_year_seconds() ==> accrual(rate, total, p1) <= accrual(rate, total, one_year_seconds()),
        accrual(rate, total, one_year_seconds()) == pdec_mul(rate, pdec_scale() + total),
{
    lemma_accrual_exact(rate, total, 0);
    lemma_accrual_exact(rate, total, p1);
    lemma_accrual_exact(rate, total, p2);
    lemma_accrual_exact(rate, total, one_year_seconds());
    let m = pdec_mul(rate, pdec_scale() + total);
    let y = one_year_seconds();
    assert(m * 0 == 0);
    assert((m * p1) / y <= (m * p2) / y) by {
        assert(m * p1 <= m * p2) by (nonlinear_arith)
            requires
                0 <= m,
                p1 <= p2,
        ;
        vstd::arithmetic::div_mod::lemma_div_is_ordered(m * p1, m * p2, y);
    }
    if p1 <= y {
        assert(m * p1 <= m * y) by (nonlinear_arith)
            requires
                0 <= m,
                p1 <= y,
        ;
        vstd::arithmetic::div_mod::lemma_div_is_ordered(m * p1, m * y, y);
    }
    assert((m * y) / y == m) by (nonlinear_arith)
        requires
            y > 0,
    ;
}

/// The accrual as plain integer arithmetic: the yearly interest times the period, over a year.
proof fn lemma_accrual_exact(rate: int, total: int, period: int)
    requires
        0 <= rate,
        0 <= total,
        0 <= period,
    ensures
        0 <= pdec_mul(rate, pdec_scale() + total),
        accrual(rate, total, period) == (pdec_mul(rate, pdec_scale() + total) * period) / one_year_seconds(),
{
    let s = pdec_scale();
    let y = one_year_seconds();
    lemma_product_nonneg(rate, s + total);
    lemma_quot_of_nonneg(rate * (s + total), s);
    vstd::arithmetic::div_mod::lemma_div_pos_is_pos(rate * (s + total), s);
    let m = pdec_mul(rate, s + total);
    assert(0 <= m);
    let mp = m * (period * s);
    lemma_product_nonneg(period, s);
    lemma_product_nonneg(m, period * s);
    assert(mp / s == m * period) by (nonlinear_arith)
        requires
            mp == m * (period * s),
            s > 0,
    ;
    assert(pdec_mul(m, period * s) == m * period) by {
        vstd::arithmetic::div_mod::lemma_div_pos_is_pos(mp, s);
    }
    let n = m * period;
    lemma_product_nonneg(m, period);
    assert((n * s) / (y * s) == n / y) by (nonlinear_arith)
        requires
            n >= 0,
            s > 0,
            y > 0,
    ;
    lemma_product_nonneg(n, s);
    lemma_product_nonneg(y, s);
    vstd::arithmetic::div_mod::lemma_div_pos_is_pos(n * s, y * s);
}

/// A pool's interest step is proportional to the period: over no time neither loans nor
/// deposits grow, and over a longer period they grow at least as much.
pub proof fn lemma_interest_grows_with_period(
    s: LendingPoolState,
    p1: int,
    p2: int,
    available: int,
    borrowed: int,
)
    requires
        0 <= s.interest_rate@,
        s.pool_config.protocol_interest_fee_rate@ <= dec_scale(),
        0 <= s.pool_utilization@,
        0 <= s.total_loan@,
        0 <= s.total_deposit@,
        0 <= available,
        0 <= borrowed,
        0 <= p1 <= p2,
    ensures
        s.interest_accrual(0, available, borrowed).new_loan == 0,
        s.interest_accrual(0, available, borrowed).new_deposit == 0,
        s.interest_accrual(p1, available, borrowed).new_loan <= s.interest_accrual(p2, available, borrowed).new_loan,
        s.interest_accrual(p1, available, borrowed).new_deposit <= s.interest_accrual(
            p2,
            available,
            borrowed,
        ).new_deposit,
{
    let a = s.interest_accrual(p1, available, borrowed);
    if s.pool_utilization@ == 0 && available + borrowed != 0 {
        lemma_product_nonneg(borrowed, dec_scale());
        lemma_quot_of_nonneg(borrowed * dec_scale(), available + borrowed);
    }
    assert(0 <= a.utilization_before);
    lemma_product_nonneg(a.utilization_before, s.interest_rate@);
    lemma_quot_of_nonneg(a.utilization_before * s.interest_rate@, dec_scale());
    let weighted = widen(dec_mul(a.utilization_before, s.interest_rate@));
    lemma_product_nonneg(dec_mul(a.utilization_before, s.interest_rate@), dec_scale());
    let fee = s.pool_config.protocol_interest_fee_rate@;
    assert(widen(fee) <= pdec_scale()) by (nonlinear_arith)
        requires
            fee <= dec_scale(),
            widen(fee) == fee * dec_scale(),
            pdec_scale() == dec_scale() * dec_scale(),
            dec_scale() > 0,
    ;
    lemma_product_nonneg(weighted, pdec_scale() - widen(fee));
    lemma_quot_of_nonneg(weighted * (pdec_scale() - widen(fee)), pdec_scale());
    assert(0 <= a.active_rate);
    lemma_product_nonneg(s.interest_rate@, dec_scale());
    lemma_accrual_proportional_to_period(widen(s.interest_rate@), s.total_loan@, p1, p2);
    lemma_accrual_proportional_to_period(a.active_rate, s.total_deposit@, p1, p2);
}

/// Adding an amount with the units it is worth at the current ratio never raises the
/// ratio: contributions and borrows keep a pool's unit ratios at or below what they were
/// (so at or below 1 once there), and so does interest, which raises the total alone.
pub proof fn lemma_unit_ratio_never_rises(units: int, total: int, amount: int, interest: int)
    requires
        0 <= units,
        0 < total,
        0 <= amount,
        0 <= interest,
    ensures
        unit_ratio(units + pdec_mul(widen(amount), unit_ratio(units, total)), total + widen(amount))
            <= unit_ratio(units, total),
        unit_ratio(units, total + interest) <= unit_ratio(units, total),
{
    let p = pdec_scale();
    let w = widen(amount);
    assert(0 <= w) by (nonlinear_arith)
        requires
            0 <= amount,
            w == amount * dec_scale(),
    ;
    lemma_product_nonneg(units, p);
    lemma_quot_of_nonneg(units * p, total);
    let r = unit_ratio(units, total);
    assert(r == (units * p) / total);
    lemma_product_nonneg(w, r);
    lemma_quot_of_nonneg(w * r, p);
    let u = pdec_mul(w, r);
    assert(u == (w * r) / p);
    // r is the floor of units * p / total, so units * p < (r + 1) * total
    assert(units * p < (r + 1) * total) by (nonlinear_arith)
        requires
            r == (units * p) / total,
            total > 0,
    ;
    assert(u * p <= w * r) by (nonlinear_arith)
        requires
            u == (w * r) / p,
            p > 0,
            0 <= w * r,
    ;
    let n = (units + u) * p;
    assert(n < (r + 1) * (total + w)) by (nonlinear_arith)
        requires
            n == (units + u) * p,
            units * p < (r + 1) * total,
            u * p <= w * r,
            0 <= w,
            0 <= r,
    ;
    lemma_product_nonneg(units + u, p);
    lemma_quot_of_nonneg(n, total + w);
    assert(n / (total + w) <= r) by (nonlinear_arith)
        requires
            0 <= n < (r + 1) * (total + w),
            total + w > 0,
    ;
    // interest: the same units over a larger total
    lemma_quot_of_nonneg(units * p, total + interest);
    assert((units * p) / (total + interest) <= (units * p) / total) by (nonlinear_arith)
        requires
            0 <= units * p,
            0 < total <= total + interest,
    ;
}

/// When interest accrues at a non-negative rate on non-negative amounts, deposits never
/// shrink and loans never end above deposits: they are capped at them. Loans that were
/// within the deposits do not shrink either.
pub proof fn lemma_interest_caps_loans(
    s: LendingPoolState,
    period: int,
    available: int,
    borrowed: int,
)
    requires
        0 <= s.interest_rate@,
        s.pool_config.protocol_interest_fee_rate@ <= dec_scale(),
        0 <= s.pool_utilization@,
        0 <= s.total_loan@,
        0 <= s.total_deposit@,
        0 <= period,
        0 <= available,
        0 <= borrowed,
    ensures
        s.interest_accrual(period, available, borrowed).total_loan <= s.interest_accrual(
            period,
            available,
            borrowed,
        ).total_deposit,
        s.total_deposit@ <= s.interest_accrual(period, available, borrowed).total_deposit,
        s.total_loan@ <= s.total_deposit@ ==> s.total_loan@ <= s.interest_accrual(
            period,
            available,
            borrowed,
        ).total_loan,
{
    let a = s.interest_accrual(period, available, borrowed);
    if s.pool_utilization@ == 0 && available + borrowed != 0 {
        lemma_product_nonneg(borrowed, dec_scale());
        lemma_quot_of_nonneg(borrowed * dec_scale(), available + borrowed);
    }
    assert(0 <= a.utilization_before);
    lemma_product_nonneg(a.utilization_before, s.interest_rate@);
    lemma_quot_of_nonneg(a.utilization_before * s.interest_rate@, dec_scale());
    let weighted = widen(dec_mul(a.utilization_before, s.interest_rate@));
    lemma_product_nonneg(dec_mul(a.utilization_before, s.interest_rate@), dec_scale());
    let fee = s.pool_config.protocol_interest_fee_rate@;
    assert(widen(fee) <= pdec_scale()) by (nonlinear_arith)
        requires
            fee <= dec_scale(),
            widen(fee) == fee * dec_scale(),
            pdec_scale() == dec_scale() * dec_scale(),
            dec_scale() > 0,
    ;
    lemma_product_nonneg(weighted, pdec_scale() - widen(fee));
    lemma_quot_of_nonneg(weighted * (pdec_scale() - widen(fee)), pdec_scale());
    assert(0 <= a.active_rate);
    lemma_accrual_nonneg(a.active_rate, s.total_deposit@, period);
    lemma_product_nonneg(s.interest_rate@, dec_scale());
    lemma_accrual_nonneg(widen(s.interest_rate@), s.total_loan@, period);
}

/// A bypassed debounce always makes the update due: with the price bypass set the price is
/// refreshed whatever its age, and with the interest bypass set interest accrues whatever
/// time has passed.
pub proof fn lemma_bypass_forces_update(s: LendingPoolState, now: int)
    ensures
        s.price_due(now, true),
        s.interest_due(now, true),
{
}

/// Without a bypass, an update is due exactly once its whole minutes reach its period: a
/// refresh `period` minutes after the last is due, one a minute earlier is not.
pub proof fn lemma_debounce_in_minutes(s: LendingPoolState)
    requires
        s.pool_config.price_update_period > 0,
        s.pool_config.interest_update_period > 0,
    ensures
        s.price_due(s.price_updated_at + 60 * s.pool_config.price_update_period, false),
        !s.price_due(s.price_updated_at + 60 * s.pool_config.price_update_period - 1, false),
        s.interest_due(s.interest_updated_at + 60 * s.pool_config.interest_update_period, false),
        !s.interest_due(s.interest_updated_at + 60 * s.pool_config.interest_update_period - 1, false),
{
    let pp = s.pool_config.price_update_period as int;
    let ip = s.pool_config.interest_update_period as int;
    assert((60 * pp) / 60 == pp) by (nonlinear_arith);
    assert((60 * pp - 1) / 60 == pp - 1) by (nonlinear_arith)
        requires
            pp > 0,
    ;
    assert((60 * ip) / 60 == ip) by (nonlinear_arith);
    assert((60 * ip - 1) / 60 == ip - 1) by (nonlinear_arith)
        requires
            ip > 0,
    ;
}

/// Which updates are due: the price, and the interest with its period in seconds.
#[derive(PartialEq, Eq, Structural, Clone, Copy, Debug)]
pub struct UpdatePlan {
    pub update_price: bool,
    pub interest_period: Option<i64>,
}

/// `a / b` as Rust's integer division does, rounding toward zero.
pub open spec fn int_div_toward_zero(a: int, b: int) -> int {
    crate::decimal::quot_toward_zero(a, b)
}

impl LendingPoolState {
    /// Whether the debounced price update is due at `now`.
    pub open spec fn price_due(self, now: int, bypass: bool) -> bool {
        int_div_toward_zero(now - self.price_updated_at, SECOND_PER_MINUTE as int)
            >= self.pool_config.price_update_period || bypass
    }

    /// Whether the debounced interest update is due at `now`.
    pub open spec fn interest_due(self, now: int, bypass: bool) -> bool {
        int_div_toward_zero(now - self.interest_updated_at, SECOND_PER_MINUTE as int)
            >= self.pool_config.interest_update_period || bypass
    }

    /// Which updates of price and interest are due at `now`. Each is due once the whole
    /// minutes since its last update reach its period (both periods are in minutes), or
    /// when bypassed; the interest then accrues over the seconds elapsed.
    ///
    /// *Params*
    /// - `now`: current time in seconds
    /// - `bypass_debounce`: optionally (bypass price debounce, bypass interest debounce)
    pub fn update_interest_and_price(&self, now: i64, bypass_debounce: Option<(bool, bool)>) -> (r: UpdatePlan)
        requires
            i64::MIN <= now - self.price_updated_at <= i64::MAX,
            i64::MIN <= now - self.interest_updated_at <= i64::MAX,
        ensures
            ({
                let (bp, bi) = match bypass_debounce {
                    Some(b) => b,
                    None => (false, false),
                };
                &&& r.update_price == self.price_due(now as int, bp)
                &&& bp ==> r.update_price
                &&& bi ==> r.interest_period == Some((now - self.interest_updated_at) as i64)
                &&& r.interest_period == if self.interest_due(now as int, bi) {
                    Some((now - self.interest_updated_at) as i64)
                } else {
                    None::<i64>
                }
            }),
    {
        let (bypass_price_debounce, bypass_interest_debounce) = match bypass_debounce {
            Some(b) => b,
            None => (false, false),
        };
        let minutes = (now - self.price_updated_at) / SECOND_PER_MINUTE;
        let update_price = minutes >= self.pool_config.price_update_period || bypass_price_debounce;
        let period_in_seconds = now - self.interest_updated_at;
        let interest_minutes = period_in_seconds / SECOND_PER_MINUTE;
        let interest_period = if interest_minutes >= self.pool_config.interest_update_period
            || bypass_interest_debounce {
            Some(period_in_seconds)
        } else {
            None
        };
        UpdatePlan { update_price, interest_period }
    }

    /// Take a fresh oracle price
    ///
    /// *Params*
    /// - `now`: current time in seconds
    /// - `price_feed_result`: what the oracle answered
    ///
    /// *Error*
    /// - If the answer is as old as the expiration period, in whole minutes (nothing changes)
    pub fn _update_price(&mut self, now: i64, price_feed_result: PriceInfo) -> (r: Result<(), String>)
        requires
            i64::MIN <= now - price_feed_result.timestamp <= i64::MAX,
        ensures
            ({
                let stale = int_div_toward_zero(now - price_feed_result.timestamp, SECOND_PER_MINUTE as int)
                    >= old(self).pool_config.price_expiration_period;
                &&& stale ==> (r matches Err(e) && e@ == "Price info is too old"@ && *final(self) == *old(self))
                &&& !stale ==> (r is Ok && final(self).price_updated_at == now
                    && final(self).price == price_feed_result.price)
            }),
            final(self).pool_res_address == old(self).pool_res_address,
            final(self).interest_rate == old(self).interest_rate,
            final(self).interest_updated_at == old(self).interest_updated_at,
            final(self).total_loan == old(self).total_loan,
            final(self).total_deposit == old(self).total_deposit,
            final(self).total_loan_unit == old(self).total_loan_unit,
            final(self).total_deposit_unit == old(self).total_deposit_unit,
            final(self).interest_strategy == old(self).interest_strategy,
            final(self).liquidation_threshold == old(self).liquidation_threshold,
            final(self).pool_config == old(self).pool_config,
            final(self).operating_status == old(self).operating_status,
            final(self).pool_utilization == old(self).pool_utilization,
            final(self).total_reserved_amount == old(self).total_reserved_amount,
    {
        if (now - price_feed_result.timestamp) / SECOND_PER_MINUTE >= self.pool_config.price_expiration_period {
            return Err("Price info is too old".to_owned());
        }
        self.price_updated_at = now;
        self.price = price_feed_result.price;
        Ok(())
    }
}

impl LendingPoolState {
    /// Accrue interest over `period_in_seconds`: loans grow at the interest rate, deposits
    /// at the rate weighed by utilization and net of the protocol fee, the reserve takes the
    /// difference; loans are capped at the deposits; the rate is then recomputed from the
    /// utilization after the pool's liquidity grows by the accrued interest.
    ///
    /// *Params*
    /// - `now`: current time in seconds
    /// - `period_in_seconds`: time since the last interest update
    /// - `pool_available`, `pool_borrowed`: the pool component's amounts before the update
    ///
    /// *Output*
    /// - The liquidity to add to the pool component, if the interest grew it
    ///
    /// *Error*
    /// - If the interest strategy rejects the new utilization (totals stay updated)
    pub fn _update_interest(
        &mut self,
        now: i64,
        period_in_seconds: i64,
        pool_available: Decimal,
        pool_borrowed: Decimal,
    ) -> (r: Result<Option<Decimal>, String>)
        requires
            old(self).interest_computable(period_in_seconds as int, pool_available@, pool_borrowed@),
        ensures
            ({
                let a = old(self).interest_accrual(period_in_seconds as int, pool_available@, pool_borrowed@);
                let rate_ok = valid_rate(a.utilization_after) && old(self).pool_config.optimal_usage@
                    <= dec_scale();
                let new_rate = interest_rate(
                    old(self).interest_strategy.break_points(),
                    a.utilization_after,
                    old(self).pool_config.optimal_usage@,
                );
                &&& final(self).total_reserved_amount@ == old(self).total_reserved_amount@
                    + round_half_even(a.new_loan - a.new_deposit)
                &&& final(self).total_loan@ == a.total_loan
                &&& final(self).total_deposit@ == a.total_deposit
                &&& final(self).pool_utilization@ == a.utilization_after
                &&& (r is Ok <==> rate_ok)
                &&& (r matches Ok(inc) ==> (a.accrued > 0 ==> (inc matches Some(v) && v@
                    == a.liquidity_increase)) && (a.accrued <= 0 ==> inc is None))
                &&& (rate_ok ==> final(self).interest_rate@ == new_rate)
                &&& (rate_ok && new_rate != old(self).interest_rate@ ==> final(self).interest_updated_at
                    == now)
                &&& (!rate_ok || new_rate == old(self).interest_rate@ ==> final(self).interest_updated_at
                    == old(self).interest_updated_at)
                &&& (!rate_ok ==> final(self).interest_rate == old(self).interest_rate)
            }),
            final(self).pool_res_address == old(self).pool_res_address,
            final(self).price == old(self).price,
            final(self).price_updated_at == old(self).price_updated_at,
            final(self).total_loan_unit == old(self).total_loan_unit,
            final(self).total_deposit_unit == old(self).total_deposit_unit,
            final(self).interest_strategy == old(self).interest_strategy,
            final(self).liquidation_threshold == old(self).liquidation_threshold,
            final(self).pool_config == old(self).pool_config,
            final(self).operating_status == old(self).operating_status,
    {
        let ghost a = old(self).interest_accrual(period_in_seconds as int, pool_available@, pool_borrowed@);
        let one_year_in_seconds = PreciseDecimal::from_int(31_556_952);
        let one = PreciseDecimal::one();
        let period = PreciseDecimal::from_int(period_in_seconds);

        if self.pool_utilization.is_zero() {
            self.pool_utilization = pool_utilization(pool_available, pool_borrowed);
        }

        let weighted_rate = self.pool_utilization.times(&self.interest_rate);
        proof {
            crate::decimal::lemma_widen_in_range(self.pool_config.protocol_interest_fee_rate);
        }
        let net_share = one.minus(&self.pool_config.protocol_interest_fee_rate.to_precise());
        let active_interest_rate = weighted_rate.times_precise(&net_share);

        let loan_base = one.plus(&self.total_loan);
        let new_total_loan_amount = self.interest_rate.times_precise(&loan_base).times(&period).over(
            &one_year_in_seconds,
        );
        let deposit_base = one.plus(&self.total_deposit);
        let new_total_deposit_amount = active_interest_rate.times(&deposit_base).times(&period).over(
            &one_year_in_seconds,
        );
        assert(new_total_loan_amount@ == a.new_loan);
        assert(new_total_deposit_amount@ == a.new_deposit);

        let reserve_delta = new_total_loan_amount.minus(&new_total_deposit_amount).truncated();
        self.total_reserved_amount = self.total_reserved_amount.plus(&reserve_delta);

        let zero = PreciseDecimal::zero();
        let loan_growth = new_total_loan_amount.minus(&self.total_loan);
        let mut accrued_interest_amount = if loan_growth.less_than(&zero) {
            new_total_loan_amount
        } else {
            loan_growth
        };

        let grown_loan = self.total_loan.plus(&new_total_loan_amount);
        if self.total_deposit.less_than(&grown_loan) {
            self.total_deposit = self.total_deposit.plus(&new_total_deposit_amount);
            let capped_loan_amount = self.total_deposit.minus(&self.total_loan);
            let capped_growth = capped_loan_amount.minus(&self.total_loan);
            accrued_interest_amount = if capped_growth.less_than(&zero) {
                capped_loan_amount
            } else {
                capped_growth
            };
            self.total_loan = self.total_deposit;
        } else {
            self.total_loan = grown_loan;
            self.total_deposit = self.total_deposit.plus(&new_total_deposit_amount);
        }
        assert(accrued_interest_amount@ == a.accrued);

        let liquidity_increase = if zero.less_than(&accrued_interest_amount) {
            Some(accrued_interest_amount.truncated())
        } else {
            None
        };
        let borrowed_after = match liquidity_increase {
            Some(v) => pool_borrowed.plus(&v),
            None => pool_borrowed,
        };

        self.pool_utilization = pool_utilization(pool_available, borrowed_after);
        let interest_rate = self.interest_strategy.get_interest_rate(
            self.pool_utilization,
            self.pool_config.optimal_usage,
        )?;
        if !interest_rate.equals(&self.interest_rate) {
            self.interest_updated_at = now;
            self.interest_rate = interest_rate;
        }

        Ok(liquidity_increase)
    }
}

impl LendingPoolState {
    /// The bookkeeping of a contribution of `amount` to the pool: the deposit
    /// limit is checked against the pool's liquidity plus `amount`, then the deposit
    /// totals grow by `amount`. (The pool component mints the pool units.)
    ///
    /// *Params*
    /// - `amount`: the contributed amount
    /// - `pool_available`, `pool_borrowed`: the pool component's amounts
    ///
    /// *Output*
    /// - The deposit units matching the contribution
    ///
    /// *Error*
    /// - If the deposit limit is exceeded, or the deposit unit ratio is above 1 (nothing changes)
    pub fn contribute_proxy(&mut self, amount: Decimal, pool_available: Decimal, pool_borrowed: Decimal) -> (r:
        Result<PreciseDecimal, String>)
        requires
            in_dec_range(pool_available@ + pool_borrowed@),
            in_dec_range(pool_available@ + pool_borrowed@ + amount@),
            !exceeds(pool_available@ + pool_borrowed@ + amount@, old(self).pool_config.deposit_limit)
                ==> old(self).deposit_unit_update_computable(amount@),
        ensures
            exceeds(pool_available@ + pool_borrowed@ + amount@, old(self).pool_config.deposit_limit)
                ==> (r matches Err(e) && e@
                == "Deposit limit reached. Please try again with a smaller amount."@ && *final(self)
                == *old(self)),
            !exceeds(pool_available@ + pool_borrowed@ + amount@, old(self).pool_config.deposit_limit)
                ==> {
                let units = pdec_mul(widen(amount@), old(self).deposit_unit_ratio());
                let deposit = old(self).total_deposit@ + widen(amount@);
                let deposit_units = old(self).total_deposit_unit@ + units;
                &&& LendingPoolState::same_but_totals(*old(self), *final(self))
                &&& final(self).total_loan == old(self).total_loan
                &&& final(self).total_loan_unit == old(self).total_loan_unit
                &&& (old(self).deposit_unit_ratio() > pdec_scale() ==> r is Err && *final(self)
                    == *old(self))
                &&& (old(self).deposit_unit_ratio() <= pdec_scale() ==> {
                    &&& final(self).total_deposit@ == if deposit < 0 { 0 } else { deposit }
                    &&& final(self).total_deposit_unit@ == if deposit_units < 0 { 0 } else { deposit_units }
                    &&& r matches Ok(u) && u@ == units
                })
            },
    {
        let total = pool_available.plus(&pool_borrowed).plus(&amount);
        self.pool_config.check_limit(CheckPoolConfigLimitInput::DepositLimit(total))?;
        self._update_deposit_unit(amount)
    }

    /// The bookkeeping of redeeming `pool_units`: the redeemed assets carry a share of the
    /// reserve (the pool units' share of all deposit units); that share is taken out for the
    /// reserve and the deposit totals shrink by what is left.
    ///
    /// *Params*
    /// - `pool_units`: the pool units redeemed
    /// - `redeemed_amount`: what the pool component paid out for them
    ///
    /// *Output*
    /// - The amount to move from the redeemed assets into the reserve
    pub fn redeem_proxy(&mut self, pool_units: Decimal, redeemed_amount: Decimal) -> (r: Decimal)
        requires
            old(self).total_deposit_unit@ != 0,
            in_pdec_range(pdec_div(widen(pool_units@), old(self).total_deposit_unit@)),
            ({
                let ratio = pdec_div(widen(pool_units@), old(self).total_deposit_unit@);
                let share = pdec_mul(ratio, widen(old(self).total_reserved_amount@));
                &&& in_pdec_range(share)
                &&& in_dec_range(round_half_even(share))
                &&& 0 <= round_half_even(share) <= redeemed_amount@
                &&& in_dec_range(old(self).total_reserved_amount@ - round_half_even(share))
                &&& old(self).deposit_unit_update_computable(-(redeemed_amount@ - round_half_even(share)))
                &&& old(self).deposit_unit_ratio() <= pdec_scale()
            }),
        ensures
            ({
                let ratio = pdec_div(widen(pool_units@), old(self).total_deposit_unit@);
                let share = round_half_even(pdec_mul(ratio, widen(old(self).total_reserved_amount@)));
                let paid = redeemed_amount@ - share;
                let units = pdec_mul(widen(-paid), old(self).deposit_unit_ratio());
                let deposit = old(self).total_deposit@ - widen(paid);
                let deposit_units = old(self).total_deposit_unit@ + units;
                &&& r@ == share
                &&& final(self).total_reserved_amount@ == old(self).total_reserved_amount@ - share
                &&& final(self).total_deposit@ == if deposit < 0 { 0 } else { deposit }
                &&& final(self).total_deposit_unit@ == if deposit_units < 0 { 0 } else { deposit_units }
            }),
            final(self).pool_res_address == old(self).pool_res_address,
            final(self).price == old(self).price,
            final(self).price_updated_at == old(self).price_updated_at,
            final(self).interest_rate == old(self).interest_rate,
            final(self).interest_updated_at == old(self).interest_updated_at,
            final(self).total_loan == old(self).total_loan,
            final(self).total_loan_unit == old(self).total_loan_unit,
            final(self).interest_strategy == old(self).interest_strategy,
            final(self).liquidation_threshold == old(self).liquidation_threshold,
            final(self).pool_config == old(self).pool_config,
            final(self).operating_status == old(self).operating_status,
            final(self).pool_utilization == old(self).pool_utilization,
    {
        let unit_ratio = pool_units.over_precise(&self.total_deposit_unit);
        let reserved_amount_for_position = unit_ratio.times(&self.total_reserved_amount.to_precise()).truncated();
        proof {
            crate::decimal::lemma_dec_in_range(self.total_reserved_amount);
            crate::decimal::lemma_dec_in_range(redeemed_amount);
        }
        self.total_reserved_amount = self.total_reserved_amount.minus(&reserved_amount_for_position);
        let paid = redeemed_amount.minus(&reserved_amount_for_position);
        proof {
            crate::decimal::lemma_dec_in_range(paid);
        }
        let removed = paid.negated();
        let _ = self._update_deposit_unit(removed);
        reserved_amount_for_position
    }

    /// Whether pool units given as collateral go into the collateral vault.
    ///
    /// *Params*
    /// - `pool_units_amount`, `pool_units_resource`: the pool units given
    /// - `collateral_resource`: the resource the collateral vault holds
    ///
    /// *Output*
    /// - `false` for an empty deposit, which is skipped; `true` when the units go in
    ///
    /// *Error*
    /// - If the units are not of the vault's resource
    pub fn add_pool_units_as_collateral(
        &self,
        pool_units_amount: Decimal,
        pool_units_resource: ResourceAddress,
        collateral_resource: ResourceAddress,
    ) -> (r: Result<bool, String>)
        ensures
            pool_units_amount@ == 0 ==> r == Ok::<bool, String>(false),
            pool_units_amount@ != 0 && pool_units_resource != collateral_resource ==> (r matches Err(e)
                && e@ == "Pool unit resource address mismatch"@),
            pool_units_amount@ != 0 && pool_units_resource == collateral_resource ==> r
                == Ok::<bool, String>(true),
    {
        if pool_units_amount.is_zero() {
            return Ok(false);
        }
        if !pool_units_resource.same_as(&collateral_resource) {
            return Err("Pool unit resource address mismatch".to_owned());
        }
        Ok(true)
    }

    /// How many pool units to take out of the collateral vault.
    ///
    /// *Params*
    /// - `pool_unit_amount`: the units asked for, rounded to the nearest `Decimal`
    /// - `collateral_amount`: what the collateral vault holds
    ///
    /// *Error*
    /// - If the vault holds fewer units
    pub fn remove_pool_units_from_collateral(
        &self,
        pool_unit_amount: PreciseDecimal,
        collateral_amount: Decimal,
    ) -> (r: Result<Decimal, String>)
        requires
            in_dec_range(round_half_even(pool_unit_amount@)),
        ensures
            round_half_even(pool_unit_amount@) > collateral_amount@ ==> (r matches Err(e) && e@
                == "Not enough pool units to remove from collateral"@),
            round_half_even(pool_unit_amount@) <= collateral_amount@ ==> (r matches Ok(v) && v@
                == round_half_even(pool_unit_amount@)),
    {
        let pool_unit_amount = pool_unit_amount.truncated();
        if collateral_amount.less_than(&pool_unit_amount) {
            return Err("Not enough pool units to remove from collateral".to_owned());
        }
        Ok(pool_unit_amount)
    }

    /// The bookkeeping of a borrow of `amount`: the borrow and utilization limits are
    /// checked against the pool's amounts, then the loan totals grow by `amount`.
    /// (The pool component pays the amount out.)
    ///
    /// *Params*
    /// - `amount`: asset to withdraw
    /// - `pool_available`, `pool_borrowed`: the pool component's amounts
    ///
    /// *Output*
    /// - The loan units taken, rounded to the nearest `Decimal`
    ///
    /// *Error*
    /// - If the amount is not positive, or a limit is exceeded (nothing changes)
    /// - If updating the loan totals fails
    pub fn withdraw_for_borrow(&mut self, amount: Decimal, pool_available: Decimal, pool_borrowed: Decimal) -> (r:
        Result<Decimal, String>)
        requires
            amount@ > 0 ==> in_dec_range(pool_borrowed@ + amount@),
            amount@ > 0 && !exceeds(pool_borrowed@ + amount@, old(self).pool_config.borrow_limit) ==> {
                &&& in_dec_range(pool_available@ + pool_borrowed@)
                &&& in_dec_range(pool_available@ + pool_borrowed@ + amount@)
                &&& pool_available@ + pool_borrowed@ + amount@ != 0
                &&& in_dec_range(dec_div(pool_borrowed@ + amount@, pool_available@ + pool_borrowed@ + amount@))
                &&& old(self).loan_unit_update_computable(amount@)
                &&& in_dec_range(round_half_even(pdec_mul(widen(amount@), old(self).loan_unit_ratio())))
            },
        ensures
            ({
                let borrowed = pool_borrowed@ + amount@;
                let usage = dec_div(borrowed, pool_available@ + pool_borrowed@ + amount@);
                let units = pdec_mul(widen(amount@), old(self).loan_unit_ratio());
                let refused = amount@ <= 0 || exceeds(borrowed, old(self).pool_config.borrow_limit) || exceeds(
                    usage,
                    old(self).pool_config.utilization_limit,
                );
                &&& amount@ <= 0 ==> (r matches Err(e) && e@ == "Amount must be positive"@)
                &&& amount@ > 0 && exceeds(borrowed, old(self).pool_config.borrow_limit) ==> (r matches Err(e)
                    && e@ == "Borrow limit reached. Please try again with a smaller amount."@)
                &&& amount@ > 0 && !exceeds(borrowed, old(self).pool_config.borrow_limit) && exceeds(
                    usage,
                    old(self).pool_config.utilization_limit,
                ) ==> (r matches Err(e) && e@
                    == "Utilization limit reached. Please try again with a smaller amount."@)
                &&& refused ==> *final(self) == *old(self)
                &&& !refused ==> {
                    &&& LendingPoolState::same_but_totals(*old(self), *final(self))
                    &&& final(self).total_deposit == old(self).total_deposit
                    &&& final(self).total_deposit_unit == old(self).total_deposit_unit
                    &&& (old(self).loan_unit_ratio() > pdec_scale() ==> r is Err && *final(self)
                        == *old(self))
                    &&& (old(self).loan_unit_ratio() <= pdec_scale() ==> {
                        &&& final(self).total_loan@ == old(self).total_loan@ + widen(amount@)
                        &&& final(self).total_loan_unit@ == old(self).total_loan_unit@ + units
                        &&& (r is Ok <==> final(self).total_loan_unit@ >= 0 && final(self).total_loan@ >= 0)
                        &&& (r matches Ok(u) ==> u@ == round_half_even(units))
                    })
                }
            }),
    {
        if !Decimal::zero().less_than(&amount) {
            return Err("Amount must be positive".to_owned());
        }
        let borrowed = pool_borrowed.plus(&amount);
        self.pool_config.check_limit(CheckPoolConfigLimitInput::BorrowLimit(borrowed))?;

        let liquidity = pool_available.plus(&pool_borrowed).plus(&amount);
        let usage = borrowed.over(&liquidity);
        self.pool_config.check_limit(CheckPoolConfigLimitInput::UtilizationLimit(usage))?;

        let loan_unit = self._update_loan_unit(amount)?;
        Ok(loan_unit.truncated())
    }

    /// The bookkeeping of a repayment: the payment must be of the pool's asset;
    /// the loan totals shrink by its amount. (The pool component takes the payment back.)
    ///
    /// *Params*
    /// - `payment_resource`, `payment_amount`: the payment
    ///
    /// *Output*
    /// - The loan units repaid, as a non-negative amount
    ///
    /// *Error*
    /// - If the payment is of another resource (nothing changes)
    /// - If updating the loan totals fails
    pub fn deposit_for_repay(&mut self, payment_resource: ResourceAddress, payment_amount: Decimal) -> (r:
        Result<PreciseDecimal, String>)
        requires
            payment_resource == old(self).pool_res_address ==> {
                &&& in_dec_range(-payment_amount@)
                &&& old(self).loan_unit_update_computable(-payment_amount@)
                &&& in_pdec_range(-pdec_mul(widen(-payment_amount@), old(self).loan_unit_ratio()))
            },
        ensures
            payment_resource != old(self).pool_res_address ==> (r matches Err(e) && e@
                == "Payment resource address mismatch"@ && *final(self) == *old(self)),
            payment_resource == old(self).pool_res_address ==> {
                let units = pdec_mul(widen(-payment_amount@), old(self).loan_unit_ratio());
                &&& LendingPoolState::same_but_totals(*old(self), *final(self))
                &&& final(self).total_deposit == old(self).total_deposit
                &&& final(self).total_deposit_unit == old(self).total_deposit_unit
                &&& (old(self).loan_unit_ratio() > pdec_scale() ==> r is Err && *final(self) == *old(self))
                &&& (old(self).loan_unit_ratio() <= pdec_scale() ==> {
                    &&& final(self).total_loan@ == old(self).total_loan@ - widen(payment_amount@)
                    &&& final(self).total_loan_unit@ == old(self).total_loan_unit@ + units
                    &&& (r is Ok <==> final(self).total_loan_unit@ >= 0 && final(self).total_loan@ >= 0)
                    &&& (r matches Ok(u) ==> u@ == -units)
                })
            },
    {
        if !payment_resource.same_as(&self.pool_res_address) {
            return Err("Payment resource address mismatch".to_owned());
        }
        let repaid = payment_amount.negated();
        let loan_unit = self._update_loan_unit(repaid)?;
        proof {
            crate::decimal::lemma_pdec_in_range(loan_unit);
        }
        Ok(loan_unit.negated())
    }
}

} // verus!
