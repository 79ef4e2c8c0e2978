//! The decisions and arithmetic of the lending market component: repayments,
//! liquidations, and the statistics it reports. The component itself (vaults,
//! badges, ledger records) drives these steps.
use crate::decimal::{
    dec_div, dec_mul, dec_scale, in_dec_range, in_pdec_range, pdec_div, pdec_mul, pdec_scale,
    decimal_text, precise_powi, round_half_even, widen, Decimal, PreciseDecimal,
};
use crate::address::ResourceAddress;
use crate::decimal::abs;
use crate::modules::cdp_data::{zero_epsilon, zero_epsilon_attos};
use crate::modules::operation_status::OperatingService;
use crate::modules::pool_state::LendingPoolState;
use vstd::prelude::*;

verus! {

pub open spec fn min_int(a: int, b: int) -> int {
    if a <= b {
        a
    } else {
        b
    }
}

/// One payment's share of a repayment.
#[derive(Clone, Copy, Debug)]
pub struct RepayStep {
    /// Value repaid by this payment
    pub max_loan_value: Decimal,
    /// Amount of the payment to take
    pub repay_amount: Decimal,
    /// Value still expected from the next payments
    pub expected_payment_value: Decimal,
}

/// The most a payment can repay, as a precise amount: the position's loan (its units over the
/// pool's loan unit ratio), only the close factor's share of it in a liquidation, and at most
/// the payment.
pub open spec fn repay_max_amount(
    units: int,
    ratio: int,
    close_factor: int,
    payment: int,
    for_liquidation: bool,
) -> int {
    let owed = pdec_div(units, ratio);
    let closable = if for_liquidation {
        pdec_mul(owed, widen(close_factor))
    } else {
        owed
    };
    min_int(closable, widen(payment))
}

/// The value repaid: that amount at the price, at most the value of all that is lent out,
/// to the nearest `Decimal`.
pub open spec fn repay_max_value(max_amount: int, price: int, borrowed: int) -> int {
    round_half_even(min_int(pdec_mul(max_amount, widen(price)), widen(dec_mul(borrowed, price))))
}

/// The value repaid by one payment, capped by what is still expected when a value is expected.
pub open spec fn repay_value(
    pool_state: LendingPoolState,
    units: int,
    payment: int,
    borrowed: int,
    for_liquidation: bool,
    expected: Option<int>,
) -> int {
    let m = repay_max_amount(
        units,
        pool_state.loan_unit_ratio(),
        pool_state.pool_config.loan_close_factor@,
        payment,
        for_liquidation,
    );
    let v = repay_max_value(m, pool_state.price@, borrowed);
    match expected {
        Some(e) => min_int(v, e),
        None => v,
    }
}

/// Whether one repayment step stays within range and divides by non-zero.
pub open spec fn repay_step_computable(
    pool_state: LendingPoolState,
    units: int,
    payment: int,
    borrowed: int,
    for_liquidation: bool,
    expected: Option<int>,
) -> bool {
    let ratio = pool_state.loan_unit_ratio();
    let owed = pdec_div(units, ratio);
    let m = repay_max_amount(units, ratio, pool_state.pool_config.loan_close_factor@, payment, for_liquidation);
    let v = repay_value(pool_state, units, payment, borrowed, for_liquidation, expected);
    &&& crate::modules::pool_state::unit_ratio_computable(pool_state.total_loan_unit@, pool_state.total_loan@)
    &&& ratio <= pdec_scale()
    &&& ratio != 0
    &&& in_pdec_range(owed)
    &&& for_liquidation ==> in_pdec_range(pdec_mul(owed, widen(pool_state.pool_config.loan_close_factor@)))
    &&& in_pdec_range(pdec_mul(m, widen(pool_state.price@)))
    &&& in_dec_range(dec_mul(borrowed, pool_state.price@))
    &&& in_dec_range(repay_max_value(m, pool_state.price@, borrowed))
    &&& (expected matches Some(e) ==> in_dec_range(e - v))
    &&& pool_state.price@ != 0
    &&& in_dec_range(dec_div(v, pool_state.price@))
}

/// One payment of a repayment or a liquidation: how much value it repays and how much of it to take.
///
/// *Params*
/// - `pool_state`: the state of the loan's pool
/// - `position_loan_units`: the loan units the CDP holds in that pool
/// - `payment_amount`: the amount paid
/// - `pool_borrowed_amount`: what the pool has lent out
/// - `for_liquidation`: whether this is a liquidation (only the close factor's share can be repaid)
/// - `expected_payment_value`: for a liquidation, the value still expected
///
/// *Error*
/// - If the operation (repay or liquidation) is disabled for the pool
pub fn repay_step(
    pool_state: &LendingPoolState,
    position_loan_units: PreciseDecimal,
    payment_amount: Decimal,
    pool_borrowed_amount: Decimal,
    for_liquidation: bool,
    expected_payment_value: Option<Decimal>,
) -> (r: Result<RepayStep, String>)
    requires
        repay_step_computable(
            *pool_state,
            position_loan_units@,
            payment_amount@,
            pool_borrowed_amount@,
            for_liquidation,
            match expected_payment_value {
                Some(e) => Some(e@),
                None => None,
            },
        ),
    ensures
        ({
            let service = if for_liquidation {
                OperatingService::Liquidation
            } else {
                OperatingService::Repay
            };
            let expected = match expected_payment_value {
                Some(e) => Some(e@),
                None => None,
            };
            let v = repay_value(
                *pool_state,
                position_loan_units@,
                payment_amount@,
                pool_borrowed_amount@,
                for_liquidation,
                expected,
            );
            &&& (r is Ok <==> pool_state.operating_status.value_of(service).is_enabled())
            &&& (for_liquidation && 0 <= position_loan_units@ && 0 < pool_state.loan_unit_ratio() && 0
                <= pool_state.pool_config.loan_close_factor@ && 0 <= pool_state.price@ && 0 <= payment_amount@
                && 0 <= pool_borrowed_amount@ ==> (r matches Ok(step) ==> step.max_loan_value@ <= round_half_even(
                pdec_mul(
                    pdec_mul(
                        pdec_div(position_loan_units@, pool_state.loan_unit_ratio()),
                        widen(pool_state.pool_config.loan_close_factor@),
                    ),
                    widen(pool_state.price@),
                ),
            )))
            &&& r matches Ok(step) ==> {
                &&& step.max_loan_value@ == v
                &&& step.repay_amount@ == dec_div(v, pool_state.price@)
                &&& step.expected_payment_value@ == match expected {
                    Some(e) => e - v,
                    None => 0,
                }
            }
        }),
{
    if for_liquidation {
        pool_state.check_operating_status(OperatingService::Liquidation)?;
    } else {
        pool_state.check_operating_status(OperatingService::Repay)?;
    }

    let loan_unit_ratio = match pool_state.get_loan_unit_ratio() {
        Ok(v) => v,
        Err(e) => return Err(e),
    };

    let mut max_loan_amount = position_loan_units.over(&loan_unit_ratio);
    if for_liquidation {
        max_loan_amount = max_loan_amount.times(&pool_state.pool_config.loan_close_factor.to_precise());
    }
    max_loan_amount = max_loan_amount.min(payment_amount.to_precise());

    let value_at_price = max_loan_amount.times(&pool_state.price.to_precise());
    let lent_value = pool_borrowed_amount.times(&pool_state.price).to_precise();
    let mut max_loan_value = value_at_price.min(lent_value).truncated();

    let mut expected = Decimal::zero();
    if let Some(e) = expected_payment_value {
        max_loan_value = max_loan_value.min(e);
        expected = e.minus(&max_loan_value);
    }

    let repay_amount = max_loan_value.over(&pool_state.price);
    proof {
        let expected = match expected_payment_value {
            Some(e) => Some(e@),
            None => None,
        };
        if for_liquidation && 0 <= position_loan_units@ && 0 < pool_state.loan_unit_ratio() && 0
            <= pool_state.pool_config.loan_close_factor@ && 0 <= pool_state.price@ && 0 <= payment_amount@ && 0
            <= pool_borrowed_amount@ {
            lemma_liquidation_repay_capped_by_close_factor(
                *pool_state,
                position_loan_units@,
                payment_amount@,
                pool_borrowed_amount@,
                expected,
            );
        }
    }

    Ok(RepayStep { max_loan_value, repay_amount, expected_payment_value: expected })
}

/// A payment made against an expected value repays at most that value, so what is still
/// expected afterwards never turns negative.
pub proof fn lemma_repay_within_expected(
    pool_state: LendingPoolState,
    units: int,
    payment: int,
    borrowed: int,
    for_liquidation: bool,
    expected: int,
)
    requires
        0 <= expected,
    ensures
        repay_value(pool_state, units, payment, borrowed, for_liquidation, Some(expected)) <= expected,
        0 <= expected - repay_value(pool_state, units, payment, borrowed, for_liquidation, Some(expected)),
{
}

/// In a liquidation one payment repays at most the loan close factor's share of the
/// position's loan: the value repaid never exceeds the loan (its units over the pool's
/// loan unit ratio) times the close factor, at the pool's price. Outside a liquidation it
/// never exceeds the whole loan at that price. Either way it never exceeds the payment's
/// own value.
pub proof fn lemma_liquidation_repay_capped_by_close_factor(
    pool_state: LendingPoolState,
    units: int,
    payment: int,
    borrowed: int,
    expected: Option<int>,
)
    requires
        0 <= units,
        0 < pool_state.loan_unit_ratio(),
        0 <= pool_state.pool_config.loan_close_factor@,
        0 <= pool_state.price@,
        0 <= payment,
        0 <= borrowed,
    ensures
        repay_value(pool_state, units, payment, borrowed, true, expected) <= round_half_even(
            pdec_mul(
                pdec_mul(pdec_div(units, pool_state.loan_unit_ratio()), widen(pool_state.pool_config.loan_close_factor@)),
                widen(pool_state.price@),
            ),
        ),
        repay_value(pool_state, units, payment, borrowed, false, expected) <= round_half_even(
            pdec_mul(pdec_div(units, pool_state.loan_unit_ratio()), widen(pool_state.price@)),
        ),
        repay_value(pool_state, units, payment, borrowed, true, expected) <= round_half_even(
            pdec_mul(widen(payment), widen(pool_state.price@)),
        ),
{
    let ratio = pool_state.loan_unit_ratio();
    let cf = widen(pool_state.pool_config.loan_close_factor@);
    let price = widen(pool_state.price@);
    let owed = pdec_div(units, ratio);
    lemma_quot_nonneg(units * pdec_scale(), ratio);
    lemma_widen_nonneg(pool_state.pool_config.loan_close_factor@);
    lemma_widen_nonneg(pool_state.price@);
    lemma_widen_nonneg(payment);
    lemma_widen_nonneg(dec_mul(borrowed, pool_state.price@));
    lemma_dec_mul_nonneg(borrowed, pool_state.price@);
    repay_branch_capped(owed, cf, price, widen(payment), widen(dec_mul(borrowed, pool_state.price@)), true);
    repay_branch_capped(owed, cf, price, widen(payment), widen(dec_mul(borrowed, pool_state.price@)), false);
}

/// The repaid value of one branch is below both the closable amount and the payment,
/// each at the price.
proof fn repay_branch_capped(owed: int, cf: int, price: int, pay: int, lent: int, liq: bool)
    requires
        0 <= owed,
        0 <= cf,
        0 <= price,
        0 <= pay,
        0 <= lent,
    ensures
        ({
            let closable = if liq {
                pdec_mul(owed, cf)
            } else {
                owed
            };
            let m = min_int(closable, pay);
            &&& round_half_even(min_int(pdec_mul(m, price), lent)) <= round_half_even(pdec_mul(closable, price))
            &&& round_half_even(min_int(pdec_mul(m, price), lent)) <= round_half_even(pdec_mul(pay, price))
        }),
{
    let closable = if liq {
        pdec_mul(owed, cf)
    } else {
        owed
    };
    let m = min_int(closable, pay);
    lemma_pdec_mul_monotone(m, closable, price);
    lemma_pdec_mul_monotone(m, pay, price);
    lemma_round_half_even_monotone(min_int(pdec_mul(m, price), lent), pdec_mul(closable, price));
    lemma_round_half_even_monotone(min_int(pdec_mul(m, price), lent), pdec_mul(pay, price));
}

/// Truncating a non-negative numerator by a positive divisor gives a non-negative quotient.
proof fn lemma_quot_nonneg(a: int, b: int)
    requires
        0 <= a,
        0 < b,
    ensures
        0 <= crate::decimal::quot_toward_zero(a, b),
{
    vstd::arithmetic::div_mod::lemma_div_pos_is_pos(a, b);
}

proof fn lemma_widen_nonneg(a: int)
    requires
        0 <= a,
    ensures
        0 <= widen(a),
{
    assert(0 <= a * dec_scale()) by (nonlinear_arith)
        requires
            0 <= a,
    ;
}

proof fn lemma_dec_mul_nonneg(a: int, b: int)
    requires
        0 <= a,
        0 <= b,
    ensures
        0 <= dec_mul(a, b),
{
    assert(0 <= a * b) by (nonlinear_arith)
        requires
            0 <= a,
            0 <= b,
    ;
    lemma_quot_nonneg(a * b, dec_scale());
}

/// A `PreciseDecimal` product with a non-negative factor keeps the order of the other factor.
proof fn lemma_pdec_mul_monotone(a: int, b: int, v: int)
    requires
        0 <= a <= b,
        0 <= v,
    ensures
        0 <= pdec_mul(a, v) <= pdec_mul(b, v),
{
    assert(0 <= a * v <= b * v) by (nonlinear_arith)
        requires
            0 <= a <= b,
            0 <= v,
    ;
    vstd::arithmetic::div_mod::lemma_div_is_ordered(a * v, b * v, pdec_scale());
    vstd::arithmetic::div_mod::lemma_div_pos_is_pos(a * v, pdec_scale());
}

/// Rounding to the nearest `Decimal` keeps the order of precise amounts.
proof fn lemma_round_half_even_monotone(p1: int, p2: int)
    requires
        p1 <= p2,
    ensures
        round_half_even(p1) <= round_half_even(p2),
{
    let s = dec_scale();
    vstd::arithmetic::div_mod::lemma_div_is_ordered(p1, p2, s);
    vstd::arithmetic::div_mod::lemma_fundamental_div_mod(p1, s);
    vstd::arithmetic::div_mod::lemma_fundamental_div_mod(p2, s);
    let q1 = p1 / s;
    let q2 = p2 / s;
    let r1 = p1 % s;
    let r2 = p2 % s;
    if q1 == q2 {
        assert(r1 <= r2);
    }
}

/// Whether a liquidation's payments covered the value expected: less than 10^-9 remains.
pub fn payment_complete(expected_payment_value: Decimal) -> (r: bool)
    ensures
        r == (expected_payment_value@ < zero_epsilon_attos()),
{
    expected_payment_value.less_than(&zero_epsilon())
}

/// The refusal of payments that left more than 10^-9 of the expected value unpaid:
/// `required` was asked for, `total` was paid, `remaining` is left.
pub fn payment_shortfall(required: Decimal, total: Decimal, remaining: Decimal) -> (r: Result<(), String>)
    ensures
        r is Ok <==> remaining@ < zero_epsilon_attos(),
        r matches Err(e) ==> e@ == "Insufficient payment value, "@ + decimal_text(required@) + " required, "@
            + decimal_text(total@) + " total, "@ + decimal_text(remaining@) + " remaining to pay"@,
{
    if payment_complete(remaining) {
        return Ok(());
    }
    let mut message = "Insufficient payment value, ".to_owned();
    let required_text = required.to_text();
    let total_text = total.to_text();
    let remaining_text = remaining.to_text();
    message.append(required_text.as_str());
    message.append(" required, ");
    message.append(total_text.as_str());
    message.append(" total, ");
    message.append(remaining_text.as_str());
    message.append(" remaining to pay");
    Err(message)
}

/// The refusal of a liquidation whose requested collateral value was not all taken:
/// `remaining` is what is left of it.
pub fn collateral_shortfall(remaining: Decimal) -> (r: Result<(), String>)
    ensures
        r is Ok <==> remaining@ == 0,
        r matches Err(e) ==> e@ == "Insufficient collateral value, "@ + decimal_text(remaining@) + " remaining"@,
{
    if remaining.is_zero() {
        return Ok(());
    }
    let mut message = "Insufficient collateral value, ".to_owned();
    let text = remaining.to_text();
    message.append(text.as_str());
    message.append(" remaining");
    Err(message)
}

/// One collateral's share of a liquidation.
#[derive(Clone, Copy, Debug)]
pub struct LiquidationCollateralStep {
    /// Value of collateral taken
    pub collateral_value: Decimal,
    /// Pool units of collateral taken
    pub collateral_units: PreciseDecimal,
    /// Value still to be covered by the next collaterals
    pub remaining_requested_value: Decimal,
    /// Value this collateral adds to what the liquidator receives
    pub returned_value: Decimal,
}

/// One plus the liquidation bonus.
pub open spec fn bonus_rate(pool_state: LendingPoolState) -> int {
    dec_scale() + pool_state.pool_config.liquidation_bonus_rate@
}

/// The value of collateral taken: the position's collateral at the price, at most the
/// requested value raised by the bonus.
pub open spec fn liquidated_collateral_value(
    pool_state: LendingPoolState,
    pool_unit_ratio: int,
    units: int,
    requested: int,
) -> int {
    let amount = round_half_even(pdec_div(units, pool_unit_ratio));
    min_int(dec_mul(amount, pool_state.price@), dec_mul(bonus_rate(pool_state), requested))
}

/// Whether one liquidation step stays within range and divides by non-zero.
pub open spec fn liquidation_step_computable(
    pool_state: LendingPoolState,
    pool_unit_ratio: int,
    units: int,
    requested: int,
) -> bool {
    let bonus = bonus_rate(pool_state);
    let amount = round_half_even(pdec_div(units, pool_unit_ratio));
    let value = liquidated_collateral_value(pool_state, pool_unit_ratio, units, requested);
    let fee = pool_state.pool_config.protocol_liquidation_fee_rate@;
    &&& in_dec_range(bonus)
    &&& bonus != 0
    &&& pool_unit_ratio != 0
    &&& in_pdec_range(pdec_div(units, pool_unit_ratio))
    &&& in_dec_range(amount)
    &&& in_dec_range(dec_mul(amount, pool_state.price@))
    &&& in_dec_range(dec_mul(bonus, requested))
    &&& in_dec_range(dec_div(value, bonus))
    &&& in_dec_range(requested - dec_div(value, bonus))
    &&& in_dec_range(dec_scale() - fee)
    &&& in_dec_range(dec_scale() - fee + pool_state.pool_config.liquidation_bonus_rate@)
    &&& in_dec_range(dec_mul(value, dec_scale() - fee + pool_state.pool_config.liquidation_bonus_rate@))
    &&& pool_state.price@ != 0
    &&& in_dec_range(dec_div(value, pool_state.price@))
    &&& in_pdec_range(pdec_mul(widen(dec_div(value, pool_state.price@)), pool_unit_ratio))
}

/// How much of one collateral a liquidation takes.
///
/// *Params*
/// - `pool_state`: the state of the collateral's pool
/// - `pool_unit_ratio`: the pool component's units per asset
/// - `max_collateral_units`: the units of that collateral the CDP holds
/// - `requested_value`: the value still to cover
///
/// *Error*
/// - If liquidation is disabled for the pool
pub fn liquidation_collateral_step(
    pool_state: &LendingPoolState,
    pool_unit_ratio: PreciseDecimal,
    max_collateral_units: PreciseDecimal,
    requested_value: Decimal,
) -> (r: Result<LiquidationCollateralStep, String>)
    requires
        liquidation_step_computable(*pool_state, pool_unit_ratio@, max_collateral_units@, requested_value@),
    ensures
        r is Ok <==> pool_state.operating_status.value_of(OperatingService::Liquidation).is_enabled(),
        r matches Ok(step) ==> {
            let bonus = bonus_rate(*pool_state);
            let value = liquidated_collateral_value(
                *pool_state,
                pool_unit_ratio@,
                max_collateral_units@,
                requested_value@,
            );
            let fee = pool_state.pool_config.protocol_liquidation_fee_rate@;
            &&& step.collateral_value@ == value
            &&& step.remaining_requested_value@ == if value >= dec_mul(bonus, requested_value@) {
                0
            } else {
                requested_value@ - dec_div(value, bonus)
            }
            &&& step.returned_value@ == dec_mul(
                value,
                dec_scale() - fee + pool_state.pool_config.liquidation_bonus_rate@,
            )
            &&& step.collateral_units@ == pdec_mul(widen(dec_div(value, pool_state.price@)), pool_unit_ratio@)
        },
{
    pool_state.check_operating_status(OperatingService::Liquidation)?;
    let one = Decimal::one();
    let bonus_rate = one.plus(&pool_state.pool_config.liquidation_bonus_rate);
    let max_collateral_amount = max_collateral_units.over(&pool_unit_ratio).truncated();
    let max_collateral_value = max_collateral_amount.times(&pool_state.price);
    let requested_with_bonus = bonus_rate.times(&requested_value);
    let collateral_value = max_collateral_value.min(requested_with_bonus);

    let remaining_requested_value = if requested_with_bonus.less_eq(&collateral_value) {
        Decimal::zero()
    } else {
        requested_value.minus(&collateral_value.over(&bonus_rate))
    };

    let share = one.minus(&pool_state.pool_config.protocol_liquidation_fee_rate).plus(
        &pool_state.pool_config.liquidation_bonus_rate,
    );
    let returned_value = collateral_value.times(&share);
    let collateral_units = collateral_value.over(&pool_state.price).times_precise(&pool_unit_ratio);

    Ok(LiquidationCollateralStep { collateral_value, collateral_units, remaining_requested_value, returned_value })
}

/// A liquidation step takes collateral worth at most the requested value raised by the
/// bonus; with a non-negative position, price and request, what it leaves to cover lies
/// between zero and the request.
pub proof fn lemma_liquidation_step_bounded(
    pool_state: LendingPoolState,
    pool_unit_ratio: int,
    units: int,
    requested: int,
)
    requires
        0 <= units,
        0 < pool_unit_ratio,
        0 <= pool_state.price@,
        0 <= pool_state.pool_config.liquidation_bonus_rate@,
        0 <= requested,
    ensures
        ({
            let bonus = bonus_rate(pool_state);
            let value = liquidated_collateral_value(pool_state, pool_unit_ratio, units, requested);
            let remaining = if value >= dec_mul(bonus, requested) {
                0
            } else {
                requested - dec_div(value, bonus)
            };
            &&& 0 <= value <= dec_mul(bonus, requested)
            &&& 0 <= remaining <= requested
        }),
{
    let bonus = bonus_rate(pool_state);
    let s = dec_scale();
    let p = pdec_div(units, pool_unit_ratio);
    assert(0 <= units * pdec_scale()) by (nonlinear_arith)
        requires
            0 <= units,
    ;
    vstd::arithmetic::div_mod::lemma_div_pos_is_pos(units * pdec_scale(), pool_unit_ratio);
    assert(0 <= p);
    let amount = round_half_even(p);
    vstd::arithmetic::div_mod::lemma_div_pos_is_pos(p, s);
    assert(0 <= amount);
    let price = pool_state.price@;
    assert(0 <= amount * price) by (nonlinear_arith)
        requires
            0 <= amount,
            0 <= price,
    ;
    vstd::arithmetic::div_mod::lemma_div_pos_is_pos(amount * price, s);
    assert(0 <= bonus * requested) by (nonlinear_arith)
        requires
            0 < bonus,
            0 <= requested,
    ;
    vstd::arithmetic::div_mod::lemma_div_pos_is_pos(bonus * requested, s);
    let value = liquidated_collateral_value(pool_state, pool_unit_ratio, units, requested);
    assert(0 <= value <= dec_mul(bonus, requested));
    if value < dec_mul(bonus, requested) {
        let m = dec_mul(bonus, requested);
        assert(m == (bonus * requested) / s);
        assert(m * s <= bonus * requested) by (nonlinear_arith)
            requires
                m == (bonus * requested) / s,
                s > 0,
        ;
        assert(value * s <= bonus * requested) by (nonlinear_arith)
            requires
                0 <= value <= m,
                m * s <= bonus * requested,
                s > 0,
        ;
        assert(0 <= value * s) by (nonlinear_arith)
            requires
                0 <= value,
                s > 0,
        ;
        assert((value * s) / bonus <= requested) by (nonlinear_arith)
            requires
                0 <= value * s <= bonus * requested,
                bonus > 0,
        ;
        vstd::arithmetic::div_mod::lemma_div_pos_is_pos(value * s, bonus);
        assert(dec_div(value, bonus) == (value * s) / bonus);
    }
}

/// The protocol's fee on collateral paid out by a liquidation.
pub fn liquidation_fee(collateral_amount: Decimal, protocol_liquidation_fee_rate: Decimal) -> (r: Decimal)
    requires
        in_dec_range(dec_mul(collateral_amount@, protocol_liquidation_fee_rate@)),
    ensures
        r@ == dec_mul(collateral_amount@, protocol_liquidation_fee_rate@),
{
    collateral_amount.times(&protocol_liquidation_fee_rate)
}

/// The value a liquidation starts with: the requested value, or the closable value when none
/// is requested, at most the closable value.
pub fn liquidation_payment_target(total_payment_value: Option<Decimal>, self_closable_loan_value: Decimal) -> (r:
    Decimal)
    ensures
        r@ == match total_payment_value {
            Some(v) => min_int(v@, self_closable_loan_value@),
            None => self_closable_loan_value@,
        },
{
    match total_payment_value {
        Some(v) => v.min(self_closable_loan_value),
        None => self_closable_loan_value,
    }
}

/// Whether a liquidation's payments are accepted: within 10^-9 of the agreed value, and
/// above that value times the largest liquidable share.
pub fn liquidation_payment_accepted(
    total_payment_value: Decimal,
    expected_payment_value: Decimal,
    max_liquidable_value: Decimal,
) -> (r: bool)
    requires
        in_dec_range(total_payment_value@ - expected_payment_value@),
        in_dec_range(abs(total_payment_value@ - expected_payment_value@)),
        in_dec_range(dec_mul(expected_payment_value@, max_liquidable_value@)),
    ensures
        r == (abs(total_payment_value@ - expected_payment_value@) < zero_epsilon_attos()
            && total_payment_value@ > dec_mul(expected_payment_value@, max_liquidable_value@)),
{
    let difference = total_payment_value.minus(&expected_payment_value);
    let distance = if difference.less_than(&Decimal::zero()) {
        difference.negated()
    } else {
        difference
    };
    let floor = expected_payment_value.times(&max_liquidable_value);
    distance.less_than(&zero_epsilon()) && floor.less_than(&total_payment_value)
}

/// The liquidable value a CDP records after a check: its closable value when it can be
/// liquidated, none otherwise.
pub fn next_liquidable(can_liquidate: bool, self_closable_loan_value: Decimal) -> (r: Option<Decimal>)
    ensures
        r == if can_liquidate {
            Some(self_closable_loan_value)
        } else {
            None::<Decimal>
        },
{
    if can_liquidate {
        Some(self_closable_loan_value)
    } else {
        None
    }
}

/// Why a liquidation may not start: the check must be less than a minute old, and must
/// have found the CDP liquidable.
pub fn start_liquidation_refusal(liquidable: bool, within_minute: bool) -> (r: Result<(), String>)
    ensures
        !within_minute ==> (r matches Err(e) && e@ == "cdp info is too old."@),
        within_minute && !liquidable ==> (r matches Err(e) && e@ == "The cdp is not liquidable."@),
        within_minute && liquidable ==> r is Ok,
{
    if !within_minute {
        return Err("cdp info is too old.".to_owned());
    }
    if !liquidable {
        return Err("The cdp is not liquidable.".to_owned());
    }
    Ok(())
}

/// Why a fast liquidation may not run, in the order the checks are made.
pub fn fast_liquidation_refusal(liquidable: bool, within_minute: bool) -> (r: Result<(), String>)
    ensures
        liquidable && !within_minute ==> (r matches Err(e) && e@ == "cdp info is too old"@),
        !liquidable && !within_minute ==> (r matches Err(e) && e@
            == "The cdp is not liquidable and cdp info is too old."@),
        !liquidable && within_minute ==> (r matches Err(e) && e@ == "The cdp is not liquidable."@),
        liquidable && within_minute ==> r is Ok,
{
    if liquidable && !within_minute {
        Err("cdp info is too old".to_owned())
    } else if !liquidable && !within_minute {
        Err("The cdp is not liquidable and cdp info is too old.".to_owned())
    } else if !liquidable {
        Err("The cdp is not liquidable.".to_owned())
    } else {
        Ok(())
    }
}

/// The CDP ids a page of the liquidable scan visits: `limit` ids from the offset `skip`,
/// stopping at the last id; the page is empty when `skip` is past the last id.
pub fn liquidable_scan_range(skip: u64, limit: u64, cdp_counter: u64) -> (r: (u64, u64))
    requires
        cdp_counter < u64::MAX,
    ensures
        r.0 == skip,
        r.1 == min_int(skip + limit, cdp_counter + 1),
{
    let end = cdp_counter + 1;
    if skip >= end {
        (skip, end)
    } else if limit <= end - skip {
        (skip, skip + limit)
    } else {
        (skip, end)
    }
}

/// The next id from a counter: one past it.
pub fn next_id(counter: u64) -> (r: u64)
    requires
        counter < u64::MAX,
    ensures
        r == counter + 1,
{
    counter + 1
}

/// Market stats of a pool
#[derive(Clone, Copy, Debug)]
pub struct MarketStatsPool {
    /// The pool resource address
    pub asset_address: ResourceAddress,
    /// The liquidity available for borrow
    pub available_liquidity: Decimal,
    /// The liquidity available for borrow plus the quantity lent out
    pub total_liquidity: Decimal,
    /// The total amount of contributions
    pub total_supply: Decimal,
    /// The total amount of borrows
    pub total_borrow: Decimal,
    /// The effective APY compound interest for supply
    pub supply_apy: PreciseDecimal,
    /// The effective APY compound interest for borrow
    pub borrow_apy: PreciseDecimal,
    /// The limit on the maximum deposit amount possible
    pub deposit_limit: Option<Decimal>,
    /// The limit on the maximum borrowable amount possible
    pub borrow_limit: Option<Decimal>,
    /// The limit on the maximum utilization ratio
    pub utilization_limit: Option<Decimal>,
    /// The desired utilization ratio
    pub optimal_usage: Decimal,
    /// Liquidation threshold
    pub ltv_limit: Decimal,
}

/// Market stats of all pools
#[derive(Debug)]
pub struct MarketStatsAllPools {
    /// Cumulated supply
    pub total_supply_all_pools: Decimal,
    /// Cumulated borrow
    pub total_borrow_all_pools: Decimal,
    /// The list of stats for every pool
    pub market_stats_pools: Vec<MarketStatsPool>,
}

/// Seconds in the year over which interest compounds for the stats.
pub open spec fn seconds_per_year() -> int {
    31_536_000
}

/// The per-second rate term `1 + rate / seconds_per_year`, as a precise number.
pub open spec fn compounding_term(rate: int) -> int {
    pdec_scale() + widen(dec_div(rate, seconds_per_year() * dec_scale()))
}

/// The yearly yield of `rate` compounded every second: the term to the power of the
/// seconds in a year, less one, when the power and the difference are in range.
pub open spec fn yearly_yield(rate: int) -> Option<int> {
    match precise_powi(compounding_term(rate), seconds_per_year()) {
        Some(p) => if in_pdec_range(p - widen(dec_scale())) {
            Some(p - widen(dec_scale()))
        } else {
            None
        },
        None => None,
    }
}

/// A rate divided by the seconds of a year stays a `Decimal`, and one plus it a
/// `PreciseDecimal`.
proof fn lemma_per_second_in_range(rate: int)
    requires
        in_dec_range(rate),
    ensures
        in_dec_range(dec_div(rate, seconds_per_year() * dec_scale())),
        in_pdec_range(compounding_term(rate)),
{
    let d = seconds_per_year() * dec_scale();
    let a = crate::decimal::abs(rate * dec_scale());
    let ar = crate::decimal::abs(rate);
    assert(a == ar * dec_scale()) by (nonlinear_arith)
        requires
            a == crate::decimal::abs(rate * dec_scale()),
            ar == crate::decimal::abs(rate),
            dec_scale() > 0,
    ;
    vstd::arithmetic::div_mod::lemma_div_is_ordered_by_denominator(a, dec_scale(), d);
    assert(a / dec_scale() == ar) by (nonlinear_arith)
        requires
            a == ar * dec_scale(),
            dec_scale() > 0,
    ;
    let q = dec_div(rate, d);
    assert(crate::decimal::abs(q) <= ar);
    assert(-crate::decimal::dec_bound() * dec_scale() <= widen(q) <= crate::decimal::dec_bound() * dec_scale())
        by (nonlinear_arith)
        requires
            -crate::decimal::dec_bound() <= q <= crate::decimal::dec_bound(),
            widen(q) == q * dec_scale(),
            dec_scale() > 0,
    ;
}

/// The deposit rate: utilization times the loan rate, less the protocol's share.
pub open spec fn deposit_rate(utilization: int, interest_rate: int, fee_rate: int) -> int {
    dec_mul(dec_mul(utilization, interest_rate), dec_scale() - fee_rate)
}

/// The rate deposits earn is the loan rate weighed by the pool's utilization, less the
/// protocol's share: with nothing lent out deposits earn nothing, they never earn more
/// than the utilization's share of the loan rate, nor more than the loan rate, and they
/// earn nothing when the protocol takes the whole interest.
pub proof fn lemma_deposit_rate_weighed_by_utilization(utilization: int, interest_rate: int, fee_rate: int)
    requires
        0 <= utilization <= dec_scale(),
        0 <= interest_rate,
        0 <= fee_rate <= dec_scale(),
    ensures
        deposit_rate(0, interest_rate, fee_rate) == 0,
        0 <= deposit_rate(utilization, interest_rate, fee_rate) <= dec_mul(utilization, interest_rate),
        dec_mul(utilization, interest_rate) <= interest_rate,
        fee_rate == 0 ==> deposit_rate(utilization, interest_rate, fee_rate) == dec_mul(utilization, interest_rate),
        fee_rate == dec_scale() ==> deposit_rate(utilization, interest_rate, fee_rate) == 0,
{
    let s = dec_scale();
    let w = dec_mul(utilization, interest_rate);
    assert(0 * interest_rate == 0);
    lemma_dec_mul_nonneg(utilization, interest_rate);
    lemma_dec_mul_nonneg(0, interest_rate);
    // the weighed rate: u * r / s <= r when u <= s
    assert(0 <= utilization * interest_rate <= s * interest_rate) by (nonlinear_arith)
        requires
            0 <= utilization <= s,
            0 <= interest_rate,
    ;
    vstd::arithmetic::div_mod::lemma_div_is_ordered(utilization * interest_rate, s * interest_rate, s);
    assert((s * interest_rate) / s == interest_rate) by (nonlinear_arith)
        requires
            s > 0,
    ;
    // less the fee: w * (s - f) / s <= w
    assert(0 <= w * (s - fee_rate) <= w * s) by (nonlinear_arith)
        requires
            0 <= w,
            0 <= fee_rate <= s,
    ;
    vstd::arithmetic::div_mod::lemma_div_is_ordered(w * (s - fee_rate), w * s, s);
    vstd::arithmetic::div_mod::lemma_div_pos_is_pos(w * (s - fee_rate), s);
    assert((w * s) / s == w) by (nonlinear_arith)
        requires
            s > 0,
    ;
    lemma_dec_mul_nonneg(0, s - fee_rate);
    assert(w * 0 == 0);
}

/// The yearly yield of `rate`, or `None` when it overflows.
///
/// *Params*
/// - `rate`: a yearly rate compounded every second
pub fn compound_yearly(rate: Decimal) -> (r: Option<PreciseDecimal>)
    ensures
        match r {
            Some(v) => yearly_yield(rate@) == Some(v@),
            None => yearly_yield(rate@) is None,
        },
{
    proof {
        crate::decimal::lemma_dec_in_range(rate);
        lemma_per_second_in_range(rate@);
    }
    let second_per_year: i64 = 31536000;
    let per_second = rate.over(&Decimal::from_int(second_per_year));
    let term = PreciseDecimal::one().plus(&per_second.to_precise());
    match term.checked_powi(second_per_year) {
        Some(p) => p.checked_sub(&Decimal::one().to_precise()),
        None => None,
    }
}

/// Whether every step of a pool's statistics stays within range.
pub open spec fn stats_computable(pool_state: LendingPoolState, available: int, borrowed: int) -> bool {
    let u = crate::modules::pool_state::utilization(available, borrowed);
    let fee = pool_state.pool_config.protocol_interest_fee_rate@;
    &&& crate::modules::pool_state::utilization_computable(available, borrowed)
    &&& in_dec_range(dec_mul(u, pool_state.interest_rate@))
    &&& in_dec_range(dec_scale() - fee)
    &&& in_dec_range(deposit_rate(u, pool_state.interest_rate@, fee))
    &&& in_dec_range(round_half_even(pool_state.total_loan@))
    &&& in_dec_range(round_half_even(pool_state.total_deposit@))
}

/// The statistics of one pool, or `None` when a yearly yield overflows.
///
/// *Params*
/// - `pool_state`: the pool's state
/// - `available`, `borrowed`: the pool component's amounts
pub fn market_stats_pool(pool_state: &LendingPoolState, available: Decimal, borrowed: Decimal) -> (r: Option<
    MarketStatsPool,
>)
    requires
        stats_computable(*pool_state, available@, borrowed@),
    ensures
        ({
            let u = crate::modules::pool_state::utilization(available@, borrowed@);
            let supply = yearly_yield(
                deposit_rate(u, pool_state.interest_rate@, pool_state.pool_config.protocol_interest_fee_rate@),
            );
            let borrow = yearly_yield(pool_state.interest_rate@);
            &&& (r is Some <==> supply is Some && borrow is Some)
            &&& (borrowed@ == 0 && 0 <= pool_state.interest_rate@ && 0 <= pool_state.pool_config.protocol_interest_fee_rate@
                <= dec_scale() ==> (r matches Some(s) ==> Some(s.supply_apy@) == yearly_yield(0)))
            &&& r matches Some(s) ==> {
                &&& s.asset_address == pool_state.pool_res_address
                &&& s.available_liquidity == available
                &&& s.total_liquidity@ == available@ + borrowed@
                &&& s.total_supply@ == round_half_even(pool_state.total_deposit@)
                &&& s.total_borrow@ == round_half_even(pool_state.total_loan@)
                &&& Some(s.supply_apy@) == supply
                &&& Some(s.borrow_apy@) == borrow
                &&& s.deposit_limit == pool_state.pool_config.deposit_limit
                &&& s.borrow_limit == pool_state.pool_config.borrow_limit
                &&& s.utilization_limit == pool_state.pool_config.utilization_limit
                &&& s.optimal_usage == pool_state.pool_config.optimal_usage
                &&& s.ltv_limit == pool_state.liquidation_threshold.default_value
            }
        }),
{
    let utilization_rate = crate::modules::pool_state::pool_utilization(available, borrowed);
    let net_share = Decimal::one().minus(&pool_state.pool_config.protocol_interest_fee_rate);
    let deposit_rate = utilization_rate.times(&pool_state.interest_rate).times(&net_share);
    proof {
        if borrowed@ == 0 && 0 <= pool_state.interest_rate@ && 0 <= pool_state.pool_config.protocol_interest_fee_rate@
            <= dec_scale() {
            assert(crate::modules::pool_state::utilization(available@, borrowed@) == 0) by {
                if available@ != 0 {
                    assert(0 * dec_scale() == 0);
                }
            }
            lemma_deposit_rate_weighed_by_utilization(0, pool_state.interest_rate@, pool_state.pool_config.protocol_interest_fee_rate@);
        }
    }
    let supply_apy = compound_yearly(deposit_rate);
    let borrow_apy = compound_yearly(pool_state.interest_rate);
    match (supply_apy, borrow_apy) {
        (Some(supply_apy), Some(borrow_apy)) => Some(
            MarketStatsPool {
                asset_address: pool_state.pool_res_address,
                available_liquidity: available,
                total_liquidity: available.plus(&borrowed),
                total_supply: pool_state.total_deposit.truncated(),
                total_borrow: pool_state.total_loan.truncated(),
                supply_apy,
                borrow_apy,
                deposit_limit: pool_state.pool_config.deposit_limit,
                borrow_limit: pool_state.pool_config.borrow_limit,
                utilization_limit: pool_state.pool_config.utilization_limit,
                optimal_usage: pool_state.pool_config.optimal_usage,
                ltv_limit: pool_state.liquidation_threshold.default_value,
            },
        ),
        _ => None,
    }
}

/// Sum of the supplies (`.0`) and of the borrows (`.1`) of the first pools.
pub open spec fn stats_totals(stats: Seq<MarketStatsPool>) -> (int, int)
    decreases stats.len(),
{
    if stats.len() == 0 {
        (0, 0)
    } else {
        let p = stats_totals(stats.drop_last());
        (p.0 + stats.last().total_supply@, p.1 + stats.last().total_borrow@)
    }
}

/// Whether every partial sum stays within `Decimal`.
pub open spec fn stats_totals_computable(stats: Seq<MarketStatsPool>) -> bool {
    forall|k: int|
        0 < k <= stats.len() ==> in_dec_range(#[trigger] stats_totals(stats.take(k)).0) && in_dec_range(
            stats_totals(stats.take(k)).1,
        )
}

/// The statistics of all pools: the pools' own, with the summed supply and borrow.
pub fn market_stats_all_pools(market_stats_pools: Vec<MarketStatsPool>) -> (r: MarketStatsAllPools)
    requires
        stats_totals_computable(market_stats_pools@),
    ensures
        r.total_supply_all_pools@ == stats_totals(market_stats_pools@).0,
        r.total_borrow_all_pools@ == stats_totals(market_stats_pools@).1,
        r.market_stats_pools@ == market_stats_pools@,
{
    let mut total_supply_all_pools = Decimal::zero();
    let mut total_borrow_all_pools = Decimal::zero();
    let n = market_stats_pools.len();
    let mut i: usize = 0;
    while i < n
        invariant
            n == market_stats_pools@.len(),
            i <= n,
            stats_totals_computable(market_stats_pools@),
            (total_supply_all_pools@, total_borrow_all_pools@) == stats_totals(market_stats_pools@.take(i as int)),
        decreases n - i,
    {
        proof {
            assert(market_stats_pools@.take(i as int + 1).drop_last() =~= market_stats_pools@.take(i as int));
            assert(market_stats_pools@.take(i as int + 1).last() == market_stats_pools@[i as int]);
            assert(in_dec_range(stats_totals(market_stats_pools@.take(i as int + 1)).0));
        }
        total_supply_all_pools = total_supply_all_pools.plus(&market_stats_pools[i].total_supply);
        total_borrow_all_pools = total_borrow_all_pools.plus(&market_stats_pools[i].total_borrow);
        i = i + 1;
    }
    proof {
        assert(market_stats_pools@.take(n as int) =~= market_stats_pools@);
    }
    MarketStatsAllPools { total_supply_all_pools, total_borrow_all_pools, market_stats_pools }
}

} // verus!
