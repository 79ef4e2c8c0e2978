//! Piecewise-linear interest rate as a function of pool usage.
use crate::decimal::{abs, dec_div, dec_mul, dec_scale, decimal_text, in_dec_range, Decimal};
use crate::modules::market_config::check_outcome;
use crate::modules::utils::{is_valid_rate, valid_rate};
use vstd::prelude::*;

verus! {

/// Slopes of the interest strategy
#[derive(Clone, Copy, Debug)]
pub struct InterestStrategyBreakPoints {
    pub r0: Decimal,
    pub r1: Decimal,
    pub r2: Decimal,
}

impl Default for InterestStrategyBreakPoints {
    fn default() -> (r: Self)
        ensures
            r.r0@ == 0 && r.r1@ == 0 && r.r2@ == 0,
    {
        InterestStrategyBreakPoints { r0: Decimal::zero(), r1: Decimal::zero(), r2: Decimal::zero() }
    }
}

/// Linear interest strategy allowing several slopes
#[derive(Clone, Copy, Debug)]
pub struct InterestStrategy {
    break_points: InterestStrategyBreakPoints,
}

/// The first rule that the break points break, as its error message, or `None`.
///
/// The rates are read in order `r0, r1, r2`: the first must not be negative,
/// and each must be above the one before it and not negative.
pub open spec fn break_points_error(bp: InterestStrategyBreakPoints) -> Option<Seq<char>> {
    if bp.r0@ < 0 {
        Some("The initial rate must be greater than or equal to 0"@)
    } else if bp.r0@ >= bp.r1@ {
        Some("Slope must be monotonically increasing"@)
    } else if bp.r1@ < 0 {
        Some("Slope must be greater than or equal to 0"@)
    } else if bp.r1@ >= bp.r2@ {
        Some("Slope must be monotonically increasing"@)
    } else if bp.r2@ < 0 {
        Some("Slope must be greater than or equal to 0"@)
    } else {
        None
    }
}

/// The rate below the optimal usage: `r0 + usage / optimal * r1`.
pub open spec fn rate_below_optimal(bp: InterestStrategyBreakPoints, usage: int, optimal: int) -> int {
    bp.r0@ + dec_mul(dec_div(usage, optimal), bp.r1@)
}

/// The rate at or above the optimal usage: `r0 + r1 + (usage - optimal) / (1 - optimal) * r2`.
pub open spec fn rate_above_optimal(bp: InterestStrategyBreakPoints, usage: int, optimal: int) -> int {
    (bp.r0@ + bp.r1@) + dec_mul(dec_div(usage - optimal, dec_scale() - optimal), bp.r2@)
}

/// The rate for `usage` given the optimal usage; at the optimal usage itself it is `r0 + r1`,
/// which the formula above the optimal usage also gives wherever its divisor is not zero.
pub open spec fn interest_rate(bp: InterestStrategyBreakPoints, usage: int, optimal: int) -> int {
    if usage < optimal {
        rate_below_optimal(bp, usage, optimal)
    } else if usage == optimal {
        bp.r0@ + bp.r1@
    } else {
        rate_above_optimal(bp, usage, optimal)
    }
}

/// Whether every step of the rate computation stays within `Decimal` and divides by non-zero.
pub open spec fn interest_rate_computable(
    bp: InterestStrategyBreakPoints,
    usage: int,
    optimal: int,
) -> bool {
    if usage < optimal {
        &&& in_dec_range(dec_div(usage, optimal))
        &&& in_dec_range(dec_mul(dec_div(usage, optimal), bp.r1@))
        &&& in_dec_range(rate_below_optimal(bp, usage, optimal))
    } else if usage == optimal {
        in_dec_range(bp.r0@ + bp.r1@)
    } else {
        &&& in_dec_range(bp.r0@ + bp.r1@)
        &&& in_dec_range(usage - optimal)
        &&& in_dec_range(dec_scale() - optimal)
        &&& dec_scale() - optimal != 0
        &&& in_dec_range(dec_div(usage - optimal, dec_scale() - optimal))
        &&& in_dec_range(dec_mul(dec_div(usage - optimal, dec_scale() - optimal), bp.r2@))
        &&& in_dec_range(rate_above_optimal(bp, usage, optimal))
    }
}

/// The error for a usage outside [0, 1].
pub open spec fn usage_error_text(usage: int) -> Seq<char> {
    "Usage must be between 0 and 1, inclusive, was "@ + decimal_text(usage)
}

/// Formats the error for a usage outside [0, 1].
fn usage_error_message(usage: &Decimal) -> (r: String)
    ensures
        r@ == usage_error_text(usage@),
{
    let mut message = "Usage must be between 0 and 1, inclusive, was ".to_owned();
    let text = usage.to_text();
    message.append(text.as_str());
    message
}

impl InterestStrategy {
    /// The break points in force.
    pub closed spec fn break_points(self) -> InterestStrategyBreakPoints {
        self.break_points
    }

    /// The break points in force.
    pub fn get_break_points(&self) -> (r: InterestStrategyBreakPoints)
        ensures
            r == self.break_points(),
    {
        self.break_points
    }

    /// Constructor: all rates zero
    ///
    /// *Output*
    /// A new `InterestStrategy`
    pub fn new() -> (r: Self)
        ensures
            r.break_points().r0@ == 0 && r.break_points().r1@ == 0 && r.break_points().r2@ == 0,
    {
        Self { break_points: InterestStrategyBreakPoints::default() }
    }

    /// Setter of the interest strategy breakpoints
    ///
    /// *Params*
    /// - `interest_strategy_break_points`: The interest strategy breakpoints to set
    ///
    /// *Error*
    /// - If the break points are not increasing from a non-negative initial rate;
    ///   the strategy is then left as it was
    pub fn set_breakpoints(
        &mut self,
        interest_strategy_break_points: InterestStrategyBreakPoints,
    ) -> (r: Result<(), String>)
        ensures
            check_outcome(r, break_points_error(interest_strategy_break_points)),
            r is Ok ==> final(self).break_points() == interest_strategy_break_points,
            r is Err ==> *final(self) == *old(self),
    {
        let bp = interest_strategy_break_points;
        let zero = Decimal::zero();
        if bp.r0.less_than(&zero) {
            return Err("The initial rate must be greater than or equal to 0".to_owned());
        }
        if bp.r1.less_eq(&bp.r0) {
            return Err("Slope must be monotonically increasing".to_owned());
        }
        if bp.r1.less_than(&zero) {
            return Err("Slope must be greater than or equal to 0".to_owned());
        }
        if bp.r2.less_eq(&bp.r1) {
            return Err("Slope must be monotonically increasing".to_owned());
        }
        if bp.r2.less_than(&zero) {
            return Err("Slope must be greater than or equal to 0".to_owned());
        }

        self.break_points = interest_strategy_break_points;

        Ok(())
    }

    /// Getter of the interest rate
    ///
    /// *Params*
    ///  - `usage`: The pool usage
    ///  - `optimal_usage`: The optimal pool usage
    ///
    /// *Errors*
    ///  - If the usage is not a rate, or the optimal usage is above 1
    pub fn get_interest_rate(&self, usage: Decimal, optimal_usage: Decimal) -> (r: Result<Decimal, String>)
        requires
            valid_rate(usage@) && optimal_usage@ <= dec_scale() ==> interest_rate_computable(
                self.break_points(),
                usage@,
                optimal_usage@,
            ),
        ensures
            !valid_rate(usage@) ==> (r matches Err(e) && e@ == usage_error_text(usage@)),
            valid_rate(usage@) && optimal_usage@ > dec_scale() ==> (r matches Err(e)
                && e@ == "Usage must be between 0 exclusive and 1 inclusive"@),
            valid_rate(usage@) && optimal_usage@ <= dec_scale() ==> (r matches Ok(v) && v@
                == interest_rate(self.break_points(), usage@, optimal_usage@)),
    {
        if !is_valid_rate(usage) {
            return Err(usage_error_message(&usage));
        }
        let zero = Decimal::zero();
        if zero.less_than(&optimal_usage) && !is_valid_rate(optimal_usage) {
            return Err("Usage must be between 0 exclusive and 1 inclusive".to_owned());
        }
        let bp = self.break_points;
        if usage.less_than(&optimal_usage) {
            let ratio = usage.over(&optimal_usage);
            let slope = ratio.times(&bp.r1);
            Ok(bp.r0.plus(&slope))
        } else if usage.equals(&optimal_usage) {
            Ok(bp.r0.plus(&bp.r1))
        } else {
            let base = bp.r0.plus(&bp.r1);
            let excess = usage.minus(&optimal_usage);
            let room = Decimal::one().minus(&optimal_usage);
            let ratio = excess.over(&room);
            let slope = ratio.times(&bp.r2);
            Ok(base.plus(&slope))
        }
    }
}

/// For a non-negative numerator and a positive divisor, truncating toward zero is floor
/// division, and it keeps the order of numerators.
proof fn lemma_quot_nonneg(a: int, a2: int, b: int)
    requires
        0 <= a <= a2,
        0 < b,
    ensures
        crate::decimal::quot_toward_zero(a, b) == a / b,
        crate::decimal::quot_toward_zero(a2, b) == a2 / b,
        0 <= a / b <= a2 / b,
{
    vstd::arithmetic::div_mod::lemma_div_pos_is_pos(a, b);
    vstd::arithmetic::div_mod::lemma_div_is_ordered(a, a2, b);
}

/// A `Decimal` product with a non-negative factor keeps the order of the other factor.
proof fn lemma_dec_mul_ordered(x: int, x2: int, r: int)
    requires
        0 <= x <= x2,
        0 <= r,
    ensures
        0 <= dec_mul(x, r) <= dec_mul(x2, r),
{
    vstd::arithmetic::mul::lemma_mul_inequality(x, x2, r);
    assert(0 <= x * r) by (nonlinear_arith)
        requires
            0 <= x,
            0 <= r,
    ;
    lemma_quot_nonneg(x * r, x2 * r, dec_scale());
}

/// A `Decimal` quotient by a positive divisor keeps the order of numerators.
proof fn lemma_dec_div_ordered(u: int, u2: int, d: int)
    requires
        0 <= u <= u2,
        0 < d,
    ensures
        0 <= dec_div(u, d) <= dec_div(u2, d),
{
    vstd::arithmetic::mul::lemma_mul_inequality(u, u2, dec_scale());
    assert(0 <= u * dec_scale()) by (nonlinear_arith)
        requires
            0 <= u,
    ;
    lemma_quot_nonneg(u * dec_scale(), u2 * dec_scale(), d);
}

/// The rate at the ends of the usage range and at the optimal usage: the initial rate at no
/// usage, the initial rate plus the first slope at the optimal usage, and all three rates
/// summed at full usage.
pub proof fn lemma_rate_at_breakpoints(bp: InterestStrategyBreakPoints, optimal: int)
    requires
        0 < optimal < dec_scale(),
    ensures
        interest_rate(bp, 0, optimal) == bp.r0@,
        interest_rate(bp, optimal, optimal) == bp.r0@ + bp.r1@,
        interest_rate(bp, dec_scale(), optimal) == bp.r0@ + bp.r1@ + bp.r2@,
{
    let room = dec_scale() - optimal;
    lemma_quot_nonneg(0, 0, optimal);
    lemma_quot_nonneg(0, 0, room);
    assert(dec_div(0, optimal) == 0);
    assert(dec_div(0, room) == 0);
    assert(dec_mul(0, bp.r1@) == 0);
    assert(dec_mul(0, bp.r2@) == 0);
    assert((room * dec_scale()) / room == dec_scale()) by (nonlinear_arith)
        requires
            room > 0,
    ;
    lemma_quot_nonneg(room * dec_scale(), room * dec_scale(), room);
    assert(dec_div(room, room) == dec_scale());
    let r2 = bp.r2@;
    assert(abs(dec_scale() * r2) / dec_scale() == abs(r2)) by (nonlinear_arith)
        requires
            dec_scale() > 0,
    ;
    assert(dec_mul(dec_scale(), r2) == r2);
}

/// With valid break points and an optimal usage in (0, 1], the rate never falls as usage
/// grows.
pub proof fn lemma_rate_monotone(bp: InterestStrategyBreakPoints, u1: int, u2: int, optimal: int)
    requires
        break_points_error(bp) is None,
        0 < optimal <= dec_scale(),
        0 <= u1 <= u2 <= dec_scale(),
    ensures
        interest_rate(bp, u1, optimal) <= interest_rate(bp, u2, optimal),
{
    let room = dec_scale() - optimal;
    assert(bp.r1@ >= 0 && bp.r2@ >= 0);
    if u2 < optimal {
        lemma_dec_div_ordered(u1, u2, optimal);
        lemma_dec_mul_ordered(dec_div(u1, optimal), dec_div(u2, optimal), bp.r1@);
    } else if u2 == optimal {
        if u1 < optimal {
            lemma_rate_below_optimal_bounded(bp, u1, optimal);
        }
    } else if u1 >= optimal {
        lemma_dec_div_ordered(u1 - optimal, u2 - optimal, room);
        lemma_dec_mul_ordered(
            dec_div(u1 - optimal, room),
            dec_div(u2 - optimal, room),
            bp.r2@,
        );
    } else {
        // below the optimal usage the rate stays under r0 + r1, above it starts there
        lemma_rate_below_optimal_bounded(bp, u1, optimal);
        lemma_dec_div_ordered(0, u2 - optimal, room);
        lemma_dec_mul_ordered(0, dec_div(u2 - optimal, room), bp.r2@);
    }
}

/// Below the optimal usage the rate stays at or under `r0 + r1`.
proof fn lemma_rate_below_optimal_bounded(bp: InterestStrategyBreakPoints, u1: int, optimal: int)
    requires
        bp.r1@ >= 0,
        0 < optimal,
        0 <= u1 < optimal,
    ensures
        rate_below_optimal(bp, u1, optimal) <= bp.r0@ + bp.r1@,
{
    lemma_dec_div_ordered(u1, optimal, optimal);
    assert((optimal * dec_scale()) / optimal == dec_scale()) by (nonlinear_arith)
        requires
            optimal > 0,
    ;
    lemma_quot_nonneg(optimal * dec_scale(), optimal * dec_scale(), optimal);
    lemma_dec_mul_ordered(dec_div(u1, optimal), dec_scale(), bp.r1@);
    let r1 = bp.r1@;
    assert((dec_scale() * r1) / dec_scale() == r1) by (nonlinear_arith)
        requires
            dec_scale() > 0,
    ;
    assert(dec_mul(dec_scale(), r1) == r1);
}

} // verus!
