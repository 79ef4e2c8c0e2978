//! Shared constants, rate validation and price answers.
use crate::decimal::{dec_scale, Decimal};
use vstd::prelude::*;

verus! {

pub const SECOND_PER_MINUTE: i64 = 60;

pub const MINUTE_PER_YEAR: i64 = 60 * 24 * 365;

/// A rate is a number between 0 and 1, both included.
pub open spec fn valid_rate(rate: int) -> bool {
    0 <= rate <= dec_scale()
}

/// Whether `rate` lies between 0 and 1, both included.
pub fn is_valid_rate(rate: Decimal) -> (r: bool)
    ensures
        r == valid_rate(rate@),
{
    let zero = Decimal::zero();
    let one = Decimal::one();
    zero.less_eq(&rate) && rate.less_eq(&one)
}

/// Type of withdraw
#[derive(PartialEq, Eq, Structural, Clone, Copy, Debug)]
pub enum WithdrawType {
    /// Used for flash loans
    TemporaryUse,
    /// Standard liquidity withdrawal
    LiquidityWithdrawal,
}

/// Type of deposit
#[derive(PartialEq, Eq, Structural, Clone, Copy, Debug)]
pub enum DepositType {
    /// Used for flash loans
    FromTemporaryUse,
    /// Standard liquidity supply
    LiquiditySupply,
}

/// Price info coming from the oracle
#[derive(Clone, Copy, Debug)]
pub struct PriceInfo {
    /// Timestamp of retrieval
    pub timestamp: i64,
    /// Price
    pub price: Decimal,
}

/// The price of a pool's asset, from what the oracle answered.
///
/// The base asset (XRD) is priced 1 at `now` without asking the oracle;
/// any other asset takes the oracle's answer, and a missing answer is an error.
pub fn price_from_feed(
    is_base_asset: bool,
    now: i64,
    feed_answer: Option<PriceInfo>,
) -> (r: Result<PriceInfo, String>)
    ensures
        is_base_asset ==> (r matches Ok(p) && p.timestamp == now && p.price@ == dec_scale()),
        !is_base_asset ==> match feed_answer {
            Some(p) => r == Ok::<PriceInfo, String>(p),
            None => r matches Err(e) && e@ == "Price not found"@,
        },
{
    if is_base_asset {
        return Ok(PriceInfo { timestamp: now, price: Decimal::one() });
    }
    match feed_answer {
        Some(price_info) => Ok(price_info),
        None => Err("Price not found".to_owned()),
    }
}

} // verus!
