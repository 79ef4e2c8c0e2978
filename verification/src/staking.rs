//! The staking pool's rules: what collected fees are worth, the terms of an
//! unstaking receipt, and how a refinancing is priced and checked. The pool
//! component (vaults, badges, calls to the lending markets) applies them.
use crate::decimal::{abs, dec_div, dec_mul, dec_scale, in_dec_range, Decimal};
use vstd::prelude::*;

verus! {

/// Seconds to wait after unstaking before the units can be claimed: one week.
pub const UNSTAKE_WAITING_TIME: i64 = 604800;

/// Seconds a claimable receipt stays valid: two days.
pub const UNSTAKE_EXPIRATION_TIME: i64 = 172800;

/// The staking pool's configuration.
#[derive(Clone, Copy, Debug)]
pub struct StakingConfig {
    pub treasury_share: Decimal,
    pub collection_bonus_rate: Decimal,
    pub refinance_bonus_rate: Decimal,
    pub unstake_waiting_time: i64,
    pub unstake_expiration_time: i64,
}

impl StakingConfig {
    /// The configuration a new staking pool starts with.
    pub fn new() -> (r: StakingConfig)
        ensures
            r.treasury_share@ == dec_scale() / 2,
            r.collection_bonus_rate@ == 3 * dec_scale() / 100,
            r.refinance_bonus_rate@ == 3 * dec_scale() / 100,
            r.unstake_waiting_time == 7 * 24 * 60 * 60,
            r.unstake_expiration_time == 2 * 24 * 60 * 60,
    {
        StakingConfig {
            treasury_share: Decimal::from_attos(500_000_000_000_000_000),
            collection_bonus_rate: Decimal::from_attos(30_000_000_000_000_000),
            refinance_bonus_rate: Decimal::from_attos(30_000_000_000_000_000),
            unstake_waiting_time: UNSTAKE_WAITING_TIME,
            unstake_expiration_time: UNSTAKE_EXPIRATION_TIME,
        }
    }
}

/// What an unstaking receipt records.
#[derive(Clone, Copy, Debug, PartialEq, Eq, Structural)]
pub struct UnstakingReceiptData {
    pub pool_unit_amount: Decimal,
    pub created_at: i64,
    pub claimable_at: i64,
    pub expires_at: i64,
}

/// What a withdrawal of staked resources is for.
#[derive(Clone, Copy, Debug, PartialEq, Eq, Structural)]
pub enum StakeResWithdrawalUse {
    FeesConversion,
    /// The market's index and the position's id
    Refinance(u8, u64),
}

/// The transient record of a withdrawal: the value owed back, and its use.
#[derive(Clone, Copy, Debug)]
pub struct StakeResWithdrawalData {
    pub value: Decimal,
    pub usage: StakeResWithdrawalUse,
}

/// The index a newly registered market gets: the number of markets already
/// registered, as a byte (wrapping past 255).
pub fn market_entry_index(registered: usize) -> (r: u8)
    ensures
        r == registered % 256,
{
    (registered % 256) as u8
}

/// The share of the collected fees' value that their conversion owes: 99%.
pub open spec fn fees_conversion_factor() -> int {
    dec_scale() - dec_scale() / 100
}

/// The value of collected fees, each entry a price and an amount, summed in order.
pub open spec fn fees_value(collected: Seq<(Decimal, Decimal)>) -> int
    decreases collected.len(),
{
    if collected.len() == 0 {
        0
    } else {
        fees_value(collected.drop_last()) + dec_mul(collected.last().1@, collected.last().0@)
    }
}

/// Whether each product, each running sum and the owed share stay in range.
pub open spec fn fees_computable(collected: Seq<(Decimal, Decimal)>) -> bool {
    &&& forall|i: int| 0 <= i < collected.len() ==> in_dec_range(#[trigger] dec_mul(collected[i].1@, collected[i].0@))
    &&& forall|i: int| 0 <= i <= collected.len() ==> in_dec_range(#[trigger] fees_value(collected.take(i)))
    &&& in_dec_range(dec_mul(fees_value(collected), fees_conversion_factor()))
}

/// The record handed out with collected fees: the value their conversion owes back.
///
/// *Params*
/// - `collected`: each collected asset's price and amount
pub fn fees_withdrawal(collected: &Vec<(Decimal, Decimal)>) -> (r: StakeResWithdrawalData)
    requires
        fees_computable(collected@),
    ensures
        r.value@ == dec_mul(fees_value(collected@), fees_conversion_factor()),
        r.usage == StakeResWithdrawalUse::FeesConversion,
{
    let mut total = Decimal::zero();
    let mut i: usize = 0;
    assert(collected@.take(0) =~= Seq::<(Decimal, Decimal)>::empty());
    while i < collected.len()
        invariant
            0 <= i <= collected.len(),
            total@ == fees_value(collected@.take(i as int)),
            fees_computable(collected@),
        decreases collected.len() - i,
    {
        let (price, amount) = collected[i];
        assert(collected@.take(i + 1).drop_last() =~= collected@.take(i as int));
        assert(collected@.take(i + 1).last() == collected@[i as int]);
        assert(in_dec_range(dec_mul(collected@[i as int].1@, collected@[i as int].0@)));
        assert(in_dec_range(fees_value(collected@.take(i + 1))));
        let value = amount.times(&price);
        total = total.plus(&value);
        i = i + 1;
    }
    assert(collected@.take(collected.len() as int) =~= collected@);
    let factor = Decimal::from_attos(990_000_000_000_000_000);
    StakeResWithdrawalData { value: total.times(&factor), usage: StakeResWithdrawalUse::FeesConversion }
}

/// Checks that converted fees come in the pool's resource, with the pool's
/// withdrawal record.
pub fn check_fee_deposit_resources(assets_match: bool, record_matches: bool) -> (r: Result<(), String>)
    ensures
        r is Ok <==> (assets_match && record_matches),
        r matches Err(e) ==> e@ == "Invalid assets provided"@,
{
    if !(assets_match && record_matches) {
        return Err("Invalid assets provided".to_owned());
    }
    Ok(())
}

/// The amount of the pool's resource that converted fees must bring: the owed value at the
/// resource's price.
///
/// *Errors*
/// - If the record is not one of a fee conversion
/// - If fewer assets are provided than that amount
pub fn converted_fees_amount(
    record: &StakeResWithdrawalData,
    price: Decimal,
    provided: Decimal,
) -> (r: Result<Decimal, String>)
    requires
        record.usage == StakeResWithdrawalUse::FeesConversion ==> (price@ != 0 && in_dec_range(
            dec_div(record.value@, price@),
        )),
    ensures
        r is Ok <==> (record.usage == StakeResWithdrawalUse::FeesConversion && dec_div(
            record.value@,
            price@,
        ) <= provided@),
        r matches Ok(a) ==> a@ == dec_div(record.value@, price@),
        record.usage != StakeResWithdrawalUse::FeesConversion ==> (r matches Err(e) && e@
            == "Invalid withdrawal transient provided"@),
        (record.usage == StakeResWithdrawalUse::FeesConversion && provided@ < dec_div(
            record.value@,
            price@,
        )) ==> (r matches Err(e) && e@ == "Insufficient assets provided"@),
{
    match record.usage {
        StakeResWithdrawalUse::FeesConversion => {},
        _ => {
            return Err("Invalid withdrawal transient provided".to_owned());
        },
    }
    let asset_amount = record.value.over(&price);
    if provided.less_than(&asset_amount) {
        return Err("Insufficient assets provided".to_owned());
    }
    Ok(asset_amount)
}

/// The receipt for `amount` units unstaked at `now` under `config`.
pub open spec fn receipt_for(config: StakingConfig, amount: Decimal, now: int) -> UnstakingReceiptData {
    UnstakingReceiptData {
        pool_unit_amount: amount,
        created_at: now as i64,
        claimable_at: (now + config.unstake_waiting_time) as i64,
        expires_at: (now + config.unstake_waiting_time + config.unstake_expiration_time) as i64,
    }
}

/// The receipt for `pool_unit_amount` units unstaked at `now`: claimable after the
/// waiting time, expiring the expiration time after that.
pub fn unstaking_receipt(config: &StakingConfig, pool_unit_amount: Decimal, now: i64) -> (r:
    UnstakingReceiptData)
    requires
        i64::MIN <= now + config.unstake_waiting_time <= i64::MAX,
        i64::MIN <= now + config.unstake_waiting_time + config.unstake_expiration_time <= i64::MAX,
    ensures
        r.pool_unit_amount == pool_unit_amount,
        r.created_at == now,
        r.claimable_at == now + config.unstake_waiting_time,
        r.expires_at == now + config.unstake_waiting_time + config.unstake_expiration_time,
        r == receipt_for(*config, pool_unit_amount, now as int),
{
    let claimable_at = now + config.unstake_waiting_time;
    UnstakingReceiptData {
        pool_unit_amount,
        created_at: now,
        claimable_at,
        expires_at: claimable_at + config.unstake_expiration_time,
    }
}

/// Checks that the receipt's waiting time is over at `now`.
pub fn check_claimable(receipt: &UnstakingReceiptData, now: i64) -> (r: Result<(), String>)
    ensures
        r is Ok <==> receipt.claimable_at <= now,
        r matches Err(e) ==> e@ == "Unstaking receipt is not claimable yet"@,
{
    if now < receipt.claimable_at {
        return Err("Unstaking receipt is not claimable yet".to_owned());
    }
    Ok(())
}

/// The pool units a claim at `now` redeems: all those of the receipt, once its waiting
/// time is over (`check_claimable` tells the caller when it is not).
pub fn claim(receipt: &UnstakingReceiptData, now: i64) -> (r: Decimal)
    requires
        receipt.claimable_at <= now,
    ensures
        r == receipt.pool_unit_amount,
{
    receipt.pool_unit_amount
}

/// With a positive waiting time, units unstaked at `now` cannot be claimed at once; they can
/// from the end of the waiting time on, and the receipt expires no earlier than that.
pub proof fn lemma_claimable_only_after_waiting(config: StakingConfig, amount: Decimal, now: int, t: int)
    requires
        config.unstake_waiting_time > 0,
        config.unstake_expiration_time >= 0,
        i64::MIN <= now,
        now + config.unstake_waiting_time + config.unstake_expiration_time <= i64::MAX,
    ensures
        !(receipt_for(config, amount, now).claimable_at <= now),
        (receipt_for(config, amount, now).claimable_at <= t) <==> (now + config.unstake_waiting_time <= t),
        receipt_for(config, amount, now).created_at < receipt_for(config, amount, now).claimable_at
            <= receipt_for(config, amount, now).expires_at,
{
}

/// The value a refinancing owes back for `amount` taken at `price`: that value less the
/// refinance bonus.
pub open spec fn refinance_value(amount: int, price: int, bonus_rate: int) -> int {
    dec_mul(dec_mul(amount, price), dec_scale() - bonus_rate)
}

/// The record handed out with the resource taken to refinance position `cdp_id` of
/// market `market_comp_index`.
pub fn refinance_withdrawal(
    config: &StakingConfig,
    amount: Decimal,
    price: Decimal,
    market_comp_index: u8,
    cdp_id: u64,
) -> (r: StakeResWithdrawalData)
    requires
        in_dec_range(dec_mul(amount@, price@)),
        in_dec_range(dec_scale() - config.refinance_bonus_rate@),
        in_dec_range(refinance_value(amount@, price@, config.refinance_bonus_rate@)),
    ensures
        r.value@ == refinance_value(amount@, price@, config.refinance_bonus_rate@),
        r.usage == StakeResWithdrawalUse::Refinance(market_comp_index, cdp_id),
{
    let value = amount.times(&price);
    let share = Decimal::one().minus(&config.refinance_bonus_rate);
    StakeResWithdrawalData {
        value: value.times(&share),
        usage: StakeResWithdrawalUse::Refinance(market_comp_index, cdp_id),
    }
}

/// The market and position a refinancing record is for.
///
/// *Error*
/// - If the record is not one of a refinancing
pub fn refinance_target(record: &StakeResWithdrawalData) -> (r: Result<(u8, u64), String>)
    ensures
        r is Ok <==> record.usage is Refinance,
        r matches Ok((m, c)) ==> record.usage == StakeResWithdrawalUse::Refinance(m, c),
        r matches Err(e) ==> e@ == "Invalid withdrawal transient provided"@,
{
    match record.usage {
        StakeResWithdrawalUse::Refinance(market_comp_index, cdp_id) => Ok((market_comp_index, cdp_id)),
        _ => Err("Invalid withdrawal transient provided".to_owned()),
    }
}

/// The gap between a payment's value and the expected value, relative to the payment.
pub open spec fn refinance_gap(payment_value: int, expected: int) -> int {
    abs(dec_div(payment_value - expected, payment_value))
}

/// Checks that a refinancing paid back the expected value, within the refinance bonus rate
/// of the payment.
pub fn check_refinance_payment(
    config: &StakingConfig,
    payment_value: Decimal,
    expected_payment_value: Decimal,
) -> (r: Result<(), String>)
    requires
        payment_value@ != 0,
        in_dec_range(payment_value@ - expected_payment_value@),
        in_dec_range(dec_div(payment_value@ - expected_payment_value@, payment_value@)),
        in_dec_range(refinance_gap(payment_value@, expected_payment_value@)),
    ensures
        r is Ok <==> refinance_gap(payment_value@, expected_payment_value@)
            <= config.refinance_bonus_rate@,
        r matches Err(e) ==> e@ == "Payment value is not equal to expected payment value"@,
{
    let gap = payment_value.minus(&expected_payment_value).over(&payment_value);
    let zero = Decimal::zero();
    let gap = if gap.less_than(&zero) {
        gap.negated()
    } else {
        gap
    };
    if !gap.less_eq(&config.refinance_bonus_rate) {
        return Err("Payment value is not equal to expected payment value".to_owned());
    }
    Ok(())
}

} // verus!
