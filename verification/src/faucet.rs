//! The test faucet's rules: what a payment buys at oracle prices, and which of
//! the faucet's resources a request names.
use crate::address::ResourceAddress;
use crate::decimal::{dec_div, dec_mul, in_dec_range, Decimal};
use vstd::prelude::*;

verus! {

/// Checks that faucet tokens are paid for in XRD.
pub fn check_faucet_payment(paid_resource: &ResourceAddress, xrd: &ResourceAddress) -> (r: Result<
    (),
    String,
>)
    ensures
        r is Ok <==> *paid_resource == *xrd,
        r matches Err(e) ==> e@ == "Provide XRD to get faucet tokens"@,
{
    if !paid_resource.same_as(xrd) {
        return Err("Provide XRD to get faucet tokens".to_owned());
    }
    Ok(())
}

/// What `amount` of one resource buys of another: the amount times the ratio of their prices.
pub open spec fn exchanged_amount(amount: int, from_price: int, to_price: int) -> int {
    dec_mul(amount, dec_div(from_price, to_price))
}

/// The amount of the target resource given for `amount` of a resource priced `from_price`,
/// the target being priced `to_price`.
pub fn faucet_amount(amount: Decimal, from_price: Decimal, to_price: Decimal) -> (r: Decimal)
    requires
        to_price@ != 0,
        in_dec_range(dec_div(from_price@, to_price@)),
        in_dec_range(exchanged_amount(amount@, from_price@, to_price@)),
    ensures
        r@ == exchanged_amount(amount@, from_price@, to_price@),
{
    amount.times(&from_price.over(&to_price))
}

/// The position of the first of the faucet's resources that is `target`.
///
/// *Error*
/// - If the faucet has no such resource
pub fn find_resource(resources: &Vec<ResourceAddress>, target: &ResourceAddress) -> (r: Result<
    usize,
    String,
>)
    ensures
        r matches Ok(i) ==> i < resources.len() && resources@[i as int] == *target && forall|j: int|
            0 <= j < i ==> resources@[j] != *target,
        r is Err <==> forall|j: int| 0 <= j < resources.len() ==> resources@[j] != *target,
        r matches Err(e) ==> e@ == "Resource not found"@,
{
    let mut i: usize = 0;
    while i < resources.len()
        invariant
            0 <= i <= resources.len(),
            forall|j: int| 0 <= j < i ==> resources@[j] != *target,
        decreases resources.len() - i,
    {
        if resources[i].same_as(target) {
            return Ok(i);
        }
        i = i + 1;
    }
    Err("Resource not found".to_owned())
}

} // verus!
