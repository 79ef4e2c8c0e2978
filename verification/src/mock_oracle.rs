//! A stand-in for the Supra oracle, answering fixed data.
pub use crate::price_feed::PriceData;
use crate::price_feed::DerivedData;
use vstd::prelude::*;

verus! {

/// The stand-in oracle.
#[derive(Clone, Copy, Debug)]
pub struct MockSupraOracle {}

impl MockSupraOracle {
    pub fn instantiate() -> (r: MockSupraOracle) {
        MockSupraOracle {}
    }

    /// The data of any proof: one XRD/USDT price of 0.042 (pair 276, integer 42 with 3
    /// decimal places).
    pub fn verify_proofs_and_get_data(&self, _data: Vec<u8>) -> (r: Vec<PriceData>)
        ensures
            r@ == seq![
                PriceData { pair_index: 276, price: 42, timestamp: 1710168675, round: 0, decimal: 3 },
            ],
    {
        vec![PriceData { pair_index: 276, price: 42, timestamp: 1710168675, round: 0, decimal: 3 }]
    }

    /// The derivation of any two pairs: a price of 1.
    pub fn get_derived_svalue(&self, _pair_id_1: u32, _pair_id_2: u32, _operation: u32) -> (r:
        DerivedData)
        ensures
            r == (DerivedData { decimal: 0, derived_price: 1, round_difference: 0 }),
    {
        DerivedData { decimal: 0, derived_price: 1, round_difference: 0 }
    }
}

} // verus!
