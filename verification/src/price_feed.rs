//! The price feed's rules: turning oracle data into prices, by a pair's own price
//! (or its inverse) or by the product of derived pair prices.
use crate::address::ResourceAddress;
use crate::decimal::{dec_div, dec_scale, Decimal};
use crate::maps::{
    inserted, keys_unique, lemma_lookup_inserted, lemma_lookup_swap_removed, lookup, price_entries,
    prices_get, prices_insert, prices_new, prices_swap_remove, swap_removed, PriceMap,
};
use crate::modules::utils::PriceInfo;
use vstd::prelude::*;

verus! {

/// 10 to the power `n`.
pub open spec fn pow10(n: nat) -> int
    decreases n,
{
    if n == 0 {
        1
    } else {
        10 * pow10((n - 1) as nat)
    }
}

/// A price as the oracle reports it: an integer with `decimal` decimal places.
#[derive(Clone, Copy, Debug)]
pub struct PriceData {
    pub pair_index: u32,
    pub price: u128,
    pub timestamp: u64,
    pub round: u64,
    pub decimal: u16,
}

/// The `Decimal` integer of an oracle price: its integer over 10 to its decimal places,
/// truncated to 18 places.
pub open spec fn decimal_price(d: PriceData) -> int {
    (d.price * dec_scale()) / pow10(d.decimal as nat)
}

proof fn lemma_pow10_bounds(n: nat)
    requires
        n <= 9,
    ensures
        1 <= pow10(n) <= 1_000_000_000,
{
    assert(pow10(0) == 1);
    assert(pow10(1) == 10);
    assert(pow10(2) == 100);
    assert(pow10(3) == 1_000);
    assert(pow10(4) == 10_000);
    assert(pow10(5) == 100_000);
    assert(pow10(6) == 1_000_000);
    assert(pow10(7) == 10_000_000);
    assert(pow10(8) == 100_000_000);
    assert(pow10(9) == 1_000_000_000);
    assert(n == 0 || n == 1 || n == 2 || n == 3 || n == 4 || n == 5 || n == 6 || n == 7 || n == 8
        || n == 9);
}

impl PriceData {
    /// The price as a `Decimal`.
    pub fn to_decimal_price(&self) -> (r: Decimal)
        requires
            self.decimal <= 9,
        ensures
            r@ == decimal_price(*self),
    {
        let mut divisor: i64 = 1;
        let mut k: u16 = 0;
        proof {
            lemma_pow10_bounds(self.decimal as nat);
        }
        while k < self.decimal
            invariant
                k <= self.decimal <= 9,
                divisor == pow10(k as nat),
                1 <= pow10(self.decimal as nat) <= 1_000_000_000,
            decreases self.decimal - k,
        {
            proof {
                lemma_pow10_bounds((k + 1) as nat);
            }
            divisor = divisor * 10;
            k = k + 1;
        }
        let price = Decimal::from_u128(self.price);
        let divisor = Decimal::from_int(divisor);
        let ghost p: int = self.price * dec_scale();
        let ghost q: int = pow10(self.decimal as nat);
        proof {
            vstd::arithmetic::div_mod::lemma_div_multiples_vanish_quotient(dec_scale(), p, q);
            assert(p * dec_scale() == dec_scale() * p) by (nonlinear_arith);
            assert(q * dec_scale() == dec_scale() * q) by (nonlinear_arith);
            assert(0 <= p / q <= p) by (nonlinear_arith)
                requires
                    0 <= p,
                    1 <= q,
            ;
            assert(p < 0x1_0000_0000_0000_0000_0000_0000_0000_0000 * dec_scale()) by (nonlinear_arith)
                requires
                    p == self.price * dec_scale(),
                    self.price < 0x1_0000_0000_0000_0000_0000_0000_0000_0000,
            ;
        }
        price.over(&divisor)
    }
}

/// What the oracle derives for a pair of pairs.
#[derive(Clone, Copy, Debug)]
pub struct DerivedData {
    pub round_difference: i64,
    pub derived_price: u128,
    pub decimal: u16,
}

/// How the feed prices a resource from the oracle.
#[derive(Clone, Debug)]
pub enum PriceFeedStrategy {
    /// The product of the prices derived for these pairs: first pair, second pair,
    /// operation (0 = multiplication, 1 = division)
    DataPairs(Vec<(u32, u32, u32)>),
    /// A pair's price read directly: pair index, operation (0 = as is, 1 = inverse)
    PriceInfo(u32, u32),
}

/// The product of the derived prices, in order.
pub open spec fn derived_product(s: Seq<DerivedData>) -> int
    decreases s.len(),
{
    if s.len() == 0 {
        1
    } else {
        derived_product(s.drop_last()) * s.last().derived_price
    }
}

/// The price from derived pair prices: their product, as a whole number, dated `now`.
pub fn data_pairs_price(derived: &Vec<DerivedData>, now: i64) -> (r: PriceInfo)
    requires
        forall|i: int| 0 <= i <= derived.len() ==> #[trigger] derived_product(derived@.take(i)) <= u128::MAX,
    ensures
        r.price@ == derived_product(derived@) * dec_scale(),
        r.timestamp == now,
{
    let mut acc: u128 = 1;
    let mut i: usize = 0;
    assert(derived@.take(0) =~= Seq::<DerivedData>::empty());
    while i < derived.len()
        invariant
            0 <= i <= derived.len(),
            acc == derived_product(derived@.take(i as int)),
            forall|j: int| 0 <= j <= derived.len() ==> #[trigger] derived_product(derived@.take(j)) <= u128::MAX,
        decreases derived.len() - i,
    {
        assert(derived@.take(i + 1).drop_last() =~= derived@.take(i as int));
        assert(derived@.take(i + 1).last() == derived@[i as int]);
        assert(derived_product(derived@.take(i + 1)) <= u128::MAX);
        acc = acc * derived[i].derived_price;
        i = i + 1;
    }
    assert(derived@.take(derived.len() as int) =~= derived@);
    PriceInfo { timestamp: now, price: Decimal::from_u128(acc) }
}

/// Whether some entry is for pair `pair_index`.
pub open spec fn has_pair(s: Seq<PriceData>, pair_index: u32) -> bool {
    exists|i: int| 0 <= i < s.len() && s[i].pair_index == pair_index
}

/// The position of the first entry for pair `pair_index`, where there is one.
pub open spec fn first_pair(s: Seq<PriceData>, pair_index: u32) -> int {
    choose|i: int|
        0 <= i < s.len() && s[i].pair_index == pair_index && forall|j: int|
            0 <= j < i ==> s[j].pair_index != pair_index
}

/// A pair's price, or its inverse (one over it) for operation 1.
pub open spec fn pair_price(d: PriceData, operation: u32) -> int {
    if operation == 1 {
        dec_div(dec_scale(), decimal_price(d))
    } else {
        decimal_price(d)
    }
}

/// Whether a pair's price can be taken: few enough decimal places, and not zero where
/// it is inverted.
pub open spec fn pair_price_computable(d: PriceData, operation: u32) -> bool {
    &&& d.decimal <= 9
    &&& operation == 1 ==> d.price != 0
}

proof fn lemma_first_pair(s: Seq<PriceData>, pair_index: u32, k: int)
    requires
        0 <= k < s.len(),
        s[k].pair_index == pair_index,
        forall|j: int| 0 <= j < k ==> s[j].pair_index != pair_index,
    ensures
        has_pair(s, pair_index),
        first_pair(s, pair_index) == k,
{
    let f = first_pair(s, pair_index);
    assert(0 <= k < s.len() && s[k].pair_index == pair_index && forall|j: int|
        0 <= j < k ==> s[j].pair_index != pair_index);
    if f < k {
        assert(s[f].pair_index != pair_index);
    } else if f > k {
        assert(s[k].pair_index != pair_index);
    }
}

/// The price of pair `pair_index` from the oracle's data, dated `now`: the first entry
/// for that pair, inverted for operation 1; none when no entry is for that pair.
pub fn price_info_price(data: &Vec<PriceData>, pair_index: u32, operation: u32, now: i64) -> (r:
    Option<PriceInfo>)
    requires
        has_pair(data@, pair_index) ==> pair_price_computable(
            data@[first_pair(data@, pair_index)],
            operation,
        ),
    ensures
        r is Some <==> has_pair(data@, pair_index),
        r matches Some(p) ==> p.timestamp == now && p.price@ == pair_price(
            data@[first_pair(data@, pair_index)],
            operation,
        ),
{
    let mut i: usize = 0;
    while i < data.len()
        invariant
            0 <= i <= data.len(),
            forall|j: int| 0 <= j < i ==> data@[j].pair_index != pair_index,
            has_pair(data@, pair_index) ==> pair_price_computable(
                data@[first_pair(data@, pair_index)],
                operation,
            ),
        decreases data.len() - i,
    {
        if data[i].pair_index == pair_index {
            proof {
                lemma_first_pair(data@, pair_index, i as int);
            }
            let d = data[i];
            let price = d.to_decimal_price();
            if operation == 1 {
                proof {
                    lemma_pow10_bounds(d.decimal as nat);
                    let p: int = d.price * dec_scale();
                    let q: int = pow10(d.decimal as nat);
                    assert(p >= dec_scale()) by (nonlinear_arith)
                        requires
                            p == d.price * dec_scale(),
                            d.price >= 1,
                    ;
                    assert(p / q >= 1) by (nonlinear_arith)
                        requires
                            p >= dec_scale(),
                            1 <= q <= 1_000_000_000,
                            dec_scale() == 1_000_000_000_000_000_000,
                    ;
                    let x: int = price@;
                    assert(dec_scale() * dec_scale() / x <= dec_scale() * dec_scale()) by (
                    nonlinear_arith)
                        requires
                            x >= 1,
                    ;
                }
                let inverse = Decimal::one().over(&price);
                return Some(PriceInfo { timestamp: now, price: inverse });
            }
            return Some(PriceInfo { timestamp: now, price });
        }
        i = i + 1;
    }
    None
}

/// The prices the feed holds itself, set by its admin or an updater, and the count of
/// updater badges minted.
pub struct PriceFeed {
    prices: PriceMap,
    updater_counter: u64,
}

impl PriceFeed {
    /// The stored prices, in the order their resources were first set.
    pub closed spec fn prices(&self) -> Seq<(ResourceAddress, PriceInfo)> {
        price_entries(self.prices)
    }

    /// The number of updater badges minted so far.
    pub closed spec fn minted(&self) -> u64 {
        self.updater_counter
    }

    /// A feed with no prices and no badges minted.
    pub fn instantiate() -> (r: PriceFeed)
        ensures
            r.prices() == Seq::<(ResourceAddress, PriceInfo)>::empty(),
            keys_unique(r.prices()),
            r.minted() == 0,
    {
        PriceFeed { prices: prices_new(), updater_counter: 0 }
    }

    /// The id of the next updater badge: one more than the badges minted so far.
    pub fn mint_updater_badge(&mut self) -> (r: u64)
        requires
            old(self).minted() < u64::MAX,
        ensures
            r == old(self).minted() + 1,
            final(self).minted() == r,
            final(self).prices() == old(self).prices(),
    {
        self._get_new_id()
    }

    fn _get_new_id(&mut self) -> (r: u64)
        requires
            old(self).minted() < u64::MAX,
        ensures
            r == old(self).minted() + 1,
            final(self).minted() == r,
            final(self).prices() == old(self).prices(),
    {
        self.updater_counter = self.updater_counter + 1;
        self.updater_counter
    }

    /// Sets the price of `resource`, dated `now`.
    pub fn admin_update_price(&mut self, resource: ResourceAddress, price: Decimal, now: i64)
        ensures
            final(self).prices() == inserted(
                old(self).prices(),
                resource,
                PriceInfo { timestamp: now, price },
            ),
            keys_unique(old(self).prices()),
            keys_unique(final(self).prices()),
            lookup(final(self).prices(), resource) == Some(PriceInfo { timestamp: now, price }),
            forall|other: ResourceAddress|
                other != resource ==> #[trigger] lookup(final(self).prices(), other) == lookup(
                    old(self).prices(),
                    other,
                ),
            final(self).minted() == old(self).minted(),
    {
        let ghost before = price_entries(self.prices);
        let info = PriceInfo { timestamp: now, price };
        prices_insert(&mut self.prices, resource, info);
        proof {
            assert forall|other: ResourceAddress| other != resource implies #[trigger] lookup(
                price_entries(self.prices),
                other,
            ) == lookup(before, other) by {
                lemma_lookup_inserted(before, resource, info, other);
            }
            lemma_lookup_inserted(before, resource, info, resource);
        }
    }

    /// Forgets the price of `resource`.
    pub fn admin_remove_price(&mut self, resource: ResourceAddress)
        ensures
            final(self).prices() == swap_removed(old(self).prices(), resource),
            keys_unique(old(self).prices()),
            keys_unique(final(self).prices()),
            lookup(final(self).prices(), resource) is None,
            forall|other: ResourceAddress|
                other != resource ==> #[trigger] lookup(final(self).prices(), other) == lookup(
                    old(self).prices(),
                    other,
                ),
            final(self).minted() == old(self).minted(),
    {
        let ghost before = price_entries(self.prices);
        prices_swap_remove(&mut self.prices, &resource);
        proof {
            assert forall|other: ResourceAddress| other != resource implies #[trigger] lookup(
                price_entries(self.prices),
                other,
            ) == lookup(before, other) by {
                lemma_lookup_swap_removed(before, resource, other);
            }
            lemma_lookup_swap_removed(before, resource, resource);
        }
    }

    /// Sets the price of `resource`, dated `now`, for an updater; the updater's badge must
    /// be `active` (see `updater_refusal`, which tells the caller when it is not).
    pub fn update_price(&mut self, active: bool, resource: ResourceAddress, price: Decimal, now: i64)
        requires
            active,
        ensures
            final(self).prices() == inserted(old(self).prices(), resource, PriceInfo { timestamp: now, price }),
            lookup(final(self).prices(), resource) == Some(PriceInfo { timestamp: now, price }),
            forall|other: ResourceAddress|
                other != resource ==> #[trigger] lookup(final(self).prices(), other) == lookup(
                    old(self).prices(),
                    other,
                ),
            final(self).minted() == old(self).minted(),
    {
        self.admin_update_price(resource, price, now);
    }

    /// The price the feed holds for `quote`, if any.
    pub fn stored_price(&self, quote: &ResourceAddress) -> (r: Option<PriceInfo>)
        ensures
            r == lookup(self.prices(), *quote),
    {
        prices_get(&self.prices, quote)
    }

    /// What the feed answers for `quote`: its own price when it holds one, otherwise what its
    /// oracle strategy gave (`from_oracle`, none when the resource has no strategy).
    pub fn get_price(&self, quote: &ResourceAddress, from_oracle: Option<PriceInfo>) -> (r: Option<
        PriceInfo,
    >)
        ensures
            r == match lookup(self.prices(), *quote) {
                Some(p) => Some(p),
                None => from_oracle,
            },
    {
        match self.stored_price(quote) {
            Some(price_info) => Some(price_info),
            None => from_oracle,
        }
    }
}

/// Why an updater may not set a price: its badge is not active.
pub fn updater_refusal(active: bool) -> (r: Result<(), String>)
    ensures
        r is Ok <==> active,
        r matches Err(e) ==> e@ == "Updater badge is not active."@,
{
    if !active {
        return Err("Updater badge is not active.".to_owned());
    }
    Ok(())
}

/// A price set for a resource is the price the feed then answers for it, whatever the oracle
/// says; other resources keep their answers.
pub proof fn lemma_price_read_after_update(
    before: PriceFeed,
    after: PriceFeed,
    resource: ResourceAddress,
    price: Decimal,
    now: i64,
    other: ResourceAddress,
)
    requires
        keys_unique(before.prices()),
        after.prices() == inserted(before.prices(), resource, PriceInfo { timestamp: now, price }),
    ensures
        lookup(after.prices(), resource) == Some(PriceInfo { timestamp: now, price }),
        other != resource ==> lookup(after.prices(), other) == lookup(before.prices(), other),
{
    lemma_lookup_inserted(before.prices(), resource, PriceInfo { timestamp: now, price }, other);
}

/// A removed price is no longer held, so the feed falls back to its oracle for that resource;
/// other resources keep their prices.
pub proof fn lemma_price_removed(
    before: PriceFeed,
    after: PriceFeed,
    resource: ResourceAddress,
    other: ResourceAddress,
)
    requires
        keys_unique(before.prices()),
        after.prices() == swap_removed(before.prices(), resource),
    ensures
        lookup(after.prices(), resource) is None,
        other != resource ==> lookup(after.prices(), other) == lookup(before.prices(), other),
{
    lemma_lookup_swap_removed(before.prices(), resource, other);
}

} // verus!
