//! Insertion-ordered maps of `indexmap`, as the market's records keep them.
//!
//! Each map is seen through the sequence of its entries in insertion order.
//! The facts below are those `indexmap` documents: `insert` on a present key
//! updates its value in place, on an absent key appends; `swap_remove` moves
//! the last entry into the removed one's place; keys never repeat. The wrappers
//! that write (`insert`, `swap_remove`) state that last fact of the map before and
//! after the write; those that only read (`len`, `get`, `get_index`) leave it
//! unsaid.
use crate::address::ResourceAddress;
use crate::decimal::{Decimal, PreciseDecimal};
use crate::modules::utils::PriceInfo;
use indexmap::IndexMap;
use vstd::prelude::*;

verus! {

#[verifier::external_type_specification]
#[verifier::external_body]
#[verifier::reject_recursive_types(K)]
#[verifier::reject_recursive_types(V)]
#[verifier::reject_recursive_types(S)]
pub struct ExIndexMap<K, V, S>(IndexMap<K, V, S>);

/// Whether some entry has key `k`.
pub open spec fn has_key<K, V>(s: Seq<(K, V)>, k: K) -> bool {
    exists|i: int| 0 <= i < s.len() && s[i].0 == k
}

/// Whether no two entries share a key.
pub open spec fn keys_unique<K, V>(s: Seq<(K, V)>) -> bool {
    forall|i: int, j: int| 0 <= i < s.len() && 0 <= j < s.len() && i != j ==> s[i].0 != s[j].0
}

/// The value of the entry with key `k`, if any.
pub open spec fn lookup<K, V>(s: Seq<(K, V)>, k: K) -> Option<V> {
    if has_key(s, k) {
        Some(s[choose|i: int| 0 <= i < s.len() && s[i].0 == k].1)
    } else {
        None
    }
}

/// The entries after inserting `(k, v)`: in place when `k` is present, last otherwise.
pub open spec fn inserted<K, V>(s: Seq<(K, V)>, k: K, v: V) -> Seq<(K, V)> {
    if has_key(s, k) {
        s.update(choose|i: int| 0 <= i < s.len() && s[i].0 == k, (k, v))
    } else {
        s.push((k, v))
    }
}

/// The entries after removing key `k`, the last entry taking its place.
pub open spec fn swap_removed<K, V>(s: Seq<(K, V)>, k: K) -> Seq<(K, V)> {
    if has_key(s, k) {
        s.update(choose|i: int| 0 <= i < s.len() && s[i].0 == k, s.last()).drop_last()
    } else {
        s
    }
}

/// With distinct keys, the entry found for a key is the one at its index.
pub proof fn lemma_lookup_at<K, V>(s: Seq<(K, V)>, i: int)
    requires
        keys_unique(s),
        0 <= i < s.len(),
    ensures
        has_key(s, s[i].0),
        (choose|j: int| 0 <= j < s.len() && s[j].0 == s[i].0) == i,
        lookup(s, s[i].0) == Some(s[i].1),
{
    assert(0 <= i < s.len() && s[i].0 == s[i].0);
}

/// Inserting `(k, v)` into entries with distinct keys keeps them distinct, and `k` then
/// finds `v`, every other key what it found before.
pub proof fn lemma_lookup_inserted<K, V>(s: Seq<(K, V)>, k: K, v: V, other: K)
    requires
        keys_unique(s),
    ensures
        keys_unique(inserted(s, k, v)),
        lookup(inserted(s, k, v), k) == Some(v),
        other != k ==> lookup(inserted(s, k, v), other) == lookup(s, other),
{
    let t = inserted(s, k, v);
    if has_key(s, k) {
        let i = choose|i: int| 0 <= i < s.len() && s[i].0 == k;
        assert(t[i].0 == k);
        lemma_lookup_at(t, i);
        if has_key(s, other) && other != k {
            let j = choose|j: int| 0 <= j < s.len() && s[j].0 == other;
            lemma_lookup_at(s, j);
            assert(t[j] == s[j]);
            lemma_lookup_at(t, j);
        }
        if !has_key(s, other) && other != k {
            assert forall|j: int| 0 <= j < t.len() implies t[j].0 != other by {
                if j != i {
                    assert(t[j] == s[j]);
                }
            }
        }
    } else {
        assert forall|a: int, b: int| 0 <= a < t.len() && 0 <= b < t.len() && a != b implies t[a].0
            != t[b].0 by {
            if a == s.len() as int {
                assert(t[b] == s[b]);
            } else if b == s.len() as int {
                assert(t[a] == s[a]);
            } else {
                assert(t[a] == s[a] && t[b] == s[b]);
            }
        }
        lemma_lookup_at(t, s.len() as int);
        if has_key(s, other) && other != k {
            let j = choose|j: int| 0 <= j < s.len() && s[j].0 == other;
            lemma_lookup_at(s, j);
            assert(t[j] == s[j]);
            lemma_lookup_at(t, j);
        }
        if !has_key(s, other) && other != k {
            assert forall|j: int| 0 <= j < t.len() implies t[j].0 != other by {
                if j < s.len() {
                    assert(t[j] == s[j]);
                }
            }
        }
    }
}

/// Removing `k` from entries with distinct keys keeps them distinct; `k` then finds
/// nothing, every other key what it found before.
pub proof fn lemma_lookup_swap_removed<K, V>(s: Seq<(K, V)>, k: K, other: K)
    requires
        keys_unique(s),
    ensures
        keys_unique(swap_removed(s, k)),
        lookup(swap_removed(s, k), k) is None,
        other != k ==> lookup(swap_removed(s, k), other) == lookup(s, other),
{
    let t = swap_removed(s, k);
    if has_key(s, k) {
        let i = choose|i: int| 0 <= i < s.len() && s[i].0 == k;
        let last = s.len() - 1;
        assert forall|j: int| 0 <= j < t.len() implies t[j] == (if j == i { s[last] } else { s[j] }) by {}
        assert forall|a: int, b: int| 0 <= a < t.len() && 0 <= b < t.len() && a != b implies t[a].0
            != t[b].0 by {
            if a == i {
                assert(t[b] == s[b]);
            } else if b == i {
                assert(t[a] == s[a]);
            } else {
                assert(t[a] == s[a] && t[b] == s[b]);
            }
        }
        assert forall|j: int| 0 <= j < t.len() implies t[j].0 != k by {
            if j == i {
                assert(last != i);
            } else {
                assert(t[j] == s[j]);
            }
        }
        if other != k && has_key(s, other) {
            let j = choose|j: int| 0 <= j < s.len() && s[j].0 == other;
            lemma_lookup_at(s, j);
            if j == last {
                assert(t[i] == s[last]);
                lemma_lookup_at(t, i);
            } else {
                assert(j != i);
                assert(t[j] == s[j]);
                lemma_lookup_at(t, j);
            }
        }
        if other != k && !has_key(s, other) {
            assert forall|j: int| 0 <= j < t.len() implies t[j].0 != other by {
                if j == i {
                    assert(s[last].0 != other);
                } else {
                    assert(t[j] == s[j]);
                }
            }
        }
    }
}

/// Map from resources to rates.
pub type ResourceRates = IndexMap<ResourceAddress, Decimal>;

/// The entries of a map from resources to rates, in insertion order.
pub uninterp spec fn resource_rate_entries(m: ResourceRates) -> Seq<(ResourceAddress, Decimal)>;

/// `IndexMap::new`: no entries.
#[verifier::external_body]
pub(crate) fn resource_rates_new() -> (r: ResourceRates)
    ensures
        resource_rate_entries(r) == Seq::<(ResourceAddress, Decimal)>::empty(),
{
    IndexMap::new()
}

/// `IndexMap::len`: the number of entries.
#[verifier::external_body]
pub(crate) fn resource_rates_len(m: &ResourceRates) -> (r: usize)
    ensures
        r == resource_rate_entries(*m).len(),
{
    m.len()
}

/// `IndexMap::get`: the value stored for `k`.
#[verifier::external_body]
pub(crate) fn resource_rates_get(m: &ResourceRates, k: &ResourceAddress) -> (r: Option<Decimal>)
    ensures
        r == lookup(resource_rate_entries(*m), *k),
{
    m.get(k).copied()
}

/// `IndexMap::get_index`: the entry at position `i`.
#[verifier::external_body]
pub(crate) fn resource_rates_get_index(m: &ResourceRates, i: usize) -> (r: (ResourceAddress, Decimal))
    requires
        i < resource_rate_entries(*m).len(),
    ensures
        r == resource_rate_entries(*m)[i as int],
{
    let (k, v) = m.get_index(i).unwrap();
    (*k, *v)
}

/// `IndexMap::insert`: sets the value of `k`, in place or as a new last entry;
/// gives back the value it replaced.
#[verifier::external_body]
pub(crate) fn resource_rates_insert(m: &mut ResourceRates, k: ResourceAddress, v: Decimal) -> (r: Option<Decimal>)
    ensures
        resource_rate_entries(*final(m)) == inserted(resource_rate_entries(*old(m)), k, v),
        r == lookup(resource_rate_entries(*old(m)), k),
        keys_unique(resource_rate_entries(*old(m))),
        keys_unique(resource_rate_entries(*final(m))),
{
    m.insert(k, v)
}

/// `IndexMap::swap_remove`: drops the entry of `k`, the last entry taking its place;
/// gives back the value it held.
#[verifier::external_body]
pub(crate) fn resource_rates_swap_remove(m: &mut ResourceRates, k: &ResourceAddress) -> (r: Option<Decimal>)
    ensures
        resource_rate_entries(*final(m)) == swap_removed(resource_rate_entries(*old(m)), *k),
        r == lookup(resource_rate_entries(*old(m)), *k),
        keys_unique(resource_rate_entries(*old(m))),
        keys_unique(resource_rate_entries(*final(m))),
{
    m.swap_remove(k)
}

/// `IndexMap::clone`: the same entries.
#[verifier::external_body]
pub(crate) fn resource_rates_clone(m: &ResourceRates) -> (r: ResourceRates)
    ensures
        resource_rate_entries(r) == resource_rate_entries(*m) && keys_unique(resource_rate_entries(r)),
{
    m.clone()
}

/// Map from asset types to rates.
pub type AssetTypeRates = IndexMap<u8, Decimal>;

/// The entries of a map from asset types to rates, in insertion order.
pub uninterp spec fn asset_type_rate_entries(m: AssetTypeRates) -> Seq<(u8, Decimal)>;

/// `IndexMap::new`: no entries.
#[verifier::external_body]
pub(crate) fn asset_type_rates_new() -> (r: AssetTypeRates)
    ensures
        asset_type_rate_entries(r) == Seq::<(u8, Decimal)>::empty(),
{
    IndexMap::new()
}

/// `IndexMap::len`: the number of entries.
#[verifier::external_body]
pub(crate) fn asset_type_rates_len(m: &AssetTypeRates) -> (r: usize)
    ensures
        r == asset_type_rate_entries(*m).len(),
{
    m.len()
}

/// `IndexMap::get`: the value stored for `k`.
#[verifier::external_body]
pub(crate) fn asset_type_rates_get(m: &AssetTypeRates, k: &u8) -> (r: Option<Decimal>)
    ensures
        r == lookup(asset_type_rate_entries(*m), *k),
{
    m.get(k).copied()
}

/// `IndexMap::get_index`: the entry at position `i`.
#[verifier::external_body]
pub(crate) fn asset_type_rates_get_index(m: &AssetTypeRates, i: usize) -> (r: (u8, Decimal))
    requires
        i < asset_type_rate_entries(*m).len(),
    ensures
        r == asset_type_rate_entries(*m)[i as int],
{
    let (k, v) = m.get_index(i).unwrap();
    (*k, *v)
}

/// `IndexMap::insert`: sets the value of `k`, in place or as a new last entry;
/// gives back the value it replaced.
#[verifier::external_body]
pub(crate) fn asset_type_rates_insert(m: &mut AssetTypeRates, k: u8, v: Decimal) -> (r: Option<Decimal>)
    ensures
        asset_type_rate_entries(*final(m)) == inserted(asset_type_rate_entries(*old(m)), k, v),
        r == lookup(asset_type_rate_entries(*old(m)), k),
        keys_unique(asset_type_rate_entries(*old(m))),
        keys_unique(asset_type_rate_entries(*final(m))),
{
    m.insert(k, v)
}

/// `IndexMap::swap_remove`: drops the entry of `k`, the last entry taking its place;
/// gives back the value it held.
#[verifier::external_body]
pub(crate) fn asset_type_rates_swap_remove(m: &mut AssetTypeRates, k: &u8) -> (r: Option<Decimal>)
    ensures
        asset_type_rate_entries(*final(m)) == swap_removed(asset_type_rate_entries(*old(m)), *k),
        r == lookup(asset_type_rate_entries(*old(m)), *k),
        keys_unique(asset_type_rate_entries(*old(m))),
        keys_unique(asset_type_rate_entries(*final(m))),
{
    m.swap_remove(k)
}

/// `IndexMap::clone`: the same entries.
#[verifier::external_body]
pub(crate) fn asset_type_rates_clone(m: &AssetTypeRates) -> (r: AssetTypeRates)
    ensures
        asset_type_rate_entries(r) == asset_type_rate_entries(*m) && keys_unique(asset_type_rate_entries(r)),
{
    m.clone()
}

/// Map from resources to unit amounts.
pub type UnitMap = IndexMap<ResourceAddress, PreciseDecimal>;

/// The entries of a map from resources to unit amounts, in insertion order.
pub uninterp spec fn unit_entries(m: UnitMap) -> Seq<(ResourceAddress, PreciseDecimal)>;

/// `IndexMap::len`: the number of entries.
#[verifier::external_body]
pub(crate) fn units_len(m: &UnitMap) -> (r: usize)
    ensures
        r == unit_entries(*m).len(),
{
    m.len()
}

/// `IndexMap::get`: the value stored for `k`.
#[verifier::external_body]
pub(crate) fn units_get(m: &UnitMap, k: &ResourceAddress) -> (r: Option<PreciseDecimal>)
    ensures
        r == lookup(unit_entries(*m), *k),
{
    m.get(k).copied()
}

/// `IndexMap::get_index`: the entry at position `i`.
#[verifier::external_body]
pub(crate) fn units_get_index(m: &UnitMap, i: usize) -> (r: (ResourceAddress, PreciseDecimal))
    requires
        i < unit_entries(*m).len(),
    ensures
        r == unit_entries(*m)[i as int],
{
    let (k, v) = m.get_index(i).unwrap();
    (*k, *v)
}

/// `IndexMap::insert`: sets the value of `k`, in place or as a new last entry;
/// gives back the value it replaced.
#[verifier::external_body]
pub(crate) fn units_insert(m: &mut UnitMap, k: ResourceAddress, v: PreciseDecimal) -> (r: Option<PreciseDecimal>)
    ensures
        unit_entries(*final(m)) == inserted(unit_entries(*old(m)), k, v),
        r == lookup(unit_entries(*old(m)), k),
        keys_unique(unit_entries(*old(m))),
        keys_unique(unit_entries(*final(m))),
{
    m.insert(k, v)
}

/// `IndexMap::swap_remove`: drops the entry of `k`, the last entry taking its place;
/// gives back the value it held.
#[verifier::external_body]
pub(crate) fn units_swap_remove(m: &mut UnitMap, k: &ResourceAddress) -> (r: Option<PreciseDecimal>)
    ensures
        unit_entries(*final(m)) == swap_removed(unit_entries(*old(m)), *k),
        r == lookup(unit_entries(*old(m)), *k),
        keys_unique(unit_entries(*old(m))),
        keys_unique(unit_entries(*final(m))),
{
    m.swap_remove(k)
}

/// `IndexMap::clone`: the same entries.
#[verifier::external_body]
pub(crate) fn units_clone(m: &UnitMap) -> (r: UnitMap)
    ensures
        unit_entries(r) == unit_entries(*m) && keys_unique(unit_entries(r)),
{
    m.clone()
}

/// `IndexMap::clear`: no entries left.
#[verifier::external_body]
pub(crate) fn units_clear(m: &mut UnitMap)
    ensures
        unit_entries(*final(m)) == Seq::<(ResourceAddress, PreciseDecimal)>::empty(),
{
    m.clear()
}

/// Map from resources to their latest prices.
pub type PriceMap = IndexMap<ResourceAddress, PriceInfo>;

/// The entries of a map from resources to prices, in insertion order.
pub uninterp spec fn price_entries(m: PriceMap) -> Seq<(ResourceAddress, PriceInfo)>;

/// `IndexMap::new`: no entries.
#[verifier::external_body]
pub(crate) fn prices_new() -> (r: PriceMap)
    ensures
        price_entries(r) == Seq::<(ResourceAddress, PriceInfo)>::empty(),
{
    IndexMap::new()
}

/// `IndexMap::get`: the value stored for `k`.
#[verifier::external_body]
pub(crate) fn prices_get(m: &PriceMap, k: &ResourceAddress) -> (r: Option<PriceInfo>)
    ensures
        r == lookup(price_entries(*m), *k),
{
    m.get(k).copied()
}

/// `IndexMap::insert`: sets the value of `k`, in place or as a new last entry;
/// gives back the value it replaced.
#[verifier::external_body]
pub(crate) fn prices_insert(m: &mut PriceMap, k: ResourceAddress, v: PriceInfo) -> (r: Option<PriceInfo>)
    ensures
        price_entries(*final(m)) == inserted(price_entries(*old(m)), k, v),
        r == lookup(price_entries(*old(m)), k),
        keys_unique(price_entries(*old(m))),
        keys_unique(price_entries(*final(m))),
{
    m.insert(k, v)
}

/// `IndexMap::swap_remove`: drops the entry of `k`, the last entry taking its place;
/// gives back the value it held.
#[verifier::external_body]
pub(crate) fn prices_swap_remove(m: &mut PriceMap, k: &ResourceAddress) -> (r: Option<PriceInfo>)
    ensures
        price_entries(*final(m)) == swap_removed(price_entries(*old(m)), *k),
        r == lookup(price_entries(*old(m)), *k),
        keys_unique(price_entries(*old(m))),
        keys_unique(price_entries(*final(m))),
{
    m.swap_remove(k)
}

} // verus!
