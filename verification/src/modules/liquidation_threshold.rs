//! Liquidation thresholds: how much of a collateral's value may back a loan.
use crate::address::ResourceAddress;
use crate::decimal::Decimal;
use crate::maps::{
    asset_type_rate_entries, asset_type_rates_clone, asset_type_rates_new, asset_type_rates_get, asset_type_rates_get_index,
    asset_type_rates_insert, asset_type_rates_len, asset_type_rates_swap_remove, inserted, keys_unique,
    lemma_lookup_inserted, lemma_lookup_swap_removed, lookup,
    resource_rate_entries, resource_rates_clone, resource_rates_new, resource_rates_get, resource_rates_get_index,
    resource_rates_insert, resource_rates_len, resource_rates_swap_remove, swap_removed, AssetTypeRates,
    ResourceRates,
};
use crate::modules::market_config::check_outcome;
use crate::modules::utils::{is_valid_rate, valid_rate};
use vstd::prelude::*;

verus! {

/// Input to update liquidation threshold
#[derive(Clone, Copy, Debug)]
pub enum UpdateLiquidationThresholdInput {
    DefaultValue(Decimal),
    IdenticalResource(Option<Decimal>),
    IdenticalAssetType(Option<Decimal>),
    ResourceEntry(ResourceAddress, Option<Decimal>),
    AssetTypeEntry(u8, Option<Decimal>),
}

/// Liquidation threshold configuration
#[derive(Debug)]
pub struct LiquidationThreshold {
    /// Threshold for position having same asset in loan and as collateral
    pub identical_resource: Option<Decimal>,
    /// Threshold for position having same asset type in loan and as collateral
    pub identical_asset_type: Option<Decimal>,
    /// Threshold for a specific resource
    pub resource: ResourceRates,
    /// Threshold for a specific asset type
    pub asset_type: AssetTypeRates,
    /// Default threshold
    pub default_value: Decimal,
}

/// Whether some per-resource threshold is not a rate.
pub open spec fn some_resource_rate_invalid(s: Seq<(ResourceAddress, Decimal)>) -> bool {
    exists|i: int| 0 <= i < s.len() && !valid_rate(#[trigger] s[i].1@)
}

/// Whether some per-asset-type threshold is not a rate.
pub open spec fn some_asset_type_rate_invalid(s: Seq<(u8, Decimal)>) -> bool {
    exists|i: int| 0 <= i < s.len() && !valid_rate(#[trigger] s[i].1@)
}

impl Default for LiquidationThreshold {
    /// No identical-resource or identical-asset-type threshold, no entries, and a default
    /// threshold of zero.
    fn default() -> (r: Self)
        ensures
            r.identical_resource is None,
            r.identical_asset_type is None,
            resource_rate_entries(r.resource) == Seq::<(ResourceAddress, Decimal)>::empty(),
            asset_type_rate_entries(r.asset_type) == Seq::<(u8, Decimal)>::empty(),
            r.default_value@ == 0,
    {
        LiquidationThreshold {
            identical_resource: None,
            identical_asset_type: None,
            resource: resource_rates_new(),
            asset_type: asset_type_rates_new(),
            default_value: Decimal::zero(),
        }
    }
}

impl LiquidationThreshold {
    /// The same thresholds: equal scalars and equal entries in the same order.
    pub open spec fn same_as(self, other: LiquidationThreshold) -> bool {
        &&& self.identical_resource == other.identical_resource
        &&& self.identical_asset_type == other.identical_asset_type
        &&& resource_rate_entries(self.resource) == resource_rate_entries(other.resource)
        &&& asset_type_rate_entries(self.asset_type) == asset_type_rate_entries(other.asset_type)
        &&& self.default_value == other.default_value
    }

    /// The first rule these thresholds break, as its error message, or `None`.
    pub open spec fn error(self) -> Option<Seq<char>> {
        if !valid_rate(self.default_value@) {
            Some("Invalid liquidation threshold default value"@)
        } else if self.identical_resource matches Some(v) && !valid_rate(v@) {
            Some("Invalid liquidation threshold identical resource"@)
        } else if self.identical_asset_type matches Some(v) && !valid_rate(v@) {
            Some("Invalid liquidation threshold identical asset type"@)
        } else if some_resource_rate_invalid(resource_rate_entries(self.resource)) {
            Some("Invalid liquidation threshold resource entry"@)
        } else if some_asset_type_rate_invalid(asset_type_rate_entries(self.asset_type)) {
            Some("Invalid liquidation threshold asset type entry"@)
        } else {
            None
        }
    }

    /// The threshold for a loan in `loan_res` (of `loan_type`) backed by `coll_res` (of `coll_type`):
    /// the identical-resource threshold when both are the same resource and it is set;
    /// else the identical-asset-type threshold when set and both types agree;
    /// else the loan resource's entry, the loan asset type's entry, or the default, in that order.
    pub open spec fn ratio(
        self,
        coll_res: ResourceAddress,
        coll_type: u8,
        loan_res: ResourceAddress,
        loan_type: u8,
    ) -> int {
        if loan_res == coll_res && self.identical_resource is Some {
            self.identical_resource.unwrap()@
        } else if self.identical_asset_type is Some && loan_type == coll_type {
            self.identical_asset_type.unwrap()@
        } else {
            match lookup(resource_rate_entries(self.resource), loan_res) {
                Some(v) => v@,
                None => match lookup(asset_type_rate_entries(self.asset_type), loan_type) {
                    Some(v) => v@,
                    None => self.default_value@,
                },
            }
        }
    }

    /// The thresholds after `input` is applied, before any check.
    pub open spec fn updated(self, new: LiquidationThreshold, input: UpdateLiquidationThresholdInput) -> bool {
        let rs = resource_rate_entries(self.resource);
        let ts = asset_type_rate_entries(self.asset_type);
        let rn = resource_rate_entries(new.resource);
        let tn = asset_type_rate_entries(new.asset_type);
        &&& new.identical_resource == (match input {
            UpdateLiquidationThresholdInput::IdenticalResource(v) => v,
            _ => self.identical_resource,
        })
        &&& new.identical_asset_type == (match input {
            UpdateLiquidationThresholdInput::IdenticalAssetType(v) => v,
            _ => self.identical_asset_type,
        })
        &&& new.default_value == (match input {
            UpdateLiquidationThresholdInput::DefaultValue(v) => v,
            _ => self.default_value,
        })
        &&& rn == (match input {
            UpdateLiquidationThresholdInput::ResourceEntry(k, Some(v)) => inserted(rs, k, v),
            UpdateLiquidationThresholdInput::ResourceEntry(k, None) => swap_removed(rs, k),
            _ => rs,
        })
        &&& tn == (match input {
            UpdateLiquidationThresholdInput::AssetTypeEntry(k, Some(v)) => inserted(ts, k, v),
            UpdateLiquidationThresholdInput::AssetTypeEntry(k, None) => swap_removed(ts, k),
            _ => ts,
        })
    }

    /// A copy with the same thresholds.
    pub fn duplicate(&self) -> (r: LiquidationThreshold)
        ensures
            r.same_as(*self),
    {
        LiquidationThreshold {
            identical_resource: self.identical_resource,
            identical_asset_type: self.identical_asset_type,
            resource: resource_rates_clone(&self.resource),
            asset_type: asset_type_rates_clone(&self.asset_type),
            default_value: self.default_value,
        }
    }

    /// Perform a check on the liquidation threshold configuration
    ///
    /// *Error*
    /// - If the configuration is invalid, with the message of the first rule broken
    pub fn check(&self) -> (r: Result<(), String>)
        ensures
            check_outcome(r, self.error()),
    {
        if !is_valid_rate(self.default_value) {
            return Err("Invalid liquidation threshold default value".to_owned());
        }
        if let Some(v) = self.identical_resource {
            if !is_valid_rate(v) {
                return Err("Invalid liquidation threshold identical resource".to_owned());
            }
        }
        if let Some(v) = self.identical_asset_type {
            if !is_valid_rate(v) {
                return Err("Invalid liquidation threshold identical asset type".to_owned());
            }
        }

        let ghost rs = resource_rate_entries(self.resource);
        let n = resource_rates_len(&self.resource);
        let mut i: usize = 0;
        while i < n
            invariant
                n == rs.len(),
                rs == resource_rate_entries(self.resource),
                i <= n,
                forall|j: int| 0 <= j < i ==> valid_rate(#[trigger] rs[j].1@),
                valid_rate(self.default_value@),
                self.identical_resource matches Some(v) ==> valid_rate(v@),
                self.identical_asset_type matches Some(v) ==> valid_rate(v@),
            decreases n - i,
        {
            let (_, threshold) = resource_rates_get_index(&self.resource, i);
            if !is_valid_rate(threshold) {
                assert(!valid_rate(rs[i as int].1@));
                return Err("Invalid liquidation threshold resource entry".to_owned());
            }
            i = i + 1;
        }

        let ghost ts = asset_type_rate_entries(self.asset_type);
        let m = asset_type_rates_len(&self.asset_type);
        let mut i: usize = 0;
        while i < m
            invariant
                m == ts.len(),
                ts == asset_type_rate_entries(self.asset_type),
                i <= m,
                forall|j: int| 0 <= j < i ==> valid_rate(#[trigger] ts[j].1@),
                !some_resource_rate_invalid(rs),
                rs == resource_rate_entries(self.resource),
                valid_rate(self.default_value@),
                self.identical_resource matches Some(v) ==> valid_rate(v@),
                self.identical_asset_type matches Some(v) ==> valid_rate(v@),
            decreases m - i,
        {
            let (_, threshold) = asset_type_rates_get_index(&self.asset_type, i);
            if !is_valid_rate(threshold) {
                assert(!valid_rate(ts[i as int].1@));
                return Err("Invalid liquidation threshold asset type entry".to_owned());
            }
            i = i + 1;
        }

        Ok(())
    }

    /// The liquidation threshold for a collateral backing a loan.
    ///
    /// *Params*
    /// - `collateral_res_address`: The collateral resource address
    /// - `collateral_asset_type`: The collateral asset type
    /// - `loan_res_address`: The loan resource address
    /// - `loan_asset_type`: The loan asset type
    pub fn get_ratio(
        &self,
        collateral_res_address: ResourceAddress,
        collateral_asset_type: u8,
        loan_res_address: ResourceAddress,
        loan_asset_type: u8,
    ) -> (r: Decimal)
        ensures
            r@ == self.ratio(
                collateral_res_address,
                collateral_asset_type,
                loan_res_address,
                loan_asset_type,
            ),
    {
        if loan_res_address.same_as(&collateral_res_address) {
            if let Some(v) = self.identical_resource {
                return v;
            }
        }

        if let Some(v) = self.identical_asset_type {
            if loan_asset_type == collateral_asset_type {
                return v;
            }
        }

        match resource_rates_get(&self.resource, &loan_res_address) {
            Some(v) => v,
            None => match asset_type_rates_get(&self.asset_type, &loan_asset_type) {
                Some(v) => v,
                None => self.default_value,
            },
        }
    }

    /// Update the liquidation threshold configuration, then check it.
    ///
    /// *Params*
    /// - `value`: The input structure for the update
    ///
    /// *Errors*
    /// - If the updated configuration is invalid (the update stays applied)
    pub fn update_liquidation_threshold(&mut self, value: UpdateLiquidationThresholdInput) -> (r: Result<
        (),
        String,
    >)
        ensures
            old(self).updated(*final(self), value),
            check_outcome(r, final(self).error()),
            match value {
                UpdateLiquidationThresholdInput::ResourceEntry(res, threshold) => {
                    &&& keys_unique(resource_rate_entries(old(self).resource))
                    &&& keys_unique(resource_rate_entries(final(self).resource))
                    &&& lookup(resource_rate_entries(final(self).resource), res) == threshold
                    &&& forall|other: ResourceAddress|
                        other != res ==> #[trigger] lookup(resource_rate_entries(final(self).resource), other)
                            == lookup(resource_rate_entries(old(self).resource), other)
                },
                UpdateLiquidationThresholdInput::AssetTypeEntry(asset_type, threshold) => {
                    &&& keys_unique(asset_type_rate_entries(old(self).asset_type))
                    &&& keys_unique(asset_type_rate_entries(final(self).asset_type))
                    &&& lookup(asset_type_rate_entries(final(self).asset_type), asset_type) == threshold
                    &&& forall|other: u8|
                        other != asset_type ==> #[trigger] lookup(asset_type_rate_entries(final(self).asset_type), other)
                            == lookup(asset_type_rate_entries(old(self).asset_type), other)
                },
                _ => true,
            },
    {
        match value {
            UpdateLiquidationThresholdInput::DefaultValue(value) => {
                self.default_value = value;
            },
            UpdateLiquidationThresholdInput::IdenticalResource(value) => {
                self.identical_resource = value;
            },
            UpdateLiquidationThresholdInput::IdenticalAssetType(value) => {
                self.identical_asset_type = value;
            },
            UpdateLiquidationThresholdInput::AssetTypeEntry(asset_type, value) => {
                self.set_asset_type_entry(asset_type, value);
            },
            UpdateLiquidationThresholdInput::ResourceEntry(res_address, value) => {
                self.set_resource_entry(res_address, value);
            },
        }

        self.check()
    }

    fn set_resource_entry(&mut self, resource: ResourceAddress, threshold: Option<Decimal>)
        ensures
            final(self).identical_resource == old(self).identical_resource,
            final(self).identical_asset_type == old(self).identical_asset_type,
            final(self).default_value == old(self).default_value,
            final(self).asset_type == old(self).asset_type,
            resource_rate_entries(final(self).resource) == match threshold {
                Some(v) => inserted(resource_rate_entries(old(self).resource), resource, v),
                None => swap_removed(resource_rate_entries(old(self).resource), resource),
            },
            keys_unique(resource_rate_entries(old(self).resource)),
            keys_unique(resource_rate_entries(final(self).resource)),
            lookup(resource_rate_entries(final(self).resource), resource) == threshold,
            forall|other: ResourceAddress|
                other != resource ==> #[trigger] lookup(resource_rate_entries(final(self).resource), other)
                    == lookup(resource_rate_entries(old(self).resource), other),
    {
        let ghost before = resource_rate_entries(self.resource);
        if let Some(threshold) = threshold {
            resource_rates_insert(&mut self.resource, resource, threshold);
            proof {
                assert forall|other: ResourceAddress| other != resource implies #[trigger] lookup(
                    resource_rate_entries(self.resource),
                    other,
                ) == lookup(before, other) by {
                    lemma_lookup_inserted(before, resource, threshold, other);
                }
                lemma_lookup_inserted(before, resource, threshold, resource);
            }
        } else {
            resource_rates_swap_remove(&mut self.resource, &resource);
            proof {
                assert forall|other: ResourceAddress| other != resource implies #[trigger] lookup(
                    resource_rate_entries(self.resource),
                    other,
                ) == lookup(before, other) by {
                    lemma_lookup_swap_removed(before, resource, other);
                }
                lemma_lookup_swap_removed(before, resource, resource);
            }
        }
    }

    fn set_asset_type_entry(&mut self, asset_type: u8, threshold: Option<Decimal>)
        ensures
            final(self).identical_resource == old(self).identical_resource,
            final(self).identical_asset_type == old(self).identical_asset_type,
            final(self).default_value == old(self).default_value,
            final(self).resource == old(self).resource,
            asset_type_rate_entries(final(self).asset_type) == match threshold {
                Some(v) => inserted(asset_type_rate_entries(old(self).asset_type), asset_type, v),
                None => swap_removed(asset_type_rate_entries(old(self).asset_type), asset_type),
            },
            keys_unique(asset_type_rate_entries(old(self).asset_type)),
            keys_unique(asset_type_rate_entries(final(self).asset_type)),
            lookup(asset_type_rate_entries(final(self).asset_type), asset_type) == threshold,
            forall|other: u8|
                other != asset_type ==> #[trigger] lookup(asset_type_rate_entries(final(self).asset_type), other)
                    == lookup(asset_type_rate_entries(old(self).asset_type), other),
    {
        let ghost before = asset_type_rate_entries(self.asset_type);
        if let Some(threshold) = threshold {
            asset_type_rates_insert(&mut self.asset_type, asset_type, threshold);
            proof {
                assert forall|other: u8| other != asset_type implies #[trigger] lookup(
                    asset_type_rate_entries(self.asset_type),
                    other,
                ) == lookup(before, other) by {
                    lemma_lookup_inserted(before, asset_type, threshold, other);
                }
                lemma_lookup_inserted(before, asset_type, threshold, asset_type);
            }
        } else {
            asset_type_rates_swap_remove(&mut self.asset_type, &asset_type);
            proof {
                assert forall|other: u8| other != asset_type implies #[trigger] lookup(
                    asset_type_rate_entries(self.asset_type),
                    other,
                ) == lookup(before, other) by {
                    lemma_lookup_swap_removed(before, asset_type, other);
                }
                lemma_lookup_swap_removed(before, asset_type, asset_type);
            }
        }
    }
}

/// Thresholds that pass their check give a rate between 0 and 1 for every pair of
/// collateral and loan.
pub proof fn lemma_checked_ratio_is_rate(
    t: LiquidationThreshold,
    coll_res: ResourceAddress,
    coll_type: u8,
    loan_res: ResourceAddress,
    loan_type: u8,
)
    requires
        t.error() is None,
    ensures
        valid_rate(t.ratio(coll_res, coll_type, loan_res, loan_type)),
{
    let rs = resource_rate_entries(t.resource);
    let ts = asset_type_rate_entries(t.asset_type);
    if crate::maps::has_key(rs, loan_res) {
        let i = choose|i: int| 0 <= i < rs.len() && rs[i].0 == loan_res;
        assert(valid_rate(rs[i].1@));
    }
    if crate::maps::has_key(ts, loan_type) {
        let i = choose|i: int| 0 <= i < ts.len() && ts[i].0 == loan_type;
        assert(valid_rate(ts[i].1@));
    }
}

/// A threshold set for a loan resource is the threshold that resource's loans then get
/// (unless the collateral is the same resource with an identical-resource threshold set, or
/// of the same asset type with an identical-asset-type threshold set); removing it falls
/// back to the asset type's entry, then the default. (`update_liquidation_threshold`
/// ensures that the map it wrote to had no repeated key.)
pub proof fn lemma_resource_entry_read_after_update(
    before: LiquidationThreshold,
    after: LiquidationThreshold,
    loan_res: ResourceAddress,
    threshold: Option<Decimal>,
    coll_res: ResourceAddress,
    coll_type: u8,
    loan_type: u8,
)
    requires
        crate::maps::keys_unique(resource_rate_entries(before.resource)),
        before.updated(after, UpdateLiquidationThresholdInput::ResourceEntry(loan_res, threshold)),
        !(coll_res == loan_res && before.identical_resource is Some),
        !(before.identical_asset_type is Some && loan_type == coll_type),
    ensures
        after.ratio(coll_res, coll_type, loan_res, loan_type) == match threshold {
            Some(v) => v@,
            None => match lookup(asset_type_rate_entries(before.asset_type), loan_type) {
                Some(v) => v@,
                None => before.default_value@,
            },
        },
{
    let rs = resource_rate_entries(before.resource);
    match threshold {
        Some(v) => {
            crate::maps::lemma_lookup_inserted(rs, loan_res, v, loan_res);
        },
        None => {
            crate::maps::lemma_lookup_swap_removed(rs, loan_res, loan_res);
        },
    }
}

} // verus!
