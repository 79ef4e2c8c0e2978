//! A pool of one resource that mints pool units against contributions and lets
//! part of its liquidity live outside the pool (lent out or flash-loaned).
//!
//! The vault and the pool-unit resource live on the ledger; this is the pool's
//! accounting of them: the amount in the vault, the amount outside, the unit
//! supply and the units-per-asset ratio.
use crate::decimal::{
    dec_of, dec_scale, in_dec_range, in_pdec_range, pdec_div, pdec_mul, pdec_scale, round_half_even, widen,
    Decimal, PreciseDecimal,
};
use vstd::prelude::*;

verus! {

#[derive(Clone, Copy, Debug)]
pub struct FlashloanTerm {
    pub loan_amount: Decimal,
    pub fee_amount: Decimal,
}

#[derive(PartialEq, Eq, Structural, Clone, Copy, Debug)]
pub enum WithdrawType {
    ForTemporaryUse,
    LiquidityWithdrawal,
}

#[derive(PartialEq, Eq, Structural, Clone, Copy, Debug)]
pub enum DepositType {
    FromTemporaryUse,
    LiquiditySupply,
}

/// The accounting of a single-resource pool.
#[derive(Clone, Copy, Debug)]
pub struct SingleResourcePool {
    /// Amount held in the pool's vault
    pub liquidity: Decimal,
    /// Amount taken from the pool and not yet returned
    pub external_liquidity_amount: Decimal,
    /// Total supply of pool units
    pub pool_unit_supply: Decimal,
    /// Ratio between the pool unit and the pooled token
    pub unit_to_asset_ratio: PreciseDecimal,
}

/// Units per asset for `supply` units over `liquidity` assets, 1 for an empty pool.
pub open spec fn units_per_asset(supply: int, liquidity: int) -> int {
    if liquidity != 0 {
        pdec_div(widen(supply), widen(liquidity))
    } else {
        pdec_scale()
    }
}

/// The pool after `amount` leaves the vault for temporary use: counted outside instead.
pub open spec fn lent_out(p: SingleResourcePool, amount: int) -> SingleResourcePool {
    SingleResourcePool {
        liquidity: dec_of(p.liquidity@ - amount),
        external_liquidity_amount: dec_of(p.external_liquidity_amount@ + amount),
        ..p
    }
}

/// The pool after `amount` comes back from temporary use into the vault.
pub open spec fn returned(p: SingleResourcePool, amount: int) -> SingleResourcePool {
    SingleResourcePool {
        liquidity: dec_of(p.liquidity@ + amount),
        external_liquidity_amount: dec_of(p.external_liquidity_amount@ - amount),
        ..p
    }
}

impl SingleResourcePool {
    /// The pool's whole liquidity: in the vault and outside it.
    pub open spec fn total_liquidity(self) -> int {
        self.liquidity@ + self.external_liquidity_amount@
    }

    /// Whether recomputing the ratio stays within range.
    pub open spec fn ratio_computable(self) -> bool {
        &&& in_dec_range(self.total_liquidity())
        &&& self.total_liquidity() != 0 ==> in_pdec_range(
            pdec_div(widen(self.pool_unit_supply@), widen(self.total_liquidity())),
        )
    }

    /// A new, empty pool: one unit per asset.
    pub fn instantiate_locally() -> (r: SingleResourcePool)
        ensures
            r.liquidity@ == 0 && r.external_liquidity_amount@ == 0 && r.pool_unit_supply@ == 0,
            r.unit_to_asset_ratio@ == pdec_scale(),
    {
        SingleResourcePool {
            liquidity: Decimal::zero(),
            external_liquidity_amount: Decimal::zero(),
            pool_unit_supply: Decimal::zero(),
            unit_to_asset_ratio: PreciseDecimal::one(),
        }
    }

    pub fn get_pool_unit_ratio(&self) -> (r: PreciseDecimal)
        ensures
            r == self.unit_to_asset_ratio,
    {
        self.unit_to_asset_ratio
    }

    pub fn get_pool_unit_supply(&self) -> (r: Decimal)
        ensures
            r == self.pool_unit_supply,
    {
        self.pool_unit_supply
    }

    /// The amount in the vault and the amount outside the pool.
    pub fn get_pooled_amount(&self) -> (r: (Decimal, Decimal))
        ensures
            r == (self.liquidity, self.external_liquidity_amount),
    {
        (self.liquidity, self.external_liquidity_amount)
    }

    /// Contribute `amount` of the pooled resource: units are minted at the current ratio,
    /// to the nearest `Decimal`.
    ///
    /// *Output*
    /// - The pool units minted
    pub fn contribute(&mut self, amount: Decimal) -> (r: Decimal)
        requires
            in_pdec_range(pdec_mul(widen(amount@), old(self).unit_to_asset_ratio@)),
            in_dec_range(round_half_even(pdec_mul(widen(amount@), old(self).unit_to_asset_ratio@))),
            in_dec_range(old(self).liquidity@ + amount@),
            in_dec_range(old(self).pool_unit_supply@ + round_half_even(
                pdec_mul(widen(amount@), old(self).unit_to_asset_ratio@),
            )),
        ensures
            r@ == round_half_even(pdec_mul(widen(amount@), old(self).unit_to_asset_ratio@)),
            final(self).liquidity@ == old(self).liquidity@ + amount@,
            final(self).pool_unit_supply@ == old(self).pool_unit_supply@ + r@,
            final(self).external_liquidity_amount == old(self).external_liquidity_amount,
            final(self).unit_to_asset_ratio == old(self).unit_to_asset_ratio,
    {
        let unit_amount = amount.times_precise(&self.unit_to_asset_ratio).truncated();
        self.liquidity = self.liquidity.plus(&amount);
        self.pool_unit_supply = self.pool_unit_supply.plus(&unit_amount);
        unit_amount
    }

    /// Redeem `pool_units`: they are burnt and the matching assets, at the current ratio
    /// and to the nearest `Decimal`, leave the vault.
    ///
    /// *Output*
    /// - The assets paid out
    pub fn redeem(&mut self, pool_units: Decimal) -> (r: Decimal)
        requires
            old(self).unit_to_asset_ratio@ != 0,
            in_pdec_range(pdec_div(widen(pool_units@), old(self).unit_to_asset_ratio@)),
            in_dec_range(round_half_even(pdec_div(widen(pool_units@), old(self).unit_to_asset_ratio@))),
            in_dec_range(old(self).pool_unit_supply@ - pool_units@),
            round_half_even(pdec_div(widen(pool_units@), old(self).unit_to_asset_ratio@))
                <= old(self).liquidity@,
            in_dec_range(old(self).liquidity@ - round_half_even(
                pdec_div(widen(pool_units@), old(self).unit_to_asset_ratio@),
            )),
        ensures
            r@ == round_half_even(pdec_div(widen(pool_units@), old(self).unit_to_asset_ratio@)),
            final(self).liquidity@ == old(self).liquidity@ - r@,
            final(self).pool_unit_supply@ == old(self).pool_unit_supply@ - pool_units@,
            final(self).external_liquidity_amount == old(self).external_liquidity_amount,
            final(self).unit_to_asset_ratio == old(self).unit_to_asset_ratio,
    {
        let amount = pool_units.over_precise(&self.unit_to_asset_ratio).truncated();
        self.pool_unit_supply = self.pool_unit_supply.minus(&pool_units);
        self.liquidity = self.liquidity.minus(&amount);
        amount
    }

    /// Take `amount` out of the vault: for temporary use it is counted as outside
    /// liquidity, else the ratio is recomputed.
    pub fn protected_withdraw(&mut self, amount: Decimal, withdraw_type: WithdrawType) -> (r: Decimal)
        requires
            0 <= amount@ <= old(self).liquidity@,
            withdraw_type == WithdrawType::ForTemporaryUse ==> in_dec_range(
                old(self).external_liquidity_amount@ + amount@,
            ),
            withdraw_type != WithdrawType::ForTemporaryUse ==> (SingleResourcePool {
                liquidity: dec_of(old(self).liquidity@ - amount@),
                ..*old(self)
            }).ratio_computable(),
        ensures
            r == amount,
            final(self).liquidity@ == old(self).liquidity@ - amount@,
            final(self).pool_unit_supply == old(self).pool_unit_supply,
            withdraw_type == WithdrawType::ForTemporaryUse ==> {
                &&& final(self).external_liquidity_amount@ == old(self).external_liquidity_amount@ + amount@
                &&& final(self).unit_to_asset_ratio == old(self).unit_to_asset_ratio
                &&& *final(self) == lent_out(*old(self), amount@)
            },
            withdraw_type != WithdrawType::ForTemporaryUse ==> {
                &&& final(self).external_liquidity_amount == old(self).external_liquidity_amount
                &&& final(self).unit_to_asset_ratio@ == units_per_asset(
                    final(self).pool_unit_supply@,
                    final(self).total_liquidity(),
                )
            },
    {
        proof {
            crate::decimal::lemma_dec_in_range(self.liquidity);
        }
        let new_liquidity = self.liquidity.minus(&amount);
        proof {
            crate::decimal::lemma_dec_of(new_liquidity);
        }
        self.liquidity = new_liquidity;
        if withdraw_type == WithdrawType::ForTemporaryUse {
            let new_external = self.external_liquidity_amount.plus(&amount);
            proof {
                crate::decimal::lemma_dec_of(new_external);
            }
            self.external_liquidity_amount = new_external;
        } else {
            self._update_unit_to_asset_ratios();
        }
        amount
    }

    /// Put `amount` into the vault: returned from temporary use it is no longer counted
    /// as outside liquidity, else the ratio is recomputed.
    pub fn protected_deposit(&mut self, amount: Decimal, deposit_type: DepositType)
        requires
            in_dec_range(old(self).liquidity@ + amount@),
            deposit_type == DepositType::FromTemporaryUse ==> amount@ <= old(
                self,
            ).external_liquidity_amount@ && in_dec_range(old(self).external_liquidity_amount@ - amount@),
            deposit_type != DepositType::FromTemporaryUse ==> (SingleResourcePool {
                liquidity: dec_of(old(self).liquidity@ + amount@),
                ..*old(self)
            }).ratio_computable(),
        ensures
            final(self).liquidity@ == old(self).liquidity@ + amount@,
            final(self).pool_unit_supply == old(self).pool_unit_supply,
            deposit_type == DepositType::FromTemporaryUse ==> {
                &&& final(self).external_liquidity_amount@ == old(self).external_liquidity_amount@ - amount@
                &&& final(self).unit_to_asset_ratio == old(self).unit_to_asset_ratio
                &&& *final(self) == returned(*old(self), amount@)
            },
            deposit_type != DepositType::FromTemporaryUse ==> {
                &&& final(self).external_liquidity_amount == old(self).external_liquidity_amount
                &&& final(self).unit_to_asset_ratio@ == units_per_asset(
                    final(self).pool_unit_supply@,
                    final(self).total_liquidity(),
                )
            },
    {
        let new_liquidity = self.liquidity.plus(&amount);
        proof {
            let c = dec_of(old(self).liquidity@ + amount@);
            Decimal::lemma_view_injective(c, new_liquidity);
        }
        self.liquidity = new_liquidity;
        if deposit_type == DepositType::FromTemporaryUse {
            let new_external = self.external_liquidity_amount.minus(&amount);
            proof {
                crate::decimal::lemma_dec_of(new_external);
                crate::decimal::lemma_dec_of(new_liquidity);
            }
            self.external_liquidity_amount = new_external;
        } else {
            self._update_unit_to_asset_ratios();
        }
    }

    /// Count `amount` more as outside liquidity (accrued interest) and recompute the ratio.
    pub fn increase_external_liquidity(&mut self, amount: Decimal)
        requires
            amount@ >= 0,
            in_dec_range(old(self).external_liquidity_amount@ + amount@),
            (SingleResourcePool {
                external_liquidity_amount: dec_of(old(self).external_liquidity_amount@ + amount@),
                ..*old(self)
            }).ratio_computable(),
        ensures
            final(self).external_liquidity_amount@ == old(self).external_liquidity_amount@ + amount@,
            final(self).liquidity == old(self).liquidity,
            final(self).pool_unit_supply == old(self).pool_unit_supply,
            final(self).unit_to_asset_ratio@ == units_per_asset(
                final(self).pool_unit_supply@,
                final(self).total_liquidity(),
            ),
    {
        let new_external = self.external_liquidity_amount.plus(&amount);
        proof {
            let c = dec_of(old(self).external_liquidity_amount@ + amount@);
            Decimal::lemma_view_injective(c, new_external);
        }
        self.external_liquidity_amount = new_external;
        self._update_unit_to_asset_ratios();
    }

    /// Recompute units per asset from the unit supply and the whole liquidity.
    pub fn _update_unit_to_asset_ratios(&mut self)
        requires
            old(self).ratio_computable(),
        ensures
            final(self).unit_to_asset_ratio@ == units_per_asset(old(self).pool_unit_supply@, old(self).total_liquidity()),
            final(self).liquidity == old(self).liquidity,
            final(self).external_liquidity_amount == old(self).external_liquidity_amount,
            final(self).pool_unit_supply == old(self).pool_unit_supply,
    {
        let total_liquidity_amount = self.liquidity.plus(&self.external_liquidity_amount);
        self.unit_to_asset_ratio = if !total_liquidity_amount.is_zero() {
            self.pool_unit_supply.to_precise().over(&total_liquidity_amount.to_precise())
        } else {
            PreciseDecimal::one()
        };
    }
}

/// A flash loan that is paid back leaves the pool exactly as it was; while it is out, the
/// pool's whole liquidity and its unit ratio do not change. With no negative outside
/// liquidity to begin with, paying the amount back is a deposit the pool accepts.
pub proof fn lemma_temporary_use_round_trip(p: SingleResourcePool, amount: int)
    requires
        0 <= amount <= p.liquidity@,
        in_dec_range(p.external_liquidity_amount@ + amount),
    ensures
        p.external_liquidity_amount@ >= 0 ==> amount <= lent_out(p, amount).external_liquidity_amount@,
        in_dec_range(lent_out(p, amount).liquidity@ + amount),
        in_dec_range(lent_out(p, amount).external_liquidity_amount@ - amount),
        lent_out(p, amount).total_liquidity() == p.total_liquidity(),
        lent_out(p, amount).unit_to_asset_ratio == p.unit_to_asset_ratio,
        lent_out(p, amount).pool_unit_supply == p.pool_unit_supply,
        returned(lent_out(p, amount), amount) == p,
{
    crate::decimal::lemma_dec_in_range(p.liquidity);
    crate::decimal::lemma_dec_in_range(p.external_liquidity_amount);
    crate::decimal::lemma_dec_exists(p.liquidity@ - amount);
    crate::decimal::lemma_dec_exists(p.external_liquidity_amount@ + amount);
    crate::decimal::lemma_dec_of(p.liquidity);
    crate::decimal::lemma_dec_of(p.external_liquidity_amount);
}

/// In a pool at one unit per asset (as a new pool is), a contribution mints as many units
/// as assets, and redeeming those units pays the contribution back.
pub proof fn lemma_unit_ratio_one_round_trip(amount: int)
    ensures
        round_half_even(pdec_mul(widen(amount), pdec_scale())) == amount,
        round_half_even(pdec_div(widen(amount), pdec_scale())) == amount,
{
    let w = widen(amount);
    assert(crate::decimal::abs(w * pdec_scale()) / pdec_scale() == crate::decimal::abs(w)) by (nonlinear_arith)
        requires
            pdec_scale() > 0,
    ;
    assert((w * pdec_scale() < 0) == (w < 0)) by (nonlinear_arith)
        requires
            pdec_scale() > 0,
    ;
    assert(pdec_mul(w, pdec_scale()) == w);
    assert(pdec_div(w, pdec_scale()) == w);
    assert((amount * dec_scale()) / dec_scale() == amount) by (nonlinear_arith)
        requires
            dec_scale() > 0,
    ;
    assert((amount * dec_scale()) % dec_scale() == 0) by (nonlinear_arith)
        requires
            dec_scale() > 0,
    ;
}

} // verus!
