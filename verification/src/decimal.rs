//! Fixed-point numbers of the Radix engine, held as plain limbs.
//!
//! `Decimal` counts units of 10^-18 in a signed 192-bit integer and
//! `PreciseDecimal` counts units of 10^-36 in a signed 256-bit integer.
//! Both keep their integer as two's-complement 64-bit limbs, least
//! significant first, so that every limb pattern is a valid value.
//! The arithmetic itself is done by `scrypto`, whose results are stated
//! exactly below: sums, truncated products and quotients, and the
//! banker's rounding used to go from 36 to 18 fractional digits.
use scrypto::math::{
    CheckedAdd, CheckedDiv, CheckedMul, CheckedNeg, CheckedSub, CheckedTruncate, RoundingMode,
    I192, I256,
};
use vstd::prelude::*;

verus! {

/// 2^64, the weight of one limb.
pub open spec fn limb_base() -> int {
    0x1_0000_0000_0000_0000
}

/// 10^18: the count of `Decimal` units in one.
pub open spec fn dec_scale() -> int {
    1_000_000_000_000_000_000
}

/// 10^36: the count of `PreciseDecimal` units in one.
pub open spec fn pdec_scale() -> int {
    dec_scale() * dec_scale()
}

/// 2^191: a `Decimal` integer lies in [-2^191, 2^191).
pub open spec fn dec_bound() -> int {
    limb_base() * limb_base() * 0x8000_0000_0000_0000
}

/// 2^255: a `PreciseDecimal` integer lies in [-2^255, 2^255).
pub open spec fn pdec_bound() -> int {
    limb_base() * limb_base() * limb_base() * 0x8000_0000_0000_0000
}

pub open spec fn in_dec_range(x: int) -> bool {
    -dec_bound() <= x < dec_bound()
}

pub open spec fn in_pdec_range(x: int) -> bool {
    -pdec_bound() <= x < pdec_bound()
}

pub open spec fn abs(x: int) -> int {
    if x < 0 {
        -x
    } else {
        x
    }
}

/// The quotient of `a` by a nonzero `b`, rounded toward zero.
pub open spec fn quot_toward_zero(a: int, b: int) -> int {
    let q = abs(a) / abs(b);
    if (a < 0) == (b < 0) {
        q
    } else {
        -q
    }
}

/// Product of two `Decimal` integers, truncated toward zero.
pub open spec fn dec_mul(a: int, b: int) -> int {
    quot_toward_zero(a * b, dec_scale())
}

/// Quotient of two `Decimal` integers, truncated toward zero.
pub open spec fn dec_div(a: int, b: int) -> int {
    quot_toward_zero(a * dec_scale(), b)
}

/// Product of two `PreciseDecimal` integers, truncated toward zero.
pub open spec fn pdec_mul(a: int, b: int) -> int {
    quot_toward_zero(a * b, pdec_scale())
}

/// Quotient of two `PreciseDecimal` integers, truncated toward zero.
pub open spec fn pdec_div(a: int, b: int) -> int {
    quot_toward_zero(a * pdec_scale(), b)
}

/// The `PreciseDecimal` integer of the same number as the `Decimal` integer `a`.
pub open spec fn widen(a: int) -> int {
    a * dec_scale()
}

/// The `Decimal` integer nearest to the `PreciseDecimal` integer `p`,
/// halves going to the even neighbour.
pub open spec fn round_half_even(p: int) -> int {
    let q = p / dec_scale();
    let r = p % dec_scale();
    if 2 * r < dec_scale() {
        q
    } else if 2 * r > dec_scale() {
        q + 1
    } else if q % 2 == 0 {
        q
    } else {
        q + 1
    }
}

/// The integer that three two's-complement limbs stand for.
pub open spec fn signed3(l0: u64, l1: u64, l2: u64) -> int {
    let u = l0 + l1 * limb_base() + l2 * limb_base() * limb_base();
    if l2 < 0x8000_0000_0000_0000 {
        u
    } else {
        u - limb_base() * limb_base() * limb_base()
    }
}

/// The integer that four two's-complement limbs stand for.
pub open spec fn signed4(l0: u64, l1: u64, l2: u64, l3: u64) -> int {
    let b = limb_base();
    let u = l0 + l1 * b + l2 * b * b + l3 * b * b * b;
    if l3 < 0x8000_0000_0000_0000 {
        u
    } else {
        u - b * b * b * b
    }
}

/// A fixed-point number with 18 fractional digits.
#[derive(PartialEq, Eq, Structural, Clone, Copy, Debug)]
pub struct Decimal {
    l0: u64,
    l1: u64,
    l2: u64,
}

/// A fixed-point number with 36 fractional digits.
#[derive(PartialEq, Eq, Structural, Clone, Copy, Debug)]
pub struct PreciseDecimal {
    l0: u64,
    l1: u64,
    l2: u64,
    l3: u64,
}

impl View for Decimal {
    type V = int;

    /// The number of 10^-18 units.
    closed spec fn view(&self) -> int {
        signed3(self.l0, self.l1, self.l2)
    }
}

impl View for PreciseDecimal {
    type V = int;

    /// The number of 10^-36 units.
    closed spec fn view(&self) -> int {
        signed4(self.l0, self.l1, self.l2, self.l3)
    }
}

pub proof fn lemma_dec_in_range(d: Decimal)
    ensures
        in_dec_range(d@),
{
}

pub proof fn lemma_pdec_in_range(d: PreciseDecimal)
    ensures
        in_pdec_range(d@),
{
}


/// The `Decimal` whose number is `x`.
pub open spec fn dec_of(x: int) -> Decimal {
    choose|d: Decimal| d@ == x
}

/// A value is the `Decimal` of its own number.
pub proof fn lemma_dec_of(d: Decimal)
    ensures
        dec_of(d@) == d,
{
    let c = dec_of(d@);
    assert(exists|x: Decimal| x@ == d@);
    Decimal::lemma_view_injective(c, d);
}

/// Splits a non-negative `u` below `b^4` into four digits in base `b`.
proof fn lemma_four_digits(u: int, b: int)
    requires
        b > 1,
        0 <= u < b * b * b * b,
    ensures
        0 <= u % b < b,
        0 <= (u / b) % b < b,
        0 <= ((u / b) / b) % b < b,
        0 <= ((u / b) / b) / b < b,
        u == u % b + ((u / b) % b) * b + (((u / b) / b) % b) * b * b + (((u / b) / b) / b) * b * b * b,
        u / (b * b * b) == ((u / b) / b) / b,
{
    let t1 = u / b;
    let t2 = t1 / b;
    let t3 = t2 / b;
    vstd::arithmetic::div_mod::lemma_fundamental_div_mod(u, b);
    vstd::arithmetic::div_mod::lemma_fundamental_div_mod(t1, b);
    vstd::arithmetic::div_mod::lemma_fundamental_div_mod(t2, b);
    vstd::arithmetic::div_mod::lemma_mod_bound(u, b);
    vstd::arithmetic::div_mod::lemma_mod_bound(t1, b);
    vstd::arithmetic::div_mod::lemma_mod_bound(t2, b);
    vstd::arithmetic::div_mod::lemma_div_pos_is_pos(u, b);
    vstd::arithmetic::div_mod::lemma_div_pos_is_pos(t1, b);
    vstd::arithmetic::div_mod::lemma_div_pos_is_pos(t2, b);
    vstd::arithmetic::div_mod::lemma_div_denominator(u, b, b);
    vstd::arithmetic::div_mod::lemma_div_denominator(u, b * b, b);
    assert(u / (b * b * b) < b) by (nonlinear_arith)
        requires
            0 <= u < b * b * b * b,
            b > 1,
    ;
    assert(u == u % b + (t1 % b) * b + (t2 % b) * b * b + t3 * b * b * b) by (nonlinear_arith)
        requires
            u == b * t1 + u % b,
            t1 == b * t2 + t1 % b,
            t2 == b * t3 + t2 % b,
    ;
}

/// Every integer within `PreciseDecimal`'s range is the number of some value.
pub proof fn lemma_pdec_exists(x: int)
    requires
        in_pdec_range(x),
    ensures
        exists|p: PreciseDecimal| p@ == x,
{
    let b = limb_base();
    let b4 = b * b * b * b;
    assert(b4 == 2 * pdec_bound());
    let u = if x >= 0 {
        x
    } else {
        x + b4
    };
    lemma_four_digits(u, b);
    let l0 = u % b;
    let l1 = (u / b) % b;
    let l2 = ((u / b) / b) % b;
    let l3 = ((u / b) / b) / b;
    let p = PreciseDecimal { l0: l0 as u64, l1: l1 as u64, l2: l2 as u64, l3: l3 as u64 };
    assert(u / (b * b * b) < 0x8000_0000_0000_0000 <==> u < pdec_bound()) by (nonlinear_arith)
        requires
            b > 1,
            pdec_bound() == b * b * b * 0x8000_0000_0000_0000,
            0 <= u,
    ;
    assert(p@ == x);
}

/// Every integer within `Decimal`'s range is the number of some value.
pub proof fn lemma_dec_exists(x: int)
    requires
        in_dec_range(x),
    ensures
        exists|d: Decimal| d@ == x,
        dec_of(x)@ == x,
{
    let b = limb_base();
    let b3 = b * b * b;
    assert(b3 == 2 * dec_bound());
    let u = if x >= 0 {
        x
    } else {
        x + b3
    };
    assert(u < b * b * b * b) by (nonlinear_arith)
        requires
            0 <= u < b * b * b,
            b > 1,
    ;
    lemma_four_digits(u, b);
    assert(u / (b * b * b) == 0) by (nonlinear_arith)
        requires
            0 <= u < b * b * b,
            b > 1,
    ;
    let l0 = u % b;
    let l1 = (u / b) % b;
    let l2 = ((u / b) / b) % b;
    let d = Decimal { l0: l0 as u64, l1: l1 as u64, l2: l2 as u64 };
    assert(u == l0 + l1 * b + l2 * b * b);
    assert(l2 < 0x8000_0000_0000_0000 <==> u < dec_bound()) by (nonlinear_arith)
        requires
            b > 1,
            dec_bound() == b * b * 0x8000_0000_0000_0000,
            u == l0 + l1 * b + l2 * b * b,
            0 <= l0 < b,
            0 <= l1 < b,
            0 <= l2 < b,
    ;
    assert(d@ == x);
}

/// A widened `Decimal` lies well inside `PreciseDecimal`: within half its bound.
pub proof fn lemma_widen_in_range(d: Decimal)
    ensures
        -pdec_bound() / 2 < widen(d@) < pdec_bound() / 2,
{
    lemma_dec_in_range(d);
    let x = d@;
    assert(-dec_bound() <= x < dec_bound());
    assert(dec_bound() * dec_scale() < pdec_bound() / 2);
    assert(x * dec_scale() < pdec_bound() / 2) by (nonlinear_arith)
        requires
            x < dec_bound(),
            dec_bound() * dec_scale() < pdec_bound() / 2,
            dec_scale() > 0,
    ;
    assert(x * dec_scale() > -pdec_bound() / 2) by (nonlinear_arith)
        requires
            x >= -dec_bound(),
            dec_bound() * dec_scale() < pdec_bound() / 2,
            dec_scale() > 0,
    ;
}

proof fn lemma_signed3_injective(a0: u64, a1: u64, a2: u64, b0: u64, b1: u64, b2: u64)
    requires
        signed3(a0, a1, a2) == signed3(b0, b1, b2),
    ensures
        a0 == b0 && a1 == b1 && a2 == b2,
{
}

proof fn lemma_signed4_injective(
    a0: u64,
    a1: u64,
    a2: u64,
    a3: u64,
    b0: u64,
    b1: u64,
    b2: u64,
    b3: u64,
)
    requires
        signed4(a0, a1, a2, a3) == signed4(b0, b1, b2, b3),
    ensures
        a0 == b0 && a1 == b1 && a2 == b2 && a3 == b3,
{
}

impl Decimal {
    /// Two values with the same number are the same value.
    pub proof fn lemma_view_injective(a: Decimal, b: Decimal)
        requires
            a@ == b@,
        ensures
            a == b,
    {
        lemma_signed3_injective(a.l0, a.l1, a.l2, b.l0, b.l1, b.l2);
    }

    /// The value whose two's-complement limbs, least significant first, are `limbs`.
    pub fn from_limbs(limbs: [u64; 3]) -> (r: Decimal)
        ensures
            r@ == signed3(limbs[0], limbs[1], limbs[2]),
    {
        Decimal { l0: limbs[0], l1: limbs[1], l2: limbs[2] }
    }

    /// The two's-complement limbs, least significant first.
    pub fn to_limbs(&self) -> (r: [u64; 3])
        ensures
            signed3(r[0], r[1], r[2]) == self@,
    {
        [self.l0, self.l1, self.l2]
    }

    /// The value zero.
    pub closed spec fn zero_spec() -> Decimal {
        Decimal { l0: 0, l1: 0, l2: 0 }
    }

    pub fn zero() -> (r: Decimal)
        ensures
            r@ == 0,
            r == Decimal::zero_spec(),
    {
        Decimal { l0: 0, l1: 0, l2: 0 }
    }

    pub fn one() -> (r: Decimal)
        ensures
            r@ == dec_scale(),
    {
        Decimal { l0: 1_000_000_000_000_000_000, l1: 0, l2: 0 }
    }

    /// The largest value.
    pub fn max_value() -> (r: Decimal)
        ensures
            r@ == dec_bound() - 1,
    {
        Decimal { l0: 0xFFFF_FFFF_FFFF_FFFF, l1: 0xFFFF_FFFF_FFFF_FFFF, l2: 0x7FFF_FFFF_FFFF_FFFF }
    }

    /// The value of `attos` units of 10^-18.
    pub fn from_attos(attos: u64) -> (r: Decimal)
        ensures
            r@ == attos,
    {
        Decimal { l0: attos, l1: 0, l2: 0 }
    }

    /// Whether both values are the same number.
    pub fn equals(&self, other: &Decimal) -> (r: bool)
        ensures
            r == (self@ == other@),
    {
        proof {
            if self@ == other@ {
                Decimal::lemma_view_injective(*self, *other);
            }
        }
        self.l0 == other.l0 && self.l1 == other.l1 && self.l2 == other.l2
    }

    pub fn is_zero(&self) -> (r: bool)
        ensures
            r == (self@ == 0),
    {
        let z = Decimal::zero();
        self.equals(&z)
    }

    /// Whether `self` is smaller than `other`, as `scrypto` orders decimals.
    #[verifier::external_body]
    pub(crate) fn less_than(&self, other: &Decimal) -> (r: bool)
        ensures
            r == (self@ < other@),
    {
        let a = scrypto::math::Decimal::from_attos(I192::from_digits(self.to_limbs()));
        let b = scrypto::math::Decimal::from_attos(I192::from_digits(other.to_limbs()));
        a < b
    }

    pub fn less_eq(&self, other: &Decimal) -> (r: bool)
        ensures
            r == (self@ <= other@),
    {
        !other.less_than(self)
    }

    pub fn min(self, other: Decimal) -> (r: Decimal)
        ensures
            r@ == if self@ <= other@ { self@ } else { other@ },
    {
        if self.less_eq(&other) {
            self
        } else {
            other
        }
    }

    /// `scrypto`'s `Decimal::from(i64)`: the whole number `n`.
    #[verifier::external_body]
    pub(crate) fn from_int(n: i64) -> (r: Decimal)
        ensures
            r@ == n * dec_scale(),
    {
        Decimal::from_limbs(scrypto::math::Decimal::from(n).attos().to_digits())
    }

    /// `scrypto`'s `Decimal::from(u128)`: the whole number `n` (every `u128` is in range).
    #[verifier::external_body]
    pub(crate) fn from_u128(n: u128) -> (r: Decimal)
        ensures
            r@ == n * dec_scale(),
    {
        Decimal::from_limbs(scrypto::math::Decimal::from(n).attos().to_digits())
    }

    /// `scrypto`'s `Decimal::checked_add`: the sum, when it is in range.
    #[verifier::external_body]
    pub(crate) fn checked_add(&self, other: &Decimal) -> (r: Option<Decimal>)
        ensures
            r is Some <==> in_dec_range(self@ + other@),
            r matches Some(v) ==> v@ == self@ + other@,
    {
        let a = scrypto::math::Decimal::from_attos(I192::from_digits(self.to_limbs()));
        let b = scrypto::math::Decimal::from_attos(I192::from_digits(other.to_limbs()));
        a.checked_add(b).map(|c| Decimal::from_limbs(c.attos().to_digits()))
    }

    /// `scrypto`'s `Decimal::checked_sub`: the difference, when it is in range.
    #[verifier::external_body]
    pub(crate) fn checked_sub(&self, other: &Decimal) -> (r: Option<Decimal>)
        ensures
            r is Some <==> in_dec_range(self@ - other@),
            r matches Some(v) ==> v@ == self@ - other@,
    {
        let a = scrypto::math::Decimal::from_attos(I192::from_digits(self.to_limbs()));
        let b = scrypto::math::Decimal::from_attos(I192::from_digits(other.to_limbs()));
        a.checked_sub(b).map(|c| Decimal::from_limbs(c.attos().to_digits()))
    }

    /// `scrypto`'s `Decimal::checked_mul`: the product truncated toward zero, when in range.
    #[verifier::external_body]
    pub(crate) fn checked_mul(&self, other: &Decimal) -> (r: Option<Decimal>)
        ensures
            r is Some <==> in_dec_range(dec_mul(self@, other@)),
            r matches Some(v) ==> v@ == dec_mul(self@, other@),
    {
        let a = scrypto::math::Decimal::from_attos(I192::from_digits(self.to_limbs()));
        let b = scrypto::math::Decimal::from_attos(I192::from_digits(other.to_limbs()));
        a.checked_mul(b).map(|c| Decimal::from_limbs(c.attos().to_digits()))
    }

    /// `scrypto`'s `Decimal::checked_div`: the quotient truncated toward zero,
    /// when the divisor is not zero and the quotient is in range.
    #[verifier::external_body]
    pub(crate) fn checked_div(&self, other: &Decimal) -> (r: Option<Decimal>)
        ensures
            r is Some <==> (other@ != 0 && in_dec_range(dec_div(self@, other@))),
            r matches Some(v) ==> v@ == dec_div(self@, other@),
    {
        let a = scrypto::math::Decimal::from_attos(I192::from_digits(self.to_limbs()));
        let b = scrypto::math::Decimal::from_attos(I192::from_digits(other.to_limbs()));
        a.checked_div(b).map(|c| Decimal::from_limbs(c.attos().to_digits()))
    }

    /// `scrypto`'s `Decimal::checked_neg`: the opposite, when in range.
    #[verifier::external_body]
    pub(crate) fn checked_neg(&self) -> (r: Option<Decimal>)
        ensures
            r is Some <==> in_dec_range(-self@),
            r matches Some(v) ==> v@ == -self@,
    {
        let a = scrypto::math::Decimal::from_attos(I192::from_digits(self.to_limbs()));
        a.checked_neg().map(|c| Decimal::from_limbs(c.attos().to_digits()))
    }

    pub fn plus(&self, other: &Decimal) -> (r: Decimal)
        requires
            in_dec_range(self@ + other@),
        ensures
            r@ == self@ + other@,
    {
        self.checked_add(other).unwrap()
    }

    pub fn minus(&self, other: &Decimal) -> (r: Decimal)
        requires
            in_dec_range(self@ - other@),
        ensures
            r@ == self@ - other@,
    {
        self.checked_sub(other).unwrap()
    }

    pub fn times(&self, other: &Decimal) -> (r: Decimal)
        requires
            in_dec_range(dec_mul(self@, other@)),
        ensures
            r@ == dec_mul(self@, other@),
    {
        self.checked_mul(other).unwrap()
    }

    pub fn over(&self, other: &Decimal) -> (r: Decimal)
        requires
            other@ != 0,
            in_dec_range(dec_div(self@, other@)),
        ensures
            r@ == dec_div(self@, other@),
    {
        self.checked_div(other).unwrap()
    }

    pub fn negated(&self) -> (r: Decimal)
        requires
            in_dec_range(-self@),
        ensures
            r@ == -self@,
    {
        self.checked_neg().unwrap()
    }

    /// The same number with 36 fractional digits.
    pub fn to_precise(&self) -> (r: PreciseDecimal)
        ensures
            r@ == widen(self@),
    {
        PreciseDecimal::from_decimal(self)
    }
}

impl PreciseDecimal {
    /// Two values with the same number are the same value.
    pub proof fn lemma_view_injective(a: PreciseDecimal, b: PreciseDecimal)
        requires
            a@ == b@,
        ensures
            a == b,
    {
        lemma_signed4_injective(a.l0, a.l1, a.l2, a.l3, b.l0, b.l1, b.l2, b.l3);
    }

    /// The value whose two's-complement limbs, least significant first, are `limbs`.
    pub fn from_limbs(limbs: [u64; 4]) -> (r: PreciseDecimal)
        ensures
            r@ == signed4(limbs[0], limbs[1], limbs[2], limbs[3]),
    {
        PreciseDecimal { l0: limbs[0], l1: limbs[1], l2: limbs[2], l3: limbs[3] }
    }

    /// The two's-complement limbs, least significant first.
    pub fn to_limbs(&self) -> (r: [u64; 4])
        ensures
            signed4(r[0], r[1], r[2], r[3]) == self@,
    {
        [self.l0, self.l1, self.l2, self.l3]
    }

    /// The value zero.
    pub closed spec fn zero_spec() -> PreciseDecimal {
        PreciseDecimal { l0: 0, l1: 0, l2: 0, l3: 0 }
    }

    pub proof fn lemma_zero_spec()
        ensures
            PreciseDecimal::zero_spec()@ == 0,
    {
    }

    pub fn zero() -> (r: PreciseDecimal)
        ensures
            r@ == 0,
            r == PreciseDecimal::zero_spec(),
    {
        PreciseDecimal { l0: 0, l1: 0, l2: 0, l3: 0 }
    }

    /// `scrypto`'s `PreciseDecimal::from(Decimal)`: the same number, always in range.
    #[verifier::external_body]
    pub(crate) fn from_decimal(d: &Decimal) -> (r: PreciseDecimal)
        ensures
            r@ == widen(d@),
    {
        let a = scrypto::math::Decimal::from_attos(I192::from_digits(d.to_limbs()));
        PreciseDecimal::from_limbs(scrypto::math::PreciseDecimal::from(a).precise_subunits().to_digits())
    }

    /// `scrypto`'s `PreciseDecimal::from(i64)`: the whole number `n`.
    #[verifier::external_body]
    pub(crate) fn from_int(n: i64) -> (r: PreciseDecimal)
        ensures
            r@ == n * pdec_scale(),
    {
        PreciseDecimal::from_limbs(scrypto::math::PreciseDecimal::from(n).precise_subunits().to_digits())
    }

    pub fn one() -> (r: PreciseDecimal)
        ensures
            r@ == pdec_scale(),
    {
        PreciseDecimal::from_int(1)
    }

    /// Whether both values are the same number.
    pub fn equals(&self, other: &PreciseDecimal) -> (r: bool)
        ensures
            r == (self@ == other@),
    {
        proof {
            if self@ == other@ {
                PreciseDecimal::lemma_view_injective(*self, *other);
            }
        }
        self.l0 == other.l0 && self.l1 == other.l1 && self.l2 == other.l2 && self.l3 == other.l3
    }

    pub fn is_zero(&self) -> (r: bool)
        ensures
            r == (self@ == 0),
    {
        let z = PreciseDecimal::zero();
        self.equals(&z)
    }

    /// Whether `self` is smaller than `other`, as `scrypto` orders precise decimals.
    #[verifier::external_body]
    pub(crate) fn less_than(&self, other: &PreciseDecimal) -> (r: bool)
        ensures
            r == (self@ < other@),
    {
        let a = scrypto::math::PreciseDecimal::from_precise_subunits(I256::from_digits(self.to_limbs()));
        let b = scrypto::math::PreciseDecimal::from_precise_subunits(I256::from_digits(other.to_limbs()));
        a < b
    }

    pub fn less_eq(&self, other: &PreciseDecimal) -> (r: bool)
        ensures
            r == (self@ <= other@),
    {
        !other.less_than(self)
    }

    pub fn min(self, other: PreciseDecimal) -> (r: PreciseDecimal)
        ensures
            r@ == if self@ <= other@ { self@ } else { other@ },
    {
        if self.less_eq(&other) {
            self
        } else {
            other
        }
    }

    /// `scrypto`'s `PreciseDecimal::checked_add`: the sum, when it is in range.
    #[verifier::external_body]
    pub(crate) fn checked_add(&self, other: &PreciseDecimal) -> (r: Option<PreciseDecimal>)
        ensures
            r is Some <==> in_pdec_range(self@ + other@),
            r matches Some(v) ==> v@ == self@ + other@,
    {
        let a = scrypto::math::PreciseDecimal::from_precise_subunits(I256::from_digits(self.to_limbs()));
        let b = scrypto::math::PreciseDecimal::from_precise_subunits(I256::from_digits(other.to_limbs()));
        a.checked_add(b).map(|c| PreciseDecimal::from_limbs(c.precise_subunits().to_digits()))
    }

    /// `scrypto`'s `PreciseDecimal::checked_sub`: the difference, when it is in range.
    #[verifier::external_body]
    pub(crate) fn checked_sub(&self, other: &PreciseDecimal) -> (r: Option<PreciseDecimal>)
        ensures
            r is Some <==> in_pdec_range(self@ - other@),
            r matches Some(v) ==> v@ == self@ - other@,
    {
        let a = scrypto::math::PreciseDecimal::from_precise_subunits(I256::from_digits(self.to_limbs()));
        let b = scrypto::math::PreciseDecimal::from_precise_subunits(I256::from_digits(other.to_limbs()));
        a.checked_sub(b).map(|c| PreciseDecimal::from_limbs(c.precise_subunits().to_digits()))
    }

    /// `scrypto`'s `PreciseDecimal::checked_mul`: the product truncated toward zero, when in range.
    #[verifier::external_body]
    pub(crate) fn checked_mul(&self, other: &PreciseDecimal) -> (r: Option<PreciseDecimal>)
        ensures
            r is Some <==> in_pdec_range(pdec_mul(self@, other@)),
            r matches Some(v) ==> v@ == pdec_mul(self@, other@),
    {
        let a = scrypto::math::PreciseDecimal::from_precise_subunits(I256::from_digits(self.to_limbs()));
        let b = scrypto::math::PreciseDecimal::from_precise_subunits(I256::from_digits(other.to_limbs()));
        a.checked_mul(b).map(|c| PreciseDecimal::from_limbs(c.precise_subunits().to_digits()))
    }

    /// `scrypto`'s `PreciseDecimal::checked_div`: the quotient truncated toward zero,
    /// when the divisor is not zero and the quotient is in range.
    #[verifier::external_body]
    pub(crate) fn checked_div(&self, other: &PreciseDecimal) -> (r: Option<PreciseDecimal>)
        ensures
            r is Some <==> (other@ != 0 && in_pdec_range(pdec_div(self@, other@))),
            r matches Some(v) ==> v@ == pdec_div(self@, other@),
    {
        let a = scrypto::math::PreciseDecimal::from_precise_subunits(I256::from_digits(self.to_limbs()));
        let b = scrypto::math::PreciseDecimal::from_precise_subunits(I256::from_digits(other.to_limbs()));
        a.checked_div(b).map(|c| PreciseDecimal::from_limbs(c.precise_subunits().to_digits()))
    }

    /// `scrypto`'s `PreciseDecimal::checked_neg`: the opposite, when in range.
    #[verifier::external_body]
    pub(crate) fn checked_neg(&self) -> (r: Option<PreciseDecimal>)
        ensures
            r is Some <==> in_pdec_range(-self@),
            r matches Some(v) ==> v@ == -self@,
    {
        let a = scrypto::math::PreciseDecimal::from_precise_subunits(I256::from_digits(self.to_limbs()));
        a.checked_neg().map(|c| PreciseDecimal::from_limbs(c.precise_subunits().to_digits()))
    }

    /// `scrypto`'s `PreciseDecimal::checked_truncate` with banker's rounding:
    /// the nearest `Decimal`, when it is in range.
    #[verifier::external_body]
    pub(crate) fn checked_truncate(&self) -> (r: Option<Decimal>)
        ensures
            r is Some <==> in_dec_range(round_half_even(self@)),
            r matches Some(v) ==> v@ == round_half_even(self@),
    {
        let a = scrypto::math::PreciseDecimal::from_precise_subunits(I256::from_digits(self.to_limbs()));
        a.checked_truncate(RoundingMode::ToNearestMidpointToEven)
            .map(|c| Decimal::from_limbs(c.attos().to_digits()))
    }

    pub fn plus(&self, other: &PreciseDecimal) -> (r: PreciseDecimal)
        requires
            in_pdec_range(self@ + other@),
        ensures
            r@ == self@ + other@,
    {
        self.checked_add(other).unwrap()
    }

    pub fn minus(&self, other: &PreciseDecimal) -> (r: PreciseDecimal)
        requires
            in_pdec_range(self@ - other@),
        ensures
            r@ == self@ - other@,
    {
        self.checked_sub(other).unwrap()
    }

    pub fn times(&self, other: &PreciseDecimal) -> (r: PreciseDecimal)
        requires
            in_pdec_range(pdec_mul(self@, other@)),
        ensures
            r@ == pdec_mul(self@, other@),
    {
        self.checked_mul(other).unwrap()
    }

    pub fn over(&self, other: &PreciseDecimal) -> (r: PreciseDecimal)
        requires
            other@ != 0,
            in_pdec_range(pdec_div(self@, other@)),
        ensures
            r@ == pdec_div(self@, other@),
    {
        self.checked_div(other).unwrap()
    }

    pub fn negated(&self) -> (r: PreciseDecimal)
        requires
            in_pdec_range(-self@),
        ensures
            r@ == -self@,
    {
        self.checked_neg().unwrap()
    }

    pub fn truncated(&self) -> (r: Decimal)
        requires
            in_dec_range(round_half_even(self@)),
        ensures
            r@ == round_half_even(self@),
    {
        self.checked_truncate().unwrap()
    }
}

} // verus!

verus! {

impl Decimal {
    /// `Decimal * PreciseDecimal` in `scrypto`: the decimal widened, then multiplied.
    pub fn times_precise(&self, other: &PreciseDecimal) -> (r: PreciseDecimal)
        requires
            in_pdec_range(pdec_mul(widen(self@), other@)),
        ensures
            r@ == pdec_mul(widen(self@), other@),
    {
        self.to_precise().times(other)
    }

    /// `Decimal / PreciseDecimal` in `scrypto`: the decimal widened, then divided.
    pub fn over_precise(&self, other: &PreciseDecimal) -> (r: PreciseDecimal)
        requires
            other@ != 0,
            in_pdec_range(pdec_div(widen(self@), other@)),
        ensures
            r@ == pdec_div(widen(self@), other@),
    {
        self.to_precise().over(other)
    }
}

/// The text `scrypto` displays for the `Decimal` whose integer is `x`.
pub uninterp spec fn decimal_text(x: int) -> Seq<char>;

/// The text `scrypto` displays for the `PreciseDecimal` whose integer is `x`.
pub uninterp spec fn precise_decimal_text(x: int) -> Seq<char>;

impl Decimal {
    /// `scrypto`'s `Decimal` shown as text (its `Display`, through `to_string`).
    #[verifier::external_body]
    pub(crate) fn to_text(&self) -> (r: String)
        ensures
            r@ == decimal_text(self@),
    {
        scrypto::math::Decimal::from_attos(I192::from_digits(self.to_limbs())).to_string()
    }
}

impl PreciseDecimal {
    /// `scrypto`'s `PreciseDecimal` shown as text (its `Display`, through `to_string`).
    #[verifier::external_body]
    pub(crate) fn to_text(&self) -> (r: String)
        ensures
            r@ == precise_decimal_text(self@),
    {
        scrypto::math::PreciseDecimal::from_precise_subunits(I256::from_digits(self.to_limbs())).to_string()
    }
}

/// What `scrypto`'s `PreciseDecimal::checked_powi` gives for a base and an exponent
/// (exponentiation by squaring, each product truncated), `None` on overflow.
pub uninterp spec fn precise_powi(base: int, exp: int) -> Option<int>;

impl PreciseDecimal {
    /// `scrypto`'s `PreciseDecimal::checked_powi`: `self` to the power `exp`.
    #[verifier::external_body]
    pub(crate) fn checked_powi(&self, exp: i64) -> (r: Option<PreciseDecimal>)
        ensures
            precise_powi(self@, exp as int) == match r {
                Some(v) => Some(v@),
                None => None::<int>,
            },
    {
        let a = scrypto::math::PreciseDecimal::from_precise_subunits(I256::from_digits(self.to_limbs()));
        a.checked_powi(exp).map(|c| PreciseDecimal::from_limbs(c.precise_subunits().to_digits()))
    }
}

} // verus!
