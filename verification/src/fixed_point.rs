//! Signed fixed-point amounts with 48 fractional bits, the representation the
//! exchange uses for native token balances and fees.  A value is kept as its
//! raw bits; the rounding operations are computed by the `fixed` crate.
use vstd::prelude::*;

verus! {

/// The raw bits of the value one (2^48).
pub const FRAC_ONE: i128 = 0x1_0000_0000_0000;

/// The raw bits of the integer `n`.
pub open spec fn int_bits(n: int) -> int {
    n * (FRAC_ONE as int)
}

/// The whole part of a fixed-point value given by its bits, rounded towards -inf.
pub open spec fn floor_units(bits: int) -> int {
    bits / (FRAC_ONE as int)
}

/// The whole part of a fixed-point value given by its bits, rounded towards +inf.
pub open spec fn ceil_units(bits: int) -> int {
    -((-bits) / (FRAC_ONE as int))
}

/// The bits of the product of two fixed-point values, rounded towards -inf.
pub open spec fn mul_floor(a: int, b: int) -> int {
    (a * b) / (FRAC_ONE as int)
}

pub open spec fn fits_i128(x: int) -> bool {
    i128::MIN <= x <= i128::MAX
}

pub open spec fn fits_u64(x: int) -> bool {
    0 <= x <= u64::MAX
}

/// `I80F48::from_num` applied to an `i64`: the integer, exactly, as raw bits.
#[verifier::external_body]
fn i80f48_from_num_i64(x: i64) -> (bits: i128)
    ensures
        bits == int_bits(x as int),
{
    fixed::types::I80F48::from_num(x).to_bits()
}

/// `<I80F48 as From<i64>>::from`: the lossless conversion of an `i64`, as raw bits.
#[verifier::external_body]
fn i80f48_from_i64(x: i64) -> (bits: i128)
    ensures
        bits == int_bits(x as int),
{
    fixed::types::I80F48::from(x).to_bits()
}

/// `<I80F48 as From<u64>>::from`: the lossless conversion of a `u64`, as raw bits.
#[verifier::external_body]
fn i80f48_from_u64(x: u64) -> (bits: i128)
    ensures
        bits == int_bits(x as int),
{
    fixed::types::I80F48::from(x).to_bits()
}

/// `<I80F48 as Mul>::mul`: the full 256-bit product shifted right by 48 bits,
/// which rounds towards -inf; the crate asserts that the result fits, so the
/// inputs on which it would not fit are excluded.
#[verifier::external_body]
fn i80f48_mul(a: i128, b: i128) -> (bits: i128)
    requires
        fits_i128(mul_floor(a as int, b as int)),
    ensures
        bits == mul_floor(a as int, b as int),
{
    (fixed::types::I80F48::from_bits(a) * fixed::types::I80F48::from_bits(b)).to_bits()
}

/// `I80F48::checked_mul`: the product rounded towards -inf as `<I80F48 as
/// Mul>::mul` computes it, or none where it does not fit.
#[verifier::external_body]
fn i80f48_checked_mul(a: i128, b: i128) -> (r: Option<i128>)
    ensures
        match r {
            Some(bits) => fits_i128(mul_floor(a as int, b as int)) && bits == mul_floor(
                a as int,
                b as int,
            ),
            None => !fits_i128(mul_floor(a as int, b as int)),
        },
{
    fixed::types::I80F48::from_bits(a).checked_mul(fixed::types::I80F48::from_bits(b)).map(
        |x| x.to_bits(),
    )
}

/// `I80F48::to_num::<u64>`: the fractional bits are discarded (rounding towards
/// -inf); the crate asserts that the result fits a `u64`.
#[verifier::external_body]
fn i80f48_to_num_u64(a: i128) -> (n: u64)
    requires
        fits_u64(floor_units(a as int)),
    ensures
        n == floor_units(a as int),
{
    fixed::types::I80F48::from_bits(a).to_num::<u64>()
}

/// `I80F48::ceil`: rounds up to the next integer; the crate asserts that the
/// result fits.
#[verifier::external_body]
fn i80f48_ceil(a: i128) -> (bits: i128)
    requires
        fits_i128(int_bits(ceil_units(a as int))),
    ensures
        bits == int_bits(ceil_units(a as int)),
{
    fixed::types::I80F48::from_bits(a).ceil().to_bits()
}

/// A signed fixed-point number with 48 fractional bits, given by its raw bits
/// (the value is `bits / 2^48`).
#[derive(Clone, Copy, Debug, PartialEq, Eq, Structural)]
pub struct Fixed {
    pub bits: i128,
}

impl Fixed {
    pub fn zero() -> (r: Fixed)
        ensures
            r.bits == 0,
    {
        Fixed { bits: 0 }
    }

    pub fn from_bits(bits: i128) -> (r: Fixed)
        ensures
            r.bits == bits,
    {
        Fixed { bits }
    }

    /// The integer `x` (as `I80F48::from_num` makes it).
    pub fn from_num(x: i64) -> (r: Fixed)
        ensures
            r.bits == int_bits(x as int),
    {
        Fixed { bits: i80f48_from_num_i64(x) }
    }

    /// The integer `x` (as `From<i64>` makes it).
    pub fn from_i64(x: i64) -> (r: Fixed)
        ensures
            r.bits == int_bits(x as int),
    {
        Fixed { bits: i80f48_from_i64(x) }
    }

    /// The integer `x` (as `From<u64>` makes it).
    pub fn from_u64(x: u64) -> (r: Fixed)
        ensures
            r.bits == int_bits(x as int),
    {
        Fixed { bits: i80f48_from_u64(x) }
    }

    pub fn add(self, other: Fixed) -> (r: Fixed)
        requires
            fits_i128(self.bits + other.bits),
        ensures
            r.bits == self.bits + other.bits,
    {
        Fixed { bits: self.bits + other.bits }
    }

    pub fn sub(self, other: Fixed) -> (r: Fixed)
        requires
            fits_i128(self.bits - other.bits),
        ensures
            r.bits == self.bits - other.bits,
    {
        Fixed { bits: self.bits - other.bits }
    }

    pub fn mul(self, other: Fixed) -> (r: Fixed)
        requires
            fits_i128(mul_floor(self.bits as int, other.bits as int)),
        ensures
            r.bits == mul_floor(self.bits as int, other.bits as int),
    {
        Fixed { bits: i80f48_mul(self.bits, other.bits) }
    }

    /// The product, or none where it does not fit.
    pub fn checked_mul(self, other: Fixed) -> (r: Option<Fixed>)
        ensures
            match r {
                Some(x) => fits_i128(mul_floor(self.bits as int, other.bits as int)) && x.bits
                    == mul_floor(self.bits as int, other.bits as int),
                None => !fits_i128(mul_floor(self.bits as int, other.bits as int)),
            },
    {
        match i80f48_checked_mul(self.bits, other.bits) {
            Some(bits) => Some(Fixed { bits }),
            None => None,
        }
    }

    /// The smaller of two values.
    pub fn min(self, other: Fixed) -> (r: Fixed)
        ensures
            r.bits == (if self.bits <= other.bits { self.bits } else { other.bits }),
    {
        if self.bits <= other.bits {
            self
        } else {
            other
        }
    }

    pub fn is_positive(self) -> (r: bool)
        ensures
            r == (self.bits > 0),
    {
        self.bits > 0
    }

    /// The whole part, rounded towards -inf, as a `u64`.
    pub fn to_num_u64(self) -> (n: u64)
        requires
            fits_u64(floor_units(self.bits as int)),
        ensures
            n == floor_units(self.bits as int),
    {
        i80f48_to_num_u64(self.bits)
    }

    /// The value rounded up to the next integer.
    pub fn ceil(self) -> (r: Fixed)
        requires
            fits_i128(int_bits(ceil_units(self.bits as int))),
        ensures
            r.bits == int_bits(ceil_units(self.bits as int)),
    {
        Fixed { bits: i80f48_ceil(self.bits) }
    }
}

/// The whole part of the integer `n` is `n`.
pub proof fn lemma_int_bits_floor(n: int)
    ensures
        floor_units(int_bits(n)) == n,
{
    vstd::arithmetic::mul::lemma_mul_is_commutative(n, FRAC_ONE as int);
    vstd::arithmetic::div_mod::lemma_div_multiples_vanish(n, FRAC_ONE as int);
}

/// The rounded product of two integers is exact.
pub proof fn lemma_mul_int_bits(x: int, y: int)
    ensures
        mul_floor(int_bits(x), int_bits(y)) == int_bits(x * y),
{
    let one = FRAC_ONE as int;
    let v = x * y * one;
    assert((x * one) * (y * one) == one * v) by (nonlinear_arith)
        requires
            v == x * y * one,
    ;
    vstd::arithmetic::div_mod::lemma_div_multiples_vanish(v, one);
}

/// The whole part, rounded down, of a value given by its bits, where it is a `u64`.
pub fn floor_to_u64(bits: i128) -> (r: Option<u64>)
    ensures
        match r {
            Some(n) => fits_u64(floor_units(bits as int)) && n == floor_units(bits as int),
            None => !fits_u64(floor_units(bits as int)),
        },
{
    if bits < 0 {
        proof {
            lemma_floor_units_bounds(bits as int);
        }
        return None;
    }
    let q: u128 = (bits as u128) / 0x1_0000_0000_0000u128;
    if q > 0xffff_ffff_ffff_ffffu128 {
        None
    } else {
        Some(q as u64)
    }
}

/// The whole part, rounded up, of a value given by its bits, where it is a
/// `u64` whose raw bits fit an `i128`.
pub fn ceil_to_u64(bits: i128) -> (r: Option<u64>)
    ensures
        match r {
            Some(n) => fits_u64(ceil_units(bits as int)) && fits_i128(int_bits(ceil_units(bits as int)))
                && n == ceil_units(bits as int),
            None => !(fits_u64(ceil_units(bits as int)) && fits_i128(int_bits(ceil_units(bits as int)))),
        },
{
    if bits <= 0 {
        proof {
            lemma_ceil_units_bounds(bits as int);
        }
        return if bits > -0x1_0000_0000_0000i128 {
            Some(0)
        } else {
            None
        };
    }
    let c: u128 = ((bits as u128) + 0xffff_ffff_ffffu128) / 0x1_0000_0000_0000u128;
    proof {
        let one = FRAC_ONE as int;
        let d = bits as int;
        vstd::arithmetic::div_mod::lemma_fundamental_div_mod(d + one - 1, one);
        vstd::arithmetic::div_mod::lemma_mod_bound(d + one - 1, one);
        vstd::arithmetic::mul::lemma_mul_is_commutative(one, (d + one - 1) / one);
        lemma_ceil_units_bounds(d);
        assert(c as int == ceil_units(d));
    }
    if c > 0xffff_ffff_ffff_ffffu128 {
        None
    } else {
        Some(c as u64)
    }
}

/// Rounding up covers the value, and by less than one unit: `ceil_units(b)`
/// is the least integer `n` with `n * 2^48 >= b`.
pub proof fn lemma_ceil_units_bounds(b: int)
    ensures
        int_bits(ceil_units(b)) >= b,
        int_bits(ceil_units(b)) < b + (FRAC_ONE as int),
{
    let one = FRAC_ONE as int;
    let q = (-b) / one;
    vstd::arithmetic::div_mod::lemma_fundamental_div_mod(-b, one);
    vstd::arithmetic::div_mod::lemma_mod_bound(-b, one);
    vstd::arithmetic::mul::lemma_mul_unary_negation(q, one);
    vstd::arithmetic::mul::lemma_mul_is_commutative(one, q);
    assert(int_bits(ceil_units(b)) == (-q) * one);
}

/// Rounding down stays under the value, and by less than one unit.
pub proof fn lemma_floor_units_bounds(b: int)
    ensures
        int_bits(floor_units(b)) <= b,
        int_bits(floor_units(b)) > b - (FRAC_ONE as int),
{
    let one = FRAC_ONE as int;
    vstd::arithmetic::div_mod::lemma_fundamental_div_mod(b, one);
    vstd::arithmetic::div_mod::lemma_mod_bound(b, one);
    vstd::arithmetic::mul::lemma_mul_is_commutative(one, b / one);
}

} // verus!
