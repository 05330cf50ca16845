//! Signed fixed-point numbers with 80 integer and 48 fractional bits.
//!
//! A number is held as its raw bits: the value times 2^48, as an `i128`.
//! Every contract speaks of these raw bits as mathematical integers. The
//! arithmetic itself is done by the `fixed` crate; the private functions at
//! the end of this file are the only places that call it.

use vstd::prelude::*;

verus! {

/// The raw bits of the number one: 2^48.
pub const ONE_BITS: i128 = 0x1_0000_0000_0000;

/// `v` can be held in 128 bits.
pub open spec fn in_range(v: int) -> bool {
    i128::MIN <= v <= i128::MAX
}

/// `v` can be held in 64 bits.
pub open spec fn in_i64_range(v: int) -> bool {
    i64::MIN <= v <= i64::MAX
}

/// Raw bits of a product: the exact product, rounded down to a multiple of 2^-48.
pub open spec fn mul_bits(a: int, b: int) -> int {
    (a * b) / (ONE_BITS as int)
}

/// Quotient of `n` by `d` rounded towards zero.
pub open spec fn trunc_div(n: int, d: int) -> int
    recommends
        d != 0,
{
    if n >= 0 {
        if d > 0 {
            n / d
        } else {
            -(n / (-d))
        }
    } else {
        if d > 0 {
            -((-n) / d)
        } else {
            (-n) / (-d)
        }
    }
}

/// Raw bits of a quotient: the exact quotient, rounded towards zero to a multiple of 2^-48.
pub open spec fn div_bits(a: int, b: int) -> int
    recommends
        b != 0,
{
    trunc_div(a * (ONE_BITS as int), b)
}

/// The largest integer that is not above the number with raw bits `a`.
pub open spec fn floor_int(a: int) -> int {
    a / (ONE_BITS as int)
}

/// The smallest integer that is not below the number with raw bits `a`.
pub open spec fn ceil_int(a: int) -> int {
    -((-a) / (ONE_BITS as int))
}

/// The number with raw bits `v`, if 128 bits can hold them.
pub open spec fn checked(v: int) -> Option<I80F48> {
    if in_range(v) {
        Some(I80F48 { bits: v as i128 })
    } else {
        None
    }
}

/// A fixed-point number, given by its raw bits.
#[derive(Clone, Copy, Debug, PartialEq, Eq, Structural)]
pub struct I80F48 {
    pub bits: i128,
}

impl I80F48 {
    pub open spec fn spec_checked_add(self, rhs: I80F48) -> Option<I80F48> {
        checked(self.bits + rhs.bits)
    }

    pub open spec fn spec_checked_sub(self, rhs: I80F48) -> Option<I80F48> {
        checked(self.bits - rhs.bits)
    }

    pub open spec fn spec_checked_neg(self) -> Option<I80F48> {
        checked(-self.bits)
    }

    pub open spec fn spec_checked_mul(self, rhs: I80F48) -> Option<I80F48> {
        checked(mul_bits(self.bits as int, rhs.bits as int))
    }

    pub open spec fn spec_checked_div(self, rhs: I80F48) -> Option<I80F48> {
        if rhs.bits == 0 {
            None
        } else {
            checked(div_bits(self.bits as int, rhs.bits as int))
        }
    }

    pub open spec fn spec_checked_ceil(self) -> Option<I80F48> {
        checked(ceil_int(self.bits as int) * (ONE_BITS as int))
    }

    pub open spec fn spec_checked_floor(self) -> Option<I80F48> {
        checked(floor_int(self.bits as int) * (ONE_BITS as int))
    }

    pub open spec fn spec_checked_to_num(self) -> Option<i64> {
        if in_i64_range(floor_int(self.bits as int)) {
            Some(floor_int(self.bits as int) as i64)
        } else {
            None
        }
    }

    pub open spec fn spec_from_num(v: i64) -> I80F48 {
        I80F48 { bits: (v * (ONE_BITS as int)) as i128 }
    }

    /// The number with the given raw bits.
    pub fn from_bits(bits: i128) -> (r: I80F48)
        ensures
            r.bits == bits,
    {
        I80F48 { bits }
    }

    /// The raw bits of the number.
    pub fn to_bits(self) -> (r: i128)
        ensures
            r == self.bits,
    {
        self.bits
    }

    pub fn zero() -> (r: I80F48)
        ensures
            r.bits == 0,
    {
        I80F48 { bits: 0 }
    }

    pub fn one() -> (r: I80F48)
        ensures
            r.bits == ONE_BITS,
    {
        I80F48 { bits: ONE_BITS }
    }

    pub fn is_negative(self) -> (r: bool)
        ensures
            r == (self.bits < 0),
    {
        self.bits < 0
    }

    pub fn is_positive(self) -> (r: bool)
        ensures
            r == (self.bits > 0),
    {
        self.bits > 0
    }

    /// The integer `v` as a fixed-point number. Every `i64` fits.
    pub fn from_num(v: i64) -> (r: I80F48)
        ensures
            r == Self::spec_from_num(v),
            r.bits == v * ONE_BITS,
    {
        I80F48 { bits: fixed_from_i64(v) }
    }

    /// The sum, or `None` where 128 bits cannot hold it.
    pub fn checked_add(self, rhs: I80F48) -> (r: Option<I80F48>)
        ensures
            r == self.spec_checked_add(rhs),
    {
        match fixed_checked_add(self.bits, rhs.bits) {
            Some(bits) => Some(I80F48 { bits }),
            None => None,
        }
    }

    /// The difference, or `None` where 128 bits cannot hold it.
    pub fn checked_sub(self, rhs: I80F48) -> (r: Option<I80F48>)
        ensures
            r == self.spec_checked_sub(rhs),
    {
        match fixed_checked_sub(self.bits, rhs.bits) {
            Some(bits) => Some(I80F48 { bits }),
            None => None,
        }
    }

    /// The negation, or `None` for the least number, which has none.
    pub fn checked_neg(self) -> (r: Option<I80F48>)
        ensures
            r == self.spec_checked_neg(),
    {
        match fixed_checked_neg(self.bits) {
            Some(bits) => Some(I80F48 { bits }),
            None => None,
        }
    }

    /// The product rounded down, or `None` where 128 bits cannot hold it.
    pub fn checked_mul(self, rhs: I80F48) -> (r: Option<I80F48>)
        ensures
            r == self.spec_checked_mul(rhs),
    {
        match fixed_checked_mul(self.bits, rhs.bits) {
            Some(bits) => Some(I80F48 { bits }),
            None => None,
        }
    }

    /// The quotient rounded towards zero, or `None` where the divisor is zero
    /// or 128 bits cannot hold the quotient.
    pub fn checked_div(self, rhs: I80F48) -> (r: Option<I80F48>)
        ensures
            r == self.spec_checked_div(rhs),
    {
        match fixed_checked_div(self.bits, rhs.bits) {
            Some(bits) => Some(I80F48 { bits }),
            None => None,
        }
    }

    /// The next integer towards plus infinity, or `None` where 128 bits cannot hold it.
    pub fn checked_ceil(self) -> (r: Option<I80F48>)
        ensures
            r == self.spec_checked_ceil(),
    {
        match fixed_checked_ceil(self.bits) {
            Some(bits) => Some(I80F48 { bits }),
            None => None,
        }
    }

    /// The next integer towards minus infinity.
    pub fn checked_floor(self) -> (r: Option<I80F48>)
        ensures
            r == self.spec_checked_floor(),
    {
        match fixed_checked_floor(self.bits) {
            Some(bits) => Some(I80F48 { bits }),
            None => None,
        }
    }

    /// The integer part, rounded towards minus infinity, or `None` where it is no `i64`.
    pub fn checked_to_num(self) -> (r: Option<i64>)
        ensures
            r == self.spec_checked_to_num(),
    {
        fixed_checked_to_i64(self.bits)
    }
}

/// `From<i64>` of `fixed::types::I80F48`: the conversion is lossless, so the
/// raw bits of the result are the integer times 2^48.
#[verifier::external_body]
fn fixed_from_i64(v: i64) -> (bits: i128)
    ensures
        bits == v * ONE_BITS,
{
    fixed::types::I80F48::from(v).to_bits()
}

/// `checked_add` of `fixed::types::I80F48`: the sum of the raw bits, `None`
/// on overflow.
#[verifier::external_body]
fn fixed_checked_add(a: i128, b: i128) -> (r: Option<i128>)
    ensures
        r == (if in_range(a + b) { Some((a + b) as i128) } else { None }),
{
    match fixed::types::I80F48::from_bits(a).checked_add(fixed::types::I80F48::from_bits(b)) {
        Some(x) => Some(x.to_bits()),
        None => None,
    }
}

/// `checked_sub` of `fixed::types::I80F48`: the difference of the raw bits,
/// `None` on overflow.
#[verifier::external_body]
fn fixed_checked_sub(a: i128, b: i128) -> (r: Option<i128>)
    ensures
        r == (if in_range(a - b) { Some((a - b) as i128) } else { None }),
{
    match fixed::types::I80F48::from_bits(a).checked_sub(fixed::types::I80F48::from_bits(b)) {
        Some(x) => Some(x.to_bits()),
        None => None,
    }
}

/// `checked_neg` of `fixed::types::I80F48`: the negated raw bits, `None` for
/// the least value.
#[verifier::external_body]
fn fixed_checked_neg(a: i128) -> (r: Option<i128>)
    ensures
        r == (if in_range(-a) { Some((-a) as i128) } else { None }),
{
    match fixed::types::I80F48::from_bits(a).checked_neg() {
        Some(x) => Some(x.to_bits()),
        None => None,
    }
}

/// `checked_mul` of `fixed::types::I80F48`: the crate forms the exact 256-bit
/// product of the raw bits and shifts it right by 48 bits, which rounds
/// towards minus infinity; `None` where the shifted product is no `i128`.
#[verifier::external_body]
fn fixed_checked_mul(a: i128, b: i128) -> (r: Option<i128>)
    ensures
        r == (if in_range(mul_bits(a as int, b as int)) {
            Some(mul_bits(a as int, b as int) as i128)
        } else {
            None
        }),
{
    match fixed::types::I80F48::from_bits(a).checked_mul(fixed::types::I80F48::from_bits(b)) {
        Some(x) => Some(x.to_bits()),
        None => None,
    }
}

/// `checked_div` of `fixed::types::I80F48`: `None` for a zero divisor;
/// else the crate shifts the dividend's raw bits left by 48 bits into 256
/// bits and divides magnitudes, which rounds towards zero; `None` where
/// the quotient is no `i128`.
#[verifier::external_body]
fn fixed_checked_div(a: i128, b: i128) -> (r: Option<i128>)
    ensures
        r == (if b != 0 && in_range(div_bits(a as int, b as int)) {
            Some(div_bits(a as int, b as int) as i128)
        } else {
            None
        }),
{
    match fixed::types::I80F48::from_bits(a).checked_div(fixed::types::I80F48::from_bits(b)) {
        Some(x) => Some(x.to_bits()),
        None => None,
    }
}

/// `checked_ceil` of `fixed::types::I80F48`: the next integer towards plus
/// infinity, `None` on overflow.
#[verifier::external_body]
fn fixed_checked_ceil(a: i128) -> (r: Option<i128>)
    ensures
        r == (if in_range(ceil_int(a as int) * ONE_BITS) {
            Some((ceil_int(a as int) * ONE_BITS) as i128)
        } else {
            None
        }),
{
    match fixed::types::I80F48::from_bits(a).checked_ceil() {
        Some(x) => Some(x.to_bits()),
        None => None,
    }
}

/// `checked_floor` of `fixed::types::I80F48`: the next integer towards minus
/// infinity; with 80 integer bits the result always fits.
#[verifier::external_body]
fn fixed_checked_floor(a: i128) -> (r: Option<i128>)
    ensures
        r == Some((floor_int(a as int) * ONE_BITS) as i128),
{
    match fixed::types::I80F48::from_bits(a).checked_floor() {
        Some(x) => Some(x.to_bits()),
        None => None,
    }
}

/// `checked_to_num::<i64>` of `fixed::types::I80F48`: the fractional bits are
/// discarded, which rounds towards minus infinity; `None` where the integer
/// part is no `i64`.
#[verifier::external_body]
fn fixed_checked_to_i64(a: i128) -> (r: Option<i64>)
    ensures
        r == (if in_i64_range(floor_int(a as int)) {
            Some(floor_int(a as int) as i64)
        } else {
            None
        }),
{
    fixed::types::I80F48::from_bits(a).checked_to_num::<i64>()
}

} // verus!
