//! Fixed-point amounts with fifteen fractional bits.
//!
//! An amount is modelled by its raw value: the mathematical integer that is
//! the amount multiplied by two to the power of fifteen. The arithmetic itself
//! is done by the `fixed` crate; the functions that call it are trusted, and
//! their contracts say over raw values what the crate computes.
use fixed::types::extra::U15;
use fixed::FixedI128;
use vstd::prelude::*;

verus! {

/// The raw value of the number one: two to the power of fifteen.
pub const ONE_BITS: i128 = 32768;

/// Whether an integer is the raw value of some amount.
pub open spec fn fits(x: int) -> bool {
    i128::MIN <= x <= i128::MAX
}

/// The raw value of the product of two amounts, given their raw values: the
/// exact product with the fifteen extra fractional bits dropped, which rounds
/// towards minus infinity.
pub open spec fn raw_product(a: int, b: int) -> int {
    (a * b) / 32768
}

/// The text that the `fixed` crate prints for the amount with the given raw
/// value when asked for four digits after the decimal point.
pub uninterp spec fn decimal_text(bits: int) -> Seq<char>;

/// `FixedI128::<U15>::from_num` on a 32-bit integer. The crate keeps the
/// integer's value, so the raw value is the integer shifted up by fifteen
/// bits; the 113 integer bits hold every `i32`.
#[verifier::external_body]
fn fixed_from_num(n: i32) -> (r: i128)
    ensures
        r == n * 32768,
{
    FixedI128::<U15>::from_num(n).to_bits()
}

/// `FixedI128::<U15>::checked_add` on raw values. The crate adds the raw
/// values and gives `None` where the sum leaves the range of `i128`.
#[verifier::external_body]
fn fixed_checked_add(a: i128, b: i128) -> (r: Option<i128>)
    ensures
        match r {
            Some(sum) => sum == a + b,
            None => !fits(a + b),
        },
{
    match FixedI128::<U15>::from_bits(a).checked_add(FixedI128::<U15>::from_bits(b)) {
        Some(sum) => Some(sum.to_bits()),
        None => None,
    }
}

/// `FixedI128::<U15>::checked_sub` on raw values. The crate subtracts the raw
/// values and gives `None` where the difference leaves the range of `i128`.
#[verifier::external_body]
fn fixed_checked_sub(a: i128, b: i128) -> (r: Option<i128>)
    ensures
        match r {
            Some(difference) => difference == a - b,
            None => !fits(a - b),
        },
{
    match FixedI128::<U15>::from_bits(a).checked_sub(FixedI128::<U15>::from_bits(b)) {
        Some(difference) => Some(difference.to_bits()),
        None => None,
    }
}

/// `FixedI128::<U15>::checked_mul` on raw values. The crate multiplies the raw
/// values in 256 bits, shifts the product down by the fifteen fractional bits
/// with the sign kept, and gives `None` where the result leaves the range of
/// `i128`.
#[verifier::external_body]
fn fixed_checked_mul(a: i128, b: i128) -> (r: Option<i128>)
    ensures
        match r {
            Some(product) => product == raw_product(a as int, b as int),
            None => !fits(raw_product(a as int, b as int)),
        },
{
    match FixedI128::<U15>::from_bits(a).checked_mul(FixedI128::<U15>::from_bits(b)) {
        Some(product) => Some(product.to_bits()),
        None => None,
    }
}

/// `>=` between two `FixedI128::<U15>` values. With the same number of
/// fractional bits on both sides the crate compares the raw values.
#[verifier::external_body]
fn fixed_ge(a: i128, b: i128) -> (r: bool)
    ensures
        r == (a >= b),
{
    FixedI128::<U15>::from_bits(a) >= FixedI128::<U15>::from_bits(b)
}

/// The `Display` implementation of `FixedI128::<U15>` with a precision of
/// four. The text depends on the raw value alone and is named, not described.
#[verifier::external_body]
fn fixed_format(bits: i128) -> (text: String)
    ensures
        text@ == decimal_text(bits as int),
{
    format!("{:.4}", FixedI128::<U15>::from_bits(bits))
}

/// A signed fixed-point number with 113 integer bits and 15 fractional bits.
#[derive(Clone, Copy, Debug, PartialEq, Eq, Structural)]
pub struct FloatingPoint {
    /// The number multiplied by two to the power of fifteen.
    pub bits: i128,
}

impl View for FloatingPoint {
    type V = int;

    /// The raw value.
    open spec fn view(&self) -> int {
        self.bits as int
    }
}

impl FloatingPoint {
    /// The amount with the given raw value.
    pub fn from_bits(bits: i128) -> (r: FloatingPoint)
        ensures
            r@ == bits,
    {
        FloatingPoint { bits }
    }

    /// The raw value of the amount.
    pub fn to_bits(self) -> (bits: i128)
        ensures
            bits == self@,
    {
        self.bits
    }

    /// The amount equal to a whole number.
    pub fn from_num(n: i32) -> (r: FloatingPoint)
        ensures
            r@ == n * ONE_BITS,
    {
        FloatingPoint { bits: fixed_from_num(n) }
    }

    /// The sum, or `None` where it cannot be represented.
    pub fn checked_add(self, rhs: FloatingPoint) -> (r: Option<FloatingPoint>)
        ensures
            match r {
                Some(sum) => sum@ == self@ + rhs@,
                None => !fits(self@ + rhs@),
            },
    {
        match fixed_checked_add(self.bits, rhs.bits) {
            Some(bits) => Some(FloatingPoint { bits }),
            None => None,
        }
    }

    /// The difference, or `None` where it cannot be represented.
    pub fn checked_sub(self, rhs: FloatingPoint) -> (r: Option<FloatingPoint>)
        ensures
            match r {
                Some(difference) => difference@ == self@ - rhs@,
                None => !fits(self@ - rhs@),
            },
    {
        match fixed_checked_sub(self.bits, rhs.bits) {
            Some(bits) => Some(FloatingPoint { bits }),
            None => None,
        }
    }

    /// The product, rounded towards minus infinity to fifteen fractional
    /// bits, or `None` where it cannot be represented.
    pub fn checked_mul(self, rhs: FloatingPoint) -> (r: Option<FloatingPoint>)
        ensures
            match r {
                Some(product) => product@ == raw_product(self@, rhs@),
                None => !fits(raw_product(self@, rhs@)),
            },
    {
        match fixed_checked_mul(self.bits, rhs.bits) {
            Some(bits) => Some(FloatingPoint { bits }),
            None => None,
        }
    }

    /// Whether the amount is at least `rhs`.
    pub fn ge(self, rhs: FloatingPoint) -> (r: bool)
        ensures
            r == (self@ >= rhs@),
    {
        fixed_ge(self.bits, rhs.bits)
    }

    /// The amount in decimal notation with four digits after the point.
    pub fn to_decimal_string(self) -> (text: String)
        ensures
            text@ == decimal_text(self@),
    {
        fixed_format(self.bits)
    }
}

} // verus!
