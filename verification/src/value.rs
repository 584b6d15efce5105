//! The machine's value type: a double-precision IEEE 754 number, copied by
//! value, held as its 64-bit pattern so that loads and stores are exact.
//!
//! Arithmetic on values is delegated to `rustc_apfloat`'s software
//! implementation of IEEE 754 binary64; each operation is named by an
//! uninterpreted spec function, and every contract in the machine speaks of
//! those names. Division by zero follows the standard floating-point rules
//! (infinities and NaN), so it is never a machine-level fault.

use vstd::prelude::*;

verus! {

/// What `rustc_apfloat`'s binary64 addition (round to nearest, ties to even)
/// returns for the two given bit patterns.
pub uninterp spec fn add_bits(a: u64, b: u64) -> u64;

/// What `rustc_apfloat`'s binary64 subtraction returns for the two given bit
/// patterns.
pub uninterp spec fn sub_bits(a: u64, b: u64) -> u64;

/// What `rustc_apfloat`'s binary64 multiplication returns for the two given
/// bit patterns.
pub uninterp spec fn mul_bits(a: u64, b: u64) -> u64;

/// What `rustc_apfloat`'s binary64 division returns for the two given bit
/// patterns.
pub uninterp spec fn div_bits(a: u64, b: u64) -> u64;

/// What `rustc_apfloat`'s binary64 negation returns for the given bit
/// pattern.
pub uninterp spec fn neg_bits(a: u64) -> u64;

/// The decimal rendering of the binary64 number with the given bit pattern,
/// as `rustc_apfloat`'s `Display` produces it.
pub uninterp spec fn value_text(bits: u64) -> Seq<char>;

/// A double-precision value, stored as its exact IEEE 754 bit pattern.
#[derive(Clone, Copy, PartialEq, Eq, Structural, Debug)]
pub struct Value {
    pub bits: u64,
}

impl Value {
    /// Relies on `rustc_apfloat::ieee::Double`'s `Add` impl: IEEE 754
    /// binary64 addition, round to nearest, ties to even.
    #[verifier::external_body]
    pub fn add(self, rhs: Value) -> (r: Value)
        ensures
            r.bits == add_bits(self.bits, rhs.bits),
    {
        let a = <rustc_apfloat::ieee::Double as rustc_apfloat::Float>::from_bits(self.bits as u128);
        let b = <rustc_apfloat::ieee::Double as rustc_apfloat::Float>::from_bits(rhs.bits as u128);
        Value { bits: rustc_apfloat::Float::to_bits((a + b).value) as u64 }
    }

    /// Relies on `rustc_apfloat::ieee::Double`'s `Sub` impl: IEEE 754
    /// binary64 subtraction, round to nearest, ties to even.
    #[verifier::external_body]
    pub fn sub(self, rhs: Value) -> (r: Value)
        ensures
            r.bits == sub_bits(self.bits, rhs.bits),
    {
        let a = <rustc_apfloat::ieee::Double as rustc_apfloat::Float>::from_bits(self.bits as u128);
        let b = <rustc_apfloat::ieee::Double as rustc_apfloat::Float>::from_bits(rhs.bits as u128);
        Value { bits: rustc_apfloat::Float::to_bits((a - b).value) as u64 }
    }

    /// Relies on `rustc_apfloat::ieee::Double`'s `Mul` impl: IEEE 754
    /// binary64 multiplication, round to nearest, ties to even.
    #[verifier::external_body]
    pub fn mul(self, rhs: Value) -> (r: Value)
        ensures
            r.bits == mul_bits(self.bits, rhs.bits),
    {
        let a = <rustc_apfloat::ieee::Double as rustc_apfloat::Float>::from_bits(self.bits as u128);
        let b = <rustc_apfloat::ieee::Double as rustc_apfloat::Float>::from_bits(rhs.bits as u128);
        Value { bits: rustc_apfloat::Float::to_bits((a * b).value) as u64 }
    }

    /// Relies on `rustc_apfloat::ieee::Double`'s `Div` impl: IEEE 754
    /// binary64 division, round to nearest, ties to even; division by zero
    /// yields an infinity or NaN, never a fault.
    #[verifier::external_body]
    pub fn div(self, rhs: Value) -> (r: Value)
        ensures
            r.bits == div_bits(self.bits, rhs.bits),
    {
        let a = <rustc_apfloat::ieee::Double as rustc_apfloat::Float>::from_bits(self.bits as u128);
        let b = <rustc_apfloat::ieee::Double as rustc_apfloat::Float>::from_bits(rhs.bits as u128);
        Value { bits: rustc_apfloat::Float::to_bits((a / b).value) as u64 }
    }

    /// Relies on `rustc_apfloat::ieee::Double`'s `Neg` impl: IEEE 754
    /// negation (the sign bit flips, exactly).
    #[verifier::external_body]
    pub fn neg(self) -> (r: Value)
        ensures
            r.bits == neg_bits(self.bits),
    {
        let a = <rustc_apfloat::ieee::Double as rustc_apfloat::Float>::from_bits(self.bits as u128);
        Value { bits: rustc_apfloat::Float::to_bits(-a) as u64 }
    }
}

/// Relies on `rustc_apfloat::ieee::Double`'s `Display` impl: a decimal
/// rendering of the value, a function of the bit pattern alone.
#[verifier::external_body]
pub fn print_value(value: &Value) -> (text: String)
    ensures
        text@ == value_text(value.bits),
{
    format!("{}", <rustc_apfloat::ieee::Double as rustc_apfloat::Float>::from_bits(value.bits as u128))
}

} // verus!
