//! IEEE 754 predicates on the bit patterns of floating-point wire values.
//!
//! Tables carry `f64` and `f32` scalars; the validators only ask whether a
//! value is finite, zero, or on one side of zero, which the bit pattern
//! answers exactly.
use vstd::prelude::*;

verus! {

/// A binary64 value is finite when its exponent field is not all ones.
pub open spec fn f64_finite(bits: u64) -> bool {
    (bits >> 52u64) & 0x7ffu64 != 0x7ffu64
}

/// A binary64 value is NaN when its exponent is all ones and its fraction is not zero.
pub open spec fn f64_nan(bits: u64) -> bool {
    !f64_finite(bits) && bits & 0xf_ffff_ffff_ffffu64 != 0
}

/// A binary64 value is `+0.0` or `-0.0`.
pub open spec fn f64_zero(bits: u64) -> bool {
    bits & 0x7fff_ffff_ffff_ffffu64 == 0
}

/// A binary64 value `x` satisfies `x <= 0.0` (never for NaN).
pub open spec fn f64_le_zero(bits: u64) -> bool {
    !f64_nan(bits) && (bits >> 63u64 == 1 || f64_zero(bits))
}

/// A binary32 value is finite when its exponent field is not all ones.
pub open spec fn f32_finite(bits: u32) -> bool {
    (bits >> 23u32) & 0xffu32 != 0xffu32
}

/// A binary32 value is `+0.0` or `-0.0`.
pub open spec fn f32_zero(bits: u32) -> bool {
    bits & 0x7fff_ffffu32 == 0
}

/// A binary32 value is NaN.
pub open spec fn f32_nan(bits: u32) -> bool {
    !f32_finite(bits) && bits & 0x7f_ffffu32 != 0
}

/// A binary32 value `x` satisfies `x >= 0.0` (never for NaN).
pub open spec fn f32_ge_zero(bits: u32) -> bool {
    !f32_nan(bits) && (bits >> 31u32 == 0 || f32_zero(bits))
}

/// A binary64 value is finite with magnitude at most `f32::MAX`
/// (`0x1.fffffep127`, whose binary64 pattern is `0x47ef_ffff_e000_0000`): the
/// magnitude bits of non-NaN binary64 values order as their magnitudes do,
/// and infinities and NaNs lie above every finite pattern.
pub open spec fn f64_within_f32(bits: u64) -> bool {
    bits & 0x7fff_ffff_ffff_ffffu64 <= 0x47ef_ffff_e000_0000u64
}

/// Every binary64 value of `values` is finite.
pub open spec fn all_finite(values: Seq<u64>) -> bool {
    forall|i: int| 0 <= i < values.len() ==> f64_finite(#[trigger] values[i])
}

/// Whether the binary64 value is finite.
pub fn finite_f64(bits: u64) -> (r: bool)
    ensures
        r == f64_finite(bits),
{
    (bits >> 52u64) & 0x7ffu64 != 0x7ffu64
}

/// Whether the binary64 value `x` satisfies `x <= 0.0`.
pub fn le_zero_f64(bits: u64) -> (r: bool)
    ensures
        r == f64_le_zero(bits),
{
    let nan = (bits >> 52u64) & 0x7ffu64 == 0x7ffu64 && bits & 0xf_ffff_ffff_ffffu64 != 0;
    !nan && (bits >> 63u64 == 1 || bits & 0x7fff_ffff_ffff_ffffu64 == 0)
}

/// Whether the binary64 value is zero of either sign.
pub fn zero_f64(bits: u64) -> (r: bool)
    ensures
        r == f64_zero(bits),
{
    bits & 0x7fff_ffff_ffff_ffffu64 == 0
}

/// Whether the binary64 value is finite with magnitude at most `f32::MAX`.
pub fn within_f32_f64(bits: u64) -> (r: bool)
    ensures
        r == f64_within_f32(bits),
        r ==> f64_finite(bits),
{
    assert(bits & 0x7fff_ffff_ffff_ffffu64 <= 0x47ef_ffff_e000_0000u64 ==> (bits >> 52u64)
        & 0x7ffu64 != 0x7ffu64) by (bit_vector);
    bits & 0x7fff_ffff_ffff_ffffu64 <= 0x47ef_ffff_e000_0000u64
}

/// Whether the binary32 value is finite.
pub fn finite_f32(bits: u32) -> (r: bool)
    ensures
        r == f32_finite(bits),
{
    (bits >> 23u32) & 0xffu32 != 0xffu32
}

/// Whether the binary32 value is zero of either sign.
pub fn zero_f32(bits: u32) -> (r: bool)
    ensures
        r == f32_zero(bits),
{
    bits & 0x7fff_ffffu32 == 0
}

/// Whether the binary32 value `x` satisfies `x >= 0.0`.
pub fn ge_zero_f32(bits: u32) -> (r: bool)
    ensures
        r == f32_ge_zero(bits),
{
    let nan = (bits >> 23u32) & 0xffu32 == 0xffu32 && bits & 0x7f_ffffu32 != 0;
    !nan && (bits >> 31u32 == 0 || bits & 0x7fff_ffffu32 == 0)
}

} // verus!
