//! Read access to the constant lookup tables that `libfp` ships.

use vstd::prelude::*;

use crate::config::Curve;

verus! {

/// Entry `index` of `libfp::constants::BJORKLUND_PATTERNS`, or `None` past its end.
pub uninterp spec fn bjorklund_entry(index: usize) -> Option<u32>;

/// Looks up `libfp::constants::BJORKLUND_PATTERNS[index]` with `slice::get`;
/// the result is the table's entry, named, since the table is data of the
/// outside crate.
#[verifier::external_body]
pub(crate) fn bjorklund_lookup(index: usize) -> (r: Option<u32>)
    ensures
        r == bjorklund_entry(index),
{
    libfp::constants::BJORKLUND_PATTERNS.get(index).copied()
}

/// Sample `i` of `libfp::constants::WAVEFORM_SINE`.
pub uninterp spec fn sine_sample(i: usize) -> u16;

/// Sample `i` of `libfp::constants::WAVEFORM_TRIANGLE`.
pub uninterp spec fn triangle_sample(i: usize) -> u16;

/// Sample `i` of `libfp::constants::WAVEFORM_SAW`.
pub uninterp spec fn saw_sample(i: usize) -> u16;

/// Sample `i` of `libfp::constants::WAVEFORM_SQUARE`.
pub uninterp spec fn square_sample(i: usize) -> u16;

/// Reads `libfp::constants::WAVEFORM_SINE[i]` (a 4096-entry table; `i` is
/// kept in range); the sample is named.
#[verifier::external_body]
pub(crate) fn waveform_sine(i: usize) -> (r: u16)
    requires
        i < 4096,
    ensures
        r == sine_sample(i),
{
    libfp::constants::WAVEFORM_SINE[i]
}

/// Reads `libfp::constants::WAVEFORM_TRIANGLE[i]` (a 4096-entry table).
#[verifier::external_body]
pub(crate) fn waveform_triangle(i: usize) -> (r: u16)
    requires
        i < 4096,
    ensures
        r == triangle_sample(i),
{
    libfp::constants::WAVEFORM_TRIANGLE[i]
}

/// Reads `libfp::constants::WAVEFORM_SAW[i]` (a 4096-entry table).
#[verifier::external_body]
pub(crate) fn waveform_saw(i: usize) -> (r: u16)
    requires
        i < 4096,
    ensures
        r == saw_sample(i),
{
    libfp::constants::WAVEFORM_SAW[i]
}

/// Reads `libfp::constants::WAVEFORM_SQUARE[i]` (a 4096-entry table).
#[verifier::external_body]
pub(crate) fn waveform_square(i: usize) -> (r: u16)
    requires
        i < 4096,
    ensures
        r == square_sample(i),
{
    libfp::constants::WAVEFORM_SQUARE[i]
}

/// The value `libfp::Curve::at` gives for a curve and a fader value.
pub uninterp spec fn curve_value(curve: Curve, value: u16) -> u16;

/// Calls `libfp::Curve::at` on the same curve of libfp: the value is
/// limited to 4095, then passed through (linear) or read from the
/// exponential or logarithmic table (`CURVE_EXP`, `CURVE_LOG`, 4096
/// entries each, all within 0..=4095). The table entries are named.
#[verifier::external_body]
pub(crate) fn curve_at(curve: Curve, value: u16) -> (r: u16)
    ensures
        r == curve_value(curve, value),
        curve == Curve::Linear ==> r == if value > 4095 { 4095 } else { value },
        r <= 4095,
{
    let c = match curve {
        Curve::Linear => libfp::Curve::Linear,
        Curve::Exponential => libfp::Curve::Exponential,
        Curve::Logarithmic => libfp::Curve::Logarithmic,
    };
    c.at(value)
}

} // verus!
