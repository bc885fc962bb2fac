//! Fader scaling helpers of `libfp::utils`: a 12-bit value picks an index
//! or a table entry, or is split into two LED brightnesses.

use vstd::prelude::*;

verus! {

/// Index picked by a 12-bit value from `len` choices: equal zones of the
/// range 0..4096, at most `len - 1` (0 when `len` is 0).
pub open spec fn value_index(value: u16, len: usize) -> usize {
    let i = (value as int * len as int) / 4096;
    let last = if len == 0 { 0 } else { len - 1 };
    if i > last {
        last as usize
    } else {
        i as usize
    }
}

/// Calls `libfp::utils::value_to_index`, which computes
/// `((value * len) / 4096).min(len.saturating_sub(1))`; the contract states
/// that formula (the product is kept within `usize`).
#[verifier::external_body]
pub(crate) fn value_to_index(value: u16, len: usize) -> (r: usize)
    requires
        value as int * len as int <= usize::MAX,
    ensures
        r == value_index(value, len),
{
    libfp::utils::value_to_index(value, len)
}

/// Calls `libfp::utils::value_to_resolution`, which returns the entry of
/// `table` at `value_to_index(value, table.len())`, widened; the table must
/// not be empty (the lookup would panic).
#[verifier::external_body]
pub(crate) fn value_to_resolution(value: u16, table: &[u16]) -> (r: u32)
    requires
        table.len() > 0,
        value as int * table.len() as int <= usize::MAX,
    ensures
        r == table@[value_index(value, table.len() as usize) as int],
{
    libfp::utils::value_to_resolution(value, table)
}

/// LED pair of a 12-bit value: above the middle the first LED grows, below
/// it the second; each step of the LED covers 8 values, at most 255.
pub open spec fn split_unsigned(input: u16) -> [u8; 2] {
    let c = if input > 4095 { 4095 } else { input as int };
    if c <= 2047 {
        [0u8, ((2047 - c) / 8) as u8]
    } else {
        let pos = (c - 2047) / 8;
        [if pos > 255 { 255u8 } else { pos as u8 }, 0u8]
    }
}

/// Calls `libfp::utils::split_unsigned_value`: clamps the input to 4095 and
/// returns `[0, (2047 - v) / 8]` up to 2047, else `[(v - 2047) / 8, 0]`,
/// each limited to 255.
#[verifier::external_body]
pub(crate) fn split_unsigned_value(input: u16) -> (r: [u8; 2])
    ensures
        r == split_unsigned(input),
{
    libfp::utils::split_unsigned_value(input)
}

/// Calls `libfp::utils::attenuate`, which scales `signal` by `level / 4095`:
/// the product is taken in 32 bits, divided by 4095 and cast back to 16 bits.
#[verifier::external_body]
pub(crate) fn attenuate(signal: u16, level: u16) -> (r: u16)
    ensures
        r == ((signal as int * level as int) / 4095) as u16,
{
    libfp::utils::attenuate(signal, level)
}

/// Integer division rounding toward zero, as Rust's `/` on signed integers.
pub open spec fn div_toward_zero(a: int, b: int) -> int {
    if a >= 0 {
        a / b
    } else {
        -((-a) / b)
    }
}

/// A signal's deviation from 2048 scaled by `level / 4095` (rounding
/// toward zero), added back to 2048 and limited to 0..=4095.
pub open spec fn bipolar_attenuated(signal: u16, level: u16) -> u16 {
    let v = 2048 + div_toward_zero((signal as int - 2048) * level as int, 4095);
    (if v < 0 { 0 } else if v > 4095 { 4095 } else { v }) as u16
}

/// Calls `libfp::utils::attenuate_bipolar`: the signal's deviation from
/// 2048 is scaled by `level / 4095` (64-bit, rounding toward zero), added
/// back to 2048 and limited to 0..=4095.
#[verifier::external_body]
pub(crate) fn attenuate_bipolar(signal: u16, level: u16) -> (r: u16)
    ensures
        r == bipolar_attenuated(signal, level),
{
    libfp::utils::attenuate_bipolar(signal, level)
}

/// One step of a very short slew: within 16 of the input it snaps to the
/// input, else it moves a sixteenth of the way.
pub open spec fn clickless_step(prev: u16, input: u16) -> u16 {
    let d = prev as int - input as int;
    if (if d < 0 { -d } else { d }) < 16 {
        input
    } else {
        ((prev as int * 15 + input as int) / 16) as u16
    }
}

/// Calls `libfp::utils::clickless`, a very short slew: within 16 of the
/// input it snaps to the input, else it moves a sixteenth of the way
/// (`(prev * 15 + input) / 16`, in 32 bits, cast back to 16 bits).
#[verifier::external_body]
pub(crate) fn clickless(prev: u16, input: u16) -> (r: u16)
    ensures
        r == clickless_step(prev, input),
{
    libfp::utils::clickless(prev, input)
}

/// LED pair of a signed value: positive values light the first LED,
/// negative ones the second, each scaled from 0..=2047 to 0..=255 (rounded).
pub open spec fn split_signed(input: i32) -> [u8; 2] {
    let c: int = if input < -2047 { -2047 } else if input > 2047 { 2047 } else { input as int };
    if c >= 0 {
        let p = (c * 255 + 1023) / 2047;
        [(if p > 255 { 255 } else { p }) as u8, 0u8]
    } else {
        let n = ((-c) * 255 + 1023) / 2047;
        [0u8, (if n > 255 { 255 } else { n }) as u8]
    }
}

/// Calls `libfp::utils::split_signed_value`: clamps to -2047..=2047 and
/// returns `[(v * 255 + 1023) / 2047, 0]` for a non-negative value, else
/// `[0, (-v * 255 + 1023) / 2047]`, each limited to 255.
#[verifier::external_body]
pub(crate) fn split_signed_value(input: i32) -> (r: [u8; 2])
    ensures
        r == split_signed(input),
{
    libfp::utils::split_signed_value(input)
}

/// The value `libfp::utils::attenuverter` gives for an input and a
/// modulation.
pub uninterp spec fn attenuverted(input: u16, modulation: u16) -> u16;

/// Calls `libfp::utils::attenuverter`, which blends the input with its
/// inversion (`4095 - input`) by the modulation (0 inverts, 4095 passes
/// through) in floating point and limits the result to 0..=4095. The
/// result is named; that it is at most 4095 is stated.
#[verifier::external_body]
pub(crate) fn attenuverter(input: u16, modulation: u16) -> (r: u16)
    ensures
        r == attenuverted(input, modulation),
        r <= 4095,
{
    libfp::utils::attenuverter(input, modulation)
}

} // verus!
