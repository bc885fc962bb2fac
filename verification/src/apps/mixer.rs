//! Mixer: the input scaled by the master gain fader goes to the output.

use vstd::prelude::*;

use crate::storage::AppStorage;

verus! {

/// What the mixer keeps: its master gain.
#[derive(Clone, Copy, Debug, PartialEq, Eq, Structural)]
pub struct Storage {
    pub master_gain: u16,
}

impl Default for Storage {
    /// Gain 0.
    fn default() -> (r: Self)
        ensures
            r.master_gain == 0,
    {
        Storage { master_gain: 0 }
    }
}

impl AppStorage for Storage {}

/// A fader change with the fader at `gain` and the input at `input`: the
/// gain is kept and the output is the input scaled by `gain / 4095`.
pub fn on_fader_change(stored: &mut Storage, gain: u16, input: u16) -> (out: u16)
    ensures
        final(stored).master_gain == gain,
        out == ((input as int * gain as int) / 4095) as u16,
{
    stored.master_gain = gain;
    assert(input as u32 * gain as u32 <= 65535 * 65535) by (nonlinear_arith)
        requires
            input <= 65535 && gain <= 65535,
    ;
    ((input as u32 * gain as u32) / 4095) as u16
}

} // verus!
