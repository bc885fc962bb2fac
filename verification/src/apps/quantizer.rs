//! Quantizer app: the input, shifted by octaves and semitones, quantized
//! to the global scale.

use vstd::prelude::*;

use crate::storage::AppStorage;
use crate::app::{LedRequest, Leds};
use crate::scaling::{split_unsigned, split_unsigned_value};
use crate::types::{Brightness, Color, Led, LedMode, LedMsg};

verus! {

/// What the app keeps: the octave and semitone faders.
#[derive(Clone, Copy, Debug, PartialEq, Eq, Structural)]
pub struct Storage {
    pub oct: u16,
    pub st: u16,
}

impl Default for Storage {
    /// Octave fader in the middle, no semitones.
    fn default() -> (r: Self)
        ensures
            r == (Storage { oct: 2047, st: 0 }),
    {
        Storage { oct: 2047, st: 0 }
    }
}

impl AppStorage for Storage {}

/// Whether the stored faders are within their 12-bit range.
pub open spec fn storage_ok(st: Storage) -> bool {
    st.oct <= 4095 && st.st <= 4095
}

/// Work for the device: the output jack, LEDs.
#[derive(Clone, Copy, Debug, PartialEq, Eq)]
pub enum QuantAction {
    Out(u16),
    Led(LedRequest),
}

/// A running quantizer app: color, storage, and the semitone shift of the
/// millisecond waiting for the quantizer.
#[derive(Clone, Copy)]
pub struct QuantizerApp {
    pub led_color: Color,
    pub stored: Storage,
    pub st_shift: i16,
}

/// The light `color` at `b` on `led` of `chan`.
pub open spec fn lit(leds: Leds<2>, chan: usize, led: Led, color: Color, b: Brightness) -> QuantAction {
    QuantAction::Led((leds.device_channel(chan) as usize, led, LedMsg::SetMode(LedMode::Static(color, b))))
}

/// The octave shift of the octave fader: -5 to +5 octaves of 410 counts.
pub open spec fn oct_shift(oct: u16) -> int {
    (oct as int * 10 / 4095 - 5) * 410
}

/// The semitone shift of the semitone fader: 0 to 12 semitones of 410/12
/// counts, rounded down.
pub open spec fn st_shift_of(st: u16) -> int {
    (st as int * 12 / 4095) * 410 / 12
}

/// The value handed to the quantizer: the input plus both shifts, within 0..=4095.
pub open spec fn quantizer_input(input: u16, st: Storage) -> u16 {
    let v = input as int + oct_shift(st.oct) + st_shift_of(st.st);
    (if v < 0 { 0 } else if v > 4095 { 4095 } else { v }) as u16
}

/// The semitone LED level: the shift times 255 over 410, computed in 16
/// bits (the product wraps), rounded toward zero, cast to 8 bits.
pub open spec fn st_level(shift: i16) -> u8 {
    let p = ((shift as i32 * 255) as i32) as i16;
    let q: int = if p >= 0 { p / 410 } else { -((-(p as int)) / 410) };
    q as u8
}

impl QuantizerApp {
    /// The app as `run` starts it: both buttons lit.
    pub fn new(leds: &Leds<2>, led_color: Color, stored: Storage) -> (r: (Self, Vec<QuantAction>))
        requires
            leds.start_channel + 2 <= usize::MAX,
        ensures
            r.0 == (QuantizerApp { led_color: led_color, stored: stored, st_shift: 0 }),
            r.1@ == seq![lit(*leds, 0, Led::Button, led_color, Brightness::Lower), lit(*leds, 1, Led::Button, led_color, Brightness::Lower)],
    {
        let mut out: Vec<QuantAction> = Vec::new();
        out.push(QuantAction::Led(leds.set(0, Led::Button, led_color, Brightness::Lower)));
        out.push(QuantAction::Led(leds.set(1, Led::Button, led_color, Brightness::Lower)));
        (QuantizerApp { led_color, stored, st_shift: 0 }, out)
    }

    /// The first half of a millisecond with the input at `input` (12-bit):
    /// returns the value for the quantizer (see `quantizer_input`); its
    /// answer goes to `ms_end`.
    pub fn ms_start(&mut self, input: u16) -> (r: u16)
        requires
            storage_ok(old(self).stored),
            input <= 4095,
        ensures
            r == quantizer_input(input, old(self).stored),
            *final(self) == (QuantizerApp { st_shift: st_shift_of(old(self).stored.st) as i16, ..*old(self) }),
    {
        let oct: i16 = ((self.stored.oct as i32 * 10 / 4095 - 5) * 410) as i16;
        let st: i16 = ((self.stored.st as i32 * 12 / 4095) * 410 / 12) as i16;
        self.st_shift = st;
        let v = input as i16 + oct + st;
        (if v < 0 {
            0
        } else if v > 4095 {
            4095
        } else {
            v
        }) as u16
    }

    /// The second half of a millisecond with the quantizer's answer in DAC
    /// counts: the jack takes it, the first channel's LEDs show it split,
    /// the second's top LED the semitone shift.
    pub fn ms_end(&self, leds: &Leds<2>, counts: u16) -> (r: Vec<QuantAction>)
        requires
            leds.start_channel + 2 <= usize::MAX,
        ensures
            r@ == seq![
                QuantAction::Out(counts),
                lit(*leds, 0, Led::Top, self.led_color, Brightness::Custom(split_unsigned(counts)[0])),
                lit(*leds, 0, Led::Bottom, self.led_color, Brightness::Custom(split_unsigned(counts)[1])),
                lit(*leds, 1, Led::Top, self.led_color, Brightness::Custom(st_level(self.st_shift))),
            ],
    {
        let mut out: Vec<QuantAction> = Vec::new();
        out.push(QuantAction::Out(counts));
        let pair = split_unsigned_value(counts);
        out.push(QuantAction::Led(leds.set(0, Led::Top, self.led_color, Brightness::Custom(pair[0]))));
        out.push(QuantAction::Led(leds.set(0, Led::Bottom, self.led_color, Brightness::Custom(pair[1]))));
        let p = (self.st_shift as i32 * 255) as i16;
        let q: i16 = if p >= 0 {
            p / 410
        } else {
            -((-(p as i32)) / 410) as i16
        };
        out.push(QuantAction::Led(leds.set(1, Led::Top, self.led_color, Brightness::Custom(q as u8))));
        out
    }

    /// A button went down: without shift the first resets the semitone
    /// fader and the second the octave fader to 0 (saved). Returns whether
    /// to save.
    pub fn on_button_down(&mut self, chan: usize, shift: bool) -> (save: bool)
        ensures
            save == (!shift && chan < 2),
            !shift && chan == 0 ==> *final(self) == (QuantizerApp { stored: Storage { st: 0, ..old(self).stored }, ..*old(self) }),
            !shift && chan == 1 ==> *final(self) == (QuantizerApp { stored: Storage { oct: 0, ..old(self).stored }, ..*old(self) }),
            !save ==> *final(self) == *old(self),
    {
        if shift {
            false
        } else if chan == 0 {
            self.stored.st = 0;
            true
        } else if chan == 1 {
            self.stored.oct = 0;
            true
        } else {
            false
        }
    }

    /// Where fader `chan`'s latch picks up: both faders pick up at the
    /// stored octave fader.
    pub fn latch_target(&self, chan: usize) -> (r: u16)
        ensures
            r == self.stored.oct,
    {
        self.stored.oct
    }

    /// Fader `chan` gave the latch's value `v`: the first sets the octave
    /// fader, the second the semitone fader (each saved). Returns whether
    /// to save.
    pub fn on_fader(&mut self, chan: usize, v: u16) -> (save: bool)
        ensures
            save == (chan < 2),
            chan == 0 ==> *final(self) == (QuantizerApp { stored: Storage { oct: v, ..old(self).stored }, ..*old(self) }),
            chan == 1 ==> *final(self) == (QuantizerApp { stored: Storage { st: v, ..old(self).stored }, ..*old(self) }),
            chan > 1 ==> *final(self) == *old(self),
    {
        if chan == 0 {
            self.stored.oct = v;
            true
        } else if chan == 1 {
            self.stored.st = v;
            true
        } else {
            false
        }
    }

    /// A scene was loaded: the app takes its storage.
    pub fn on_scene_load(&mut self, stored: Storage)
        ensures
            *final(self) == (QuantizerApp { stored: stored, ..*old(self) }),
    {
        self.stored = stored;
    }
}

/// With the octave fader in its middle tenth and the semitone fader in its
/// lowest step, the input goes to the quantizer unchanged.
pub proof fn law_neutral_faders_pass_input(input: u16, st: Storage)
    requires
        input <= 4095,
        st.oct * 10 / 4095 == 5,
        st.st * 12 / 4095 == 0,
    ensures
        quantizer_input(input, st) == input,
{
}

} // verus!
