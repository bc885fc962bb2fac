//! Offset and attenuverter: the input, attenuverted and offset, doubled
//! around the middle, goes to the output.

use vstd::prelude::*;

use crate::storage::AppStorage;
use crate::app::{LedRequest, Leds};
use crate::scaling::{attenuverted, attenuverter, clickless, clickless_step, split_unsigned, split_unsigned_value};
use crate::types::{Brightness, Color, Led, LedMode, LedMsg};

verus! {

/// What the app keeps: the attenuverter and offset faders.
#[derive(Clone, Copy, Debug, PartialEq, Eq, Structural)]
pub struct Storage {
    pub att_saved: u16,
    pub offset_saved: u16,
}

impl Default for Storage {
    /// Passing through, offset at 0.
    fn default() -> (r: Self)
        ensures
            r == (Storage { att_saved: 4095, offset_saved: 0 }),
    {
        Storage { att_saved: 4095, offset_saved: 0 }
    }
}

impl AppStorage for Storage {}

/// Work for the device: the output jack, LEDs.
#[derive(Clone, Copy, Debug, PartialEq, Eq)]
pub enum OffsetAction {
    Out(u16),
    Led(LedRequest),
}

/// A running app: color, storage, and the click-free attenuverter and
/// offset values following their faders.
#[derive(Clone, Copy)]
pub struct OffsetAtt {
    pub led_color: Color,
    pub stored: Storage,
    pub att: u16,
    pub offset_fad: u16,
}

/// The light `color` at `b` on `led` of `chan`.
pub open spec fn lit(leds: Leds<2>, chan: usize, led: Led, color: Color, b: Brightness) -> OffsetAction {
    OffsetAction::Led((leds.device_channel(chan) as usize, led, LedMsg::SetMode(LedMode::Static(color, b))))
}

/// The output of an input given the click-free attenuverter and offset:
/// attenuverted plus the offset's distance from 2047 (within 0..=4095),
/// then doubled around 2047 (within 0..=4094).
pub open spec fn output_of(input: u16, att: u16, offset_fad: u16) -> u16 {
    let v = attenuverted(input, att) as int + offset_fad as int - 2047;
    let v = if v < 0 { 0 } else if v > 4095 { 4095 } else { v };
    let w = (v - 2047) * 2 + 2047;
    (if w < 0 { 0 } else if w > 4094 { 4094 } else { w }) as u16
}

impl OffsetAtt {
    /// The app as `run` starts it: the click-free values start at 0.
    pub fn new(led_color: Color, stored: Storage) -> (r: Self)
        ensures
            r == (OffsetAtt { led_color: led_color, stored: stored, att: 0, offset_fad: 0 }),
    {
        OffsetAtt { led_color, stored, att: 0, offset_fad: 0 }
    }

    /// One millisecond with the input at `input`: the click-free values
    /// step toward their faders, the output (see `output_of`) goes to the
    /// jack, the LEDs show input and output split over top and bottom, and
    /// each button glows brighter when its fader is off its neutral value
    /// (offset 2047, attenuverter 3071).
    pub fn on_ms(&mut self, leds: &Leds<2>, input: u16) -> (r: Vec<OffsetAction>)
        requires
            leds.start_channel + 2 <= usize::MAX,
        ensures
            ({
                let att = clickless_step(old(self).att, old(self).stored.att_saved);
                let off = clickless_step(old(self).offset_fad, old(self).stored.offset_saved);
                let out = output_of(input, att, off);
                let c = old(self).led_color;
                &&& *final(self) == (OffsetAtt { att: att, offset_fad: off, ..*old(self) })
                &&& r@ == seq![
                    OffsetAction::Out(out),
                    lit(*leds, 0, Led::Top, c, Brightness::Custom(split_unsigned(input)[0])),
                    lit(*leds, 0, Led::Bottom, c, Brightness::Custom(split_unsigned(input)[1])),
                    lit(*leds, 1, Led::Top, c, Brightness::Custom(split_unsigned(out)[0])),
                    lit(*leds, 1, Led::Bottom, c, Brightness::Custom(split_unsigned(out)[1])),
                    lit(*leds, 0, Led::Button, c, if old(self).stored.offset_saved != 2047 { Brightness::Low } else { Brightness::Lower }),
                    lit(*leds, 1, Led::Button, c, if old(self).stored.att_saved != 3071 { Brightness::Low } else { Brightness::Lower }),
                ]
            }),
    {
        self.att = clickless(self.att, self.stored.att_saved);
        self.offset_fad = clickless(self.offset_fad, self.stored.offset_saved);
        let offset = self.offset_fad as i32 - 2047;
        let v = attenuverter(input, self.att) as i32 + offset;
        let v = if v < 0 {
            0
        } else if v > 4095 {
            4095
        } else {
            v
        };
        let w = (v - 2047) * 2 + 2047;
        let outval = (if w < 0 {
            0
        } else if w > 4094 {
            4094
        } else {
            w
        }) as u16;
        let c = self.led_color;
        let mut out: Vec<OffsetAction> = Vec::new();
        out.push(OffsetAction::Out(outval));
        let il = split_unsigned_value(input);
        out.push(OffsetAction::Led(leds.set(0, Led::Top, c, Brightness::Custom(il[0]))));
        out.push(OffsetAction::Led(leds.set(0, Led::Bottom, c, Brightness::Custom(il[1]))));
        let ol = split_unsigned_value(outval);
        out.push(OffsetAction::Led(leds.set(1, Led::Top, c, Brightness::Custom(ol[0]))));
        out.push(OffsetAction::Led(leds.set(1, Led::Bottom, c, Brightness::Custom(ol[1]))));
        let b0 = if self.stored.offset_saved != 2047 {
            Brightness::Low
        } else {
            Brightness::Lower
        };
        out.push(OffsetAction::Led(leds.set(0, Led::Button, c, b0)));
        let b1 = if self.stored.att_saved != 3071 {
            Brightness::Low
        } else {
            Brightness::Lower
        };
        out.push(OffsetAction::Led(leds.set(1, Led::Button, c, b1)));
        out
    }

    /// Where fader `chan`'s latch picks up: the offset (first) or the
    /// attenuverter (second).
    pub fn latch_target(&self, chan: usize) -> (r: u16)
        ensures
            r == if chan == 0 { self.stored.offset_saved } else { self.stored.att_saved },
    {
        if chan == 0 {
            self.stored.offset_saved
        } else {
            self.stored.att_saved
        }
    }

    /// Fader `chan` gave the latch's value `v`: the offset (first) or the
    /// attenuverter (second), saved. Returns whether to save.
    pub fn on_fader(&mut self, chan: usize, v: u16) -> (save: bool)
        ensures
            save == (chan < 2),
            chan == 0 ==> *final(self) == (OffsetAtt { stored: Storage { offset_saved: v, ..old(self).stored }, ..*old(self) }),
            chan == 1 ==> *final(self) == (OffsetAtt { stored: Storage { att_saved: v, ..old(self).stored }, ..*old(self) }),
            chan > 1 ==> *final(self) == *old(self),
    {
        if chan == 0 {
            self.stored.offset_saved = v;
            true
        } else if chan == 1 {
            self.stored.att_saved = v;
            true
        } else {
            false
        }
    }

    /// A button went down: without shift the first resets the offset to
    /// 2047 and the second the attenuverter to 3071 (saved). Returns
    /// whether to save.
    pub fn on_button_down(&mut self, chan: usize, shift: bool) -> (save: bool)
        ensures
            save == (!shift && chan < 2),
            !shift && chan == 0 ==> *final(self) == (OffsetAtt { stored: Storage { offset_saved: 2047, ..old(self).stored }, ..*old(self) }),
            !shift && chan == 1 ==> *final(self) == (OffsetAtt { stored: Storage { att_saved: 3071, ..old(self).stored }, ..*old(self) }),
            !save ==> *final(self) == *old(self),
    {
        if shift {
            false
        } else if chan == 0 {
            self.stored.offset_saved = 2047;
            true
        } else if chan == 1 {
            self.stored.att_saved = 3071;
            true
        } else {
            false
        }
    }

    /// A scene was loaded: the app takes its storage.
    pub fn on_scene_load(&mut self, stored: Storage)
        ensures
            *final(self) == (OffsetAtt { stored: stored, ..*old(self) }),
    {
        self.stored = stored;
    }
}

/// The output never reaches 4095: the doubling around the middle tops out at 4094.
pub proof fn law_output_below_top(input: u16, att: u16, offset_fad: u16)
    ensures
        output_of(input, att, offset_fad) <= 4094,
{
}

} // verus!
