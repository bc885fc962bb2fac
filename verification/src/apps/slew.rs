//! Slew: smooths a CV input; its LED shows the rectified level.

use vstd::prelude::*;

use crate::storage::AppStorage;
use crate::app::{LedRequest, Leds};
use crate::scaling::{attenuverted, attenuverter, split_signed, split_signed_value, split_unsigned, split_unsigned_value};
use crate::types::{Brightness, Color, LatchLayer, Led, LedMode, LedMsg};

verus! {

/// Folds a value around 2047 upward: the distance from 2047, plus 2047.
pub fn rectify(value: u16) -> (r: u16)
    ensures
        r == 2047 + if value >= 2047 {
            value - 2047
        } else {
            2047 - value
        },
        r >= 2047,
{
    let d = if value >= 2047 {
        value - 2047
    } else {
        2047 - value
    };
    d + 2047
}

/// Brightness of the button LEDs.
pub const BUTTON_BRIGHTNESS: Brightness = Brightness::Lower;

/// What the slew app keeps: the rise and fall faders, the attenuverter
/// and the offset.
#[derive(Clone, Copy, Debug)]
pub struct Storage {
    pub fader_saved: [u16; 2],
    pub att_saved: u16,
    pub offset_saved: u16,
}

impl Default for Storage {
    /// Both rates at 2000, passing through, no offset.
    fn default() -> (r: Self)
        ensures
            r.fader_saved[0] == 2000 && r.fader_saved[1] == 2000,
            r.att_saved == 4095 && r.offset_saved == 2047,
    {
        Storage { fader_saved: [2000; 2], att_saved: 4095, offset_saved: 2047 }
    }
}

impl AppStorage for Storage {}

/// Work for the device: the output jack, LEDs.
#[derive(Clone, Copy, Debug, PartialEq, Eq)]
pub enum SlewAction {
    Out(u16),
    Led(LedRequest),
}

/// A running slew app: its color and storage (the slew itself, in floating
/// point, is computed outside and handed in).
#[derive(Clone, Copy)]
pub struct SlewApp {
    pub led_color: Color,
    pub stored: Storage,
}

/// The light `color` at custom level `b` on `led` of `chan`.
pub open spec fn lit(leds: Leds<2>, chan: usize, led: Led, color: Color, b: Brightness) -> SlewAction {
    SlewAction::Led((leds.device_channel(chan) as usize, led, LedMsg::SetMode(LedMode::Static(color, b))))
}

/// The darkened `led` of `chan`.
pub open spec fn dark(leds: Leds<2>, chan: usize, led: Led) -> SlewAction {
    SlewAction::Led((leds.device_channel(chan) as usize, led, LedMsg::Reset))
}

/// The output of a slewed value: attenuverted, plus the offset (its
/// distance from 2047), cast to 16 bits (a negative sum wraps) and
/// limited to 0..=4095.
pub open spec fn output_value(slewed: u16, st: Storage) -> u16 {
    let sum = attenuverted(slewed, st.att_saved) as int + (st.offset_saved as int - 2047);
    let w = sum as u16;
    if w > 4095 { 4095 } else { w }
}

/// The LEDs of a millisecond: on the main layer the slewed value and the
/// output split over each channel's top and bottom, buttons lit; on the
/// shift layer offset and attenuverter in red, each button lit red unless
/// at its neutral value.
pub open spec fn slew_lights(s: SlewApp, leds: Leds<2>, layer: LatchLayer, slewed: u16, out: u16) -> Seq<SlewAction> {
    let c = s.led_color;
    if layer == LatchLayer::Main {
        seq![
            lit(leds, 0, Led::Top, c, Brightness::Custom(split_unsigned(slewed)[0])),
            lit(leds, 0, Led::Bottom, c, Brightness::Custom(split_unsigned(slewed)[1])),
            lit(leds, 1, Led::Top, c, Brightness::Custom(split_unsigned(out)[0])),
            lit(leds, 1, Led::Bottom, c, Brightness::Custom(split_unsigned(out)[1])),
            lit(leds, 0, Led::Button, c, BUTTON_BRIGHTNESS),
            lit(leds, 1, Led::Button, c, BUTTON_BRIGHTNESS),
        ]
    } else {
        let off = (s.stored.offset_saved as int - 2047) as i32;
        seq![
            lit(leds, 0, Led::Top, Color::Red, Brightness::Custom(split_signed(off)[0])),
            lit(leds, 0, Led::Bottom, Color::Red, Brightness::Custom(split_signed(off)[1])),
            lit(leds, 1, Led::Top, Color::Red, Brightness::Custom(split_unsigned(s.stored.att_saved)[0])),
            lit(leds, 1, Led::Bottom, Color::Red, Brightness::Custom(split_unsigned(s.stored.att_saved)[1])),
            if s.stored.offset_saved == 2047 { dark(leds, 0, Led::Button) } else { lit(leds, 0, Led::Button, Color::Red, BUTTON_BRIGHTNESS) },
            if s.stored.att_saved == 4095 { dark(leds, 1, Led::Button) } else { lit(leds, 1, Led::Button, Color::Red, BUTTON_BRIGHTNESS) },
        ]
    }
}

impl SlewApp {
    /// The slew app as `run` starts it: both buttons lit.
    pub fn new(leds: &Leds<2>, led_color: Color, stored: Storage) -> (r: (Self, Vec<SlewAction>))
        requires
            leds.start_channel + 2 <= usize::MAX,
        ensures
            r.0.led_color == led_color && r.0.stored == stored,
            r.1@ == seq![lit(*leds, 0, Led::Button, led_color, BUTTON_BRIGHTNESS), lit(*leds, 1, Led::Button, led_color, BUTTON_BRIGHTNESS)],
    {
        let mut out: Vec<SlewAction> = Vec::new();
        out.push(SlewAction::Led(leds.set(0, Led::Button, led_color, BUTTON_BRIGHTNESS)));
        out.push(SlewAction::Led(leds.set(1, Led::Button, led_color, BUTTON_BRIGHTNESS)));
        (SlewApp { led_color, stored }, out)
    }

    /// One millisecond on `layer` with the slewed input `slewed` (0 to
    /// 4095): the output (see `output_value`) goes to the jack and the LEDs
    /// show the layer.
    pub fn on_ms(&self, leds: &Leds<2>, layer: LatchLayer, slewed: u16) -> (r: Vec<SlewAction>)
        requires
            leds.start_channel + 2 <= usize::MAX,
        ensures
            r@ == seq![SlewAction::Out(output_value(slewed, self.stored))]
                + slew_lights(*self, *leds, layer, slewed, output_value(slewed, self.stored)),
    {
        let att = self.stored.att_saved;
        let offset = self.stored.offset_saved as i32 - 2047;
        let a = attenuverter(slewed, att);
        let w = (a as i32 + offset) as u16;
        let outval = if w > 4095 {
            4095
        } else {
            w
        };
        let mut out: Vec<SlewAction> = Vec::new();
        out.push(SlewAction::Out(outval));
        let c = self.led_color;
        if layer == LatchLayer::Main {
            let sl = split_unsigned_value(slewed);
            out.push(SlewAction::Led(leds.set(0, Led::Top, c, Brightness::Custom(sl[0]))));
            out.push(SlewAction::Led(leds.set(0, Led::Bottom, c, Brightness::Custom(sl[1]))));
            let ol = split_unsigned_value(outval);
            out.push(SlewAction::Led(leds.set(1, Led::Top, c, Brightness::Custom(ol[0]))));
            out.push(SlewAction::Led(leds.set(1, Led::Bottom, c, Brightness::Custom(ol[1]))));
            out.push(SlewAction::Led(leds.set(0, Led::Button, c, BUTTON_BRIGHTNESS)));
            out.push(SlewAction::Led(leds.set(1, Led::Button, c, BUTTON_BRIGHTNESS)));
        } else {
            let off = split_signed_value(offset);
            out.push(SlewAction::Led(leds.set(0, Led::Top, Color::Red, Brightness::Custom(off[0]))));
            out.push(SlewAction::Led(leds.set(0, Led::Bottom, Color::Red, Brightness::Custom(off[1]))));
            let al = split_unsigned_value(att);
            out.push(SlewAction::Led(leds.set(1, Led::Top, Color::Red, Brightness::Custom(al[0]))));
            out.push(SlewAction::Led(leds.set(1, Led::Bottom, Color::Red, Brightness::Custom(al[1]))));
            if self.stored.offset_saved == 2047 {
                out.push(SlewAction::Led(leds.unset(0, Led::Button)));
            } else {
                out.push(SlewAction::Led(leds.set(0, Led::Button, Color::Red, BUTTON_BRIGHTNESS)));
            }
            if self.stored.att_saved == 4095 {
                out.push(SlewAction::Led(leds.unset(1, Led::Button)));
            } else {
                out.push(SlewAction::Led(leds.set(1, Led::Button, Color::Red, BUTTON_BRIGHTNESS)));
            }
        }
        assert(out@ =~= seq![SlewAction::Out(output_value(slewed, self.stored))]
            + slew_lights(*self, *leds, layer, slewed, output_value(slewed, self.stored)));
        out
    }

    /// Where fader `chan`'s latch picks up on `layer`: its rate, or on the
    /// shift layer the offset (first) or attenuverter (second).
    pub fn latch_target(&self, chan: usize, layer: LatchLayer) -> (r: u16)
        requires
            chan < 2,
        ensures
            r == if layer == LatchLayer::Alt {
                if chan == 0 { self.stored.offset_saved } else { self.stored.att_saved }
            } else {
                self.stored.fader_saved[chan as int]
            },
    {
        if layer == LatchLayer::Alt {
            if chan == 0 {
                self.stored.offset_saved
            } else {
                self.stored.att_saved
            }
        } else {
            self.stored.fader_saved[chan]
        }
    }

    /// Fader `chan` gave the latch's value `v` on `layer`: it is stored as
    /// that fader's rate, or offset or attenuverter (each saved).
    pub fn on_fader(&mut self, chan: usize, layer: LatchLayer, v: u16)
        requires
            chan < 2,
        ensures
            final(self).led_color == old(self).led_color,
            layer == LatchLayer::Alt && chan == 0 ==> final(self).stored == (Storage { offset_saved: v, ..old(self).stored }),
            layer == LatchLayer::Alt && chan == 1 ==> final(self).stored == (Storage { att_saved: v, ..old(self).stored }),
            layer != LatchLayer::Alt ==> final(self).stored.fader_saved@ == old(self).stored.fader_saved@.update(chan as int, v)
                && final(self).stored.att_saved == old(self).stored.att_saved
                && final(self).stored.offset_saved == old(self).stored.offset_saved,
    {
        if layer == LatchLayer::Alt {
            if chan == 0 {
                self.stored.offset_saved = v;
            } else {
                self.stored.att_saved = v;
            }
        } else {
            self.stored.fader_saved[chan] = v;
        }
    }

    /// A button went down: with shift, the first resets the offset and the
    /// second the attenuverter to neutral (saved). Returns whether to save.
    pub fn on_button_down(&mut self, chan: usize, shift: bool) -> (save: bool)
        ensures
            save == (shift && chan < 2),
            final(self).led_color == old(self).led_color,
            shift && chan == 0 ==> final(self).stored == (Storage { offset_saved: 2047, ..old(self).stored }),
            shift && chan == 1 ==> final(self).stored == (Storage { att_saved: 4095, ..old(self).stored }),
            !(shift && chan < 2) ==> final(self).stored == old(self).stored,
    {
        if shift && chan == 0 {
            self.stored.offset_saved = 2047;
            true
        } else if shift && chan == 1 {
            self.stored.att_saved = 4095;
            true
        } else {
            false
        }
    }
}

/// With the attenuverter and offset at neutral, the output is the
/// attenuverter's pass-through of the slewed value (no offset applied).
pub proof fn law_neutral_offset_adds_nothing(slewed: u16, st: Storage)
    requires
        st.offset_saved == 2047,
    ensures
        output_value(slewed, st) == (if attenuverted(slewed, st.att_saved) > 4095 { 4095 } else { attenuverted(slewed, st.att_saved) }),
{
}

} // verus!
