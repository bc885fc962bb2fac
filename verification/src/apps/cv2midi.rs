//! CV to MIDI: the input, attenuated and offset, goes out as a MIDI CC.

use vstd::prelude::*;

use crate::storage::AppStorage;
use crate::app::{LedRequest, Leds};
use crate::scaling::{attenuate, attenuate_bipolar, bipolar_attenuated, split_unsigned, split_unsigned_value};
use crate::types::{Brightness, Color, LatchLayer, Led, LedMode, LedMsg};

verus! {

/// Brightness of the button LED.
pub const BUTTON_BRIGHTNESS: Brightness = Brightness::Lower;

/// What the converter keeps: mute, the attenuation and the offset.
#[derive(Clone, Copy, Debug, PartialEq, Eq, Structural)]
pub struct Storage {
    pub muted: bool,
    pub att_saved: u16,
    pub offset_saved: u16,
}

impl Default for Storage {
    /// Playing, no attenuation, no offset.
    fn default() -> (r: Self)
        ensures
            r == (Storage { muted: false, att_saved: 4095, offset_saved: 0 }),
    {
        Storage { muted: false, att_saved: 4095, offset_saved: 0 }
    }
}

impl AppStorage for Storage {}

/// Whether the stored faders are within their 12-bit range.
pub open spec fn storage_ok(st: Storage) -> bool {
    st.att_saved <= 4095 && st.offset_saved <= 4095
}

/// Work for the device: the CC value, LEDs.
#[derive(Clone, Copy, Debug, PartialEq, Eq)]
pub enum CvCcAction {
    Cc(u16),
    Led(LedRequest),
}

/// A running converter: bipolar input or not, color, storage, mute, and
/// the last CC value sent (in steps of 32).
#[derive(Clone, Copy)]
pub struct CvToCc {
    pub bipolar: bool,
    pub led_color: Color,
    pub stored: Storage,
    pub muted: bool,
    pub old_midi: u16,
}

/// The request for `led` of the app's channel.
pub open spec fn led_req(leds: Leds<1>, led: Led, msg: LedMsg) -> CvCcAction {
    CvCcAction::Led((leds.device_channel(0) as usize, led, msg))
}

/// The static light `color` at `b`.
pub open spec fn shine(color: Color, b: Brightness) -> LedMsg {
    LedMsg::SetMode(LedMode::Static(color, b))
}

/// The value sent for an input: muted, the rest value (the middle when
/// bipolar, else 0); unipolar, the attenuated input plus the offset; bipolar,
/// the input attenuated around the middle plus the offset's distance from
/// 2047; limited to 0..=4095.
pub open spec fn value_of(bipolar: bool, muted: bool, input: u16, st: Storage) -> u16 {
    if muted {
        if bipolar { 2047 } else { 0 }
    } else if !bipolar {
        let v = (input as int * st.att_saved as int) / 4095 + st.offset_saved as int;
        (if v > 4095 { 4095 } else { v }) as u16
    } else {
        let v = bipolar_attenuated(input, st.att_saved) as int + st.offset_saved as int - 2047;
        (if v < 0 { 0 } else if v > 4095 { 4095 } else { v }) as u16
    }
}

impl CvToCc {
    /// The invariant: stored faders in range.
    pub open spec fn wf(&self) -> bool {
        storage_ok(self.stored)
    }

    /// The converter as `run` starts it: the button shows mute.
    pub fn new(leds: &Leds<1>, bipolar: bool, led_color: Color, stored: Storage) -> (r: (Self, CvCcAction))
        requires
            storage_ok(stored),
            leds.start_channel + 1 <= usize::MAX,
        ensures
            r.0.wf(),
            r.0 == (CvToCc { bipolar: bipolar, led_color: led_color, stored: stored, muted: stored.muted, old_midi: 0 }),
            r.1 == if stored.muted { led_req(*leds, Led::Button, LedMsg::Reset) } else { led_req(*leds, Led::Button, shine(led_color, BUTTON_BRIGHTNESS)) },
    {
        let light = if stored.muted {
            CvCcAction::Led(leds.unset(0, Led::Button))
        } else {
            CvCcAction::Led(leds.set(0, Led::Button, led_color, BUTTON_BRIGHTNESS))
        };
        (CvToCc { bipolar, led_color, stored, muted: stored.muted, old_midi: 0 }, light)
    }

    /// One millisecond with the input at `input` (12-bit) on `layer`: the
    /// value (see `value_of`) shows on the LEDs (split when bipolar; the
    /// attenuation in red on the shift layer) and goes out as a CC when it
    /// moved to another step of 32.
    pub fn on_ms(&mut self, leds: &Leds<1>, layer: LatchLayer, input: u16) -> (r: Vec<CvCcAction>)
        requires
            old(self).wf(),
            input <= 4095,
            leds.start_channel + 1 <= usize::MAX,
        ensures
            final(self).wf(),
            ({
                let v = value_of(old(self).bipolar, old(self).muted, input, old(self).stored);
                let c = old(self).led_color;
                let lights = if layer == LatchLayer::Alt {
                    seq![led_req(*leds, Led::Top, shine(Color::Red, Brightness::Custom((old(self).stored.att_saved / 16) as u8)))]
                } else if old(self).bipolar {
                    seq![
                        led_req(*leds, Led::Top, shine(c, Brightness::Custom(split_unsigned(v)[0]))),
                        led_req(*leds, Led::Bottom, shine(c, Brightness::Custom(split_unsigned(v)[1]))),
                    ]
                } else {
                    seq![led_req(*leds, Led::Top, shine(c, Brightness::Custom((v / 16) as u8)))]
                };
                let changed = old(self).old_midi != v / 32;
                &&& r@ == lights + if changed { seq![CvCcAction::Cc(v)] } else { Seq::empty() }
                &&& *final(self) == (CvToCc { old_midi: if changed { (v / 32) as u16 } else { old(self).old_midi }, ..*old(self) })
            }),
    {
        let v: u16 = if self.muted {
            if self.bipolar {
                2047
            } else {
                0
            }
        } else if !self.bipolar {
            let a = attenuate(input, self.stored.att_saved);
            assert((input as int * self.stored.att_saved as int) / 4095 <= 4095) by (nonlinear_arith)
                requires
                    input <= 4095 && self.stored.att_saved <= 4095,
            ;
            let s = a + self.stored.offset_saved;
            if s > 4095 {
                4095
            } else {
                s
            }
        } else {
            let a = attenuate_bipolar(input, self.stored.att_saved) as i32;
            let s = a + self.stored.offset_saved as i32 - 2047;
            (if s < 0 {
                0
            } else if s > 4095 {
                4095
            } else {
                s
            }) as u16
        };
        let mut out: Vec<CvCcAction> = Vec::new();
        let c = self.led_color;
        if layer == LatchLayer::Alt {
            out.push(CvCcAction::Led(leds.set(0, Led::Top, Color::Red, Brightness::Custom((self.stored.att_saved / 16) as u8))));
        } else if self.bipolar {
            let pair = split_unsigned_value(v);
            out.push(CvCcAction::Led(leds.set(0, Led::Top, c, Brightness::Custom(pair[0]))));
            out.push(CvCcAction::Led(leds.set(0, Led::Bottom, c, Brightness::Custom(pair[1]))));
        } else {
            out.push(CvCcAction::Led(leds.set(0, Led::Top, c, Brightness::Custom((v / 16) as u8))));
        }
        let ghost lights = out@;
        if self.old_midi != v / 32 {
            out.push(CvCcAction::Cc(v));
            self.old_midi = v / 32;
        }
        proof {
            assert(out@ =~= lights + if old(self).old_midi != v / 32 { seq![CvCcAction::Cc(v)] } else { Seq::empty() });
        }
        out
    }

    /// The button went down: mute flips (saved) and the button shows it.
    pub fn on_button_down(&mut self, leds: &Leds<1>) -> (r: CvCcAction)
        requires
            leds.start_channel + 1 <= usize::MAX,
        ensures
            *final(self) == (CvToCc {
                muted: !old(self).stored.muted,
                stored: Storage { muted: !old(self).stored.muted, ..old(self).stored },
                ..*old(self)
            }),
            r == if !old(self).stored.muted {
                led_req(*leds, Led::Button, LedMsg::Reset)
            } else {
                led_req(*leds, Led::Button, shine(old(self).led_color, Brightness::Lower))
            },
            old(self).wf() ==> final(self).wf(),
    {
        let muted = !self.stored.muted;
        self.stored.muted = muted;
        self.muted = muted;
        if muted {
            CvCcAction::Led(leds.unset(0, Led::Button))
        } else {
            CvCcAction::Led(leds.set(0, Led::Button, self.led_color, Brightness::Lower))
        }
    }

    /// Where the fader's latch picks up: the offset, or on the shift layer
    /// the attenuation.
    pub fn latch_target(&self, layer: LatchLayer) -> (r: u16)
        ensures
            r == if layer == LatchLayer::Alt { self.stored.att_saved } else { self.stored.offset_saved },
    {
        if layer == LatchLayer::Alt {
            self.stored.att_saved
        } else {
            self.stored.offset_saved
        }
    }

    /// The fader gave the latch's value `v` (12-bit): the offset, or on the
    /// shift layer the attenuation (each saved).
    pub fn on_fader(&mut self, layer: LatchLayer, v: u16)
        requires
            old(self).wf(),
            v <= 4095,
        ensures
            final(self).wf(),
            layer == LatchLayer::Alt ==> *final(self) == (CvToCc { stored: Storage { att_saved: v, ..old(self).stored }, ..*old(self) }),
            layer != LatchLayer::Alt ==> *final(self) == (CvToCc { stored: Storage { offset_saved: v, ..old(self).stored }, ..*old(self) }),
    {
        if layer == LatchLayer::Alt {
            self.stored.att_saved = v;
        } else {
            self.stored.offset_saved = v;
        }
    }

    /// A scene was loaded: the converter takes its storage and mute; the
    /// button shows mute.
    pub fn on_scene_load(&mut self, leds: &Leds<1>, stored: Storage) -> (r: CvCcAction)
        requires
            old(self).wf(),
            storage_ok(stored),
            leds.start_channel + 1 <= usize::MAX,
        ensures
            final(self).wf(),
            *final(self) == (CvToCc { stored: stored, muted: stored.muted, ..*old(self) }),
            r == if stored.muted {
                led_req(*leds, Led::Button, LedMsg::Reset)
            } else {
                led_req(*leds, Led::Button, shine(old(self).led_color, Brightness::Lower))
            },
    {
        self.stored = stored;
        self.muted = stored.muted;
        if stored.muted {
            CvCcAction::Led(leds.unset(0, Led::Button))
        } else {
            CvCcAction::Led(leds.set(0, Led::Button, self.led_color, Brightness::Lower))
        }
    }
}

/// A muted converter sends its rest value: 0, or the middle when bipolar.
pub proof fn law_muted_sends_rest(bipolar: bool, input: u16, st: Storage)
    ensures
        value_of(bipolar, true, input, st) == if bipolar { 2047u16 } else { 0u16 },
        value_of(bipolar, false, input, st) <= 4095,
{
}

} // verus!
