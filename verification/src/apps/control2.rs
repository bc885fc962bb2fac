//! Control X2: fader-to-CV/MIDI controller with smoothing.

use vstd::prelude::*;

use crate::storage::AppStorage;
use crate::app::{LedRequest, Leds};
use crate::config::Curve;
use crate::scaling::{attenuate_bipolar, bipolar_attenuated, clickless, clickless_step, split_unsigned, split_unsigned_value};
use crate::tables::{curve_at, curve_value};
use crate::types::{Brightness, Color, LatchLayer, Led, LedMode, LedMsg};

verus! {

/// One smoothing step toward `input`: a weighted average of the previous
/// value (weight `slew`) and the input (weight 1), snapping to the input
/// once within `slew` of it.
pub open spec fn slew_step(prev: u16, input: u16, slew: u16) -> u16 {
    let smoothed = (prev * slew + input) / (slew + 1);
    if (smoothed - input <= slew && input - smoothed <= slew) {
        input
    } else {
        smoothed as u16
    }
}

/// Smooths a fader value toward `input`.
pub fn slew_2(prev: u16, input: u16, slew: u16) -> (r: u16)
    ensures
        r == slew_step(prev, input, slew),
{
    let p = prev as u32;
    let s = slew as u32;
    let i = input as u32;
    assert(p * s <= 65535 * 65535) by (nonlinear_arith)
        requires
            p <= 65535,
            s <= 65535,
    ;
    let num = p * s + i;
    let den = s + 1;
    let q = num / den;
    assert(q <= 65535) by (nonlinear_arith)
        requires
            num == p * s + i,
            den == s + 1,
            q == num / den,
            p <= 65535,
            i <= 65535,
    ;
    let smoothed = q as u16;
    let diff = smoothed as i32 - input as i32;
    let absdiff = if diff < 0 {
        -diff
    } else {
        diff
    };
    if absdiff <= slew as i32 {
        input
    } else {
        smoothed
    }
}

/// A smoothing step lands between the previous value and the input.
pub proof fn law_slew_between(prev: u16, input: u16, slew: u16)
    ensures
        (prev <= input ==> prev <= slew_step(prev, input, slew) <= input),
        (input <= prev ==> input <= slew_step(prev, input, slew) <= prev),
{
    let num = prev * slew + input;
    let den = slew + 1;
    let q = num / den;
    assert(prev <= input ==> prev <= q <= input) by (nonlinear_arith)
        requires
            num == prev * slew + input,
            den == slew + 1,
            q == num / den,
            slew >= 0,
    ;
    assert(input <= prev ==> input <= q <= prev) by (nonlinear_arith)
        requires
            num == prev * slew + input,
            den == slew + 1,
            q == num / den,
            slew >= 0,
    ;
}

/// What the controller keeps: the button's toggle state, the attenuation,
/// the fader value (when state is kept) and whether the button toggles.
#[derive(Clone, Copy, Debug, PartialEq, Eq, Structural)]
pub struct Storage {
    pub button_state: bool,
    pub att_saved: u16,
    pub fad_val: u16,
    pub toggle: bool,
}

impl Default for Storage {
    /// Button on, no attenuation, fader at the top, toggling.
    fn default() -> (r: Self)
        ensures
            r == (Storage { button_state: true, att_saved: 4095, fad_val: 4095, toggle: true }),
    {
        Storage { button_state: true, att_saved: 4095, fad_val: 4095, toggle: true }
    }
}

impl AppStorage for Storage {}

/// Whether the stored values are within the faders' 12-bit range.
pub open spec fn storage_ok(st: Storage) -> bool {
    st.att_saved <= 4095 && st.fad_val <= 4095
}

/// Work for the device: the jack, the fader's and the button's MIDI CC
/// values, the fader value over I2C, LEDs.
#[derive(Clone, Copy, Debug, PartialEq, Eq)]
pub enum ControlAction {
    Out(u16),
    FaderCc(u16),
    ButtonCc(u16),
    I2c(u16),
    Led(LedRequest),
}

/// A running controller: curve, bipolar range, color, whether the fader
/// value is kept; storage; the main layer's value, the click-free value,
/// the output and its last 7-bit value.
#[derive(Clone, Copy)]
pub struct Control2 {
    pub curve: Curve,
    pub bipolar: bool,
    pub led_color: Color,
    pub save_state: bool,
    pub stored: Storage,
    pub main_layer_value: u16,
    pub fad_val: u16,
    pub out: u16,
    pub last_out: u16,
}

/// The request for `led` of the app's channel.
pub open spec fn led_req(leds: Leds<1>, led: Led, msg: LedMsg) -> ControlAction {
    ControlAction::Led((leds.device_channel(0) as usize, led, msg))
}

/// The static light `color` at `b`.
pub open spec fn shine(color: Color, b: Brightness) -> LedMsg {
    LedMsg::SetMode(LedMode::Static(color, b))
}

/// The level the fader asks for through the curve: over the whole range,
/// or for a bipolar range each half bent from the middle.
pub open spec fn shaped(curve: Curve, bipolar: bool, v: u16) -> u16 {
    if !bipolar {
        curve_value(curve, v)
    } else if v > 2047 {
        (curve_value(curve, ((v - 2047) * 2) as u16) / 2 + 2047) as u16
    } else {
        (2047 - curve_value(curve, ((2047 - v) * 2) as u16) / 2) as u16
    }
}

/// The 7-bit value of an output.
pub open spec fn seven_bit(out: u16) -> u16 {
    (out as int * 127 / 4095) as u16
}

/// The controller after the latch on `layer` took `taken`: the fader value
/// (kept in storage when state is kept) or the attenuation.
pub open spec fn latched(s: Control2, layer: LatchLayer, taken: Option<u16>) -> Control2 {
    let s0 = if s.save_state { Control2 { main_layer_value: s.stored.fad_val, ..s } } else { s };
    match taken {
        Some(v) => if layer == LatchLayer::Alt {
            Control2 { stored: Storage { att_saved: v, ..s0.stored }, ..s0 }
        } else if s0.save_state {
            Control2 { stored: Storage { fad_val: v, ..s0.stored }, ..s0 }
        } else {
            Control2 { main_layer_value: v, ..s0 }
        },
        None => s0,
    }
}

/// The output of a millisecond: the click-free curve level, attenuated,
/// smoothed; the fader's CC goes out when its 7-bit value changed.
pub open spec fn output_of(s: Control2) -> (Control2, u16, Seq<ControlAction>) {
    let fad = clickless_step(s.fad_val, shaped(s.curve, s.bipolar, s.main_layer_value));
    let att = s.stored.att_saved;
    let attenuated = if s.bipolar { bipolar_attenuated(fad, att) } else { ((fad as int * att as int) / 4095) as u16 };
    let out = slew_step(s.out, attenuated, 3);
    let cc = if s.last_out != seven_bit(out) { seq![ControlAction::FaderCc(out)] } else { Seq::empty() };
    (Control2 { fad_val: fad, out: out, last_out: seven_bit(out), ..s }, attenuated, cc + seq![ControlAction::Out(out)])
}

/// The LEDs of a millisecond on `layer` with the button held or not: on
/// the main layer the output (split over top and bottom when bipolar) and
/// the button's state (its toggle state, or whether it is held); on the
/// shift layer the attenuation in red and whether the button toggles.
pub open spec fn lights_of(s: Control2, leds: Leds<1>, layer: LatchLayer, attenuated: u16, pressed: bool) -> Seq<ControlAction> {
    let c = s.led_color;
    if layer == LatchLayer::Alt {
        let a = (s.stored.att_saved / 16) as u8;
        (if s.stored.toggle { seq![led_req(leds, Led::Button, shine(Color::Red, Brightness::Lower))] } else { seq![led_req(leds, Led::Button, LedMsg::Reset)] })
            + seq![led_req(leds, Led::Top, shine(Color::Red, Brightness::Custom(a)))]
            + if s.bipolar { seq![led_req(leds, Led::Bottom, shine(Color::Red, Brightness::Custom(a)))] } else { seq![led_req(leds, Led::Bottom, LedMsg::Reset)] }
    } else {
        let lamp = if s.stored.toggle { s.stored.button_state } else { pressed };
        (if s.bipolar {
            seq![
                led_req(leds, Led::Top, shine(c, Brightness::Custom(split_unsigned(s.out)[0]))),
                led_req(leds, Led::Bottom, shine(c, Brightness::Custom(split_unsigned(s.out)[1]))),
            ]
        } else {
            seq![led_req(leds, Led::Top, shine(c, Brightness::Custom((attenuated / 16) as u8))), led_req(leds, Led::Bottom, LedMsg::Reset)]
        }) + if lamp { seq![led_req(leds, Led::Button, shine(c, Brightness::Lower))] } else { seq![led_req(leds, Led::Button, LedMsg::Reset)] }
    }
}

impl Control2 {
    /// The invariant: stored values and the fader value in range.
    pub open spec fn wf(&self) -> bool {
        storage_ok(self.stored) && self.main_layer_value <= 4095
    }

    /// The controller as `run` starts it from its curve, range, color, the
    /// keep-state setting, storage and the fader's position: with a
    /// toggling button, its state shows and an "on" is sent (on the fader's
    /// MIDI channel).
    pub fn new(leds: &Leds<1>, curve: Curve, bipolar: bool, led_color: Color, save_state: bool, stored: Storage, fader: u16) -> (r: (Self, Vec<ControlAction>))
        requires
            storage_ok(stored),
            fader <= 4095,
            leds.start_channel + 1 <= usize::MAX,
        ensures
            r.0.wf(),
            r.0 == (Control2 {
                curve: curve,
                bipolar: bipolar,
                led_color: led_color,
                save_state: save_state,
                stored: stored,
                main_layer_value: fader,
                fad_val: 0,
                out: 0,
                last_out: 0,
            }),
            r.1@ == if !stored.toggle {
                Seq::empty()
            } else if !stored.button_state {
                seq![led_req(*leds, Led::Button, LedMsg::Reset)]
            } else {
                seq![led_req(*leds, Led::Button, shine(led_color, Brightness::Lower)), ControlAction::FaderCc(4095)]
            },
    {
        let mut out: Vec<ControlAction> = Vec::new();
        if stored.toggle {
            if !stored.button_state {
                out.push(ControlAction::Led(leds.unset(0, Led::Button)));
            } else {
                out.push(ControlAction::Led(leds.set(0, Led::Button, led_color, Brightness::Lower)));
                out.push(ControlAction::FaderCc(4095));
            }
        }
        (Control2 { curve, bipolar, led_color, save_state, stored, main_layer_value: fader, fad_val: 0, out: 0, last_out: 0 }, out)
    }

    /// Where the fader's latch picks up on `layer`: the main layer's value
    /// (the stored one when state is kept) or the attenuation.
    pub fn latch_target(&self, layer: LatchLayer) -> (r: u16)
        ensures
            r == if layer == LatchLayer::Alt {
                self.stored.att_saved
            } else if self.save_state {
                self.stored.fad_val
            } else {
                self.main_layer_value
            },
    {
        if layer == LatchLayer::Alt {
            self.stored.att_saved
        } else if self.save_state {
            self.stored.fad_val
        } else {
            self.main_layer_value
        }
    }

    fn shape(&self) -> (r: u16)
        requires
            self.main_layer_value <= 4095,
        ensures
            r == shaped(self.curve, self.bipolar, self.main_layer_value),
    {
        let v = self.main_layer_value;
        if !self.bipolar {
            curve_at(self.curve, v)
        } else if v > 2047 {
            curve_at(self.curve, (v - 2047) * 2) / 2 + 2047
        } else {
            2047 - curve_at(self.curve, (2047 - v) * 2) / 2
        }
    }

    /// One millisecond on `layer` (shift: the shift layer), with the value
    /// the latch took (if any, 12-bit) and whether the button is held: the
    /// latched value is taken, the output computed and sent, the LEDs set.
    pub fn on_ms(&mut self, leds: &Leds<1>, layer: LatchLayer, taken: Option<u16>, pressed: bool) -> (r: Vec<ControlAction>)
        requires
            old(self).wf(),
            taken matches Some(v) ==> v <= 4095,
            leds.start_channel + 1 <= usize::MAX,
        ensures
            final(self).wf(),
            ({
                let s1 = latched(*old(self), layer, taken);
                let (s2, attenuated, work) = output_of(s1);
                &&& *final(self) == s2
                &&& r@ == work + lights_of(s2, *leds, layer, attenuated, pressed)
            }),
    {
        self.take_latch(layer, taken);
        let (attenuated, mut work) = self.produce();
        self.lights(leds, layer, attenuated, pressed, &mut work);
        work
    }

    fn take_latch(&mut self, layer: LatchLayer, taken: Option<u16>)
        requires
            old(self).wf(),
            taken matches Some(v) ==> v <= 4095,
        ensures
            final(self).wf(),
            *final(self) == latched(*old(self), layer, taken),
    {
        if self.save_state {
            self.main_layer_value = self.stored.fad_val;
        }
        match taken {
            Some(v) => {
                if layer == LatchLayer::Alt {
                    self.stored.att_saved = v;
                } else if self.save_state {
                    self.stored.fad_val = v;
                } else {
                    self.main_layer_value = v;
                }
            },
            None => {},
        }
    }

    fn produce(&mut self) -> (r: (u16, Vec<ControlAction>))
        requires
            old(self).wf(),
        ensures
            final(self).wf(),
            (*final(self), r.0, r.1@) == output_of(*old(self)),
    {
        let target = self.shape();
        let fad = clickless(self.fad_val, target);
        self.fad_val = fad;
        let att = self.stored.att_saved;
        assert(fad as u32 * att as u32 <= 65535 * 4095) by (nonlinear_arith)
            requires
                att <= 4095,
        ;
        let attenuated = if self.bipolar {
            attenuate_bipolar(fad, att)
        } else {
            ((fad as u32 * att as u32) / 4095) as u16
        };
        let out = slew_2(self.out, attenuated, 3);
        let mut work: Vec<ControlAction> = Vec::new();
        let seven = ((out as u32 * 127) / 4095) as u16;
        if self.last_out != seven {
            work.push(ControlAction::FaderCc(out));
        }
        work.push(ControlAction::Out(out));
        self.out = out;
        self.last_out = seven;
        proof {
            let (s2, att2, w2) = output_of(*old(self));
            assert(work@ =~= w2);
        }
        (attenuated, work)
    }

    fn lights(&self, leds: &Leds<1>, layer: LatchLayer, attenuated: u16, pressed: bool, work: &mut Vec<ControlAction>)
        requires
            leds.start_channel + 1 <= usize::MAX,
        ensures
            final(work)@ == old(work)@ + lights_of(*self, *leds, layer, attenuated, pressed),
    {
        let c = self.led_color;
        if layer == LatchLayer::Alt {
            if self.stored.toggle {
                work.push(ControlAction::Led(leds.set(0, Led::Button, Color::Red, Brightness::Lower)));
            } else {
                work.push(ControlAction::Led(leds.unset(0, Led::Button)));
            }
            let a = (self.stored.att_saved / 16) as u8;
            work.push(ControlAction::Led(leds.set(0, Led::Top, Color::Red, Brightness::Custom(a))));
            if self.bipolar {
                work.push(ControlAction::Led(leds.set(0, Led::Bottom, Color::Red, Brightness::Custom(a))));
            } else {
                work.push(ControlAction::Led(leds.unset(0, Led::Bottom)));
            }
        } else {
            if self.bipolar {
                let pair = split_unsigned_value(self.out);
                work.push(ControlAction::Led(leds.set(0, Led::Top, c, Brightness::Custom(pair[0]))));
                work.push(ControlAction::Led(leds.set(0, Led::Bottom, c, Brightness::Custom(pair[1]))));
            } else {
                // `attenuated / 16` is what the float division by 16.0 and
                // the cast give for a value below 2^24.
                work.push(ControlAction::Led(leds.set(0, Led::Top, c, Brightness::Custom((attenuated / 16) as u8))));
                work.push(ControlAction::Led(leds.unset(0, Led::Bottom)));
            }
            let lamp = if self.stored.toggle {
                self.stored.button_state
            } else {
                pressed
            };
            if lamp {
                work.push(ControlAction::Led(leds.set(0, Led::Button, c, Brightness::Lower)));
            } else {
                work.push(ControlAction::Led(leds.unset(0, Led::Button)));
            }
        }
        assert(work@ =~= old(work)@ + lights_of(*self, *leds, layer, attenuated, pressed));
    }

    /// The button went down: alone, a toggling button flips its state
    /// (saved) and sends it as a CC (on or off, lit or dark), a momentary
    /// one sends "on" and lights; with shift the toggling setting flips
    /// (saved) and, now toggling, the state is sent. Returns the work and
    /// whether to save.
    pub fn on_button_down(&mut self, leds: &Leds<1>, shift: bool) -> (r: (Vec<ControlAction>, bool))
        requires
            leds.start_channel + 1 <= usize::MAX,
        ensures
            !shift && old(self).stored.toggle ==> r.1 && *final(self) == (Control2 {
                stored: Storage { button_state: !old(self).stored.button_state, ..old(self).stored },
                ..*old(self)
            }) && r.0@ == seq![
                ControlAction::ButtonCc(if !old(self).stored.button_state { 4095u16 } else { 0u16 }),
                if !old(self).stored.button_state {
                    led_req(*leds, Led::Button, shine(old(self).led_color, Brightness::Lower))
                } else {
                    led_req(*leds, Led::Button, LedMsg::Reset)
                },
            ],
            !shift && !old(self).stored.toggle ==> !r.1 && *final(self) == *old(self) && r.0@ == seq![
                ControlAction::ButtonCc(4095),
                led_req(*leds, Led::Button, shine(old(self).led_color, Brightness::Lower)),
            ],
            shift ==> r.1 && *final(self) == (Control2 { stored: Storage { toggle: !old(self).stored.toggle, ..old(self).stored }, ..*old(self) })
                && r.0@ == if !old(self).stored.toggle {
                    seq![ControlAction::ButtonCc(if old(self).stored.button_state { 4095u16 } else { 0u16 })]
                } else {
                    Seq::empty()
                },
            old(self).wf() ==> final(self).wf(),
    {
        let mut out: Vec<ControlAction> = Vec::new();
        if !shift {
            if self.stored.toggle {
                let state = !self.stored.button_state;
                self.stored.button_state = state;
                out.push(ControlAction::ButtonCc(if state {
                    4095
                } else {
                    0
                }));
                if state {
                    out.push(ControlAction::Led(leds.set(0, Led::Button, self.led_color, Brightness::Lower)));
                } else {
                    out.push(ControlAction::Led(leds.unset(0, Led::Button)));
                }
                (out, true)
            } else {
                out.push(ControlAction::ButtonCc(4095));
                out.push(ControlAction::Led(leds.set(0, Led::Button, self.led_color, Brightness::Lower)));
                (out, false)
            }
        } else {
            let toggle = !self.stored.toggle;
            self.stored.toggle = toggle;
            if toggle {
                out.push(ControlAction::ButtonCc(if self.stored.button_state {
                    4095
                } else {
                    0
                }));
            }
            (out, true)
        }
    }

    /// The button came up: a momentary button sends "off" and goes dark.
    pub fn on_button_up(&self, leds: &Leds<1>) -> (r: Vec<ControlAction>)
        requires
            leds.start_channel + 1 <= usize::MAX,
        ensures
            r@ == if !self.stored.toggle {
                seq![ControlAction::ButtonCc(0), led_req(*leds, Led::Button, LedMsg::Reset)]
            } else {
                Seq::empty()
            },
    {
        let mut out: Vec<ControlAction> = Vec::new();
        if !self.stored.toggle {
            out.push(ControlAction::ButtonCc(0));
            out.push(ControlAction::Led(leds.unset(0, Led::Button)));
        }
        out
    }

    /// A fader change on `layer`: on the main layer the (never updated,
    /// so 0) shared output value goes out over I2C; on the shift layer the
    /// storage is saved. Returns the work and whether to save.
    pub fn on_fader_event(&self, layer: LatchLayer) -> (r: (Option<ControlAction>, bool))
        ensures
            r == if layer == LatchLayer::Alt { (None::<ControlAction>, true) } else { (Some(ControlAction::I2c(0)), false) },
    {
        if layer == LatchLayer::Alt {
            (None, true)
        } else {
            (Some(ControlAction::I2c(0)), false)
        }
    }

    /// A scene was loaded: the controller takes its storage; when state is
    /// kept and the button toggles, the button's state shows and is sent.
    pub fn on_scene_load(&mut self, leds: &Leds<1>, stored: Storage) -> (r: Vec<ControlAction>)
        requires
            old(self).wf(),
            storage_ok(stored),
            leds.start_channel + 1 <= usize::MAX,
        ensures
            final(self).wf(),
            *final(self) == (Control2 { stored: stored, ..*old(self) }),
            r@ == if old(self).save_state && stored.toggle {
                if !stored.button_state {
                    seq![led_req(*leds, Led::Button, LedMsg::Reset), ControlAction::ButtonCc(0)]
                } else {
                    seq![led_req(*leds, Led::Button, shine(old(self).led_color, Brightness::Lower)), ControlAction::ButtonCc(4095)]
                }
            } else {
                Seq::empty()
            },
    {
        self.stored = stored;
        let mut out: Vec<ControlAction> = Vec::new();
        if self.save_state && stored.toggle {
            if !stored.button_state {
                out.push(ControlAction::Led(leds.unset(0, Led::Button)));
                out.push(ControlAction::ButtonCc(0));
            } else {
                out.push(ControlAction::Led(leds.set(0, Led::Button, self.led_color, Brightness::Lower)));
                out.push(ControlAction::ButtonCc(4095));
            }
        }
        out
    }
}

/// The output never jumps past its target: each millisecond's output lies
/// between the previous output and the attenuated level.
pub proof fn law_output_moves_toward_level(s: Control2)
    ensures
        ({
            let (s2, level, _) = output_of(s);
            &&& (s.out <= level ==> s.out <= s2.out <= level)
            &&& (level <= s.out ==> level <= s2.out <= s.out)
        }),
{
    let (s2, level, _) = output_of(s);
    law_slew_between(s.out, level, 3);
}

} // verus!
