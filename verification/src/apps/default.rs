//! Default app: the fader, through a curve, to CV and MIDI, with mute and
//! attenuation.

use vstd::prelude::*;

use crate::storage::AppStorage;
use crate::app::{LedRequest, Leds};
use crate::config::Curve;
use crate::scaling::{attenuate_bipolar, bipolar_attenuated, clickless, clickless_step, split_unsigned, split_unsigned_value};
use crate::tables::{curve_at, curve_value};
use crate::types::{Brightness, Color, LatchLayer, Led, LedMode, LedMsg};

verus! {

/// What the app keeps: mute and the attenuation.
#[derive(Clone, Copy, Debug, PartialEq, Eq, Structural)]
pub struct Storage {
    pub muted: bool,
    pub att_saved: u16,
}

impl Default for Storage {
    /// Playing, no attenuation.
    fn default() -> (r: Self)
        ensures
            r == (Storage { muted: false, att_saved: 4095 }),
    {
        Storage { muted: false, att_saved: 4095 }
    }
}

impl AppStorage for Storage {}

/// Work for the device: the jack, the MIDI CC, LEDs.
#[derive(Clone, Copy, Debug, PartialEq, Eq)]
pub enum DefaultAction {
    Out(u16),
    Cc(u16),
    Led(LedRequest),
}

/// A running app: curve, bipolar range, color; storage; mute, the main
/// layer's value and the click-free output.
#[derive(Clone, Copy)]
pub struct DefaultApp {
    pub curve: Curve,
    pub bipolar: bool,
    pub led_color: Color,
    pub stored: Storage,
    pub muted: bool,
    pub main_layer_value: u16,
    pub output: u16,
}

/// The request for `led` of the app's channel.
pub open spec fn led_req(leds: Leds<1>, led: Led, msg: LedMsg) -> DefaultAction {
    DefaultAction::Led((leds.device_channel(0) as usize, led, msg))
}

/// The static light `color` at `b`.
pub open spec fn shine(color: Color, b: Brightness) -> LedMsg {
    LedMsg::SetMode(LedMode::Static(color, b))
}

/// The button light of a mute state.
pub open spec fn mute_light(leds: Leds<1>, muted: bool, color: Color) -> DefaultAction {
    if muted { led_req(leds, Led::Button, LedMsg::Reset) } else { led_req(leds, Led::Button, shine(color, Brightness::Lower)) }
}

/// The level asked for: the rest value when muted (the middle when
/// bipolar, else 0), else the fader through the curve.
pub open spec fn level_of(s: DefaultApp) -> u16 {
    if s.muted {
        if s.bipolar { 2047 } else { 0 }
    } else {
        curve_value(s.curve, s.main_layer_value)
    }
}

/// The jack's value for an output: attenuated (around the middle when bipolar).
pub open spec fn attenuated_of(bipolar: bool, out: u16, att: u16) -> u16 {
    if bipolar { bipolar_attenuated(out, att) } else { ((out as int * att as int) / 4095) as u16 }
}

/// The LEDs of a millisecond: on the main layer the output (split when
/// bipolar, else the jack's value over 16 on top); on the shift layer the
/// attenuation in red.
pub open spec fn lights_of(s: DefaultApp, leds: Leds<1>, layer: LatchLayer, attenuated: u16) -> Seq<DefaultAction> {
    let c = s.led_color;
    if layer == LatchLayer::Alt {
        let a = (s.stored.att_saved / 16) as u8;
        seq![led_req(leds, Led::Top, shine(Color::Red, Brightness::Custom(a)))]
            + if s.bipolar { seq![led_req(leds, Led::Bottom, shine(Color::Red, Brightness::Custom(a)))] } else { seq![led_req(leds, Led::Bottom, LedMsg::Reset)] }
    } else if s.bipolar {
        seq![
            led_req(leds, Led::Top, shine(c, Brightness::Custom(split_unsigned(s.output)[0]))),
            led_req(leds, Led::Bottom, shine(c, Brightness::Custom(split_unsigned(s.output)[1]))),
        ]
    } else {
        seq![led_req(leds, Led::Top, shine(c, Brightness::Custom((attenuated / 16) as u8))), led_req(leds, Led::Bottom, LedMsg::Reset)]
    }
}

impl DefaultApp {
    /// The invariant: attenuation and fader value in range.
    pub open spec fn wf(&self) -> bool {
        self.stored.att_saved <= 4095 && self.main_layer_value <= 4095
    }

    /// The app as `run` starts it from curve, range, color, storage
    /// (attenuation 12-bit) and the fader's position; the button shows mute.
    pub fn new(leds: &Leds<1>, curve: Curve, bipolar: bool, led_color: Color, stored: Storage, fader: u16) -> (r: (Self, DefaultAction))
        requires
            stored.att_saved <= 4095,
            fader <= 4095,
            leds.start_channel + 1 <= usize::MAX,
        ensures
            r.0.wf(),
            r.0 == (DefaultApp { curve: curve, bipolar: bipolar, led_color: led_color, stored: stored, muted: stored.muted, main_layer_value: fader, output: 0 }),
            r.1 == mute_light(*leds, stored.muted, led_color),
    {
        let light = if stored.muted {
            DefaultAction::Led(leds.unset(0, Led::Button))
        } else {
            DefaultAction::Led(leds.set(0, Led::Button, led_color, Brightness::Lower))
        };
        (DefaultApp { curve, bipolar, led_color, stored, muted: stored.muted, main_layer_value: fader, output: 0 }, light)
    }

    /// Where the fader's latch picks up: the main layer's value or the attenuation.
    pub fn latch_target(&self, layer: LatchLayer) -> (r: u16)
        ensures
            r == if layer == LatchLayer::Alt { self.stored.att_saved } else { self.main_layer_value },
    {
        if layer == LatchLayer::Alt {
            self.stored.att_saved
        } else {
            self.main_layer_value
        }
    }

    /// One millisecond on `layer` with the value the latch took (if any,
    /// 12-bit): it becomes the main layer's value or the attenuation; the
    /// output steps click-free toward the level (see `level_of`), the jack
    /// takes it attenuated, and the LEDs show the layer.
    pub fn on_ms(&mut self, leds: &Leds<1>, layer: LatchLayer, taken: Option<u16>) -> (r: Vec<DefaultAction>)
        requires
            old(self).wf(),
            taken matches Some(v) ==> v <= 4095,
            leds.start_channel + 1 <= usize::MAX,
        ensures
            final(self).wf(),
            ({
                let s1 = match taken {
                    Some(v) => if layer == LatchLayer::Alt {
                        DefaultApp { stored: Storage { att_saved: v, ..old(self).stored }, ..*old(self) }
                    } else {
                        DefaultApp { main_layer_value: v, ..*old(self) }
                    },
                    None => *old(self),
                };
                let out = clickless_step(s1.output, level_of(s1));
                let s2 = DefaultApp { output: out, ..s1 };
                let a = attenuated_of(s2.bipolar, out, s2.stored.att_saved);
                &&& *final(self) == s2
                &&& r@ == seq![DefaultAction::Out(a)] + lights_of(s2, *leds, layer, a)
            }),
    {
        match taken {
            Some(v) => {
                if layer == LatchLayer::Alt {
                    self.stored.att_saved = v;
                } else {
                    self.main_layer_value = v;
                }
            },
            None => {},
        }
        let level = if self.muted {
            if self.bipolar {
                2047
            } else {
                0
            }
        } else {
            curve_at(self.curve, self.main_layer_value)
        };
        let out = clickless(self.output, level);
        self.output = out;
        let att = self.stored.att_saved;
        assert(out as u32 * att as u32 <= 65535 * 4095) by (nonlinear_arith)
            requires
                att <= 4095,
        ;
        let attenuated = if self.bipolar {
            attenuate_bipolar(out, att)
        } else {
            ((out as u32 * att as u32) / 4095) as u16
        };
        let mut work: Vec<DefaultAction> = Vec::new();
        work.push(DefaultAction::Out(attenuated));
        let c = self.led_color;
        if layer == LatchLayer::Alt {
            let a = (att / 16) as u8;
            work.push(DefaultAction::Led(leds.set(0, Led::Top, Color::Red, Brightness::Custom(a))));
            if self.bipolar {
                work.push(DefaultAction::Led(leds.set(0, Led::Bottom, Color::Red, Brightness::Custom(a))));
            } else {
                work.push(DefaultAction::Led(leds.unset(0, Led::Bottom)));
            }
        } else if self.bipolar {
            let pair = split_unsigned_value(out);
            work.push(DefaultAction::Led(leds.set(0, Led::Top, c, Brightness::Custom(pair[0]))));
            work.push(DefaultAction::Led(leds.set(0, Led::Bottom, c, Brightness::Custom(pair[1]))));
        } else {
            // `attenuated / 16` is what the float division by 16.0 and the
            // cast give for a value below 2^24.
            work.push(DefaultAction::Led(leds.set(0, Led::Top, c, Brightness::Custom((attenuated / 16) as u8))));
            work.push(DefaultAction::Led(leds.unset(0, Led::Bottom)));
        }
        proof {
            let a = attenuated_of(self.bipolar, out, att);
            assert(work@ =~= seq![DefaultAction::Out(a)] + lights_of(*self, *leds, layer, a));
        }
        work
    }

    /// The button (on release or press, by the parameter) toggles mute
    /// (saved); the button shows it.
    pub fn on_button(&mut self, leds: &Leds<1>) -> (r: DefaultAction)
        requires
            leds.start_channel + 1 <= usize::MAX,
        ensures
            *final(self) == (DefaultApp {
                muted: !old(self).stored.muted,
                stored: Storage { muted: !old(self).stored.muted, ..old(self).stored },
                ..*old(self)
            }),
            r == mute_light(*leds, !old(self).stored.muted, old(self).led_color),
            old(self).wf() ==> final(self).wf(),
    {
        let muted = !self.stored.muted;
        self.stored.muted = muted;
        self.muted = muted;
        if muted {
            DefaultAction::Led(leds.unset(0, Led::Button))
        } else {
            DefaultAction::Led(leds.set(0, Led::Button, self.led_color, Brightness::Lower))
        }
    }

    /// A fader change on `layer`: on the main layer the output goes out as
    /// a CC; on the shift layer the storage is saved. Returns the work and
    /// whether to save.
    pub fn on_fader_event(&self, layer: LatchLayer) -> (r: (Option<DefaultAction>, bool))
        ensures
            r == if layer == LatchLayer::Alt { (None::<DefaultAction>, true) } else { (Some(DefaultAction::Cc(self.output)), false) },
    {
        if layer == LatchLayer::Alt {
            (None, true)
        } else {
            (Some(DefaultAction::Cc(self.output)), false)
        }
    }

    /// A scene was loaded (attenuation 12-bit): the app takes its storage
    /// and mute; the button shows mute.
    pub fn on_scene_load(&mut self, leds: &Leds<1>, stored: Storage) -> (r: DefaultAction)
        requires
            old(self).wf(),
            stored.att_saved <= 4095,
            leds.start_channel + 1 <= usize::MAX,
        ensures
            final(self).wf(),
            *final(self) == (DefaultApp { stored: stored, muted: stored.muted, ..*old(self) }),
            r == mute_light(*leds, stored.muted, old(self).led_color),
    {
        self.stored = stored;
        self.muted = stored.muted;
        if stored.muted {
            DefaultAction::Led(leds.unset(0, Led::Button))
        } else {
            DefaultAction::Led(leds.set(0, Led::Button, self.led_color, Brightness::Lower))
        }
    }
}

/// Muted, the output heads for its rest value: it never moves away from it.
pub proof fn law_muted_heads_to_rest(s: DefaultApp)
    requires
        s.muted,
    ensures
        ({
            let rest: int = if s.bipolar { 2047 } else { 0 };
            let out = clickless_step(s.output, level_of(s));
            &&& (s.output <= rest ==> s.output <= out <= rest)
            &&& (rest <= s.output ==> rest <= out <= s.output)
        }),
{
}

} // verus!
