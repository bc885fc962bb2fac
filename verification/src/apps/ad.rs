//! AD envelope: gate counting, trigger-to-gate timing, buttons, faders and
//! LEDs around the envelope (whose floating-point shape runs outside).

use vstd::prelude::*;

use crate::storage::AppStorage;
use crate::app::{LedRequest, Leds};
use crate::config::Curve;
use crate::scaling::attenuate;
use crate::types::{Brightness, Color, LatchLayer, Led, LedMode, LedMsg};

verus! {

/// Input level (0 to 10 V range) at which a gate input counts as high.
pub const THRESHOLD: u16 = 406;

/// What the envelope keeps: attack and decay faders, their curves, the
/// mode (0 AD, 1 ASR, 2 looping), the output level and the shortest gate.
#[derive(Clone, Copy, Debug)]
pub struct Storage {
    pub fader_saved: [u16; 2],
    pub curve_saved: [Curve; 2],
    pub mode_saved: u8,
    pub att_saved: u16,
    pub min_gate_saved: u16,
}

impl Default for Storage {
    /// Both times at 2000, linear, AD mode, full level, shortest gate 1.
    fn default() -> (r: Self)
        ensures
            r.fader_saved[0] == 2000 && r.fader_saved[1] == 2000,
            r.curve_saved[0] == Curve::Linear && r.curve_saved[1] == Curve::Linear,
            r.mode_saved == 0 && r.att_saved == 4095 && r.min_gate_saved == 1,
    {
        Storage {
            fader_saved: [2000, 2000],
            curve_saved: [Curve::Linear, Curve::Linear],
            mode_saved: 0,
            att_saved: 4095,
            min_gate_saved: 1,
        }
    }
}

impl AppStorage for Storage {}

/// Work for the device: the output jack, LEDs.
#[derive(Clone, Copy, Debug, PartialEq, Eq)]
pub enum AdAction {
    Out(u16),
    Led(LedRequest),
}

/// The color of a curve (linear, logarithmic, exponential) or of a mode (0, 1, 2).
pub open spec fn curve_color(c: Curve) -> Color {
    match c {
        Curve::Linear => Color::Yellow,
        Curve::Logarithmic => Color::Cyan,
        Curve::Exponential => Color::Pink,
    }
}

/// The color of a mode.
pub open spec fn mode_color(m: u8) -> Color {
    if m == 0 { Color::Yellow } else if m == 1 { Color::Cyan } else { Color::Pink }
}

/// The next curve, as `libfp::Curve::cycle` gives it.
pub open spec fn next_curve(c: Curve) -> Curve {
    match c {
        Curve::Linear => Curve::Exponential,
        Curve::Exponential => Curve::Logarithmic,
        Curve::Logarithmic => Curve::Linear,
    }
}

fn color_of_curve(c: Curve) -> (r: Color)
    ensures
        r == curve_color(c),
{
    match c {
        Curve::Linear => Color::Yellow,
        Curve::Logarithmic => Color::Cyan,
        Curve::Exponential => Color::Pink,
    }
}

/// A running envelope's gate side: storage, the millisecond timer, the
/// gate count, the last input level, whether a gate is open, when the
/// envelope started, whether a trigger holds a gate open, the envelope's
/// stage (0 idle, 1 attack, 2 decay) and the button's last state.
#[derive(Clone, Copy)]
pub struct AdGate {
    pub stored: Storage,
    pub timer: u32,
    pub gate_on: i32,
    pub old_input: u16,
    pub old_gate: bool,
    pub start_time: u32,
    pub t2g: bool,
    pub env_state: u8,
    pub button_old: bool,
}

/// The request for `led` of local channel `chan`.
pub open spec fn led_req(leds: Leds<2>, chan: usize, led: Led, msg: LedMsg) -> AdAction {
    AdAction::Led((leds.device_channel(chan) as usize, led, msg))
}

/// The static light `color` at `b`.
pub open spec fn shine(color: Color, b: Brightness) -> LedMsg {
    LedMsg::SetMode(LedMode::Static(color, b))
}

/// One less, never below 0.
pub open spec fn dec(n: i32) -> i32 {
    if n - 1 < 0 { 0 } else { (n - 1) as i32 }
}

/// One more, up to the largest `i32`.
pub open spec fn inc(n: i32) -> i32 {
    if n < i32::MAX { (n + 1) as i32 } else { n }
}

/// Gate handling of a millisecond with the input at `input`: the timer
/// advances; a rising edge opens one more gate and a falling edge closes
/// one; a newly open gate starts the attack (a trigger adds a gate of its
/// own for the shortest gate length); a closed gate ends the sustain in
/// ASR mode; the trigger's gate closes once the shortest gate has passed
/// (unless it is held, at 4095).
pub open spec fn gate_step(s: AdGate, input: u16) -> AdGate {
    let timer = ((s.timer + 1) % 0x1_0000_0000) as u32;
    let g0 = if input >= THRESHOLD && s.old_input < THRESHOLD {
        inc(s.gate_on)
    } else if input <= THRESHOLD && s.old_input > THRESHOLD {
        dec(s.gate_on)
    } else {
        s.gate_on
    };
    let opens = g0 > 0 && !s.old_gate;
    let env1 = if opens { 1u8 } else { s.env_state };
    let start = if opens { timer } else { s.start_time };
    let old_gate1 = if opens { true } else { s.old_gate };
    let (g1, t2g1) = if timer == start { (inc(g0), true) } else { (g0, s.t2g) };
    let closes = g1 == 0 && old_gate1;
    let env2 = if closes && s.stored.mode_saved == 1 { 2u8 } else { env1 };
    let old_gate2 = if closes { false } else { old_gate1 };
    let min = s.stored.min_gate_saved;
    let expired = ((timer - start) % 0x1_0000_0000) as u32 > min as u32 + 10 && t2g1 && min != 4095;
    AdGate {
        timer: timer,
        gate_on: if expired { dec(g1) } else { g1 },
        old_input: input,
        old_gate: old_gate2,
        start_time: start,
        t2g: if expired { false } else { t2g1 },
        env_state: env2,
        ..s
    }
}

impl AdGate {
    /// The invariant: stored values in range, gate count not negative, a
    /// known mode and stage.
    pub open spec fn wf(&self) -> bool {
        &&& self.stored.mode_saved <= 2
        &&& self.stored.att_saved <= 4095
        &&& self.stored.min_gate_saved <= 4095
        &&& self.stored.fader_saved[0] <= 4095 && self.stored.fader_saved[1] <= 4095
        &&& self.gate_on >= 0
        &&& self.env_state <= 2
    }

    /// The envelope as `run` starts it: the timer at 5000, no gate; the
    /// buttons show their curves.
    pub fn new(leds: &Leds<2>, stored: Storage) -> (r: (Self, Vec<AdAction>))
        requires
            stored.mode_saved <= 2 && stored.att_saved <= 4095 && stored.min_gate_saved <= 4095,
            stored.fader_saved[0] <= 4095 && stored.fader_saved[1] <= 4095,
            leds.start_channel + 2 <= usize::MAX,
        ensures
            r.0.wf(),
            r.0 == (AdGate { stored: stored, timer: 5000, gate_on: 0, old_input: 0, old_gate: false, start_time: 0, t2g: false, env_state: 0, button_old: false }),
            r.1@ == seq![
                led_req(*leds, 0, Led::Button, shine(curve_color(stored.curve_saved[0]), Brightness::Lower)),
                led_req(*leds, 1, Led::Button, shine(curve_color(stored.curve_saved[1]), Brightness::Lower)),
            ],
    {
        let mut out: Vec<AdAction> = Vec::new();
        out.push(AdAction::Led(leds.set(0, Led::Button, color_of_curve(stored.curve_saved[0]), Brightness::Lower)));
        out.push(AdAction::Led(leds.set(1, Led::Button, color_of_curve(stored.curve_saved[1]), Brightness::Lower)));
        (AdGate { stored, timer: 5000, gate_on: 0, old_input: 0, old_gate: false, start_time: 0, t2g: false, env_state: 0, button_old: false }, out)
    }

    fn bump(n: i32) -> (r: i32)
        ensures
            r == inc(n),
    {
        if n < i32::MAX {
            n + 1
        } else {
            n
        }
    }

    fn drop_one(n: i32) -> (r: i32)
        ensures
            r == dec(n),
    {
        if n < 1 {
            0
        } else {
            n - 1
        }
    }

    /// Gate handling of a millisecond: see `gate_step`. The envelope's
    /// shape then runs from `env_state` and the count of open gates.
    pub fn on_ms_gate(&mut self, input: u16)
        requires
            old(self).wf(),
        ensures
            final(self).wf(),
            *final(self) == gate_step(*old(self), input),
    {
        self.timer = self.timer.wrapping_add(1);
        if input >= THRESHOLD && self.old_input < THRESHOLD {
            self.gate_on = Self::bump(self.gate_on);
        } else if input <= THRESHOLD && self.old_input > THRESHOLD {
            self.gate_on = Self::drop_one(self.gate_on);
        }
        self.old_input = input;
        if self.gate_on > 0 && !self.old_gate {
            self.env_state = 1;
            self.old_gate = true;
            self.start_time = self.timer;
        }
        if self.timer == self.start_time {
            self.gate_on = Self::bump(self.gate_on);
            self.t2g = true;
        }
        if self.gate_on == 0 && self.old_gate {
            if self.stored.mode_saved == 1 {
                self.env_state = 2;
            }
            self.old_gate = false;
        }
        let min = self.stored.min_gate_saved;
        if self.timer.wrapping_sub(self.start_time) > min as u32 + 10 && self.t2g && min != 4095 {
            self.gate_on = Self::drop_one(self.gate_on);
            self.t2g = false;
        }
    }

    /// The envelope's shape moved to stage `env_state` (0 to 2).
    pub fn set_env_state(&mut self, env_state: u8)
        requires
            env_state <= 2,
        ensures
            *final(self) == (AdGate { env_state: env_state, ..*old(self) }),
            old(self).wf() ==> final(self).wf(),
    {
        self.env_state = env_state;
    }

    /// The output side of a millisecond, with the envelope's curved value
    /// and shift's and the first button's state: the jack takes the value
    /// at the output level; on the shift layer the second button shows the
    /// mode, its top LED the level and the first top LED blinks with the
    /// shortest gate; on the main layer the buttons show their curves and a
    /// silent output darkens the top LEDs; the first bottom LED shows
    /// whether a gate is open; releasing the button with shift closes a gate.
    pub fn on_ms_out(&mut self, leds: &Leds<2>, envelope: u16, shift: bool, pressed: bool) -> (r: Vec<AdAction>)
        requires
            old(self).wf(),
            leds.start_channel + 2 <= usize::MAX,
        ensures
            final(self).wf(),
            ({
                let s = *old(self);
                let out = ((envelope as int * s.stored.att_saved as int) / 4095) as u16;
                let m = s.stored.min_gate_saved as int + 10;
                let layer_part = if shift {
                    seq![
                        led_req(*leds, 1, Led::Button, shine(mode_color(s.stored.mode_saved), Brightness::Lower)),
                        led_req(*leds, 1, Led::Top, shine(Color::Red, Brightness::Custom((s.stored.att_saved / 16) as u8))),
                        if s.timer as int % m + 200 < m {
                            led_req(*leds, 0, Led::Top, shine(Color::Red, Brightness::Low))
                        } else {
                            led_req(*leds, 0, Led::Top, LedMsg::Reset)
                        },
                    ]
                } else {
                    seq![led_req(*leds, 0, Led::Button, shine(curve_color(s.stored.curve_saved[0]), Brightness::Lower))]
                        + (if out == 0 { seq![led_req(*leds, 0, Led::Top, LedMsg::Reset)] } else { Seq::empty() })
                        + seq![led_req(*leds, 1, Led::Button, shine(curve_color(s.stored.curve_saved[1]), Brightness::Lower))]
                        + (if out == 0 { seq![led_req(*leds, 1, Led::Top, LedMsg::Reset)] } else { Seq::empty() })
                };
                let bottom = led_req(*leds, 0, Led::Bottom, shine(Color::Red, if s.gate_on > 0 { Brightness::Low } else { Brightness::Lower }));
                &&& r@ == seq![AdAction::Out(out)] + layer_part + seq![bottom]
                &&& *final(self) == (AdGate {
                    gate_on: if s.button_old && !pressed && shift { dec(s.gate_on) } else { s.gate_on },
                    button_old: pressed,
                    ..s
                })
            }),
    {
        let out = attenuate(envelope, self.stored.att_saved);
        let mut work: Vec<AdAction> = Vec::new();
        work.push(AdAction::Out(out));
        if shift {
            let mode = self.stored.mode_saved;
            let mc = if mode == 0 {
                Color::Yellow
            } else if mode == 1 {
                Color::Cyan
            } else {
                Color::Pink
            };
            work.push(AdAction::Led(leds.set(1, Led::Button, mc, Brightness::Lower)));
            let att = self.stored.att_saved;
            work.push(AdAction::Led(leds.set(1, Led::Top, Color::Red, Brightness::Custom((att / 16) as u8))));
            let m = self.stored.min_gate_saved as u32 + 10;
            if self.timer % m + 200 < m {
                work.push(AdAction::Led(leds.set(0, Led::Top, Color::Red, Brightness::Low)));
            } else {
                work.push(AdAction::Led(leds.unset(0, Led::Top)));
            }
        } else {
            work.push(AdAction::Led(leds.set(0, Led::Button, color_of_curve(self.stored.curve_saved[0]), Brightness::Lower)));
            if out == 0 {
                work.push(AdAction::Led(leds.unset(0, Led::Top)));
            }
            work.push(AdAction::Led(leds.set(1, Led::Button, color_of_curve(self.stored.curve_saved[1]), Brightness::Lower)));
            if out == 0 {
                work.push(AdAction::Led(leds.unset(1, Led::Top)));
            }
        }
        let b = if self.gate_on > 0 {
            Brightness::Low
        } else {
            Brightness::Lower
        };
        work.push(AdAction::Led(leds.set(0, Led::Bottom, Color::Red, b)));
        if self.button_old && !pressed && shift {
            self.gate_on = Self::drop_one(self.gate_on);
        }
        self.button_old = pressed;
        proof {
            let s = *old(self);
            let o = ((envelope as int * s.stored.att_saved as int) / 4095) as u16;
            let m = s.stored.min_gate_saved as int + 10;
            let layer_part = if shift {
                seq![
                    led_req(*leds, 1, Led::Button, shine(mode_color(s.stored.mode_saved), Brightness::Lower)),
                    led_req(*leds, 1, Led::Top, shine(Color::Red, Brightness::Custom((s.stored.att_saved / 16) as u8))),
                    if s.timer as int % m + 200 < m {
                        led_req(*leds, 0, Led::Top, shine(Color::Red, Brightness::Low))
                    } else {
                        led_req(*leds, 0, Led::Top, LedMsg::Reset)
                    },
                ]
            } else {
                seq![led_req(*leds, 0, Led::Button, shine(curve_color(s.stored.curve_saved[0]), Brightness::Lower))]
                    + (if o == 0 { seq![led_req(*leds, 0, Led::Top, LedMsg::Reset)] } else { Seq::empty() })
                    + seq![led_req(*leds, 1, Led::Button, shine(curve_color(s.stored.curve_saved[1]), Brightness::Lower))]
                    + (if o == 0 { seq![led_req(*leds, 1, Led::Top, LedMsg::Reset)] } else { Seq::empty() })
            };
            let bottom = led_req(*leds, 0, Led::Bottom, shine(Color::Red, if s.gate_on > 0 { Brightness::Low } else { Brightness::Lower }));
            assert(work@ =~= seq![AdAction::Out(o)] + layer_part + seq![bottom]);
        }
        work
    }

    /// A button went down (`chan`, with shift or not): alone it steps that
    /// channel's curve (saved); with shift the second steps the mode
    /// (saved) and the first opens a gate. Returns whether to save.
    pub fn on_button_down(&mut self, chan: usize, shift: bool) -> (save: bool)
        requires
            old(self).wf(),
            chan < 2,
        ensures
            final(self).wf(),
            !shift ==> save && final(self).stored.curve_saved@ == old(self).stored.curve_saved@.update(
                chan as int,
                next_curve(old(self).stored.curve_saved[chan as int]),
            ) && *final(self) == (AdGate { stored: Storage { curve_saved: final(self).stored.curve_saved, ..old(self).stored }, ..*old(self) }),
            shift && chan == 1 ==> save && *final(self) == (AdGate {
                stored: Storage { mode_saved: ((old(self).stored.mode_saved + 1) % 3) as u8, ..old(self).stored },
                ..*old(self)
            }),
            shift && chan == 0 ==> !save && *final(self) == (AdGate { gate_on: inc(old(self).gate_on), ..*old(self) }),
    {
        if !shift {
            let c = self.stored.curve_saved[chan];
            let n = match c {
                Curve::Linear => Curve::Exponential,
                Curve::Exponential => Curve::Logarithmic,
                Curve::Logarithmic => Curve::Linear,
            };
            self.stored.curve_saved[chan] = n;
            true
        } else if chan == 1 {
            self.stored.mode_saved = (self.stored.mode_saved + 1) % 3;
            true
        } else {
            self.gate_on = Self::bump(self.gate_on);
            false
        }
    }

    /// A MIDI note on opens a gate, a note off closes one.
    pub fn on_midi_note(&mut self, on: bool)
        requires
            old(self).wf(),
        ensures
            final(self).wf(),
            *final(self) == (AdGate { gate_on: if on { inc(old(self).gate_on) } else { dec(old(self).gate_on) }, ..*old(self) }),
    {
        if on {
            self.gate_on = Self::bump(self.gate_on);
        } else {
            self.gate_on = Self::drop_one(self.gate_on);
        }
    }

    /// Where fader `chan`'s latch picks up: its time, or on the shift layer
    /// the shortest gate (first) or the level (second).
    pub fn latch_target(&self, chan: usize, layer: LatchLayer) -> (r: u16)
        requires
            chan < 2,
        ensures
            r == if layer == LatchLayer::Alt {
                if chan == 0 { self.stored.min_gate_saved } else { self.stored.att_saved }
            } else {
                self.stored.fader_saved[chan as int]
            },
    {
        if layer == LatchLayer::Alt {
            if chan == 0 {
                self.stored.min_gate_saved
            } else {
                self.stored.att_saved
            }
        } else {
            self.stored.fader_saved[chan]
        }
    }

    /// Fader `chan` gave the latch's value `v` (12-bit) on `layer`: its time
    /// (whose length the envelope recomputes), or the shortest gate or the
    /// level; each saved.
    pub fn on_fader(&mut self, chan: usize, layer: LatchLayer, v: u16)
        requires
            old(self).wf(),
            chan < 2,
            v <= 4095,
        ensures
            final(self).wf(),
            layer == LatchLayer::Alt && chan == 0 ==> *final(self) == (AdGate { stored: Storage { min_gate_saved: v, ..old(self).stored }, ..*old(self) }),
            layer == LatchLayer::Alt && chan == 1 ==> *final(self) == (AdGate { stored: Storage { att_saved: v, ..old(self).stored }, ..*old(self) }),
            layer != LatchLayer::Alt ==> final(self).stored.fader_saved@ == old(self).stored.fader_saved@.update(chan as int, v)
                && *final(self) == (AdGate { stored: Storage { fader_saved: final(self).stored.fader_saved, ..old(self).stored }, ..*old(self) }),
    {
        if layer == LatchLayer::Alt {
            if chan == 0 {
                self.stored.min_gate_saved = v;
            } else {
                self.stored.att_saved = v;
            }
        } else {
            self.stored.fader_saved[chan] = v;
        }
    }
}

impl AdGate {
    /// A scene's storage arrived: it replaces the stored values and the
    /// buttons show its curves (the envelope recomputes its times).
    pub fn on_scene_load(&mut self, leds: &Leds<2>, stored: Storage) -> (r: Vec<AdAction>)
        requires
            old(self).wf(),
            stored.mode_saved <= 2 && stored.att_saved <= 4095 && stored.min_gate_saved <= 4095,
            stored.fader_saved[0] <= 4095 && stored.fader_saved[1] <= 4095,
            leds.start_channel + 2 <= usize::MAX,
        ensures
            final(self).wf(),
            *final(self) == (AdGate { stored: stored, ..*old(self) }),
            r@ == seq![
                led_req(*leds, 0, Led::Button, shine(curve_color(stored.curve_saved[0]), Brightness::Lower)),
                led_req(*leds, 1, Led::Button, shine(curve_color(stored.curve_saved[1]), Brightness::Lower)),
            ],
    {
        self.stored = stored;
        let mut out: Vec<AdAction> = Vec::new();
        out.push(AdAction::Led(leds.set(0, Led::Button, color_of_curve(stored.curve_saved[0]), Brightness::Lower)));
        out.push(AdAction::Led(leds.set(1, Led::Button, color_of_curve(stored.curve_saved[1]), Brightness::Lower)));
        out
    }
}

/// The count of open gates never goes below zero, whatever arrives.
pub proof fn law_gate_count_not_negative(s: AdGate, input: u16)
    requires
        s.wf(),
    ensures
        gate_step(s, input).gate_on >= 0,
        dec(s.gate_on) >= 0,
        inc(s.gate_on) >= 0,
{
}

} // verus!
