//! Note fader: the fader picks a note, played by the button or on the clock.

use vstd::prelude::*;

use crate::storage::AppStorage;
use crate::app::{LedRequest, Leds};
use crate::types::{Brightness, Color, LatchLayer, Led, LedMode, LedMsg};

verus! {

/// Clock ticks per step, chosen by the shift fader in steps of 345.
pub const RESOLUTION: [u32; 12] = [368, 184, 92, 48, 24, 16, 12, 8, 6, 4, 3, 2];
/// Brightness of the lit LEDs.
pub const LED_BRIGHTNESS: Brightness = Brightness::Lower;

/// What the note fader keeps: the note fader, the resolution fader, mute
/// and whether it plays on the clock.
#[derive(Clone, Copy, Debug, PartialEq, Eq, Structural)]
pub struct Storage {
    pub note_saved: u16,
    pub fader_saved: u16,
    pub mute_saved: bool,
    pub clocked: bool,
}

impl Default for Storage {
    /// Note fader at 0, resolution 3000, playing, played by hand.
    fn default() -> (r: Self)
        ensures
            r == (Storage { note_saved: 0, fader_saved: 3000, mute_saved: false, clocked: false }),
    {
        Storage { note_saved: 0, fader_saved: 3000, mute_saved: false, clocked: false }
    }
}

impl AppStorage for Storage {}

/// Whether the stored faders are within their 12-bit range.
pub open spec fn storage_ok(st: Storage) -> bool {
    st.note_saved <= 4095 && st.fader_saved <= 4095
}

/// Work for the device: the pitch jack, MIDI notes, LEDs.
#[derive(Clone, Copy, Debug, PartialEq, Eq)]
pub enum NoteAction {
    Out(u16),
    NoteOn(u8),
    NoteOff(u8),
    Led(LedRequest),
}

/// Which handler waits for the quantizer.
#[derive(Clone, Copy, Debug, PartialEq, Eq, Structural)]
pub enum Trigger {
    Clock,
    Button,
}

/// A running note fader: base note, span, gate length, color, storage,
/// mute, clocked mode, division, tick counter; the clock's note and
/// whether it sounds, the button's note and whether it is held; a trigger
/// waiting for the quantizer; whether this tick is a step; shift's last state.
#[derive(Clone, Copy)]
pub struct NoteFader {
    pub base_note: u8,
    pub span: u32,
    pub gatel: u32,
    pub led_color: Color,
    pub stored: Storage,
    pub muted: bool,
    pub clocked: bool,
    pub div: u32,
    pub clkn: u32,
    pub clock_note: u16,
    pub note_on: bool,
    pub button_note: u16,
    pub button_old: bool,
    pub pending: Option<Trigger>,
    pub step_now: bool,
    pub shift_old: bool,
}

/// The division of a resolution fader position (at most 4095).
pub open spec fn div_of(res: u16) -> u32 {
    RESOLUTION[res as int / 345]
}

/// The request for `led` of the app's channel.
pub open spec fn led_req(leds: Leds<1>, led: Led, msg: LedMsg) -> NoteAction {
    NoteAction::Led((leds.device_channel(0) as usize, led, msg))
}

/// The static light `color` at `b`.
pub open spec fn shine(color: Color, b: Brightness) -> LedMsg {
    LedMsg::SetMode(LedMode::Static(color, b))
}

/// The value handed to the quantizer: the note fader scaled by the span.
pub open spec fn note_value(note_saved: u16, span: u32) -> u16 {
    (note_saved as int * (span as int + 3) / 120) as u16
}

/// The note a quantized MIDI note plays: plus the base note.
pub open spec fn played(midi: u8, base: u8) -> u16 {
    (midi as int + base as int) as u16
}

/// The tick within a step where notes end: its gate percentage of the
/// step, at least one tick and at most one short of the step.
pub open spec fn gate_tick(div: u32, gatel: u32) -> int {
    let g = div as int * gatel as int / 100;
    if g < 1 {
        1
    } else if g > div - 1 {
        div - 1
    } else {
        g
    }
}

/// The lights of a mute state at start: muted darkens button, top and
/// bottom; playing lights the button.
pub open spec fn start_lights(leds: Leds<1>, muted: bool, color: Color) -> Seq<NoteAction> {
    if muted {
        seq![led_req(leds, Led::Button, LedMsg::Reset), led_req(leds, Led::Top, LedMsg::Reset), led_req(leds, Led::Bottom, LedMsg::Reset)]
    } else {
        seq![led_req(leds, Led::Button, shine(color, LED_BRIGHTNESS))]
    }
}

impl NoteFader {
    /// The invariant: parameters, storage and division in range.
    pub open spec fn wf(&self) -> bool {
        &&& self.base_note <= 128
        &&& 1 <= self.span <= 120
        &&& 1 <= self.gatel <= 100
        &&& storage_ok(self.stored)
        &&& 2 <= self.div <= 368
    }

    /// The note fader as `run` starts it from its base note (1 to 128), span
    /// (1 to 120), gate length (1 to 100), color and storage.
    pub fn new(leds: &Leds<1>, base_note: u8, span: u8, gatel: u8, led_color: Color, stored: Storage) -> (r: (Self, Vec<NoteAction>))
        requires
            1 <= base_note <= 128,
            1 <= span <= 120,
            1 <= gatel <= 100,
            storage_ok(stored),
            leds.start_channel + 1 <= usize::MAX,
        ensures
            r.0.wf(),
            r.0 == (NoteFader {
                base_note: base_note,
                span: span as u32,
                gatel: gatel as u32,
                led_color: led_color,
                stored: stored,
                muted: stored.mute_saved,
                clocked: stored.clocked,
                div: div_of(stored.fader_saved),
                clkn: 0,
                clock_note: 0,
                note_on: false,
                button_note: 62,
                button_old: false,
                pending: None,
                step_now: false,
                shift_old: false,
            }),
            r.1@ == start_lights(*leds, stored.mute_saved, led_color),
    {
        let res = RESOLUTION;
        let n = NoteFader {
            base_note,
            span: span as u32,
            gatel: gatel as u32,
            led_color,
            stored,
            muted: stored.mute_saved,
            clocked: stored.clocked,
            div: res[(stored.fader_saved / 345) as usize],
            clkn: 0,
            clock_note: 0,
            note_on: false,
            button_note: 62,
            button_old: false,
            pending: None,
            step_now: false,
            shift_old: false,
        };
        let mut out: Vec<NoteAction> = Vec::new();
        if stored.mute_saved {
            out.push(NoteAction::Led(leds.unset(0, Led::Button)));
            out.push(NoteAction::Led(leds.unset(0, Led::Top)));
            out.push(NoteAction::Led(leds.unset(0, Led::Bottom)));
        } else {
            out.push(NoteAction::Led(leds.set(0, Led::Button, led_color, LED_BRIGHTNESS)));
        }
        (n, out)
    }

    fn request(&self) -> (r: u16)
        requires
            self.wf(),
        ensures
            r == note_value(self.stored.note_saved, self.span),
    {
        assert(self.stored.note_saved as u32 * (self.span + 3) <= 4095 * 123) by (nonlinear_arith)
            requires
                self.stored.note_saved <= 4095 && self.span <= 120,
        ;
        (self.stored.note_saved as u32 * (self.span + 3) / 120) as u16
    }

    /// The first half of a clock tick: on a step in clocked mode, unless
    /// muted, a sounding note stops, the top LED lights and the note
    /// fader's value goes to the quantizer (returned); its answer goes to
    /// `tick_end`.
    pub fn tick_start(&mut self, leds: &Leds<1>) -> (r: (Vec<NoteAction>, Option<u16>))
        requires
            old(self).wf(),
            leds.start_channel + 1 <= usize::MAX,
        ensures
            final(self).wf(),
            ({
                let s = *old(self);
                let step = s.clkn % s.div == 0 && s.clocked;
                let fire = step && !s.muted;
                &&& *final(self) == (NoteFader { step_now: step, pending: if fire { Some(Trigger::Clock) } else { None }, ..s })
                &&& r.1 == if fire { Some(note_value(s.stored.note_saved, s.span)) } else { None }
                &&& r.0@ == if fire {
                    (if s.note_on { seq![NoteAction::NoteOff(s.clock_note as u8)] } else { Seq::empty() })
                        + seq![led_req(*leds, Led::Top, shine(s.led_color, LED_BRIGHTNESS))]
                } else {
                    Seq::empty()
                }
            }),
    {
        let mut out: Vec<NoteAction> = Vec::new();
        let step = self.clkn % self.div == 0 && self.clocked;
        self.step_now = step;
        self.pending = None;
        if step && !self.muted {
            if self.note_on {
                out.push(NoteAction::NoteOff(self.clock_note as u8));
            }
            out.push(NoteAction::Led(leds.set(0, Led::Top, self.led_color, LED_BRIGHTNESS)));
            self.pending = Some(Trigger::Clock);
            let v = self.request();
            proof {
                let s = *old(self);
                assert(out@ =~= (if s.note_on { seq![NoteAction::NoteOff(s.clock_note as u8)] } else { Seq::empty() })
                    + seq![led_req(*leds, Led::Top, shine(s.led_color, LED_BRIGHTNESS))]);
            }
            (out, Some(v))
        } else {
            (out, None)
        }
    }

    /// The second half of a clock tick, with the quantizer's answer (MIDI
    /// note 0 to 127, DAC counts) and shift's state: a waiting clock
    /// trigger sets the jack, plays the note (plus the base note) and
    /// lights the button, and the note sounds; on a step the bottom LED
    /// lights red while shift is held; at gate tick a sounding note ends
    /// (top LED dark) and the bottom LED dims; the counter advances
    /// (wrapping at 32 bits).
    pub fn tick_end(&mut self, leds: &Leds<1>, quantized: Option<(u8, u16)>, shift: bool) -> (r: Vec<NoteAction>)
        requires
            old(self).wf(),
            leds.start_channel + 1 <= usize::MAX,
            quantized matches Some(q) ==> q.0 <= 127,
        ensures
            final(self).wf(),
            ({
                let s = *old(self);
                let fired = s.pending == Some(Trigger::Clock) && quantized is Some;
                let q = quantized->0;
                let s1 = if fired {
                    NoteFader { clock_note: played(q.0, s.base_note), note_on: true, pending: None, ..s }
                } else {
                    NoteFader { pending: None, ..s }
                };
                let a = (if fired {
                    seq![
                        NoteAction::Out(q.1),
                        NoteAction::NoteOn(played(q.0, s.base_note) as u8),
                        led_req(*leds, Led::Button, shine(s.led_color, LED_BRIGHTNESS)),
                    ]
                } else {
                    Seq::empty()
                }) + (if s.step_now && shift {
                    seq![led_req(*leds, Led::Bottom, shine(Color::Red, LED_BRIGHTNESS))]
                } else {
                    Seq::empty()
                });
                let gate = s.clkn % s.div == gate_tick(s.div, s.gatel);
                let b = if gate {
                    (if s1.note_on {
                        seq![NoteAction::NoteOff(s1.clock_note as u8), led_req(*leds, Led::Top, shine(s.led_color, Brightness::Custom(0)))]
                    } else {
                        Seq::empty()
                    }) + seq![led_req(*leds, Led::Bottom, shine(s.led_color, Brightness::Custom(0)))]
                } else {
                    Seq::empty()
                };
                &&& r@ == a + b
                &&& *final(self) == NoteFader {
                    clkn: ((s.clkn + 1) % 0x1_0000_0000) as u32,
                    note_on: if gate { false } else { s1.note_on },
                    ..s1
                }
            }),
    {
        let mut out: Vec<NoteAction> = Vec::new();
        match (self.pending, quantized) {
            (Some(Trigger::Clock), Some(q)) => {
                let note = q.0 as u16 + self.base_note as u16;
                out.push(NoteAction::Out(q.1));
                out.push(NoteAction::NoteOn(note as u8));
                out.push(NoteAction::Led(leds.set(0, Led::Button, self.led_color, LED_BRIGHTNESS)));
                self.clock_note = note;
                self.note_on = true;
            },
            _ => {},
        }
        self.pending = None;
        if self.step_now && shift {
            out.push(NoteAction::Led(leds.set(0, Led::Bottom, Color::Red, LED_BRIGHTNESS)));
        }
        let ghost a = out@;
        assert(self.div * self.gatel <= 368 * 100) by (nonlinear_arith)
            requires
                self.div <= 368 && self.gatel <= 100,
        ;
        let g0 = self.div * self.gatel / 100;
        let g = if g0 < 1 {
            1
        } else if g0 > self.div - 1 {
            self.div - 1
        } else {
            g0
        };
        if self.clkn % self.div == g {
            if self.note_on {
                out.push(NoteAction::NoteOff(self.clock_note as u8));
                out.push(NoteAction::Led(leds.set(0, Led::Top, self.led_color, Brightness::Custom(0))));
                self.note_on = false;
            }
            out.push(NoteAction::Led(leds.set(0, Led::Bottom, self.led_color, Brightness::Custom(0))));
        }
        self.clkn = self.clkn.wrapping_add(1);
        proof {
            assert(out@ =~= a + out@.skip(a.len() as int));
        }
        out
    }

    /// Clock reset: the count restarts and the clock's note stops.
    pub fn on_reset(&mut self) -> (r: NoteAction)
        ensures
            *final(self) == (NoteFader { clkn: 0, note_on: false, ..*old(self) }),
            r == NoteAction::NoteOff(old(self).clock_note as u8),
            old(self).wf() ==> final(self).wf(),
    {
        self.clkn = 0;
        self.note_on = false;
        NoteAction::NoteOff(self.clock_note as u8)
    }

    /// The button went down: alone it toggles mute (saved; muting darkens
    /// all LEDs, unmuting lights the button); with shift it toggles clocked
    /// mode (saved).
    pub fn on_button_down(&mut self, leds: &Leds<1>, shift: bool) -> (r: Vec<NoteAction>)
        requires
            leds.start_channel + 1 <= usize::MAX,
        ensures
            !shift ==> *final(self) == (NoteFader {
                muted: !old(self).muted,
                stored: Storage { mute_saved: !old(self).muted, ..old(self).stored },
                ..*old(self)
            }) && r@ == if !old(self).muted {
                seq![led_req(*leds, Led::Top, LedMsg::Reset), led_req(*leds, Led::Bottom, LedMsg::Reset), led_req(*leds, Led::Button, LedMsg::Reset)]
            } else {
                seq![led_req(*leds, Led::Button, shine(old(self).led_color, LED_BRIGHTNESS))]
            },
            shift ==> *final(self) == (NoteFader {
                clocked: !old(self).clocked,
                stored: Storage { clocked: !old(self).clocked, ..old(self).stored },
                ..*old(self)
            }) && r@.len() == 0,
            old(self).wf() ==> final(self).wf(),
    {
        let mut out: Vec<NoteAction> = Vec::new();
        if !shift {
            let muted = !self.muted;
            self.muted = muted;
            self.stored.mute_saved = muted;
            if muted {
                let resets = leds.unset_all();
                assert(resets@[3 * 0int + 0int].1 == Led::Top);
                assert(resets@[3 * 0int + 1int].1 == Led::Bottom);
                assert(resets@[3 * 0int + 2int].1 == Led::Button);
                out.push(NoteAction::Led(resets[0]));
                out.push(NoteAction::Led(resets[1]));
                out.push(NoteAction::Led(resets[2]));
            } else {
                out.push(NoteAction::Led(leds.set(0, Led::Button, self.led_color, LED_BRIGHTNESS)));
            }
        } else {
            let mode = !self.clocked;
            self.clocked = mode;
            self.stored.clocked = mode;
        }
        out
    }

    /// Where the fader's latch picks up on `layer`: the stored note, or on
    /// the shift layer the stored resolution.
    pub fn latch_target(&self, layer: LatchLayer) -> (r: u16)
        ensures
            r == if layer == LatchLayer::Alt { self.stored.fader_saved } else { self.stored.note_saved },
    {
        if layer == LatchLayer::Alt {
            self.stored.fader_saved
        } else {
            self.stored.note_saved
        }
    }

    /// The fader gave the latch's value `v` (12-bit) on `layer`: the shift
    /// layer sets the resolution, the others the note; each is saved.
    pub fn on_fader(&mut self, layer: LatchLayer, v: u16)
        requires
            old(self).wf(),
            v <= 4095,
        ensures
            final(self).wf(),
            layer == LatchLayer::Alt ==> *final(self) == (NoteFader {
                div: div_of(v),
                stored: Storage { fader_saved: v, ..old(self).stored },
                ..*old(self)
            }),
            layer != LatchLayer::Alt ==> *final(self) == (NoteFader { stored: Storage { note_saved: v, ..old(self).stored }, ..*old(self) }),
    {
        if layer == LatchLayer::Alt {
            let res = RESOLUTION;
            self.div = res[(v / 345) as usize];
            self.stored.fader_saved = v;
        } else {
            self.stored.note_saved = v;
        }
    }

    /// The first half of a millisecond of the shift loop, with shift's and
    /// the button's state: pressing shift lights the bottom LED red (dark
    /// when not clocked); in hand mode without shift, a press triggers the
    /// note (top LED lit, the value returned for the quantizer, answer to
    /// `frame_end`) and a release stops it (top LED dark, button dimmed).
    pub fn frame_start(&mut self, leds: &Leds<1>, shift: bool, button: bool) -> (r: (Vec<NoteAction>, Option<u16>))
        requires
            old(self).wf(),
            leds.start_channel + 1 <= usize::MAX,
        ensures
            final(self).wf(),
            ({
                let s = *old(self);
                let a = if !s.shift_old && shift {
                    seq![led_req(*leds, Led::Bottom, shine(Color::Red, if s.clocked { LED_BRIGHTNESS } else { Brightness::Custom(0) }))]
                } else {
                    Seq::empty()
                };
                let shift_old = if !s.shift_old && shift { true } else if s.shift_old && !shift { false } else { s.shift_old };
                let hand = !s.clocked && !shift;
                let press = hand && !s.button_old && button;
                let release = hand && s.button_old && !button;
                &&& r.1 == if press { Some(note_value(s.stored.note_saved, s.span)) } else { None }
                &&& r.0@ == a + if press {
                    seq![led_req(*leds, Led::Top, shine(s.led_color, LED_BRIGHTNESS))]
                } else if release {
                    seq![
                        NoteAction::NoteOff(s.button_note as u8),
                        led_req(*leds, Led::Top, shine(s.led_color, Brightness::Custom(0))),
                        led_req(*leds, Led::Button, shine(s.led_color, Brightness::Lowest)),
                    ]
                } else {
                    Seq::empty()
                }
                &&& *final(self) == NoteFader {
                    shift_old: shift_old,
                    button_old: if press { true } else if release { false } else { s.button_old },
                    pending: if press { Some(Trigger::Button) } else { None },
                    ..s
                }
            }),
    {
        let mut out: Vec<NoteAction> = Vec::new();
        if !self.shift_old && shift {
            let b = if self.clocked {
                LED_BRIGHTNESS
            } else {
                Brightness::Custom(0)
            };
            out.push(NoteAction::Led(leds.set(0, Led::Bottom, Color::Red, b)));
            self.shift_old = true;
        }
        if self.shift_old && !shift {
            self.shift_old = false;
        }
        let ghost a = out@;
        self.pending = None;
        let mut request: Option<u16> = None;
        if !self.clocked && !shift {
            if !self.button_old && button {
                self.button_old = true;
                out.push(NoteAction::Led(leds.set(0, Led::Top, self.led_color, LED_BRIGHTNESS)));
                self.pending = Some(Trigger::Button);
                request = Some(self.request());
            } else if self.button_old && !button {
                self.button_old = false;
                out.push(NoteAction::NoteOff(self.button_note as u8));
                out.push(NoteAction::Led(leds.set(0, Led::Top, self.led_color, Brightness::Custom(0))));
                out.push(NoteAction::Led(leds.set(0, Led::Button, self.led_color, Brightness::Lowest)));
            }
        }
        proof {
            assert(out@ =~= a + out@.skip(a.len() as int));
        }
        (out, request)
    }

    /// The second half of a millisecond of the shift loop, with the
    /// quantizer's answer for a button trigger: the jack takes the counts,
    /// the note (plus the base note) plays and becomes the one a release
    /// stops, and the button lights.
    pub fn frame_end(&mut self, leds: &Leds<1>, quantized: Option<(u8, u16)>) -> (r: Vec<NoteAction>)
        requires
            old(self).wf(),
            leds.start_channel + 1 <= usize::MAX,
            quantized matches Some(q) ==> q.0 <= 127,
        ensures
            final(self).wf(),
            old(self).pending == Some(Trigger::Button) && quantized is Some ==> {
                let q = quantized->0;
                &&& *final(self) == (NoteFader { button_note: played(q.0, old(self).base_note), pending: None, ..*old(self) })
                &&& r@ == seq![
                    NoteAction::Out(q.1),
                    NoteAction::NoteOn(played(q.0, old(self).base_note) as u8),
                    led_req(*leds, Led::Button, shine(old(self).led_color, LED_BRIGHTNESS)),
                ]
            },
            !(old(self).pending == Some(Trigger::Button) && quantized is Some) ==> *final(self) == (NoteFader {
                pending: None,
                ..*old(self)
            }) && r@.len() == 0,
    {
        let mut out: Vec<NoteAction> = Vec::new();
        match (self.pending, quantized) {
            (Some(Trigger::Button), Some(q)) => {
                let note = q.0 as u16 + self.base_note as u16;
                out.push(NoteAction::Out(q.1));
                out.push(NoteAction::NoteOn(note as u8));
                out.push(NoteAction::Led(leds.set(0, Led::Button, self.led_color, LED_BRIGHTNESS)));
                self.button_note = note;
            },
            _ => {},
        }
        self.pending = None;
        out
    }

    /// A scene was loaded: the note fader takes its storage, clocked mode,
    /// mute and division; muted it dims the button and darkens top and
    /// bottom, else it lights the button.
    pub fn on_scene_load(&mut self, leds: &Leds<1>, stored: Storage) -> (r: Vec<NoteAction>)
        requires
            old(self).wf(),
            storage_ok(stored),
            leds.start_channel + 1 <= usize::MAX,
        ensures
            final(self).wf(),
            *final(self) == (NoteFader {
                stored: stored,
                clocked: stored.clocked,
                muted: stored.mute_saved,
                div: div_of(stored.fader_saved),
                ..*old(self)
            }),
            r@ == if stored.mute_saved {
                seq![
                    led_req(*leds, Led::Button, shine(old(self).led_color, Brightness::Lowest)),
                    led_req(*leds, Led::Top, LedMsg::Reset),
                    led_req(*leds, Led::Bottom, LedMsg::Reset),
                ]
            } else {
                seq![led_req(*leds, Led::Button, shine(old(self).led_color, LED_BRIGHTNESS))]
            },
    {
        self.stored = stored;
        self.clocked = stored.clocked;
        self.muted = stored.mute_saved;
        let res = RESOLUTION;
        self.div = res[(stored.fader_saved / 345) as usize];
        let mut out: Vec<NoteAction> = Vec::new();
        if stored.mute_saved {
            out.push(NoteAction::Led(leds.set(0, Led::Button, self.led_color, Brightness::Lowest)));
            out.push(NoteAction::Led(leds.unset(0, Led::Top)));
            out.push(NoteAction::Led(leds.unset(0, Led::Bottom)));
        } else {
            out.push(NoteAction::Led(leds.set(0, Led::Button, self.led_color, LED_BRIGHTNESS)));
        }
        out
    }
}

} // verus!
