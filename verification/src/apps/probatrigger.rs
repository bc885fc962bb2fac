//! Probability trigger: on each step a gate (and MIDI note) fires with a
//! chance set by the fader.

use vstd::prelude::*;

use crate::storage::AppStorage;
use crate::app::{LedRequest, Leds};
use crate::config::Curve;
use crate::tables::{curve_at, curve_value};
use crate::types::{Brightness, Color, LatchLayer, Led, LedMode, LedMsg};

verus! {

/// Clock ticks per step, chosen by the shift fader in steps of 345.
pub const RESOLUTION: [u32; 12] = [384, 184, 92, 48, 24, 16, 12, 8, 6, 4, 3, 2];
/// Brightness of the lit LEDs.
pub const LED_BRIGHTNESS: Brightness = Brightness::Lower;

/// What the trigger keeps: the resolution fader, mute and the chance.
#[derive(Clone, Copy, Debug, PartialEq, Eq, Structural)]
pub struct Storage {
    pub fader_saved: u16,
    pub mute_saved: bool,
    pub prob_saved: u16,
}

impl Default for Storage {
    /// Resolution 3000, playing, a certain trigger.
    fn default() -> (r: Self)
        ensures
            r == (Storage { fader_saved: 3000, mute_saved: false, prob_saved: 4096 }),
    {
        Storage { fader_saved: 3000, mute_saved: false, prob_saved: 4096 }
    }
}

impl AppStorage for Storage {}

/// Work for the device: the MIDI note, its gate jack, LEDs.
#[derive(Clone, Copy, Debug, PartialEq, Eq)]
pub enum ProbaAction {
    NoteOn(u8),
    NoteOff(u8),
    GateHigh,
    GateLow,
    Led(LedRequest),
}

/// A running trigger: note, gate length (percent), color, storage, mute,
/// division, tick counter, the roll for the next step, whether a note sounds.
#[derive(Clone, Copy)]
pub struct ProbaTrigger {
    pub note: u8,
    pub gatel: u32,
    pub led_color: Color,
    pub stored: Storage,
    pub muted: bool,
    pub div: u32,
    pub clkn: u32,
    pub rndval: u16,
    pub note_on: bool,
}

/// The division of a resolution fader position (at most 4095).
pub open spec fn div_of(res: u16) -> u32 {
    RESOLUTION[res as int / 345]
}

/// The request for `led` of the app's channel.
pub open spec fn led_req(leds: Leds<1>, led: Led, msg: LedMsg) -> ProbaAction {
    ProbaAction::Led((leds.device_channel(0) as usize, led, msg))
}

/// The static light `color` at `b`.
pub open spec fn shine(color: Color, b: Brightness) -> LedMsg {
    LedMsg::SetMode(LedMode::Static(color, b))
}

/// The tick within a step where gates close: its gate percentage of the
/// step, at least one tick and at most one short of the step.
pub open spec fn gate_tick(div: u32, gatel: u32) -> int {
    let g = div as int * gatel as int / 100;
    if g < 1 {
        1
    } else if g > div - 1 {
        div - 1
    } else {
        g
    }
}

/// One clock tick on `layer` with a fresh roll: on a step the trigger fires
/// (gate high, top LED, note) when the chance through the logarithmic
/// curve is at least the step's roll and it is not muted; the bottom LED
/// shows red on the shift layer, dark otherwise; the roll is renewed. At
/// gate tick a sounding note ends (note off, top LED dark, gate low) and
/// the bottom LED dims. The counter advances (wrapping at 32 bits).
pub open spec fn tick_spec(s: ProbaTrigger, leds: Leds<1>, layer: LatchLayer, roll: u16) -> (ProbaTrigger, Seq<ProbaAction>) {
    let (s1, a) = if s.clkn % s.div == 0 {
        let fire = curve_value(Curve::Logarithmic, s.stored.prob_saved) >= s.rndval && !s.muted;
        let f = if fire {
            seq![ProbaAction::GateHigh, led_req(leds, Led::Top, shine(s.led_color, LED_BRIGHTNESS)), ProbaAction::NoteOn(s.note)]
        } else {
            Seq::empty()
        };
        let b = if layer == LatchLayer::Alt {
            seq![led_req(leds, Led::Bottom, shine(Color::Red, LED_BRIGHTNESS))]
        } else {
            seq![led_req(leds, Led::Bottom, LedMsg::Reset)]
        };
        (ProbaTrigger { note_on: s.note_on || fire, rndval: roll, ..s }, f + b)
    } else {
        (s, Seq::empty())
    };
    let (s2, c) = if s1.clkn % s1.div == gate_tick(s1.div, s1.gatel) {
        let off = if s1.note_on {
            seq![ProbaAction::NoteOff(s1.note), led_req(leds, Led::Top, shine(s1.led_color, Brightness::Custom(0))), ProbaAction::GateLow]
        } else {
            Seq::empty()
        };
        (ProbaTrigger { note_on: false, ..s1 }, off + seq![led_req(leds, Led::Bottom, shine(s1.led_color, Brightness::Custom(0)))])
    } else {
        (s1, Seq::empty())
    };
    (ProbaTrigger { clkn: ((s2.clkn + 1) % 0x1_0000_0000) as u32, ..s2 }, a + c)
}

/// The lights of a mute state: muted darkens button, top and bottom;
/// playing lights the button.
pub open spec fn mute_lights(leds: Leds<1>, muted: bool, color: Color) -> Seq<ProbaAction> {
    if muted {
        seq![led_req(leds, Led::Button, LedMsg::Reset), led_req(leds, Led::Top, LedMsg::Reset), led_req(leds, Led::Bottom, LedMsg::Reset)]
    } else {
        seq![led_req(leds, Led::Button, shine(color, LED_BRIGHTNESS))]
    }
}

impl ProbaTrigger {
    /// The invariant: note and gate length in range, storage in range, a
    /// division from the table.
    pub open spec fn wf(&self) -> bool {
        &&& self.note <= 127
        &&& 1 <= self.gatel <= 100
        &&& self.stored.fader_saved <= 4095
        &&& 2 <= self.div <= 384
    }

    /// The trigger as `run` starts it from its note (1 to 128, naming MIDI
    /// notes 0 to 127), gate length (1 to 100), color, storage (resolution
    /// fader at most 4095) and a first roll: mute and division from storage.
    pub fn new(leds: &Leds<1>, note: u8, gatel: u8, led_color: Color, stored: Storage, roll: u16) -> (r: (Self, Vec<ProbaAction>))
        requires
            1 <= note <= 128,
            1 <= gatel <= 100,
            stored.fader_saved <= 4095,
            leds.start_channel + 1 <= usize::MAX,
        ensures
            r.0.wf(),
            r.0 == (ProbaTrigger {
                note: (note - 1) as u8,
                gatel: gatel as u32,
                led_color: led_color,
                stored: stored,
                muted: stored.mute_saved,
                div: div_of(stored.fader_saved),
                clkn: 0,
                rndval: roll,
                note_on: false,
            }),
            r.1@ == mute_lights(*leds, stored.mute_saved, led_color),
    {
        let res = RESOLUTION;
        let p = ProbaTrigger {
            note: note - 1,
            gatel: gatel as u32,
            led_color,
            stored,
            muted: stored.mute_saved,
            div: res[(stored.fader_saved / 345) as usize],
            clkn: 0,
            rndval: roll,
            note_on: false,
        };
        (p, Self::lights(leds, stored.mute_saved, led_color))
    }

    fn lights(leds: &Leds<1>, muted: bool, color: Color) -> (r: Vec<ProbaAction>)
        requires
            leds.start_channel + 1 <= usize::MAX,
        ensures
            r@ == mute_lights(*leds, muted, color),
    {
        let mut out: Vec<ProbaAction> = Vec::new();
        if muted {
            out.push(ProbaAction::Led(leds.unset(0, Led::Button)));
            out.push(ProbaAction::Led(leds.unset(0, Led::Top)));
            out.push(ProbaAction::Led(leds.unset(0, Led::Bottom)));
        } else {
            out.push(ProbaAction::Led(leds.set(0, Led::Button, color, LED_BRIGHTNESS)));
        }
        out
    }

    /// One clock tick on `layer`, with a roll of the die for the next step:
    /// see `tick_spec`.
    pub fn on_tick(&mut self, leds: &Leds<1>, layer: LatchLayer, roll: u16) -> (r: Vec<ProbaAction>)
        requires
            old(self).wf(),
            leds.start_channel + 1 <= usize::MAX,
        ensures
            final(self).wf(),
            (*final(self), r@) == tick_spec(*old(self), *leds, layer, roll),
    {
        let mut out: Vec<ProbaAction> = Vec::new();
        if self.clkn % self.div == 0 {
            let chance = curve_at(Curve::Logarithmic, self.stored.prob_saved);
            if chance >= self.rndval && !self.muted {
                out.push(ProbaAction::GateHigh);
                out.push(ProbaAction::Led(leds.set(0, Led::Top, self.led_color, LED_BRIGHTNESS)));
                out.push(ProbaAction::NoteOn(self.note));
                self.note_on = true;
            }
            if layer == LatchLayer::Alt {
                out.push(ProbaAction::Led(leds.set(0, Led::Bottom, Color::Red, LED_BRIGHTNESS)));
            } else {
                out.push(ProbaAction::Led(leds.unset(0, Led::Bottom)));
            }
            self.rndval = roll;
        }
        let ghost a = out@;
        assert(self.div * self.gatel <= 384 * 100) by (nonlinear_arith)
            requires
                self.div <= 384 && self.gatel <= 100,
        ;
        let g0 = self.div * self.gatel / 100;
        let g = if g0 < 1 {
            1
        } else if g0 > self.div - 1 {
            self.div - 1
        } else {
            g0
        };
        if self.clkn % self.div == g {
            if self.note_on {
                out.push(ProbaAction::NoteOff(self.note));
                out.push(ProbaAction::Led(leds.set(0, Led::Top, self.led_color, Brightness::Custom(0))));
                self.note_on = false;
                out.push(ProbaAction::GateLow);
            }
            out.push(ProbaAction::Led(leds.set(0, Led::Bottom, self.led_color, Brightness::Custom(0))));
        }
        self.clkn = self.clkn.wrapping_add(1);
        proof {
            let t = tick_spec(*old(self), *leds, layer, roll);
            assert(a =~= Seq::<ProbaAction>::empty() + a);
            assert(out@ =~= a + out@.skip(a.len() as int));
        }
        out
    }

    /// Clock reset: the count restarts, the note stops, its gate falls.
    pub fn on_reset(&mut self) -> (r: Vec<ProbaAction>)
        ensures
            *final(self) == (ProbaTrigger { clkn: 0, note_on: false, ..*old(self) }),
            r@ == seq![ProbaAction::NoteOff(old(self).note), ProbaAction::GateLow],
            old(self).wf() ==> final(self).wf(),
    {
        self.clkn = 0;
        self.note_on = false;
        let mut out: Vec<ProbaAction> = Vec::new();
        out.push(ProbaAction::NoteOff(self.note));
        out.push(ProbaAction::GateLow);
        out
    }

    /// Any button press toggles mute (saved): muting drops its gate and
    /// darkens the LEDs, unmuting lights the button.
    pub fn on_button_down(&mut self, leds: &Leds<1>) -> (r: Vec<ProbaAction>)
        requires
            leds.start_channel + 1 <= usize::MAX,
        ensures
            *final(self) == (ProbaTrigger {
                muted: !old(self).muted,
                stored: Storage { mute_saved: !old(self).muted, ..old(self).stored },
                ..*old(self)
            }),
            r@ == if !old(self).muted {
                seq![
                    ProbaAction::GateLow,
                    led_req(*leds, Led::Top, LedMsg::Reset),
                    led_req(*leds, Led::Bottom, LedMsg::Reset),
                    led_req(*leds, Led::Button, LedMsg::Reset),
                ]
            } else {
                seq![led_req(*leds, Led::Button, shine(old(self).led_color, LED_BRIGHTNESS))]
            },
            old(self).wf() ==> final(self).wf(),
    {
        let muted = !self.muted;
        self.muted = muted;
        self.stored.mute_saved = muted;
        let mut out: Vec<ProbaAction> = Vec::new();
        if muted {
            out.push(ProbaAction::GateLow);
            let resets = leds.unset_all();
            assert(resets@[3 * 0int + 0int].1 == Led::Top);
            assert(resets@[3 * 0int + 1int].1 == Led::Bottom);
            assert(resets@[3 * 0int + 2int].1 == Led::Button);
            out.push(ProbaAction::Led(resets[0]));
            out.push(ProbaAction::Led(resets[1]));
            out.push(ProbaAction::Led(resets[2]));
        } else {
            out.push(ProbaAction::Led(leds.set(0, Led::Button, self.led_color, LED_BRIGHTNESS)));
        }
        out
    }

    /// Where the fader's latch picks up on `layer`: the stored chance, or
    /// on the shift layer the stored resolution.
    pub fn latch_target(&self, layer: LatchLayer) -> (r: u16)
        ensures
            r == if layer == LatchLayer::Alt { self.stored.fader_saved } else { self.stored.prob_saved },
    {
        if layer == LatchLayer::Alt {
            self.stored.fader_saved
        } else {
            self.stored.prob_saved
        }
    }

    /// The fader gave the latch's value `v` (12-bit) on `layer`: the shift
    /// layer sets the resolution, the others the chance; each is saved.
    pub fn on_fader(&mut self, layer: LatchLayer, v: u16)
        requires
            old(self).wf(),
            v <= 4095,
        ensures
            final(self).wf(),
            layer == LatchLayer::Alt ==> *final(self) == (ProbaTrigger {
                div: div_of(v),
                stored: Storage { fader_saved: v, ..old(self).stored },
                ..*old(self)
            }),
            layer != LatchLayer::Alt ==> *final(self) == (ProbaTrigger {
                stored: Storage { prob_saved: v, ..old(self).stored },
                ..*old(self)
            }),
    {
        if layer == LatchLayer::Alt {
            let res = RESOLUTION;
            self.div = res[(v / 345) as usize];
            self.stored.fader_saved = v;
        } else {
            self.stored.prob_saved = v;
        }
    }

    /// A scene was loaded (resolution at most 4095): the trigger takes its
    /// storage, mute and division; muted it drops its gate and darkens the
    /// LEDs, else it lights the button.
    pub fn on_scene_load(&mut self, leds: &Leds<1>, stored: Storage) -> (r: Vec<ProbaAction>)
        requires
            old(self).wf(),
            stored.fader_saved <= 4095,
            leds.start_channel + 1 <= usize::MAX,
        ensures
            final(self).wf(),
            *final(self) == (ProbaTrigger { stored: stored, muted: stored.mute_saved, div: div_of(stored.fader_saved), ..*old(self) }),
            r@ == if stored.mute_saved {
                seq![
                    led_req(*leds, Led::Button, LedMsg::Reset),
                    ProbaAction::GateLow,
                    led_req(*leds, Led::Top, LedMsg::Reset),
                    led_req(*leds, Led::Bottom, LedMsg::Reset),
                ]
            } else {
                seq![led_req(*leds, Led::Button, shine(old(self).led_color, LED_BRIGHTNESS))]
            },
    {
        self.stored = stored;
        self.muted = stored.mute_saved;
        let res = RESOLUTION;
        self.div = res[(stored.fader_saved / 345) as usize];
        let mut out: Vec<ProbaAction> = Vec::new();
        if stored.mute_saved {
            out.push(ProbaAction::Led(leds.unset(0, Led::Button)));
            out.push(ProbaAction::GateLow);
            out.push(ProbaAction::Led(leds.unset(0, Led::Top)));
            out.push(ProbaAction::Led(leds.unset(0, Led::Bottom)));
        } else {
            out.push(ProbaAction::Led(leds.set(0, Led::Button, self.led_color, LED_BRIGHTNESS)));
        }
        out
    }
}

/// A muted trigger never raises its gate or starts a note.
pub proof fn law_muted_never_fires(s: ProbaTrigger, leds: Leds<1>, layer: LatchLayer, roll: u16)
    requires
        s.muted,
    ensures
        forall|i: int| 0 <= i < tick_spec(s, leds, layer, roll).1.len() ==> {
            let a = #[trigger] tick_spec(s, leds, layer, roll).1[i];
            a != ProbaAction::GateHigh && !(a is NoteOn)
        },
{
    let t = tick_spec(s, leds, layer, roll);
    assert forall|i: int| 0 <= i < t.1.len() implies t.1[i] != ProbaAction::GateHigh && !(t.1[i] is NoteOn) by {
        if s.clkn % s.div == 0 {
            let b = if layer == LatchLayer::Alt {
                seq![led_req(leds, Led::Bottom, shine(Color::Red, LED_BRIGHTNESS))]
            } else {
                seq![led_req(leds, Led::Bottom, LedMsg::Reset)]
            };
            assert(Seq::<ProbaAction>::empty() + b =~= b);
        }
    }
}

} // verus!
