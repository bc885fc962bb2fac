//! Euclid: Euclidean rhythms from the Bjorklund pattern table, rotated.

use vstd::prelude::*;

use crate::storage::AppStorage;
use crate::app::{LedRequest, Leds};
use crate::tables::{bjorklund_entry, bjorklund_lookup};
use crate::types::{Brightness, Color, LatchLayer, Led, LedMode, LedMsg};

verus! {

/// The low `width` bits of `value` rotated left by `rotation % width`.
pub open spec fn rotl_spec(value: u32, width: u8, rotation: u8) -> u32 {
    let r = (rotation % width) as u32;
    let w = width as u32;
    ((value << r) | (value >> ((w - r) as u32))) & (((1u32 << w) - 1) as u32)
}

/// Rotates a `width`-bit pattern left.
pub fn rotl32(value: u32, width: u8, rotation: u8) -> (r: u32)
    requires
        0 < width < 32,
    ensures
        r == rotl_spec(value, width, rotation),
{
    let rotation = rotation % width;
    let r = rotation as u32;
    let w = width as u32;
    assert((1u32 << w) >= 1) by (bit_vector)
        requires
            0 < w < 32,
    ;
    ((value << r) | (value >> (w - r))) & ((1u32 << w) - 1)
}

/// Rotating a `width`-bit pattern by its full width gives it back.
pub proof fn law_rotate_full_width(value: u32, width: u8)
    requires
        0 < width < 32,
        value < (1u32 << (width as u32)),
    ensures
        rotl_spec(value, width, width) == value,
{
    let w = width as u32;
    assert((width % width) as u32 == 0);
    assert(((value << 0u32) | (value >> ((w - 0u32) as u32))) & (((1u32 << w) - 1) as u32) == value)
        by (bit_vector)
        requires
            0 < w < 32,
            value < (1u32 << w),
    ;
}

/// Steps and beats as the table is indexed: at least 2 steps, no more beats than steps.
pub open spec fn pattern_index(num_steps: u8, num_beats: u8) -> usize {
    let steps = if num_steps < 2 {
        2
    } else {
        num_steps
    };
    let beats = if num_beats > steps {
        steps
    } else {
        num_beats
    };
    ((steps - 2) * 33 + beats) as usize
}

/// The Euclidean pattern (bit `n` set: step `n` fires), looked up in the
/// Bjorklund table (0 past its end) and rotated within `steps + padding` bits.
pub open spec fn pattern_spec(num_steps: u8, num_beats: u8, rotation: u8, padding: u8) -> u32 {
    let steps = if num_steps < 2 {
        2
    } else {
        num_steps
    };
    let base = match bjorklund_entry(pattern_index(num_steps, num_beats)) {
        Some(p) => p,
        None => 0,
    };
    if rotation > 0 {
        let width = (steps + padding) as u8;
        rotl_spec(base, width, (rotation % width) as u8)
    } else {
        base
    }
}

/// The Euclidean pattern for `num_beats` in `num_steps`, rotated.
pub fn euclidean_pattern(num_steps: u8, num_beats: u8, rotation: u8, padding: u8) -> (r: u32)
    requires
        rotation > 0 ==> (if num_steps < 2 {
            2
        } else {
            num_steps
        }) + padding < 32,
    ensures
        r == pattern_spec(num_steps, num_beats, rotation, padding),
{
    let steps = if num_steps < 2 {
        2
    } else {
        num_steps
    };
    let beats = if num_beats > steps {
        steps
    } else {
        num_beats
    };
    let index = ((steps - 2) as usize) * 33 + beats as usize;
    let mut pattern = match bjorklund_lookup(index) {
        Some(p) => p,
        None => 0,
    };
    if rotation > 0 {
        let width = steps + padding;
        let rot = rotation % width;
        pattern = rotl32(pattern, width, rot);
    }
    pattern
}

/// Whether step `pos` fires in `pattern`.
pub open spec fn fires(pattern: u32, pos: u32) -> bool {
    (pattern >> pos) & 1 == 1
}

/// Whether the Euclidean rhythm fires at clock position `clock`.
pub fn euclidean_filter(num_steps: u8, num_beats: u8, rotation: u8, clock: u32) -> (r: bool)
    requires
        0 < num_steps <= 32,
        rotation > 0 ==> (if num_steps < 2 {
            2
        } else {
            num_steps
        }) < 32,
    ensures
        r == fires(pattern_spec(num_steps, num_beats, rotation, 0), clock % (num_steps as u32)),
{
    let pattern = euclidean_pattern(num_steps, num_beats, rotation, 0);
    let pos = (clock % num_steps as u32) as u8;
    let p = pos as u32;
    let hit = (pattern & (1u32 << p)) != 0;
    assert(hit == ((pattern >> p) & 1 == 1)) by (bit_vector)
        requires
            p < 32,
            hit == ((pattern & (1u32 << p)) != 0),
    ;
    hit
}

/// Clock ticks per step, chosen by the division fader in steps of 345.
pub const RESOLUTION: [u16; 12] = [384, 184, 92, 48, 24, 16, 12, 8, 6, 4, 3, 2];
/// Brightness of the button LEDs.
pub const LED_BRIGHTNESS: Brightness = Brightness::Lower;

/// What Euclid keeps: both faders on the main and shift layers, the
/// division fader, mute and the second output's mode (on the downbeat,
/// or wherever the first is silent).
#[derive(Clone, Copy, Debug)]
pub struct Storage {
    pub fader_saved: [u16; 2],
    pub shift_fader_saved: [u16; 2],
    pub div_saved: u16,
    pub mute_saved: bool,
    pub mode: bool,
}

impl Default for Storage {
    /// Both faders at 2000, no rotation, full probability, division at
    /// 3000, playing, second output on the downbeat.
    fn default() -> (r: Self)
        ensures
            r.fader_saved[0] == 2000 && r.fader_saved[1] == 2000,
            r.shift_fader_saved[0] == 0 && r.shift_fader_saved[1] == 4095,
            r.div_saved == 3000 && !r.mute_saved && r.mode,
    {
        Storage { fader_saved: [2000; 2], shift_fader_saved: [0, 4095], div_saved: 3000, mute_saved: false, mode: true }
    }
}

impl AppStorage for Storage {}

/// Whether stored fader positions are within the faders' 12-bit range.
pub open spec fn storage_ok(st: Storage) -> bool {
    &&& st.fader_saved[0] <= 4095 && st.fader_saved[1] <= 4095
    &&& st.shift_fader_saved[0] <= 4095 && st.shift_fader_saved[1] <= 4095
    &&& st.div_saved <= 4095
}

/// Work for the device: MIDI notes (velocity full), the two gate jacks and LEDs.
#[derive(Clone, Copy, Debug, PartialEq, Eq)]
pub enum EuclidAction {
    NoteOn(u8),
    NoteOff(u8),
    GateHigh(usize),
    GateLow(usize),
    Led(LedRequest),
}

/// A running Euclid: the notes of both outputs, gate length (percent of a
/// step), color, storage, and the live pattern: steps (first fader), beats
/// (second fader, scaled to the steps), rotation (first shift fader), the
/// division, tick counter and which notes sound.
#[derive(Clone, Copy)]
pub struct Euclid {
    pub note: u8,
    pub note2: u8,
    pub gatel: u16,
    pub led_color: Color,
    pub stored: Storage,
    pub muted: bool,
    pub div: u16,
    pub num_beat: u8,
    pub num_step: u8,
    pub rotation: u8,
    pub clkn: u16,
    pub note_on: bool,
    pub aux_on: bool,
}

/// The step count of the first fader: 1 to 16 over its travel.
pub open spec fn steps_from(f: u16) -> u8 {
    (f as int * 15 / 4095 + 1) as u8
}

/// A fader position scaled to `0..=n`.
pub open spec fn scaled_to(f: u16, n: u8) -> u8 {
    (f as int * n as int / 4095) as u8
}

/// The tick within a step at which gates close: its gate percentage of the
/// step, at least one tick and at most one short of the step.
pub open spec fn gate_tick(div: u16, gatel: u16) -> int {
    let g = div as int * gatel as int / 100;
    if g < 1 {
        1
    } else if g > div - 1 {
        div - 1
    } else {
        g
    }
}

/// A roll of the die limited to 100..=3900: the probability fader at its
/// ends always or never fires.
pub open spec fn clamp_roll(roll: u16) -> u16 {
    if roll < 100 {
        100
    } else if roll > 3900 {
        3900
    } else {
        roll
    }
}

/// The request that lights `led` of `chan` in `color` at `b`.
pub open spec fn lit(leds: Leds<2>, chan: usize, led: Led, color: Color, b: Brightness) -> EuclidAction {
    EuclidAction::Led((leds.device_channel(chan) as usize, led, LedMsg::SetMode(LedMode::Static(color, b))))
}

/// The request that darkens `led` of `chan`.
pub open spec fn dark(leds: Leds<2>, chan: usize, led: Led) -> EuclidAction {
    EuclidAction::Led((leds.device_channel(chan) as usize, led, LedMsg::Reset))
}

/// Whether the first output fires on step `pos` of the pattern.
#[verifier::opaque]
pub open spec fn pattern_hit(s: Euclid, pos: u32) -> bool {
    fires(pattern_spec(s.num_beat, s.num_step, s.rotation, 0), pos % (s.num_beat as u32))
}

/// Tick, on a step (tick a multiple of the division): unless muted, the
/// first output fires where the pattern has a beat and the probability
/// fader is at least the limited roll; the second fires on the downbeat in
/// downbeat mode, otherwise wherever the first has not been sounding; on
/// the division layer the first bottom LED shows the step in red.
pub open spec fn step_phase(s: Euclid, leds: Leds<2>, layer: LatchLayer, roll: u16) -> (Euclid, Seq<EuclidAction>) {
    if s.clkn % s.div != 0 {
        (s, Seq::empty())
    } else {
        let pos = (s.clkn / s.div) as u32;
        let hit = !s.muted && pattern_hit(s, pos) && s.stored.shift_fader_saved[1] >= clamp_roll(roll);
        let note_on = s.note_on || hit;
        let aux = !s.muted && if s.stored.mode {
            (s.clkn / s.div) as int % (s.num_beat as int) == 0
        } else {
            !note_on
        };
        let first = if hit { seq![EuclidAction::NoteOn(s.note), EuclidAction::GateHigh(0)] } else { Seq::empty() };
        let second = if aux { seq![EuclidAction::GateHigh(1), EuclidAction::NoteOn(s.note2)] } else { Seq::empty() };
        let led = if layer == LatchLayer::Third {
            seq![lit(leds, 0, Led::Bottom, Color::Red, Brightness::Lower)]
        } else {
            Seq::empty()
        };
        (Euclid { note_on: note_on, aux_on: s.aux_on || aux, ..s }, first + second + led)
    }
}

/// Tick, at gate end within the step: sounding notes stop and their
/// gates fall; the first bottom LED goes dark.
pub open spec fn gate_phase(s: Euclid, leds: Leds<2>) -> (Euclid, Seq<EuclidAction>) {
    if s.clkn % s.div != gate_tick(s.div, s.gatel) {
        (s, Seq::empty())
    } else {
        let first = if s.note_on { seq![EuclidAction::NoteOff(s.note), EuclidAction::GateLow(0)] } else { Seq::empty() };
        let second = if s.aux_on { seq![EuclidAction::NoteOff(s.note2), EuclidAction::GateLow(1)] } else { Seq::empty() };
        (
            Euclid { note_on: false, aux_on: false, ..s },
            first + second + seq![lit(leds, 0, Led::Bottom, s.led_color, Brightness::Custom(0))],
        )
    }
}

/// Tick, top LEDs: on the main layer each shows whether its output sounds;
/// on the shift layer they show rotation and probability in red.
pub open spec fn top_lights(s: Euclid, leds: Leds<2>, layer: LatchLayer) -> Seq<EuclidAction> {
    match layer {
        LatchLayer::Main => seq![
            lit(leds, 0, Led::Top, s.led_color, if s.note_on { Brightness::Default } else { Brightness::Custom(0) }),
            lit(leds, 1, Led::Top, s.led_color, if s.aux_on { Brightness::Default } else { Brightness::Custom(0) }),
        ],
        LatchLayer::Alt => seq![
            lit(leds, 0, Led::Top, Color::Red, Brightness::Custom((s.stored.shift_fader_saved[0] / 16) as u8)),
            lit(leds, 1, Led::Top, Color::Red, Brightness::Custom((s.stored.shift_fader_saved[1] / 16) as u8)),
        ],
        LatchLayer::Third => Seq::empty(),
    }
}

/// One clock tick: the step, gate end, the top LEDs, and the tick
/// counter advances (wrapping at 16 bits).
pub open spec fn euclid_tick(s: Euclid, leds: Leds<2>, layer: LatchLayer, roll: u16) -> (Euclid, Seq<EuclidAction>) {
    let (s1, a) = step_phase(s, leds, layer, roll);
    let (s2, b) = gate_phase(s1, leds);
    (Euclid { clkn: ((s2.clkn + 1) % 65536) as u16, ..s2 }, a + b + top_lights(s2, leds, layer))
}

/// The button light of the second channel on the main layer: dark when muted.
pub open spec fn mute_light(leds: Leds<2>, muted: bool, led_color: Color) -> EuclidAction {
    if muted {
        dark(leds, 1, Led::Button)
    } else {
        lit(leds, 1, Led::Button, led_color, LED_BRIGHTNESS)
    }
}

/// The button light of the second channel on the shift layer: the mode.
pub open spec fn mode_light(leds: Leds<2>, mode: bool, led_color: Color) -> EuclidAction {
    lit(leds, 1, Led::Button, led_color, if mode { Brightness::Lowest } else { Brightness::Low })
}

impl Euclid {
    /// The invariant: notes, gate length, stored values and division in range,
    /// and the pattern's steps, beats and rotation as the faders give them.
    pub open spec fn wf(&self) -> bool {
        &&& self.note <= 127 && self.note2 <= 127
        &&& 1 <= self.gatel <= 100
        &&& storage_ok(self.stored)
        &&& 2 <= self.div <= 384
        &&& 1 <= self.num_beat <= 16
        &&& self.num_step <= 16
        &&& self.rotation <= 16
    }

    /// The live pattern values the stored faders give.
    pub open spec fn derived(&self) -> bool {
        &&& self.num_beat == steps_from(self.stored.fader_saved[0])
        &&& self.num_step == scaled_to(self.stored.fader_saved[1], self.num_beat)
        &&& self.rotation == scaled_to(self.stored.shift_fader_saved[0], self.num_beat)
    }

    fn derive_pattern(stored: &Storage) -> (r: (u8, u8, u8))
        requires
            storage_ok(*stored),
        ensures
            r.0 == steps_from(stored.fader_saved[0]),
            r.1 == scaled_to(stored.fader_saved[1], r.0),
            r.2 == scaled_to(stored.shift_fader_saved[0], r.0),
            1 <= r.0 <= 16 && r.1 <= 16 && r.2 <= 16,
    {
        let beat = (stored.fader_saved[0] as u32 * 15 / 4095) as u8 + 1;
        let (step, rot) = Self::scale_pair(stored.fader_saved[1], stored.shift_fader_saved[0], beat);
        (beat, step, rot)
    }

    fn scale_pair(a: u16, b: u16, n: u8) -> (r: (u8, u8))
        requires
            a <= 4095 && b <= 4095 && n <= 16,
        ensures
            r.0 == scaled_to(a, n) && r.1 == scaled_to(b, n),
            r.0 <= n && r.1 <= n,
    {
        assert(a as u32 * n as u32 <= 4095 * n as u32) by (nonlinear_arith)
            requires
                a <= 4095,
        ;
        assert(b as u32 * n as u32 <= 4095 * n as u32) by (nonlinear_arith)
            requires
                b <= 4095,
        ;
        ((a as u32 * n as u32 / 4095) as u8, (b as u32 * n as u32 / 4095) as u8)
    }

    /// Euclid as `run` starts it: notes and gate length from the parameters
    /// (notes 1 to 128 name MIDI notes 0 to 127), the pattern from the
    /// stored faders, six ticks per step; the second button shows mute,
    /// the first is lit.
    pub fn new(leds: &Leds<2>, note: u8, note2: u8, gatel: u8, led_color: Color, stored: Storage) -> (r: (Self, Vec<EuclidAction>))
        requires
            1 <= note <= 128 && 1 <= note2 <= 128,
            1 <= gatel <= 100,
            storage_ok(stored),
            leds.start_channel + 2 <= usize::MAX,
        ensures
            r.0.wf() && r.0.derived(),
            r.0.note == note - 1 && r.0.note2 == note2 - 1 && r.0.gatel == gatel,
            r.0.led_color == led_color && r.0.stored == stored,
            r.0.muted == stored.mute_saved && r.0.div == 6 && r.0.clkn == 0,
            !r.0.note_on && !r.0.aux_on,
            r.1@ == seq![
                mute_light(*leds, stored.mute_saved, led_color),
                lit(*leds, 0, Led::Button, led_color, LED_BRIGHTNESS),
            ],
    {
        let (num_beat, num_step, rotation) = Self::derive_pattern(&stored);
        let e = Euclid {
            note: note - 1,
            note2: note2 - 1,
            gatel: gatel as u16,
            led_color,
            stored,
            muted: stored.mute_saved,
            div: 6,
            num_beat,
            num_step,
            rotation,
            clkn: 0,
            note_on: false,
            aux_on: false,
        };
        let mut out: Vec<EuclidAction> = Vec::new();
        out.push(e.mute_led(leds));
        out.push(EuclidAction::Led(leds.set(0, Led::Button, led_color, LED_BRIGHTNESS)));
        (e, out)
    }

    fn mute_led(&self, leds: &Leds<2>) -> (r: EuclidAction)
        requires
            leds.start_channel + 2 <= usize::MAX,
        ensures
            r == mute_light(*leds, self.muted, self.led_color),
    {
        if self.muted {
            EuclidAction::Led(leds.unset(1, Led::Button))
        } else {
            EuclidAction::Led(leds.set(1, Led::Button, self.led_color, LED_BRIGHTNESS))
        }
    }

    fn first_fires(&self, pos: u32, roll: u16) -> (hit: bool)
        requires
            self.wf(),
        ensures
            hit == (!self.muted && pattern_hit(*self, pos) && self.stored.shift_fader_saved[1] >= clamp_roll(roll)),
    {
        if self.muted {
            return false;
        }
        let fire = euclidean_filter(self.num_beat, self.num_step, self.rotation, pos);
        proof {
            reveal(pattern_hit);
        }
        let r = if roll < 100 {
            100
        } else if roll > 3900 {
            3900
        } else {
            roll
        };
        fire && self.stored.shift_fader_saved[1] >= r
    }

    fn step(&mut self, leds: &Leds<2>, layer: LatchLayer, roll: u16, out: &mut Vec<EuclidAction>)
        requires
            old(self).wf(),
            leds.start_channel + 2 <= usize::MAX,
        ensures
            final(self).wf(),
            (*final(self), final(out)@.skip(old(out)@.len() as int)) == step_phase(*old(self), *leds, layer, roll),
            final(out)@.take(old(out)@.len() as int) == old(out)@,
            old(out)@.len() <= final(out)@.len(),
    {
        let ghost start = out@;
        if self.clkn % self.div != 0 {
            assert(out@.skip(start.len() as int) =~= Seq::<EuclidAction>::empty());
            return;
        }
        let pos = (self.clkn / self.div) as u32;
        let hit = self.first_fires(pos, roll);
        if hit {
            out.push(EuclidAction::NoteOn(self.note));
            out.push(EuclidAction::GateHigh(0));
            self.note_on = true;
        }
        let ghost mid = out@;
        let mut aux = false;
        if !self.muted {
            if self.stored.mode {
                aux = (self.clkn / self.div) % (self.num_beat as u16) == 0;
            } else {
                aux = !self.note_on;
            }
            if aux {
                out.push(EuclidAction::GateHigh(1));
                out.push(EuclidAction::NoteOn(self.note2));
                self.aux_on = true;
            }
        }
        let ghost mid2 = out@;
        if layer == LatchLayer::Third {
            out.push(EuclidAction::Led(leds.set(0, Led::Bottom, Color::Red, Brightness::Lower)));
        }
        proof {
            let first = if hit { seq![EuclidAction::NoteOn(old(self).note), EuclidAction::GateHigh(0)] } else { Seq::empty() };
            let second = if aux { seq![EuclidAction::GateHigh(1), EuclidAction::NoteOn(old(self).note2)] } else { Seq::empty() };
            assert(mid =~= start + first);
            assert(mid2 =~= start + first + second);
            let led = if layer == LatchLayer::Third {
                seq![lit(*leds, 0, Led::Bottom, Color::Red, Brightness::Lower)]
            } else {
                Seq::empty()
            };
            assert(out@ =~= start + (first + second + led));
            assert(out@.skip(start.len() as int) =~= first + second + led);
            assert(out@.take(start.len() as int) =~= start);
        }
    }

    fn gate_end(&mut self, leds: &Leds<2>, out: &mut Vec<EuclidAction>)
        requires
            old(self).wf(),
            leds.start_channel + 2 <= usize::MAX,
        ensures
            final(self).wf(),
            (*final(self), final(out)@.skip(old(out)@.len() as int)) == gate_phase(*old(self), *leds),
            final(out)@.take(old(out)@.len() as int) == old(out)@,
            old(out)@.len() <= final(out)@.len(),
    {
        let ghost start = out@;
        assert(self.div * self.gatel <= 384 * 100) by (nonlinear_arith)
            requires
                self.div <= 384 && self.gatel <= 100,
        ;
        let g0 = self.div * self.gatel / 100;
        let g = if g0 < 1 {
            1
        } else if g0 > self.div - 1 {
            self.div - 1
        } else {
            g0
        };
        if self.clkn % self.div != g {
            assert(out@.skip(start.len() as int) =~= Seq::<EuclidAction>::empty());
            return;
        }
        if self.note_on {
            out.push(EuclidAction::NoteOff(self.note));
            self.note_on = false;
            out.push(EuclidAction::GateLow(0));
        }
        let ghost mid = out@;
        if self.aux_on {
            out.push(EuclidAction::NoteOff(self.note2));
            self.aux_on = false;
            out.push(EuclidAction::GateLow(1));
        }
        let ghost mid2 = out@;
        out.push(EuclidAction::Led(leds.set(0, Led::Bottom, self.led_color, Brightness::Custom(0))));
        proof {
            let first = if old(self).note_on { seq![EuclidAction::NoteOff(old(self).note), EuclidAction::GateLow(0)] } else { Seq::empty() };
            let second = if old(self).aux_on { seq![EuclidAction::NoteOff(old(self).note2), EuclidAction::GateLow(1)] } else { Seq::empty() };
            assert(mid =~= start + first);
            assert(mid2 =~= start + first + second);
            let tail = first + second + seq![lit(*leds, 0, Led::Bottom, old(self).led_color, Brightness::Custom(0))];
            assert(out@ =~= start + tail);
            assert(out@.skip(start.len() as int) =~= tail);
            assert(out@.take(start.len() as int) =~= start);
        }
    }

    fn tops(&self, leds: &Leds<2>, layer: LatchLayer, out: &mut Vec<EuclidAction>)
        requires
            leds.start_channel + 2 <= usize::MAX,
        ensures
            final(out)@ == old(out)@ + top_lights(*self, *leds, layer),
    {
        match layer {
            LatchLayer::Main => {
                let b0 = if self.note_on { Brightness::Default } else { Brightness::Custom(0) };
                let b1 = if self.aux_on { Brightness::Default } else { Brightness::Custom(0) };
                out.push(EuclidAction::Led(leds.set(0, Led::Top, self.led_color, b0)));
                out.push(EuclidAction::Led(leds.set(1, Led::Top, self.led_color, b1)));
            },
            LatchLayer::Alt => {
                out.push(EuclidAction::Led(leds.set(0, Led::Top, Color::Red, Brightness::Custom((self.stored.shift_fader_saved[0] / 16) as u8))));
                out.push(EuclidAction::Led(leds.set(1, Led::Top, Color::Red, Brightness::Custom((self.stored.shift_fader_saved[1] / 16) as u8))));
            },
            LatchLayer::Third => {},
        }
        assert(out@ =~= old(out)@ + top_lights(*self, *leds, layer));
    }

    /// One clock tick on `layer`, with `roll` a roll of the die: see
    /// `euclid_tick`.
    pub fn on_tick(&mut self, leds: &Leds<2>, layer: LatchLayer, roll: u16) -> (r: Vec<EuclidAction>)
        requires
            old(self).wf(),
            leds.start_channel + 2 <= usize::MAX,
        ensures
            final(self).wf(),
            (*final(self), r@) == euclid_tick(*old(self), *leds, layer, roll),
    {
        let mut out: Vec<EuclidAction> = Vec::new();
        self.step(leds, layer, roll, &mut out);
        let ghost a = out@;
        assert(a.skip(0) =~= a);
        self.gate_end(leds, &mut out);
        let ghost s2 = *self;
        let ghost prev = out@;
        let ghost b = prev.skip(a.len() as int);
        assert(prev =~= prev.take(a.len() as int) + prev.skip(a.len() as int));
        self.tops(leds, layer, &mut out);
        self.clkn = self.clkn.wrapping_add(1);
        proof {
            assert(out@ =~= a + b + top_lights(s2, *leds, layer));
        }
        out
    }

    /// Clock reset: the count restarts, both notes stop, the first gate falls.
    pub fn on_reset(&mut self) -> (r: Vec<EuclidAction>)
        ensures
            *final(self) == (Euclid { clkn: 0, note_on: false, ..*old(self) }),
            r@ == seq![EuclidAction::NoteOff(old(self).note), EuclidAction::NoteOff(old(self).note2), EuclidAction::GateLow(0)],
    {
        self.clkn = 0;
        let mut out: Vec<EuclidAction> = Vec::new();
        out.push(EuclidAction::NoteOff(self.note));
        out.push(EuclidAction::NoteOff(self.note2));
        self.note_on = false;
        out.push(EuclidAction::GateLow(0));
        out
    }

    /// A button press on `chan`: the second button mutes or unmutes (saved;
    /// muting drops the first gate and darkens the second channel), with
    /// shift it toggles the second output's mode (saved; shown on the
    /// button). Returns the work and whether to save.
    pub fn on_button_down(&mut self, leds: &Leds<2>, chan: usize, shift: bool) -> (r: (Vec<EuclidAction>, bool))
        requires
            leds.start_channel + 2 <= usize::MAX,
        ensures
            chan != 1 ==> *final(self) == *old(self) && r.0@.len() == 0 && !r.1,
            chan == 1 && !shift ==> r.1 && *final(self) == muted_by_press(*old(self)) && r.0@ == if final(self).muted {
                seq![
                    EuclidAction::GateLow(0),
                    dark(*leds, 1, Led::Top),
                    dark(*leds, 1, Led::Bottom),
                    dark(*leds, 1, Led::Button),
                ]
            } else {
                seq![lit(*leds, 1, Led::Button, old(self).led_color, LED_BRIGHTNESS)]
            },
            chan == 1 && shift ==> r.1 && *final(self) == (Euclid {
                stored: Storage { mode: !old(self).stored.mode, ..old(self).stored },
                ..*old(self)
            }) && r.0@ == seq![mode_light(*leds, !old(self).stored.mode, old(self).led_color)],
    {
        let mut out: Vec<EuclidAction> = Vec::new();
        if chan != 1 {
            return (out, false);
        }
        if !shift {
            let muted = !self.muted;
            self.muted = muted;
            self.stored.mute_saved = muted;
            if muted {
                out.push(EuclidAction::GateLow(0));
                let resets = leds.unset_chan(1);
                out.push(EuclidAction::Led(resets[0]));
                out.push(EuclidAction::Led(resets[1]));
                out.push(EuclidAction::Led(resets[2]));
            } else {
                out.push(EuclidAction::Led(leds.set(1, Led::Button, self.led_color, LED_BRIGHTNESS)));
            }
        } else {
            let mode = !self.stored.mode;
            self.stored.mode = mode;
            let b = if !mode {
                Brightness::Low
            } else {
                Brightness::Lowest
            };
            out.push(EuclidAction::Led(leds.set(1, Led::Button, self.led_color, b)));
        }
        (out, true)
    }

    /// Where fader `chan`'s latch picks up on `layer`: its stored main or
    /// shift value, or on the button layer the stored division for the
    /// first fader and 0 for the second.
    pub fn latch_target(&self, chan: usize, layer: LatchLayer) -> (r: u16)
        requires
            chan < 2,
        ensures
            r == match layer {
                LatchLayer::Main => self.stored.fader_saved[chan as int],
                LatchLayer::Alt => self.stored.shift_fader_saved[chan as int],
                LatchLayer::Third => if chan == 0 { self.stored.div_saved } else { 0 },
            },
    {
        match layer {
            LatchLayer::Main => self.stored.fader_saved[chan],
            LatchLayer::Alt => self.stored.shift_fader_saved[chan],
            LatchLayer::Third => if chan == 0 {
                self.stored.div_saved
            } else {
                0
            },
        }
    }

    /// Fader `chan` gave the latch's new value `v` (12-bit) on `layer`.
    /// First fader: main sets the steps (and rescales beats and rotation),
    /// shift the rotation, the button layer the division. Second fader:
    /// main sets the beats, shift the probability, the button layer nothing.
    /// Each value is saved; returns whether to save.
    pub fn on_fader(&mut self, chan: usize, layer: LatchLayer, v: u16) -> (save: bool)
        requires
            old(self).wf(),
            chan < 2,
            v <= 4095,
        ensures
            final(self).wf(),
            old(self).derived() ==> final(self).derived(),
            save == !(chan == 1 && layer == LatchLayer::Third),
            chan == 0 && layer == LatchLayer::Main ==> *final(self) == (Euclid {
                stored: Storage { fader_saved: [v, old(self).stored.fader_saved[1]], ..old(self).stored },
                num_beat: steps_from(v),
                num_step: scaled_to(old(self).stored.fader_saved[1], steps_from(v)),
                rotation: scaled_to(old(self).stored.shift_fader_saved[0], steps_from(v)),
                ..*old(self)
            }),
            chan == 0 && layer == LatchLayer::Alt ==> *final(self) == (Euclid {
                stored: Storage { shift_fader_saved: [v, old(self).stored.shift_fader_saved[1]], ..old(self).stored },
                rotation: scaled_to(v, old(self).num_beat),
                ..*old(self)
            }),
            chan == 0 && layer == LatchLayer::Third ==> *final(self) == (Euclid {
                stored: Storage { div_saved: v, ..old(self).stored },
                div: RESOLUTION[v as int / 345],
                ..*old(self)
            }),
            chan == 1 && layer == LatchLayer::Main ==> *final(self) == (Euclid {
                stored: Storage { fader_saved: [old(self).stored.fader_saved[0], v], ..old(self).stored },
                num_step: scaled_to(v, old(self).num_beat),
                ..*old(self)
            }),
            chan == 1 && layer == LatchLayer::Alt ==> *final(self) == (Euclid {
                stored: Storage { shift_fader_saved: [old(self).stored.shift_fader_saved[0], v], ..old(self).stored },
                ..*old(self)
            }),
            chan == 1 && layer == LatchLayer::Third ==> *final(self) == *old(self),
    {
        if chan == 0 {
            match layer {
                LatchLayer::Main => {
                    self.stored.fader_saved[0] = v;
                    let (b, st, rot) = Self::derive_pattern(&self.stored);
                    self.num_beat = b;
                    self.num_step = st;
                    self.rotation = rot;
                    assert(self.stored.fader_saved =~= [v, old(self).stored.fader_saved[1]]);
                },
                LatchLayer::Alt => {
                    let (rot, _) = Self::scale_pair(v, 0, self.num_beat);
                    self.rotation = rot;
                    self.stored.shift_fader_saved[0] = v;
                    assert(self.stored.shift_fader_saved =~= [v, old(self).stored.shift_fader_saved[1]]);
                },
                LatchLayer::Third => {
                    let res = RESOLUTION;
                    self.div = res[(v / 345) as usize];
                    self.stored.div_saved = v;
                },
            }
            true
        } else {
            match layer {
                LatchLayer::Main => {
                    let (st, _) = Self::scale_pair(v, 0, self.num_beat);
                    self.num_step = st;
                    self.stored.fader_saved[1] = v;
                    assert(self.stored.fader_saved =~= [old(self).stored.fader_saved[0], v]);
                    true
                },
                LatchLayer::Alt => {
                    self.stored.shift_fader_saved[1] = v;
                    assert(self.stored.shift_fader_saved =~= [old(self).stored.shift_fader_saved[0], v]);
                    true
                },
                LatchLayer::Third => false,
            }
        }
    }

    /// A scene was loaded: Euclid takes its storage, the pattern its faders
    /// give, its mute and its division.
    pub fn on_scene_load(&mut self, stored: Storage)
        requires
            old(self).wf(),
            storage_ok(stored),
        ensures
            final(self).wf() && final(self).derived(),
            *final(self) == (Euclid {
                stored: stored,
                num_beat: steps_from(stored.fader_saved[0]),
                num_step: scaled_to(stored.fader_saved[1], steps_from(stored.fader_saved[0])),
                rotation: scaled_to(stored.shift_fader_saved[0], steps_from(stored.fader_saved[0])),
                muted: stored.mute_saved,
                div: RESOLUTION[stored.div_saved as int / 345],
                ..*old(self)
            }),
    {
        let (b, st, rot) = Self::derive_pattern(&stored);
        self.stored = stored;
        self.num_beat = b;
        self.num_step = st;
        self.rotation = rot;
        self.muted = stored.mute_saved;
        let res = RESOLUTION;
        self.div = res[(stored.div_saved / 345) as usize];
    }

    /// One millisecond of the layer loop: on the main layer the second
    /// button shows mute, on the shift layer the second output's mode.
    pub fn on_frame(&self, leds: &Leds<2>, layer: LatchLayer) -> (r: Vec<EuclidAction>)
        requires
            leds.start_channel + 2 <= usize::MAX,
        ensures
            r@ == match layer {
                LatchLayer::Main => seq![mute_light(*leds, self.muted, self.led_color)],
                LatchLayer::Alt => seq![mode_light(*leds, self.stored.mode, self.led_color)],
                LatchLayer::Third => Seq::<EuclidAction>::empty(),
            },
    {
        let mut out: Vec<EuclidAction> = Vec::new();
        match layer {
            LatchLayer::Main => out.push(self.mute_led(leds)),
            LatchLayer::Alt => {
                let b = if !self.stored.mode {
                    Brightness::Low
                } else {
                    Brightness::Lowest
                };
                out.push(EuclidAction::Led(leds.set(1, Led::Button, self.led_color, b)));
            },
            LatchLayer::Third => {},
        }
        out
    }
}

/// Euclid after a press of the second button: mute flipped and kept.
pub open spec fn muted_by_press(s: Euclid) -> Euclid {
    Euclid { muted: !s.muted, stored: Storage { mute_saved: !s.muted, ..s.stored }, ..s }
}

/// While muted, a tick starts no note and raises no gate.
pub proof fn law_muted_tick_is_silent(s: Euclid, leds: Leds<2>, layer: LatchLayer, roll: u16)
    requires
        s.wf(),
        s.muted,
    ensures
        forall|i: int| 0 <= i < euclid_tick(s, leds, layer, roll).1.len() ==> {
            let a = #[trigger] euclid_tick(s, leds, layer, roll).1[i];
            !(a is NoteOn) && !(a is GateHigh)
        },
{
    let (s1, a) = step_phase(s, leds, layer, roll);
    let (s2, b) = gate_phase(s1, leds);
    let t = top_lights(s2, leds, layer);
    assert(euclid_tick(s, leds, layer, roll).1 =~= a + b + t);
    assert forall|i: int| 0 <= i < a.len() implies !(a[i] is NoteOn) && !(a[i] is GateHigh) by {}
    assert forall|i: int| 0 <= i < b.len() implies !(b[i] is NoteOn) && !(b[i] is GateHigh) by {}
    assert forall|i: int| 0 <= i < t.len() implies !(t[i] is NoteOn) && !(t[i] is GateHigh) by {}
}

/// Pressing the second button twice leaves Euclid muted (and kept) as it was.
pub proof fn law_mute_twice(s: Euclid)
    ensures
        muted_by_press(muted_by_press(s)).muted == s.muted,
        muted_by_press(muted_by_press(s)) == (Euclid { stored: Storage { mute_saved: s.muted, ..s.stored }, ..s }),
{
}

} // verus!
