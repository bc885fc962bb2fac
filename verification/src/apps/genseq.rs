//! Generative sequencer: Turing-register melodies gated by Euclidean rhythms.

use vstd::prelude::*;

use crate::storage::AppStorage;
use crate::app::{LedRequest, Leds};
use crate::apps::euclid::{clamp_roll, euclidean_pattern, fires, pattern_spec};
use crate::apps::turing::{scaled_12, turing_step};
use crate::scaling::attenuate;
use crate::types::{Brightness, Color, LatchLayer, Led, LedMode, LedMsg};

pub use crate::apps::euclid::rotl32;
pub use crate::apps::turing::{rotate_select_bit, scale_to_12bit};

verus! {

/// Whether the Euclidean rhythm fires at clock position `clock`; a step
/// count of 0 counts as 1.
pub fn euclidean_filter(num_steps: u8, num_beats: u8, rotation: u8, clock: u32) -> (r: bool)
    requires
        num_steps <= 32,
        rotation > 0 ==> (if num_steps < 2 {
            2
        } else {
            num_steps
        }) < 32,
    ensures
        r == fires(
            pattern_spec(num_steps, num_beats, rotation, 0),
            clock % (if num_steps < 1 {
                1
            } else {
                num_steps
            }) as u32,
        ),
{
    let pattern = euclidean_pattern(num_steps, num_beats, rotation, 0);
    let steps = if num_steps < 1 {
        1
    } else {
        num_steps
    };
    let pos = (clock % steps as u32) as u8;
    let p = pos as u32;
    let hit = (pattern & (1u32 << p)) != 0;
    assert(hit == ((pattern >> p) & 1 == 1)) by (bit_vector)
        requires
            p < 32,
            hit == ((pattern & (1u32 << p)) != 0),
    ;
    hit
}

/// Clock ticks per step, chosen by the resolution fader in steps of 512.
pub const RESOLUTION: [u32; 8] = [24, 16, 12, 8, 6, 4, 3, 2];
/// Colors of the eight resolutions on the button layer.
pub const RES_COLORS: [Color; 8] = [
    Color::Red,
    Color::Orange,
    Color::Yellow,
    Color::Green,
    Color::Cyan,
    Color::Blue,
    Color::Violet,
    Color::Pink,
];
/// Colors of the five octave shifts, -2 to +2.
pub const OCT_COLORS: [Color; 5] = [Color::Blue, Color::Cyan, Color::Green, Color::Yellow, Color::Red];
/// Register length of the rhythm registers.
pub const BEAT_REG_LENGTH: u8 = 16;

/// What the sequencer keeps: three faders on each of three layers (pitch
/// depth, length depth, density; pitch length, legato, accent; resolution,
/// octave shift, gate length) and its three registers.
#[derive(Clone, Copy, Debug, PartialEq, Eq, Structural)]
pub struct Storage {
    pub pitch_att: u16,
    pub length_att: u16,
    pub beat_density: u16,
    pub pitch_length_saved: u16,
    pub legato_att: u16,
    pub accent_att: u16,
    pub res_saved: u16,
    pub octave_shift: u16,
    pub gate_length: u16,
    pub register_pitch: u16,
    pub register_length: u16,
    pub register_legato: u16,
}

impl Default for Storage {
    /// Mid-travel faders (pitch depth 3000, legato and accent 1024, no
    /// octave shift) and the seed registers.
    fn default() -> (r: Self)
        ensures
            r == (Storage {
                pitch_att: 3000,
                length_att: 2048,
                beat_density: 2048,
                pitch_length_saved: 2048,
                legato_att: 1024,
                accent_att: 1024,
                res_saved: 2048,
                octave_shift: 1638,
                gate_length: 2048,
                register_pitch: 7632,
                register_length: 534,
                register_legato: 2821,
            }),
    {
        Storage {
            pitch_att: 3000,
            length_att: 2048,
            beat_density: 2048,
            pitch_length_saved: 2048,
            legato_att: 1024,
            accent_att: 1024,
            res_saved: 2048,
            octave_shift: 1638,
            gate_length: 2048,
            register_pitch: 7632,
            register_length: 534,
            register_legato: 2821,
        }
    }
}

impl AppStorage for Storage {}

/// Whether the stored fader positions are within the faders' 12-bit range.
pub open spec fn storage_ok(st: Storage) -> bool {
    &&& st.pitch_att <= 4095 && st.length_att <= 4095 && st.beat_density <= 4095
    &&& st.pitch_length_saved <= 4095 && st.legato_att <= 4095 && st.accent_att <= 4095
    &&& st.res_saved <= 4095 && st.octave_shift <= 4095 && st.gate_length <= 4095
}

/// Work for the device: a jack's value (0 pitch CV, 1 gate, 2 accent), MIDI
/// notes with velocity, LEDs.
#[derive(Clone, Copy, Debug, PartialEq, Eq)]
pub enum GenAction {
    Out(usize, u16),
    NoteOn(u8, u16),
    NoteOff(u8),
    Led(LedRequest),
}

/// A running sequencer: base note and color, storage, registers, the
/// division and the mutation chances the buttons hold, the note to play
/// and the one sounding, and the clock task's counters and rhythm.
#[derive(Clone, Copy)]
pub struct GenSeq {
    pub base_note: u8,
    pub led_color: Color,
    pub stored: Storage,
    pub register_pitch: u16,
    pub register_length: u16,
    pub register_legato: u16,
    pub prob: [u16; 3],
    pub recall: bool,
    pub div: u32,
    pub midi_note: u8,
    pub last_note_on: u8,
    pub clkn: u32,
    pub gate_on: bool,
    pub clkn_euclid: u16,
    pub euclid_length: u8,
    pub euclid_beat: u8,
    pub legato_beat: u8,
    pub accent_beat: u8,
    pub pending_note_off: bool,
    pub legato: bool,
    /// The scaled pitch register of a cycle start waiting for its quantized note.
    pub pending_scaled: Option<u16>,
}

/// The division of a resolution fader position.
pub open spec fn div_of(res: u16) -> u32 {
    RESOLUTION[if res / 512 > 7 { 7 } else { res / 512 } as int]
}

/// Whether a Euclidean rhythm of `steps` (0 counts as 1) fires at `clock`.
#[verifier::opaque]
pub open spec fn rhythm_hit(steps: u8, beats: u8, rotation: u8, clock: u32) -> bool {
    fires(pattern_spec(steps, beats, rotation, 0), clock % (if steps < 1 { 1 } else { steps }) as u32)
}

/// The request that lights `led` of `chan` in `color` at `b`.
pub open spec fn lit(leds: Leds<3>, chan: usize, led: Led, color: Color, b: Brightness) -> GenAction {
    GenAction::Led((leds.device_channel(chan) as usize, led, LedMsg::SetMode(LedMode::Static(color, b))))
}

/// The request that darkens `led` of `chan`.
pub open spec fn dark(leds: Leds<3>, chan: usize, led: Led) -> GenAction {
    GenAction::Led((leds.device_channel(chan) as usize, led, LedMsg::Reset))
}

/// A step count at least 1.
pub open spec fn at_least_one(n: u8) -> u8 {
    if n < 1 { 1 } else { n }
}

/// The rotation of the legato rhythm: five steps on.
pub open spec fn legato_rotation(el: u8) -> u8 {
    ((at_least_one(el) + 5) % (at_least_one(el) as int)) as u8
}

/// Tick, on a step: the rhythm counter advances within the rhythm's
/// length; a beat stops a sounding note, raises its gate, sets the accent
/// jack, plays the note (accented louder) and lights the second top LED;
/// the legato rhythm lights the third top LED, and off its steps a held
/// note waiting to end ends.
pub open spec fn beat_phase(s: GenSeq, leds: Leds<3>) -> (GenSeq, Seq<GenAction>) {
    if s.clkn % s.div != 0 {
        (s, Seq::empty())
    } else {
        let el1 = at_least_one(s.euclid_length);
        let ce = ((s.clkn_euclid + 1) % (el1 as int)) as u16;
        let beat = rhythm_hit(s.euclid_length, s.euclid_beat, 0, ce as u32);
        let leg = rhythm_hit(s.euclid_length, s.legato_beat, legato_rotation(s.euclid_length), ce as u32);
        let acc = rhythm_hit(s.euclid_length, s.accent_beat, 3, ce as u32);
        let (s1, a1) = beat_part(GenSeq { clkn_euclid: ce, ..s }, leds, beat, acc);
        let (s2, a2) = legato_part(s1, leds, leg);
        (s2, a1 + a2)
    }
}

/// A beat (accented or not) stops a sounding note, raises its gate, sets
/// the accent jack, plays the note and lights the second top LED.
pub open spec fn beat_part(s: GenSeq, leds: Leds<3>, beat: bool, acc: bool) -> (GenSeq, Seq<GenAction>) {
    if beat {
        (
            GenSeq { last_note_on: s.midi_note, gate_on: true, pending_note_off: false, ..s },
            (if s.gate_on { seq![GenAction::NoteOff(s.last_note_on)] } else { Seq::empty() }) + seq![
                GenAction::Out(1, 4095),
                GenAction::Out(2, if acc { 4095 } else { 0 }),
                GenAction::NoteOn(s.midi_note, if acc { 4095 } else { 2048 }),
                lit(leds, 1, Led::Top, s.led_color, Brightness::Low),
            ],
        )
    } else {
        (s, Seq::empty())
    }
}

/// The legato rhythm lights the third top LED; off its steps a held note
/// waiting to end ends (gate low, second top LED dark, note off).
pub open spec fn legato_part(s: GenSeq, leds: Leds<3>, leg: bool) -> (GenSeq, Seq<GenAction>) {
    if leg {
        (GenSeq { legato: true, ..s }, seq![lit(leds, 2, Led::Top, s.led_color, Brightness::Low)])
    } else if s.pending_note_off && s.gate_on {
        (
            GenSeq { legato: false, gate_on: false, pending_note_off: false, ..s },
            seq![
                lit(leds, 2, Led::Top, s.led_color, Brightness::Custom(0)),
                GenAction::Out(1, 0),
                lit(leds, 1, Led::Top, s.led_color, Brightness::Custom(0)),
                GenAction::NoteOff(s.last_note_on),
            ],
        )
    } else {
        (GenSeq { legato: false, ..s }, seq![lit(leds, 2, Led::Top, s.led_color, Brightness::Custom(0))])
    }
}

/// The rhythm length a length register gives, scaled by its depth fader, at least 1.
pub open spec fn length_of(reg: u16, level: u16) -> u8 {
    let a = ((((scaled_12(reg, 16) as int * 16 / 4095) as u16) as int * level as int) / 4095) as u16;
    (if a < 1 { 1 } else { a }) as u8
}

/// The beats of the density fader within `el` steps, 1 to `el`.
pub open spec fn beats_of(density: u16, el: u8) -> u8 {
    let b = density as int * el as int / 4095;
    (if b < 1 { 1 } else if b > el { el as int } else { b }) as u8
}

/// The beats a register gives within `el` steps, scaled by its depth
/// fader, at most `el`.
pub open spec fn part_of(reg: u16, el: u8, level: u16) -> u8 {
    let raw = ((scaled_12(reg, 16) as int * el as int) / 2048) as u16;
    let a = ((raw as int * level as int) / 4095) as u16;
    (if a > el { el as u16 } else { a }) as u8
}

/// The register rotated left by eight bits.
pub open spec fn rot8(x: u16) -> u16 {
    (x << 8u16) | (x >> 8u16)
}

/// The pitch register length of its fader: 1 to 16.
pub open spec fn pitch_len(saved: u16) -> u16 {
    let l = saved as int * 16 / 4095 + 1;
    (if l > 16 { 16 } else { l }) as u16
}

/// Cycle start: the length and legato registers step (with the held
/// chances against the limited rolls), the rhythm is recomputed from them
/// and the faders, and the pitch register steps over its length; its
/// scaled value waits for the quantizer.
pub open spec fn cycle_phase(s: GenSeq, rolls: [u16; 3]) -> GenSeq {
    let rl = turing_step(s.register_length, s.prob[1], clamp_roll(rolls[0]), 16);
    let rg = turing_step(s.register_legato, s.prob[2], clamp_roll(rolls[1]), 16);
    let el = length_of(rl, s.stored.length_att);
    let len = pitch_len(s.stored.pitch_length_saved);
    let rp = turing_step(s.register_pitch, s.prob[0], clamp_roll(rolls[2]), len);
    GenSeq {
        register_length: rl,
        register_legato: rg,
        euclid_length: el,
        euclid_beat: beats_of(s.stored.beat_density, el),
        legato_beat: part_of(rg, el, s.stored.legato_att),
        accent_beat: part_of(rot8(rg), el, s.stored.accent_att),
        register_pitch: rp,
        pending_scaled: Some(scaled_12(rp, len as u8)),
        ..s
    }
}

/// The value handed to the quantizer: the scaled pitch register by its depth fader, halved.
pub open spec fn quantizer_input(scaled: u16, pitch_att: u16) -> u16 {
    (((scaled as int * pitch_att as int) / 4095) as u16 / 2) as u16
}

/// The octave shift of its fader: -2 to +2.
pub open spec fn octave_offset(shift: u16) -> int {
    (if shift / 819 > 4 { 4 } else { shift / 819 }) - 2
}

/// The first half of a tick: the step and, at a cycle start, the registers
/// and rhythm; returns the state, the work and the value to quantize at a
/// cycle start.
pub open spec fn tick_start_spec(s: GenSeq, leds: Leds<3>, rolls: [u16; 3]) -> (GenSeq, Seq<GenAction>, Option<u16>) {
    let (s1, a) = beat_phase(s, leds);
    if s.clkn % s.div == 0 && s1.clkn_euclid == 0 {
        let s2 = cycle_phase(s1, rolls);
        (s2, a, Some(quantizer_input(s2.pending_scaled->0, s.stored.pitch_att)))
    } else {
        (GenSeq { pending_scaled: None, ..s1 }, a, None)
    }
}

/// The quantized note (`midi`, `counts`) of a cycle start: the note to
/// play is the base note plus the quantized note less an octave, shifted
/// by octaves, within 0..=127; the pitch CV is the counts shifted by 410
/// per octave within 0..=4095; the first top LED shows the scaled register.
/// A scene recall puts the stored register back; otherwise a changed
/// register is stored (and saved).
pub open spec fn pitch_phase(s: GenSeq, leds: Leds<3>, scaled: u16, midi: u8, counts: u16) -> (GenSeq, Seq<GenAction>, bool) {
    let off = octave_offset(s.stored.octave_shift);
    let n = s.base_note + midi - 12 + off * 12;
    let note = (if n < 0 { 0 } else if n > 127 { 127 } else { n }) as u8;
    let c = counts + off * 410;
    let cv = (if c < 0 { 0 } else if c > 4095 { 4095 } else { c }) as u16;
    let work = seq![GenAction::Out(0, cv), lit(leds, 0, Led::Top, s.led_color, Brightness::Custom((scaled / 16) as u8))];
    let s1 = GenSeq { midi_note: note, pending_scaled: None, ..s };
    if s.recall {
        (GenSeq { register_pitch: s.stored.register_pitch, recall: false, ..s1 }, work, false)
    } else if s.register_pitch != s.stored.register_pitch {
        (GenSeq { stored: Storage { register_pitch: s.register_pitch, ..s.stored }, ..s1 }, work, true)
    } else {
        (s1, work, false)
    }
}

/// Gate tick within a step: its percentage (1 to 99) of the step,
/// at least one tick and at most one short of the step.
pub open spec fn gate_tick(div: u32, gate_length: u16) -> int {
    let pct = gate_length as int * 100 / 4095;
    let pct = if pct < 1 { 1 } else if pct > 99 { 99 } else { pct };
    let g = div as int * pct / 100;
    if g < 1 { 1 } else if g > div - 1 { div - 1 } else { g }
}

/// Tick, at gate end: a sounding note ends unless the step is
/// legato, in which case it ends at the next step off the legato rhythm.
pub open spec fn gate_phase(s: GenSeq, leds: Leds<3>) -> (GenSeq, Seq<GenAction>) {
    if s.clkn % s.div != gate_tick(s.div, s.stored.gate_length) {
        (s, Seq::empty())
    } else if s.gate_on && !s.legato {
        (
            GenSeq { gate_on: false, ..s },
            seq![
                GenAction::Out(1, 0),
                lit(leds, 1, Led::Top, s.led_color, Brightness::Custom(0)),
                GenAction::NoteOff(s.last_note_on),
            ],
        )
    } else if s.gate_on && s.legato {
        (GenSeq { pending_note_off: true, ..s }, Seq::empty())
    } else {
        (s, Seq::empty())
    }
}

/// The second half of a tick, given the quantizer's answer for a cycle
/// start: the pitch (when a value was waiting and an answer came), the
/// gate's end, and the tick counter advances (wrapping at 32 bits).
pub open spec fn tick_end_spec(s: GenSeq, leds: Leds<3>, quantized: Option<(u8, u16)>) -> (GenSeq, Seq<GenAction>, bool) {
    let (s1, a, save) = match (s.pending_scaled, quantized) {
        (Some(scaled), Some(q)) => pitch_phase(s, leds, scaled, q.0, q.1),
        _ => (GenSeq { pending_scaled: None, ..s }, Seq::empty(), false),
    };
    let (s2, b) = gate_phase(s1, leds);
    (GenSeq { clkn: ((s2.clkn + 1) % 0x1_0000_0000) as u32, ..s2 }, a + b, save)
}

impl GenSeq {
    /// The invariant: notes and stored faders in range, a division from
    /// the table, and a rhythm of 1 to 16 steps with no more beats than steps.
    pub open spec fn wf(&self) -> bool {
        &&& self.base_note <= 127 && self.midi_note <= 127 && self.last_note_on <= 127
        &&& storage_ok(self.stored)
        &&& 2 <= self.div <= 24
        &&& self.euclid_length <= 16
        &&& self.euclid_beat <= 16 && self.legato_beat <= 16 && self.accent_beat <= 16
        &&& self.pending_scaled matches Some(v) ==> v <= 4095
    }

    /// The sequencer as `run` starts it from its base note (0 to 127),
    /// color and storage: registers from storage, division from the
    /// resolution fader, a rhythm of 3 in 7 with legato and accent on 2,
    /// note 0 to play; all three buttons lit.
    pub fn new(leds: &Leds<3>, base_note: u8, led_color: Color, stored: Storage) -> (r: (Self, Vec<GenAction>))
        requires
            base_note <= 127,
            storage_ok(stored),
            leds.start_channel + 3 <= usize::MAX,
        ensures
            r.0.wf(),
            r.0 == (GenSeq {
                base_note: base_note,
                led_color: led_color,
                stored: stored,
                register_pitch: stored.register_pitch,
                register_length: stored.register_length,
                register_legato: stored.register_legato,
                prob: [0u16, 0u16, 0u16],
                recall: false,
                div: div_of(stored.res_saved),
                midi_note: 0,
                last_note_on: 0,
                clkn: 0,
                gate_on: false,
                clkn_euclid: 0,
                euclid_length: 7,
                euclid_beat: 3,
                legato_beat: 2,
                accent_beat: 2,
                pending_note_off: false,
                legato: false,
                pending_scaled: None,
            }),
            r.1@ == seq![
                lit(*leds, 0, Led::Button, led_color, Brightness::Low),
                lit(*leds, 1, Led::Button, led_color, Brightness::Low),
                lit(*leds, 2, Led::Button, led_color, Brightness::Low),
            ],
    {
        let mut out: Vec<GenAction> = Vec::new();
        out.push(GenAction::Led(leds.set(0, Led::Button, led_color, Brightness::Low)));
        out.push(GenAction::Led(leds.set(1, Led::Button, led_color, Brightness::Low)));
        out.push(GenAction::Led(leds.set(2, Led::Button, led_color, Brightness::Low)));
        let g = GenSeq {
            base_note,
            led_color,
            stored,
            register_pitch: stored.register_pitch,
            register_length: stored.register_length,
            register_legato: stored.register_legato,
            prob: [0u16; 3],
            recall: false,
            div: Self::division(stored.res_saved),
            midi_note: 0,
            last_note_on: 0,
            clkn: 0,
            gate_on: false,
            clkn_euclid: 0,
            euclid_length: 7,
            euclid_beat: 3,
            legato_beat: 2,
            accent_beat: 2,
            pending_note_off: false,
            legato: false,
            pending_scaled: None,
        };
        assert(g.prob =~= [0u16, 0u16, 0u16]);
        (g, out)
    }

    fn division(res: u16) -> (r: u32)
        ensures
            r == div_of(res),
            2 <= r <= 24,
    {
        let i = if res / 512 > 7 {
            7
        } else {
            res / 512
        };
        let table = RESOLUTION;
        table[i as usize]
    }

    fn hit(steps: u8, beats: u8, rotation: u8, clock: u32) -> (r: bool)
        requires
            steps <= 16,
            rotation < 32,
        ensures
            r == rhythm_hit(steps, beats, rotation, clock),
    {
        proof {
            reveal(rhythm_hit);
        }
        euclidean_filter(steps, beats, rotation, clock)
    }

    fn beat(&mut self, leds: &Leds<3>, out: &mut Vec<GenAction>)
        requires
            old(self).wf(),
            leds.start_channel + 3 <= usize::MAX,
        ensures
            final(self).wf(),
            final(out)@ == old(out)@ + beat_phase(*old(self), *leds).1,
            *final(self) == beat_phase(*old(self), *leds).0,
    {
        let ghost start = out@;
        if self.clkn % self.div != 0 {
            assert(out@ =~= start + Seq::<GenAction>::empty());
            return;
        }
        let el1: u8 = if self.euclid_length < 1 {
            1
        } else {
            self.euclid_length
        };
        let ce = ((self.clkn_euclid as u32 + 1) % el1 as u32) as u16;
        self.clkn_euclid = ce;
        let beat = Self::hit(self.euclid_length, self.euclid_beat, 0, ce as u32);
        let rot = (el1 + 5) % el1;
        let leg = Self::hit(self.euclid_length, self.legato_beat, rot, ce as u32);
        let acc = Self::hit(self.euclid_length, self.accent_beat, 3, ce as u32);
        self.play_beat(leds, beat, acc, out);
        let ghost mid = out@;
        self.legato_step(leds, leg, out);
        assert(out@ =~= start + beat_phase(*old(self), *leds).1);
    }

    fn play_beat(&mut self, leds: &Leds<3>, beat: bool, acc: bool, out: &mut Vec<GenAction>)
        requires
            old(self).wf(),
            leds.start_channel + 3 <= usize::MAX,
        ensures
            final(self).wf(),
            (*final(self), final(out)@) == ({
                let p = beat_part(*old(self), *leds, beat, acc);
                (p.0, old(out)@ + p.1)
            }),
    {
        if beat {
            let ghost start = out@;
            if self.gate_on {
                out.push(GenAction::NoteOff(self.last_note_on));
            }
            let ghost mid = out@;
            let note = self.midi_note;
            self.last_note_on = note;
            out.push(GenAction::Out(1, 4095));
            self.gate_on = true;
            self.pending_note_off = false;
            out.push(GenAction::Out(2, if acc { 4095 } else { 0 }));
            out.push(GenAction::NoteOn(note, if acc { 4095 } else { 2048 }));
            out.push(GenAction::Led(leds.set(1, Led::Top, self.led_color, Brightness::Low)));
            assert(out@ =~= start + beat_part(*old(self), *leds, beat, acc).1);
        } else {
            assert(out@ =~= old(out)@ + Seq::<GenAction>::empty());
        }
    }

    fn legato_step(&mut self, leds: &Leds<3>, leg: bool, out: &mut Vec<GenAction>)
        requires
            old(self).wf(),
            leds.start_channel + 3 <= usize::MAX,
        ensures
            final(self).wf(),
            (*final(self), final(out)@) == ({
                let p = legato_part(*old(self), *leds, leg);
                (p.0, old(out)@ + p.1)
            }),
    {
        let ghost start = out@;
        self.legato = leg;
        if leg {
            out.push(GenAction::Led(leds.set(2, Led::Top, self.led_color, Brightness::Low)));
        } else {
            out.push(GenAction::Led(leds.set(2, Led::Top, self.led_color, Brightness::Custom(0))));
            if self.pending_note_off && self.gate_on {
                out.push(GenAction::Out(1, 0));
                self.gate_on = false;
                self.pending_note_off = false;
                out.push(GenAction::Led(leds.set(1, Led::Top, self.led_color, Brightness::Custom(0))));
                out.push(GenAction::NoteOff(self.last_note_on));
            }
        }
        assert(out@ =~= start + legato_part(*old(self), *leds, leg).1);
    }

    fn cycle(&mut self, rolls: &[u16; 3])
        requires
            old(self).wf(),
        ensures
            final(self).wf(),
            *final(self) == cycle_phase(*old(self), *rolls),
    {
        let r0 = if rolls[0] < 100 {
            100
        } else if rolls[0] > 3900 {
            3900
        } else {
            rolls[0]
        };
        self.register_length = rotate_select_bit(self.register_length, self.prob[1], r0, 16).0;
        let r1 = if rolls[1] < 100 {
            100
        } else if rolls[1] > 3900 {
            3900
        } else {
            rolls[1]
        };
        self.register_legato = rotate_select_bit(self.register_legato, self.prob[2], r1, 16).0;
        let scaled_len = scale_to_12bit(self.register_length, BEAT_REG_LENGTH);
        let x = (scaled_len as u32 * 16 / 4095) as u16;
        assert(scaled_len as u32 * 16 / 4095 <= 16) by (nonlinear_arith)
            requires
                scaled_len <= 4095,
        ;
        let level = self.stored.length_att;
        assert((x as int * level as int) / 4095 <= 16) by (nonlinear_arith)
            requires
                x <= 16,
                level <= 4095,
        ;
        let a = attenuate(x, level);
        let el: u8 = (if a < 1 {
            1
        } else {
            a
        }) as u8;
        self.euclid_length = el;
        assert(self.stored.beat_density as u32 * el as u32 <= 4095 * 16) by (nonlinear_arith)
            requires
                self.stored.beat_density <= 4095,
                el <= 16,
        ;
        let b = self.stored.beat_density as u32 * el as u32 / 4095;
        self.euclid_beat = (if b < 1 {
            1
        } else if b > el as u32 {
            el as u32
        } else {
            b
        }) as u8;
        self.legato_beat = Self::part(self.register_legato, el, self.stored.legato_att);
        let accent_reg = (self.register_legato << 8u16) | (self.register_legato >> 8u16);
        self.accent_beat = Self::part(accent_reg, el, self.stored.accent_att);
        let l = self.stored.pitch_length_saved as u32 * 16 / 4095 + 1;
        let len: u16 = (if l > 16 {
            16
        } else {
            l
        }) as u16;
        let r2 = if rolls[2] < 100 {
            100
        } else if rolls[2] > 3900 {
            3900
        } else {
            rolls[2]
        };
        self.register_pitch = rotate_select_bit(self.register_pitch, self.prob[0], r2, len).0;
        let scaled = scale_to_12bit(self.register_pitch, len as u8);
        self.pending_scaled = Some(scaled);
    }

    fn part(reg: u16, el: u8, level: u16) -> (r: u8)
        requires
            1 <= el <= 16,
            level <= 4095,
        ensures
            r == part_of(reg, el, level),
            r <= el,
    {
        let sc = scale_to_12bit(reg, BEAT_REG_LENGTH);
        assert(sc as int * el as int <= 4095 * 16) by (nonlinear_arith)
            requires
                sc <= 4095 && el <= 16,
        ;
        let raw = ((sc * el as u16) as u32 / 2048) as u16;
        let a = attenuate(raw, level);
        (if a > el as u16 {
            el as u16
        } else {
            a
        }) as u8
    }

    /// The first half of a clock tick, with three rolls of the die (length
    /// register, legato register, pitch register): see `tick_start_spec`.
    /// When it returns a value, the quantizer's answer for it goes to
    /// `tick_end`.
    pub fn tick_start(&mut self, leds: &Leds<3>, rolls: &[u16; 3]) -> (r: (Vec<GenAction>, Option<u16>))
        requires
            old(self).wf(),
            leds.start_channel + 3 <= usize::MAX,
        ensures
            final(self).wf(),
            (*final(self), r.0@, r.1) == tick_start_spec(*old(self), *leds, *rolls),
    {
        let mut out: Vec<GenAction> = Vec::new();
        let on_step = self.clkn % self.div == 0;
        self.beat(leds, &mut out);
        proof {
            assert(out@ =~= beat_phase(*old(self), *leds).1);
        }
        if on_step && self.clkn_euclid == 0 {
            self.cycle(rolls);
            let scaled = match self.pending_scaled {
                Some(v) => v,
                None => 0,
            };
            let request = attenuate(scaled, self.stored.pitch_att) / 2;
            (out, Some(request))
        } else {
            self.pending_scaled = None;
            (out, None)
        }
    }

    fn pitch(&mut self, leds: &Leds<3>, scaled: u16, midi: u8, counts: u16, out: &mut Vec<GenAction>) -> (save: bool)
        requires
            old(self).wf(),
            leds.start_channel + 3 <= usize::MAX,
            midi <= 127,
        ensures
            final(self).wf(),
            (*final(self), final(out)@, save) == ({
                let p = pitch_phase(*old(self), *leds, scaled, midi, counts);
                (p.0, old(out)@ + p.1, p.2)
            }),
    {
        let q = if self.stored.octave_shift / 819 > 4 {
            4
        } else {
            self.stored.octave_shift / 819
        };
        let off = q as i32 - 2;
        let n = self.base_note as i32 + midi as i32 - 12 + off * 12;
        let note: u8 = (if n < 0 {
            0
        } else if n > 127 {
            127
        } else {
            n
        }) as u8;
        self.midi_note = note;
        let c = counts as i32 + off * 410;
        let cv: u16 = (if c < 0 {
            0
        } else if c > 4095 {
            4095
        } else {
            c
        }) as u16;
        out.push(GenAction::Out(0, cv));
        out.push(GenAction::Led(leds.set(0, Led::Top, self.led_color, Brightness::Custom((scaled / 16) as u8))));
        self.pending_scaled = None;
        if self.recall {
            self.register_pitch = self.stored.register_pitch;
            self.recall = false;
            false
        } else if self.register_pitch != self.stored.register_pitch {
            self.stored.register_pitch = self.register_pitch;
            true
        } else {
            false
        }
    }

    fn gate(&mut self, leds: &Leds<3>, out: &mut Vec<GenAction>)
        requires
            old(self).wf(),
            leds.start_channel + 3 <= usize::MAX,
        ensures
            final(self).wf(),
            final(out)@ == old(out)@ + gate_phase(*old(self), *leds).1,
            *final(self) == gate_phase(*old(self), *leds).0,
    {
        let p = self.stored.gate_length as u32 * 100 / 4095;
        let pct = if p < 1 {
            1
        } else if p > 99 {
            99
        } else {
            p
        };
        assert(self.div * pct <= 24 * 99) by (nonlinear_arith)
            requires
                self.div <= 24,
                pct <= 99,
        ;
        let g0 = self.div * pct / 100;
        let g = if g0 < 1 {
            1
        } else if g0 > self.div - 1 {
            self.div - 1
        } else {
            g0
        };
        if self.clkn % self.div == g {
            if self.gate_on && !self.legato {
                out.push(GenAction::Out(1, 0));
                self.gate_on = false;
                out.push(GenAction::Led(leds.set(1, Led::Top, self.led_color, Brightness::Custom(0))));
                out.push(GenAction::NoteOff(self.last_note_on));
            } else if self.gate_on && self.legato {
                self.pending_note_off = true;
            }
        }
        assert(out@ =~= old(out)@ + gate_phase(*old(self), *leds).1);
    }

    /// The second half of a clock tick, with the quantizer's answer
    /// (MIDI note 0 to 127, DAC counts) for the value `tick_start` returned:
    /// see `tick_end_spec`. Returns the work and whether to save.
    pub fn tick_end(&mut self, leds: &Leds<3>, quantized: Option<(u8, u16)>) -> (r: (Vec<GenAction>, bool))
        requires
            old(self).wf(),
            leds.start_channel + 3 <= usize::MAX,
            quantized matches Some(q) ==> q.0 <= 127,
        ensures
            final(self).wf(),
            (*final(self), r.0@, r.1) == tick_end_spec(*old(self), *leds, quantized),
    {
        let mut out: Vec<GenAction> = Vec::new();
        let mut save = false;
        match (self.pending_scaled, quantized) {
            (Some(scaled), Some(q)) => {
                save = self.pitch(leds, scaled, q.0, q.1, &mut out);
            },
            _ => {
                self.pending_scaled = None;
            },
        }
        let ghost a = out@;
        self.gate(leds, &mut out);
        self.clkn = self.clkn.wrapping_add(1);
        proof {
            assert(a =~= Seq::<GenAction>::empty() + a);
        }
        (out, save)
    }

    /// Clock reset: the count restarts; a sounding note ends (gate low,
    /// note off); the pitch register returns to the stored one.
    pub fn on_reset(&mut self) -> (r: Vec<GenAction>)
        requires
            old(self).wf(),
        ensures
            final(self).wf(),
            *final(self) == (GenSeq { clkn: 0, gate_on: false, register_pitch: old(self).stored.register_pitch, ..*old(self) }),
            r@ == if old(self).gate_on {
                seq![GenAction::Out(1, 0), GenAction::NoteOff(old(self).last_note_on)]
            } else {
                Seq::empty()
            },
    {
        self.clkn = 0;
        let mut out: Vec<GenAction> = Vec::new();
        if self.gate_on {
            out.push(GenAction::Out(1, 0));
            out.push(GenAction::NoteOff(self.last_note_on));
            self.gate_on = false;
        }
        self.register_pitch = self.stored.register_pitch;
        out
    }

    /// Where fader `chan`'s latch picks up on `layer`: the stored value of
    /// that fader and layer.
    pub fn latch_target(&self, chan: usize, layer: LatchLayer) -> (r: u16)
        ensures
            r == fader_value(self.stored, chan, layer),
    {
        match (chan, layer) {
            (0, LatchLayer::Main) => self.stored.pitch_att,
            (0, LatchLayer::Alt) => self.stored.pitch_length_saved,
            (0, LatchLayer::Third) => self.stored.res_saved,
            (1, LatchLayer::Main) => self.stored.length_att,
            (1, LatchLayer::Alt) => self.stored.legato_att,
            (1, LatchLayer::Third) => self.stored.octave_shift,
            (2, LatchLayer::Main) => self.stored.beat_density,
            (2, LatchLayer::Alt) => self.stored.accent_att,
            (2, LatchLayer::Third) => self.stored.gate_length,
            _ => 0,
        }
    }

    /// Fader `chan` gave the latch's value `v` (12-bit) on `layer`: it is
    /// stored (and saved); the resolution fader also sets the division and
    /// stops the last note.
    pub fn on_fader(&mut self, chan: usize, layer: LatchLayer, v: u16) -> (r: (Vec<GenAction>, bool))
        requires
            old(self).wf(),
            v <= 4095,
        ensures
            final(self).wf(),
            r.1 == (chan < 3),
            final(self).stored == with_fader(old(self).stored, chan, layer, v),
            fader_value(final(self).stored, chan, layer) == if chan < 3 { v } else { 0 },
            chan == 0 && layer == LatchLayer::Third ==> *final(self) == (GenSeq {
                stored: final(self).stored,
                div: div_of(v),
                ..*old(self)
            }) && r.0@ == seq![GenAction::NoteOff(old(self).last_note_on)],
            !(chan == 0 && layer == LatchLayer::Third) ==> *final(self) == (GenSeq {
                stored: final(self).stored,
                ..*old(self)
            }) && r.0@.len() == 0,
    {
        let mut out: Vec<GenAction> = Vec::new();
        match (chan, layer) {
            (0, LatchLayer::Main) => self.stored.pitch_att = v,
            (0, LatchLayer::Alt) => self.stored.pitch_length_saved = v,
            (0, LatchLayer::Third) => {
                self.div = Self::division(v);
                out.push(GenAction::NoteOff(self.last_note_on));
                self.stored.res_saved = v;
            },
            (1, LatchLayer::Main) => self.stored.length_att = v,
            (1, LatchLayer::Alt) => self.stored.legato_att = v,
            (1, LatchLayer::Third) => self.stored.octave_shift = v,
            (2, LatchLayer::Main) => self.stored.beat_density = v,
            (2, LatchLayer::Alt) => self.stored.accent_att = v,
            (2, LatchLayer::Third) => self.stored.gate_length = v,
            _ => {
                return (out, false);
            },
        }
        (out, true)
    }

    /// One millisecond of the layer loop, with shift and the three buttons'
    /// state: held buttons (without shift) give their register a mutation
    /// chance of one half; the LEDs show the layer (main: buttons lit;
    /// shift: pitch length, legato and accent on the top LEDs; button
    /// layer: resolution and octave colors, gate length).
    pub fn on_frame(&mut self, leds: &Leds<3>, layer: LatchLayer, shift: bool, pressed: [bool; 3]) -> (r: Vec<GenAction>)
        requires
            old(self).wf(),
            leds.start_channel + 3 <= usize::MAX,
        ensures
            final(self).wf(),
            *final(self) == (GenSeq { prob: final(self).prob, ..*old(self) }),
            forall|i: int| 0 <= i < 3 ==> #[trigger] final(self).prob[i] == if !shift && pressed[i] { 2048u16 } else { 0u16 },
            r@ == frame_lights(old(self).stored, *leds, layer, old(self).led_color),
    {
        if !shift {
            self.prob = [
                if pressed[0] {
                    2048
                } else {
                    0
                },
                if pressed[1] {
                    2048
                } else {
                    0
                },
                if pressed[2] {
                    2048
                } else {
                    0
                },
            ];
        } else {
            self.prob = [0; 3];
        }
        let c = self.led_color;
        let mut out: Vec<GenAction> = Vec::new();
        match layer {
            LatchLayer::Main => {
                out.push(GenAction::Led(leds.set(0, Led::Button, c, Brightness::Low)));
                out.push(GenAction::Led(leds.set(1, Led::Button, c, Brightness::Low)));
                out.push(GenAction::Led(leds.set(2, Led::Button, c, Brightness::Low)));
            },
            LatchLayer::Alt => {
                out.push(GenAction::Led(leds.set(0, Led::Button, c, Brightness::Low)));
                out.push(GenAction::Led(leds.set(1, Led::Button, c, Brightness::Low)));
                out.push(GenAction::Led(leds.set(2, Led::Button, c, Brightness::Low)));
                out.push(GenAction::Led(leds.set(0, Led::Top, Color::White, Brightness::Custom((self.stored.pitch_length_saved / 16) as u8))));
                out.push(GenAction::Led(leds.set(1, Led::Top, Color::Cyan, Brightness::Custom((self.stored.legato_att / 16) as u8))));
                out.push(GenAction::Led(leds.set(2, Led::Top, Color::Yellow, Brightness::Custom((self.stored.accent_att / 16) as u8))));
            },
            LatchLayer::Third => {
                let ri = if self.stored.res_saved / 512 > 7 {
                    7
                } else {
                    self.stored.res_saved / 512
                };
                let oi = if self.stored.octave_shift / 819 > 4 {
                    4
                } else {
                    self.stored.octave_shift / 819
                };
                let rc = RES_COLORS;
                let oc = OCT_COLORS;
                out.push(GenAction::Led(leds.set(0, Led::Button, rc[ri as usize], Brightness::High)));
                out.push(GenAction::Led(leds.set(1, Led::Button, oc[oi as usize], Brightness::High)));
                out.push(GenAction::Led(leds.set(2, Led::Button, c, Brightness::Low)));
                out.push(GenAction::Led(leds.unset(0, Led::Top)));
                out.push(GenAction::Led(leds.unset(1, Led::Top)));
                out.push(GenAction::Led(leds.set(2, Led::Top, Color::White, Brightness::Custom((self.stored.gate_length / 16) as u8))));
            },
        }
        assert(out@ =~= frame_lights(old(self).stored, *leds, layer, old(self).led_color));
        out
    }

    /// A scene was loaded: the sequencer takes its storage and division,
    /// and the next cycle start recalls the stored pitch register.
    pub fn on_scene_load(&mut self, stored: Storage)
        requires
            old(self).wf(),
            storage_ok(stored),
        ensures
            final(self).wf(),
            *final(self) == (GenSeq { stored: stored, div: div_of(stored.res_saved), recall: true, ..*old(self) }),
    {
        self.stored = stored;
        self.div = Self::division(stored.res_saved);
        self.recall = true;
    }
}

/// The stored value of fader `chan` on `layer` (0 for a channel past the third).
pub open spec fn fader_value(st: Storage, chan: usize, layer: LatchLayer) -> u16 {
    match (chan, layer) {
        (0, LatchLayer::Main) => st.pitch_att,
        (0, LatchLayer::Alt) => st.pitch_length_saved,
        (0, LatchLayer::Third) => st.res_saved,
        (1, LatchLayer::Main) => st.length_att,
        (1, LatchLayer::Alt) => st.legato_att,
        (1, LatchLayer::Third) => st.octave_shift,
        (2, LatchLayer::Main) => st.beat_density,
        (2, LatchLayer::Alt) => st.accent_att,
        (2, LatchLayer::Third) => st.gate_length,
        _ => 0,
    }
}

/// The storage with fader `chan`'s value on `layer` set to `v`.
pub open spec fn with_fader(st: Storage, chan: usize, layer: LatchLayer, v: u16) -> Storage {
    match (chan, layer) {
        (0, LatchLayer::Main) => Storage { pitch_att: v, ..st },
        (0, LatchLayer::Alt) => Storage { pitch_length_saved: v, ..st },
        (0, LatchLayer::Third) => Storage { res_saved: v, ..st },
        (1, LatchLayer::Main) => Storage { length_att: v, ..st },
        (1, LatchLayer::Alt) => Storage { legato_att: v, ..st },
        (1, LatchLayer::Third) => Storage { octave_shift: v, ..st },
        (2, LatchLayer::Main) => Storage { beat_density: v, ..st },
        (2, LatchLayer::Alt) => Storage { accent_att: v, ..st },
        (2, LatchLayer::Third) => Storage { gate_length: v, ..st },
        _ => st,
    }
}

/// The LEDs of one millisecond of the layer loop.
pub open spec fn frame_lights(st: Storage, leds: Leds<3>, layer: LatchLayer, c: Color) -> Seq<GenAction> {
    match layer {
        LatchLayer::Main => seq![
            lit(leds, 0, Led::Button, c, Brightness::Low),
            lit(leds, 1, Led::Button, c, Brightness::Low),
            lit(leds, 2, Led::Button, c, Brightness::Low),
        ],
        LatchLayer::Alt => seq![
            lit(leds, 0, Led::Button, c, Brightness::Low),
            lit(leds, 1, Led::Button, c, Brightness::Low),
            lit(leds, 2, Led::Button, c, Brightness::Low),
            lit(leds, 0, Led::Top, Color::White, Brightness::Custom((st.pitch_length_saved / 16) as u8)),
            lit(leds, 1, Led::Top, Color::Cyan, Brightness::Custom((st.legato_att / 16) as u8)),
            lit(leds, 2, Led::Top, Color::Yellow, Brightness::Custom((st.accent_att / 16) as u8)),
        ],
        LatchLayer::Third => seq![
            lit(leds, 0, Led::Button, RES_COLORS[if st.res_saved / 512 > 7 { 7 } else { st.res_saved / 512 } as int], Brightness::High),
            lit(leds, 1, Led::Button, OCT_COLORS[if st.octave_shift / 819 > 4 { 4 } else { st.octave_shift / 819 } as int], Brightness::High),
            lit(leds, 2, Led::Button, c, Brightness::Low),
            dark(leds, 0, Led::Top),
            dark(leds, 1, Led::Top),
            lit(leds, 2, Led::Top, Color::White, Brightness::Custom((st.gate_length / 16) as u8)),
        ],
    }
}

/// Setting a fader and reading it back gives the value set; the other
/// faders keep theirs.
pub proof fn law_fader_roundtrip(st: Storage, chan: usize, layer: LatchLayer, v: u16, other: usize, other_layer: LatchLayer)
    requires
        chan < 3,
        other != chan || other_layer != layer,
    ensures
        fader_value(with_fader(st, chan, layer, v), chan, layer) == v,
        fader_value(with_fader(st, chan, layer, v), other, other_layer) == fader_value(st, other, other_layer),
{
}

/// At gate end a sounding note that is not legato ends: its gate
/// falls and the note that sounded stops.
pub proof fn law_gate_end_releases(s: GenSeq, leds: Leds<3>)
    requires
        s.gate_on,
        !s.legato,
        s.clkn % s.div == gate_tick(s.div, s.stored.gate_length),
    ensures
        !gate_phase(s, leds).0.gate_on,
        gate_phase(s, leds).1.last() == GenAction::NoteOff(s.last_note_on),
{
}

} // verus!
