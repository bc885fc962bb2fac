//! Turing machine: a 16-bit shift register that loops with a chance of
//! flipping the recycled bit, read out as a 12-bit value.

use vstd::prelude::*;

use crate::storage::AppStorage;
use crate::app::{LedRequest, Leds};
use crate::apps::euclid::clamp_roll;
use crate::config::Curve;
use crate::tables::{curve_at, curve_value};
use crate::types::{Brightness, Color, LatchLayer, Led, LedMode, LedMsg};

verus! {

/// The register after one step: shifted right by one, with the bit read at
/// position `16 - length` re-injected at the top, inverted when `a > b`.
pub open spec fn turing_step(x: u16, a: u16, b: u16, length: u16) -> u16 {
    let bit = ((x >> ((16 - length) as u16)) & 1) as int;
    let new_bit = if a > b {
        1 - bit
    } else {
        bit
    };
    (x / 2 + 32768 * new_bit) as u16
}

/// Steps the register: rotates right by one bit and re-injects the bit at
/// position `16 - length` at the top, inverted when `a > b` (the chance of
/// mutation). Returns the new register and whether the bit was flipped.
pub fn rotate_select_bit(x: u16, a: u16, b: u16, bit_index: u16) -> (r: (u16, bool))
    requires
        1 <= bit_index <= 16,
    ensures
        r.0 == turing_step(x, a, b, bit_index),
        r.1 == (a > b),
{
    let bit_index = 16 - bit_index;
    let original_bit = ((x >> bit_index) & 1) as u8;
    let mut bit = original_bit;
    if a > b {
        bit = bit ^ 1;
    }
    let result = (x >> 1) | ((bit as u16) << 15u16);
    proof {
        let ob = (x >> bit_index) & 1;
        assert(ob <= 1) by (bit_vector)
            requires
                ob == (x >> bit_index) & 1,
        ;
        assert(original_bit as int == ob as int);
        assert(bit <= 1) by (bit_vector)
            requires
                original_bit <= 1,
                bit == original_bit || bit == original_bit ^ 1,
        ;
        assert(bit as int == (if a > b {
            1 - original_bit
        } else {
            original_bit as int
        })) by (bit_vector)
            requires
                original_bit <= 1,
                a > b ==> bit == original_bit ^ 1,
                a <= b ==> bit == original_bit,
        ;
        let bb = bit as u16;
        assert(((x >> 1) | (bb << 15u16)) == x / 2 + 32768 * bb) by (bit_vector)
            requires
                bb <= 1,
        ;
    }
    (result, bit != original_bit)
}

/// The top `x` bits (limited to 1..=16) of `input` scaled to 0..=4095.
pub open spec fn scaled_12(input: u16, x: u8) -> u16 {
    let k = if x < 1 {
        1u8
    } else if x > 16 {
        16u8
    } else {
        x
    };
    ((input >> ((16 - k) as u16)) as int * 4095 / (((1u32 << (k as u32)) - 1) as int)) as u16
}

/// Scales the top `x` bits (1..=16) of the register to 0..=4095.
pub fn scale_to_12bit(input: u16, x: u8) -> (r: u16)
    ensures
        r == scaled_12(input, x),
        r <= 4095,
{
    let x = if x < 1 {
        1
    } else if x > 16 {
        16
    } else {
        x
    };
    let top_x_bits = input >> ((16 - x) as u16);
    let xs = x as u32;
    assert((1u32 << xs) >= 1) by (bit_vector)
        requires
            1 <= xs <= 16,
    ;
    let max_x_val: u32 = (1u32 << xs) - 1;
    let shift = (16 - x) as u16;
    let xx = x as u32;
    assert(top_x_bits as u32 <= max_x_val && max_x_val >= 1) by (bit_vector)
        requires
            1 <= xx <= 16,
            shift == 16 - xx,
            top_x_bits == input >> shift,
            max_x_val == (1u32 << xx) - 1,
    ;
    assert(top_x_bits as u32 * 4095 <= max_x_val * 4095) by (nonlinear_arith)
        requires
            top_x_bits as u32 <= max_x_val,
    ;
    assert(max_x_val * 4095 / (max_x_val as int) == 4095) by (nonlinear_arith)
        requires
            max_x_val >= 1,
    ;
    assert((top_x_bits as u32 * 4095) / (max_x_val as int) <= max_x_val * 4095 / (max_x_val as int)) by (nonlinear_arith)
        requires
            top_x_bits as u32 * 4095 <= max_x_val * 4095,
            max_x_val >= 1,
    ;
    ((top_x_bits as u32 * 4095) / max_x_val) as u16
}

/// The register keeps its history: after a step its low fifteen bits are
/// the old register shifted by one.
pub proof fn law_step_shifts_history(x: u16, a: u16, b: u16, length: u16)
    requires
        1 <= length <= 16,
    ensures
        turing_step(x, a, b, length) % 32768 == x / 2,
{
    let sh = (16 - length) as u16;
    let bit = (x >> sh) & 1;
    assert(bit <= 1) by (bit_vector)
        requires
            bit == (x >> sh) & 1,
    ;
}

/// Clock ticks per step, chosen by the resolution fader in steps of 512.
pub const RESOLUTION: [u16; 8] = [24, 16, 12, 8, 6, 4, 3, 2];

/// What the Turing app keeps: the output depth, the register length
/// (1 to 16), the register, and the resolution fader.
#[derive(Clone, Copy, Debug, PartialEq, Eq, Structural)]
pub struct Storage {
    pub att_saved: u16,
    pub length_saved: u16,
    pub register_saved: u16,
    pub res_saved: u16,
}

impl Default for Storage {
    /// Depth 3000, eight steps, an empty register, resolution 2048.
    fn default() -> (r: Self)
        ensures
            r == (Storage { att_saved: 3000, length_saved: 8, register_saved: 0, res_saved: 2048 }),
    {
        Storage { att_saved: 3000, length_saved: 8, register_saved: 0, res_saved: 2048 }
    }
}

impl AppStorage for Storage {}

/// Whether the stored values are in range: faders 12-bit, length 1 to 16.
pub open spec fn storage_ok(st: Storage) -> bool {
    st.att_saved <= 4095 && st.res_saved <= 4095 && 1 <= st.length_saved <= 16
}

/// Work for the device: the CV jack's value, MIDI notes and CCs, LEDs.
#[derive(Clone, Copy, Debug, PartialEq, Eq)]
pub enum TuringAction {
    Out(u16),
    NoteOn(u8),
    NoteOff(u8),
    Cc(u8, u16),
    Led(LedRequest),
}

/// A running Turing app: MIDI mode (0 off, 1 notes, 2 CC), CC number,
/// base note, gate length (percent), color; storage; the register, the
/// flip chance the fader holds, the division, the note playing, the tick
/// counter and last output; a pending quantization; and the 1 ms loop's
/// length recording (shift held: button presses count the length).
#[derive(Clone, Copy)]
pub struct Turing {
    pub midi_mode: u8,
    pub midi_cc: u8,
    pub base_note: u8,
    pub gatel: u16,
    pub led_color: Color,
    pub stored: Storage,
    pub register: u16,
    pub prob: u16,
    pub recall: bool,
    pub div: u16,
    pub midi_note: u8,
    pub clkn: u16,
    pub att_reg: u16,
    pub pending_scaled: Option<u16>,
    pub rec_flag: bool,
    pub length_rec: u16,
    pub shift_old: bool,
    pub button_old: bool,
}

/// The division of a resolution fader position (at most 4095).
pub open spec fn div_of(res: u16) -> u16 {
    RESOLUTION[res as int / 512]
}

/// The request for `led` of the app's channel.
pub open spec fn led_req(leds: Leds<1>, led: Led, msg: LedMsg) -> TuringAction {
    TuringAction::Led((leds.device_channel(0) as usize, led, msg))
}

/// The output before quantizing: the scaled register by the exponential
/// curve of the depth fader.
pub open spec fn depth_of(scaled: u16, att: u16) -> u16 {
    ((scaled as int * curve_value(Curve::Exponential, att) as int) / 4095) as u16
}

/// The first half of a tick, with a roll of the die: on a step the
/// register steps (flipping with the held chance against the limited
/// roll), and its scaled value by the depth waits for the quantizer.
pub open spec fn tick_start_spec(s: Turing, roll: u16) -> (Turing, Option<u16>) {
    if s.clkn % s.div == 0 {
        let len = s.stored.length_saved;
        let reg = turing_step(s.register, s.prob, clamp_roll(roll), len);
        let scaled = scaled_12(reg, len as u8);
        let att = depth_of(scaled, s.stored.att_saved);
        (Turing { register: reg, att_reg: att, pending_scaled: Some(scaled), ..s }, Some(att))
    } else {
        (Turing { pending_scaled: None, ..s }, None)
    }
}

/// The quantized note (MIDI `midi`, DAC `counts`) of a step: the jack takes
/// the counts, the top LED the scaled register; in note mode the note
/// (quantized plus base) plays, in CC mode the depth goes out as a CC;
/// the bottom LED lights red while the button is held without shift.
pub open spec fn step_out(s: Turing, leds: Leds<1>, scaled: u16, midi: u8, counts: u16, held: bool) -> (Turing, Seq<TuringAction>) {
    let note = (midi + s.base_note) as u8;
    let first = seq![
        TuringAction::Out(counts),
        led_req(leds, Led::Top, LedMsg::SetMode(LedMode::Static(s.led_color, Brightness::Custom((scaled / 16) as u8)))),
    ];
    let midi_part = if s.midi_mode == 1 {
        seq![TuringAction::NoteOn(note)]
    } else if s.midi_mode == 2 {
        seq![TuringAction::Cc(s.midi_cc, s.att_reg)]
    } else {
        Seq::empty()
    };
    let bottom = if held {
        seq![led_req(leds, Led::Bottom, LedMsg::SetMode(LedMode::Static(Color::Red, Brightness::Low)))]
    } else {
        Seq::empty()
    };
    (
        Turing { midi_note: if s.midi_mode == 1 { note } else { s.midi_note }, pending_scaled: None, ..s },
        first + midi_part + bottom,
    )
}

/// The tick within a step where gates close: its gate percentage of the
/// step, at least one tick and at most one short of the step.
pub open spec fn gate_tick(div: u16, gatel: u16) -> int {
    let g = div as int * gatel as int / 100;
    if g < 1 {
        1
    } else if g > div - 1 {
        div - 1
    } else {
        g
    }
}

/// The second half of a tick, given the quantizer's answer and whether the
/// button is held without shift: the step's output; at gate tick the
/// bottom LED goes dark (and in note mode the note stops); at the start of
/// each register cycle a scene recall puts the stored register back
/// (stopping note 0) and a changed register is stored; the counter
/// advances (wrapping at 16 bits). Returns the work and whether to save.
pub open spec fn tick_end_spec(s: Turing, leds: Leds<1>, quantized: Option<(u8, u16)>, held: bool) -> (Turing, Seq<TuringAction>, bool) {
    let (s1, a) = match (s.pending_scaled, quantized) {
        (Some(scaled), Some(q)) => step_out(s, leds, scaled, q.0, q.1, held),
        _ => (Turing { pending_scaled: None, ..s }, Seq::empty()),
    };
    let b = gate_part(s1, leds);
    let (s2, c, save) = boundary_part(s1);
    (Turing { clkn: ((s2.clkn + 1) % 65536) as u16, ..s2 }, a + b + c, save)
}

/// At gate tick the bottom LED goes dark, and in note mode the note stops.
pub open spec fn gate_part(s: Turing, leds: Leds<1>) -> Seq<TuringAction> {
    if s.clkn % s.div == gate_tick(s.div, s.gatel) {
        seq![led_req(leds, Led::Bottom, LedMsg::Reset)] + if s.midi_mode == 1 {
            seq![TuringAction::NoteOff(s.midi_note)]
        } else {
            Seq::empty()
        }
    } else {
        Seq::empty()
    }
}

/// At the start of each register cycle a scene recall puts the stored
/// register back (stopping note 0), and a changed register is stored.
pub open spec fn boundary_part(s: Turing) -> (Turing, Seq<TuringAction>, bool) {
    if (s.clkn / s.div) % s.stored.length_saved == 0 {
        let reg_old = s.stored.register_saved;
        let (s_r, c) = if s.recall {
            (Turing { register: reg_old, recall: false, ..s }, seq![TuringAction::NoteOff(0)])
        } else {
            (s, Seq::empty())
        };
        if s_r.register != reg_old {
            (Turing { stored: Storage { register_saved: s_r.register, ..s_r.stored }, ..s_r }, c, true)
        } else {
            (s_r, c, false)
        }
    } else {
        (s, Seq::empty(), false)
    }
}

impl Turing {
    /// The invariant: notes and parameters in range, storage in range, a
    /// division from the table, a recorded length of at most 16.
    pub open spec fn wf(&self) -> bool {
        &&& self.midi_mode <= 2
        &&& self.base_note <= 128
        &&& 1 <= self.gatel <= 100
        &&& storage_ok(self.stored)
        &&& 2 <= self.div <= 24
        &&& self.length_rec <= 16
        &&& self.pending_scaled matches Some(v) ==> v <= 4095
    }

    /// The app as `run` starts it from its parameters (MIDI mode 0 to 2,
    /// CC number 1 to 128, base note 1 to 128 added to quantized notes,
    /// gate length 1 to 100) and storage: the register from storage, the
    /// division from the resolution fader; the button lit.
    pub fn new(leds: &Leds<1>, midi_mode: u8, midi_cc: u8, base_note: u8, gatel: u8, led_color: Color, stored: Storage) -> (r: (Self, Vec<TuringAction>))
        requires
            midi_mode <= 2,
            1 <= midi_cc <= 128,
            1 <= base_note <= 128,
            1 <= gatel <= 100,
            storage_ok(stored),
            leds.start_channel + 1 <= usize::MAX,
        ensures
            r.0.wf(),
            r.0 == (Turing {
                midi_mode: midi_mode,
                midi_cc: (midi_cc - 1) as u8,
                base_note: base_note,
                gatel: gatel as u16,
                led_color: led_color,
                stored: stored,
                register: stored.register_saved,
                prob: 0,
                recall: false,
                div: div_of(stored.res_saved),
                midi_note: 0,
                clkn: 0,
                att_reg: 0,
                pending_scaled: None,
                rec_flag: false,
                length_rec: 0,
                shift_old: false,
                button_old: false,
            }),
            r.1@ == seq![led_req(*leds, Led::Button, LedMsg::SetMode(LedMode::Static(led_color, Brightness::Lower)))],
    {
        let mut out: Vec<TuringAction> = Vec::new();
        out.push(TuringAction::Led(leds.set(0, Led::Button, led_color, Brightness::Lower)));
        let res = RESOLUTION;
        let t = Turing {
            midi_mode,
            midi_cc: midi_cc - 1,
            base_note,
            gatel: gatel as u16,
            led_color,
            stored,
            register: stored.register_saved,
            prob: 0,
            recall: false,
            div: res[(stored.res_saved / 512) as usize],
            midi_note: 0,
            clkn: 0,
            att_reg: 0,
            pending_scaled: None,
            rec_flag: false,
            length_rec: 0,
            shift_old: false,
            button_old: false,
        };
        (t, out)
    }

    /// The first half of a clock tick with a roll of the die: see
    /// `tick_start_spec`. A returned value goes to the quantizer, whose
    /// answer goes to `tick_end`.
    pub fn tick_start(&mut self, roll: u16) -> (r: Option<u16>)
        requires
            old(self).wf(),
        ensures
            final(self).wf(),
            (*final(self), r) == tick_start_spec(*old(self), roll),
    {
        if self.clkn % self.div == 0 {
            let len = self.stored.length_saved;
            let rand = if roll < 100 {
                100
            } else if roll > 3900 {
                3900
            } else {
                roll
            };
            self.register = rotate_select_bit(self.register, self.prob, rand, len).0;
            let scaled = scale_to_12bit(self.register, len as u8);
            let curve = curve_at(Curve::Exponential, self.stored.att_saved);
            assert(scaled as u32 * curve as u32 <= 4095 * 4095) by (nonlinear_arith)
                requires
                    scaled <= 4095 && curve <= 4095,
            ;
            let att = ((scaled as u32 * curve as u32) / 4095) as u16;
            self.att_reg = att;
            self.pending_scaled = Some(scaled);
            Some(att)
        } else {
            self.pending_scaled = None;
            None
        }
    }

    /// The second half of a clock tick, with the quantizer's answer (MIDI
    /// note 0 to 127, DAC counts) and whether the button is held without
    /// shift: see `tick_end_spec`. Returns the work and whether to save.
    pub fn tick_end(&mut self, leds: &Leds<1>, quantized: Option<(u8, u16)>, held: bool) -> (r: (Vec<TuringAction>, bool))
        requires
            old(self).wf(),
            leds.start_channel + 1 <= usize::MAX,
            quantized matches Some(q) ==> q.0 <= 127,
        ensures
            final(self).wf(),
            (*final(self), r.0@, r.1) == tick_end_spec(*old(self), *leds, quantized, held),
    {
        let mut out: Vec<TuringAction> = Vec::new();
        self.emit_step(leds, quantized, held, &mut out);
        let ghost a = out@;
        self.emit_gate(leds, &mut out);
        let ghost ab = out@;
        let save = self.cycle_start(&mut out);
        self.clkn = self.clkn.wrapping_add(1);
        proof {
            assert(a =~= Seq::<TuringAction>::empty() + a);
        }
        (out, save)
    }

    fn emit_step(&mut self, leds: &Leds<1>, quantized: Option<(u8, u16)>, held: bool, out: &mut Vec<TuringAction>)
        requires
            old(self).wf(),
            leds.start_channel + 1 <= usize::MAX,
            quantized matches Some(q) ==> q.0 <= 127,
        ensures
            final(self).wf(),
            *final(self) == match (old(self).pending_scaled, quantized) {
                (Some(scaled), Some(q)) => step_out(*old(self), *leds, scaled, q.0, q.1, held).0,
                _ => Turing { pending_scaled: None, ..*old(self) },
            },
            final(out)@ == old(out)@ + tick_end_spec_a(*old(self), *leds, quantized, held),
    {
        let ghost start = out@;
        match (self.pending_scaled, quantized) {
            (Some(scaled), Some(q)) => {
                let note = q.0 + self.base_note;
                out.push(TuringAction::Out(q.1));
                out.push(TuringAction::Led(leds.set(0, Led::Top, self.led_color, Brightness::Custom((scaled / 16) as u8))));
                if self.midi_mode == 1 {
                    out.push(TuringAction::NoteOn(note));
                    self.midi_note = note;
                }
                if self.midi_mode == 2 {
                    out.push(TuringAction::Cc(self.midi_cc, self.att_reg));
                }
                if held {
                    out.push(TuringAction::Led(leds.set(0, Led::Bottom, Color::Red, Brightness::Low)));
                }
            },
            _ => {},
        }
        self.pending_scaled = None;
        assert(out@ =~= start + tick_end_spec_a(*old(self), *leds, quantized, held));
    }

    fn emit_gate(&self, leds: &Leds<1>, out: &mut Vec<TuringAction>)
        requires
            self.wf(),
            leds.start_channel + 1 <= usize::MAX,
        ensures
            final(out)@ == old(out)@ + gate_part(*self, *leds),
    {
        assert(self.div * self.gatel <= 24 * 100) by (nonlinear_arith)
            requires
                self.div <= 24 && self.gatel <= 100,
        ;
        let g0 = self.div * self.gatel / 100;
        let g = if g0 < 1 {
            1
        } else if g0 > self.div - 1 {
            self.div - 1
        } else {
            g0
        };
        if self.clkn % self.div == g {
            out.push(TuringAction::Led(leds.unset(0, Led::Bottom)));
            if self.midi_mode == 1 {
                out.push(TuringAction::NoteOff(self.midi_note));
            }
        }
        assert(out@ =~= old(out)@ + gate_part(*self, *leds));
    }

    fn cycle_start(&mut self, out: &mut Vec<TuringAction>) -> (save: bool)
        requires
            old(self).wf(),
        ensures
            final(self).wf(),
            (*final(self), final(out)@, save) == ({
                let p = boundary_part(*old(self));
                (p.0, old(out)@ + p.1, p.2)
            }),
    {
        let mut save = false;
        if (self.clkn / self.div) % self.stored.length_saved == 0 {
            let reg_old = self.stored.register_saved;
            if self.recall {
                self.register = reg_old;
                self.recall = false;
                out.push(TuringAction::NoteOff(0));
            }
            if self.register != reg_old {
                self.stored.register_saved = self.register;
                save = true;
            }
        }
        assert(out@ =~= old(out)@ + boundary_part(*old(self)).1);
        save
    }

    /// Clock reset: the count restarts, the note of the last output stops,
    /// the register returns to the stored one.
    pub fn on_reset(&mut self) -> (r: TuringAction)
        requires
            old(self).wf(),
        ensures
            final(self).wf(),
            *final(self) == (Turing { clkn: 0, register: old(self).stored.register_saved, ..*old(self) }),
            r == TuringAction::NoteOff((old(self).att_reg / 32) as u8),
    {
        self.clkn = 0;
        self.register = self.stored.register_saved;
        TuringAction::NoteOff((self.att_reg / 32) as u8)
    }

    /// Where the fader's latch picks up on `layer`: the flip chance, the
    /// stored depth, or the stored resolution.
    pub fn latch_target(&self, layer: LatchLayer) -> (r: u16)
        ensures
            r == match layer {
                LatchLayer::Main => self.prob,
                LatchLayer::Alt => self.stored.att_saved,
                LatchLayer::Third => self.stored.res_saved,
            },
    {
        match layer {
            LatchLayer::Main => self.prob,
            LatchLayer::Alt => self.stored.att_saved,
            LatchLayer::Third => self.stored.res_saved,
        }
    }

    /// The fader gave the latch's value `v` (12-bit) on `layer`: the flip
    /// chance (not saved), the depth (saved), or the resolution (saved; the
    /// division follows and the note playing stops).
    pub fn on_fader(&mut self, layer: LatchLayer, v: u16) -> (r: (Vec<TuringAction>, bool))
        requires
            old(self).wf(),
            v <= 4095,
        ensures
            final(self).wf(),
            layer == LatchLayer::Main ==> *final(self) == (Turing { prob: v, ..*old(self) }) && r.0@.len() == 0 && !r.1,
            layer == LatchLayer::Alt ==> *final(self) == (Turing { stored: Storage { att_saved: v, ..old(self).stored }, ..*old(self) })
                && r.0@.len() == 0 && r.1,
            layer == LatchLayer::Third ==> *final(self) == (Turing {
                stored: Storage { res_saved: v, ..old(self).stored },
                div: div_of(v),
                ..*old(self)
            }) && r.0@ == seq![TuringAction::NoteOff(old(self).midi_note)] && r.1,
    {
        let mut out: Vec<TuringAction> = Vec::new();
        match layer {
            LatchLayer::Main => {
                self.prob = v;
                (out, false)
            },
            LatchLayer::Alt => {
                self.stored.att_saved = v;
                (out, true)
            },
            LatchLayer::Third => {
                let res = RESOLUTION;
                self.div = res[(v / 512) as usize];
                out.push(TuringAction::NoteOff(self.midi_note));
                self.stored.res_saved = v;
                (out, true)
            },
        }
    }

    /// The button went down (with shift or not): while the length is being
    /// recorded, a press with shift counts one more step, up to 16.
    pub fn on_button_down(&mut self, shift: bool)
        ensures
            *final(self) == (Turing {
                length_rec: if shift && old(self).rec_flag {
                    if old(self).length_rec + 1 > 16 { 16 } else { (old(self).length_rec + 1) as u16 }
                } else {
                    old(self).length_rec
                },
                ..*old(self)
            }),
            old(self).wf() ==> final(self).wf(),
    {
        if shift && self.rec_flag {
            let l = if self.length_rec >= 16 {
                16
            } else {
                self.length_rec + 1
            };
            self.length_rec = l;
        }
    }

    /// One millisecond of the 1 ms loop, with shift and the button's state:
    /// pressing shift starts a length recording (from 0) and, while held,
    /// the top LED shows the depth in red; releasing shift ends it and
    /// stores (and saves) a recorded length of at least 1; releasing the
    /// button darkens the bottom LED. Returns the work and whether to save.
    pub fn on_frame(&mut self, leds: &Leds<1>, shift: bool, button: bool) -> (r: (Vec<TuringAction>, bool))
        requires
            old(self).wf(),
            leds.start_channel + 1 <= usize::MAX,
        ensures
            final(self).wf(),
            (*final(self), r.0@, r.1) == frame_spec(*old(self), *leds, shift, button),
    {
        let mut out: Vec<TuringAction> = Vec::new();
        let mut save = false;
        if shift {
            if !self.shift_old {
                self.shift_old = true;
                self.rec_flag = true;
                self.length_rec = 0;
            }
            out.push(TuringAction::Led(leds.set(0, Led::Top, Color::Red, Brightness::Custom((self.stored.att_saved / 16) as u8))));
        }
        if !shift && self.shift_old {
            self.shift_old = false;
            self.rec_flag = false;
            let length = self.length_rec;
            if length >= 1 {
                self.stored.length_saved = length;
                save = true;
            }
        }
        if button {
            if !self.button_old {
                self.button_old = true;
            }
        }
        if !button && self.button_old {
            self.button_old = false;
            out.push(TuringAction::Led(leds.unset(0, Led::Bottom)));
        }
        assert(out@ =~= frame_spec(*old(self), *leds, shift, button).1);
        (out, save)
    }

    /// A scene was loaded: the app takes its storage and division, the flip
    /// chance goes to 0, and the next cycle start recalls the stored register.
    pub fn on_scene_load(&mut self, stored: Storage)
        requires
            old(self).wf(),
            storage_ok(stored),
        ensures
            final(self).wf(),
            *final(self) == (Turing { stored: stored, recall: true, prob: 0, div: div_of(stored.res_saved), ..*old(self) }),
    {
        self.stored = stored;
        self.recall = true;
        self.prob = 0;
        let res = RESOLUTION;
        self.div = res[(stored.res_saved / 512) as usize];
    }
}

/// The output part of `tick_end_spec`.
pub open spec fn tick_end_spec_a(s: Turing, leds: Leds<1>, quantized: Option<(u8, u16)>, held: bool) -> Seq<TuringAction> {
    match (s.pending_scaled, quantized) {
        (Some(scaled), Some(q)) => step_out(s, leds, scaled, q.0, q.1, held).1,
        _ => Seq::empty(),
    }
}

/// One millisecond of the 1 ms loop (see `Turing::on_frame`).
pub open spec fn frame_spec(s: Turing, leds: Leds<1>, shift: bool, button: bool) -> (Turing, Seq<TuringAction>, bool) {
    let s1 = if shift && !s.shift_old { Turing { shift_old: true, rec_flag: true, length_rec: 0, ..s } } else { s };
    let a = if shift {
        seq![led_req(leds, Led::Top, LedMsg::SetMode(LedMode::Static(Color::Red, Brightness::Custom((s.stored.att_saved / 16) as u8))))]
    } else {
        Seq::empty()
    };
    let (s2, save) = if !shift && s1.shift_old {
        let t = Turing { shift_old: false, rec_flag: false, ..s1 };
        if t.length_rec >= 1 {
            (Turing { stored: Storage { length_saved: t.length_rec, ..t.stored }, ..t }, true)
        } else {
            (t, false)
        }
    } else {
        (s1, false)
    };
    let s3 = if button { Turing { button_old: true, ..s2 } } else { s2 };
    if !button && s3.button_old {
        (Turing { button_old: false, ..s3 }, a + seq![led_req(leds, Led::Bottom, LedMsg::Reset)], save)
    } else {
        (s3, a, save)
    }
}

/// Holding shift and pressing the button `k` times (1 to 16) records a
/// register length of `k`: with the recording started, `k` presses with
/// shift count `k`, and releasing shift stores it.
pub proof fn law_length_recording(s: Turing, leds: Leds<1>, k: nat)
    requires
        s.wf(),
        1 <= k <= 16,
        s.rec_flag && s.shift_old && s.length_rec == 0,
        !s.button_old,
    ensures
        ({
            let counted = press_n(s, k);
            let (t, _, save) = frame_spec(counted, leds, false, false);
            t.stored.length_saved == k && save && !t.rec_flag
        }),
{
    lemma_press_n(s, k);
}

/// The app after `k` presses of the button with shift.
pub open spec fn press_n(s: Turing, k: nat) -> Turing
    decreases k,
{
    if k == 0 {
        s
    } else {
        let t = press_n(s, (k - 1) as nat);
        Turing {
            length_rec: if t.rec_flag {
                if t.length_rec + 1 > 16 { 16 } else { (t.length_rec + 1) as u16 }
            } else {
                t.length_rec
            },
            ..t
        }
    }
}

proof fn lemma_press_n(s: Turing, k: nat)
    requires
        s.rec_flag && s.length_rec == 0,
        k <= 16,
    ensures
        press_n(s, k).length_rec == k,
        press_n(s, k) == (Turing { length_rec: k as u16, ..s }),
    decreases k,
{
    if k > 0 {
        lemma_press_n(s, (k - 1) as nat);
    }
}

} // verus!
