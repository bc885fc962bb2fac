//! Clocked Turing machine: the shift-register step reads its loop bit
//! counted from the top of the register.

use vstd::prelude::*;

use crate::storage::AppStorage;
use crate::app::{LedRequest, Leds};
use crate::apps::euclid::clamp_roll;
use crate::apps::turing::scaled_12;
use crate::types::{Brightness, Color, Led, LedMode, LedMsg};

pub use crate::apps::turing::scale_to_12bit;

verus! {

/// The register after one step: shifted right by one, with the bit read at
/// position `15 - bit_index` re-injected at the top, inverted when `a > b`.
pub open spec fn clk_turing_step(x: u16, a: u16, b: u16, bit_index: u16) -> u16 {
    crate::apps::turing::turing_step(x, a, b, (bit_index + 1) as u16)
}

/// Steps the register, reading the loop bit at position `15 - bit_index`.
/// Returns the new register and whether the bit was flipped.
pub fn rotate_select_bit(x: u16, a: u16, b: u16, bit_index: u16) -> (r: (u16, bool))
    requires
        bit_index <= 15,
    ensures
        r.0 == clk_turing_step(x, a, b, bit_index),
        r.1 == (a > b),
{
    crate::apps::turing::rotate_select_bit(x, a, b, bit_index + 1)
}

/// Input level (0 to 10 V range) at which the clock input counts as high.
pub const THRESHOLD: u16 = 406;

/// What the clocked Turing app keeps: the output depth, the register
/// length and the register.
#[derive(Clone, Copy, Debug, PartialEq, Eq, Structural)]
pub struct Storage {
    pub att_saved: u16,
    pub length_saved: u16,
    pub register_saved: u16,
}

impl Default for Storage {
    /// Depth 3000, eight steps, an empty register.
    fn default() -> (r: Self)
        ensures
            r == (Storage { att_saved: 3000, length_saved: 8, register_saved: 0 }),
    {
        Storage { att_saved: 3000, length_saved: 8, register_saved: 0 }
    }
}

impl AppStorage for Storage {}

/// Whether the stored values can run: depth 12-bit, length at most 15.
pub open spec fn storage_ok(st: Storage) -> bool {
    st.att_saved <= 4095 && st.length_saved <= 15
}

/// Work for the device: the output jack's value, MIDI notes and CCs, LEDs.
#[derive(Clone, Copy, Debug, PartialEq, Eq)]
pub enum ClkAction {
    Out(u16),
    NoteOn(u8),
    NoteOff(u8),
    Cc(u8, u16),
    Led(LedRequest),
}

/// A running clocked Turing app: MIDI mode (0 off, 1 notes, 2 CC), CC
/// number, color, storage; the flip chance, the register length and the
/// register between steps, the register of the step, the note playing,
/// the last output, the last input level and the one being handled, a
/// pending quantization; the length recording; which fader change counts.
#[derive(Clone, Copy)]
pub struct ClkTuring {
    pub midi_mode: u8,
    pub midi_cc: u8,
    pub led_color: Color,
    pub stored: Storage,
    pub prob: u16,
    pub length: u16,
    pub register_glob: u16,
    pub register: u16,
    pub midi_note: u8,
    pub att_reg: u16,
    pub old_input: u16,
    pub input: u16,
    pub pending_scaled: Option<u16>,
    pub rec_flag: bool,
    pub length_rec: u16,
    pub shift_old: bool,
    pub fader_armed: bool,
}

/// The request for `led` of local channel `chan`.
pub open spec fn led_req(leds: Leds<2>, chan: usize, led: Led, msg: LedMsg) -> ClkAction {
    ClkAction::Led((leds.device_channel(chan) as usize, led, msg))
}

/// The first half of a millisecond with the input at `input` and a roll of
/// the die: on a rising edge past the threshold the register steps from
/// the one kept between steps (flipping with the held chance against the
/// limited roll), and its scaled value by the depth waits for the quantizer.
pub open spec fn ms_start_spec(s: ClkTuring, input: u16, roll: u16) -> (ClkTuring, Option<u16>) {
    if input >= THRESHOLD && s.old_input < THRESHOLD {
        let reg = clk_turing_step(s.register_glob, s.prob, clamp_roll(roll), s.length);
        let scaled = scaled_12(reg, s.length as u8);
        let att = ((scaled as int * s.stored.att_saved as int) / 4095) as u16;
        (ClkTuring { register: reg, att_reg: att, pending_scaled: Some(scaled), input: input, ..s }, Some(att))
    } else {
        (ClkTuring { pending_scaled: None, input: input, ..s }, None)
    }
}

/// The second half of a millisecond, with the quantizer's answer (MIDI
/// note, DAC counts): after a rising edge the output takes the counts, the
/// top LEDs show register and output, the note or CC goes out by the MIDI
/// mode, and the first bottom LED lights red; on a falling edge it goes
/// dark, the note stops (note mode) and the step's register is kept.
pub open spec fn ms_end_spec(s: ClkTuring, leds: Leds<2>, quantized: Option<(u8, u16)>) -> (ClkTuring, Seq<ClkAction>) {
    let (s1, a) = match (s.pending_scaled, quantized) {
        (Some(scaled), Some(q)) => (
            ClkTuring { midi_note: if s.midi_mode == 1 { q.0 } else { s.midi_note }, pending_scaled: None, ..s },
            seq![
                ClkAction::Out(q.1),
                led_req(leds, 0, Led::Top, LedMsg::SetMode(LedMode::Static(s.led_color, Brightness::Custom((scaled / 16) as u8)))),
                led_req(leds, 1, Led::Top, LedMsg::SetMode(LedMode::Static(s.led_color, Brightness::Custom((s.att_reg / 16) as u8)))),
            ] + (if s.midi_mode == 1 {
                seq![ClkAction::NoteOn(q.0)]
            } else if s.midi_mode == 2 {
                seq![ClkAction::Cc(s.midi_cc, s.att_reg)]
            } else {
                Seq::empty()
            }) + seq![led_req(leds, 0, Led::Bottom, LedMsg::SetMode(LedMode::Static(Color::Red, Brightness::Low)))],
        ),
        _ => (ClkTuring { pending_scaled: None, ..s }, Seq::empty()),
    };
    if s1.input <= THRESHOLD && s1.old_input > THRESHOLD {
        (
            ClkTuring { register_glob: s1.register, old_input: s1.input, ..s1 },
            a + seq![led_req(leds, 0, Led::Bottom, LedMsg::SetMode(LedMode::Static(Color::Red, Brightness::Custom(0))))]
                + if s1.midi_mode == 1 { seq![ClkAction::NoteOff(s1.midi_note)] } else { Seq::empty() },
        )
    } else {
        (ClkTuring { old_input: s1.input, ..s1 }, a)
    }
}

impl ClkTuring {
    /// The invariant: MIDI mode in range, depth 12-bit, a stored length of
    /// at most 16, a register length of at most 15, a recorded length of at
    /// most 16.
    pub open spec fn wf(&self) -> bool {
        &&& self.midi_mode <= 2
        &&& self.stored.att_saved <= 4095 && self.stored.length_saved <= 16
        &&& self.length <= 15
        &&& self.length_rec <= 16
        &&& self.pending_scaled matches Some(v) ==> v <= 4095
    }

    /// The app as `run` starts it from its parameters (MIDI mode 0 to 2,
    /// CC number 1 to 128) and storage: length and register from storage;
    /// both buttons lit.
    pub fn new(leds: &Leds<2>, midi_mode: u8, midi_cc: u8, led_color: Color, stored: Storage) -> (r: (Self, Vec<ClkAction>))
        requires
            midi_mode <= 2,
            1 <= midi_cc <= 128,
            storage_ok(stored),
            leds.start_channel + 2 <= usize::MAX,
        ensures
            r.0.wf(),
            r.0 == (ClkTuring {
                midi_mode: midi_mode,
                midi_cc: (midi_cc - 1) as u8,
                led_color: led_color,
                stored: stored,
                prob: 0,
                length: stored.length_saved,
                register_glob: stored.register_saved,
                register: stored.register_saved,
                midi_note: 0,
                att_reg: 0,
                old_input: 0,
                input: 0,
                pending_scaled: None,
                rec_flag: false,
                length_rec: 0,
                shift_old: false,
                fader_armed: false,
            }),
            r.1@ == seq![
                led_req(*leds, 0, Led::Button, LedMsg::SetMode(LedMode::Static(led_color, Brightness::Lower))),
                led_req(*leds, 1, Led::Button, LedMsg::SetMode(LedMode::Static(led_color, Brightness::Lower))),
            ],
    {
        let mut out: Vec<ClkAction> = Vec::new();
        out.push(ClkAction::Led(leds.set(0, Led::Button, led_color, Brightness::Lower)));
        out.push(ClkAction::Led(leds.set(1, Led::Button, led_color, Brightness::Lower)));
        let t = ClkTuring {
            midi_mode,
            midi_cc: midi_cc - 1,
            led_color,
            stored,
            prob: 0,
            length: stored.length_saved,
            register_glob: stored.register_saved,
            register: stored.register_saved,
            midi_note: 0,
            att_reg: 0,
            old_input: 0,
            input: 0,
            pending_scaled: None,
            rec_flag: false,
            length_rec: 0,
            shift_old: false,
            fader_armed: false,
        };
        (t, out)
    }

    /// The first half of a millisecond: see `ms_start_spec`. A returned
    /// value goes to the quantizer, whose answer goes to `ms_end`.
    pub fn ms_start(&mut self, input: u16, roll: u16) -> (r: Option<u16>)
        requires
            old(self).wf(),
        ensures
            final(self).wf(),
            (*final(self), r) == ms_start_spec(*old(self), input, roll),
    {
        self.input = input;
        if input >= THRESHOLD && self.old_input < THRESHOLD {
            let rand = if roll < 100 {
                100
            } else if roll > 3900 {
                3900
            } else {
                roll
            };
            self.register = rotate_select_bit(self.register_glob, self.prob, rand, self.length).0;
            let scaled = scale_to_12bit(self.register, self.length as u8);
            assert(scaled as u32 * self.stored.att_saved as u32 <= 4095 * 4095) by (nonlinear_arith)
                requires
                    scaled <= 4095 && self.stored.att_saved <= 4095,
            ;
            let att = (scaled as u32 * self.stored.att_saved as u32 / 4095) as u16;
            self.att_reg = att;
            self.pending_scaled = Some(scaled);
            Some(att)
        } else {
            self.pending_scaled = None;
            None
        }
    }

    /// The second half of a millisecond, with the quantizer's answer (MIDI
    /// note 0 to 127, DAC counts): see `ms_end_spec`.
    pub fn ms_end(&mut self, leds: &Leds<2>, quantized: Option<(u8, u16)>) -> (r: Vec<ClkAction>)
        requires
            old(self).wf(),
            leds.start_channel + 2 <= usize::MAX,
        ensures
            final(self).wf(),
            (*final(self), r@) == ms_end_spec(*old(self), *leds, quantized),
    {
        let mut out: Vec<ClkAction> = Vec::new();
        match (self.pending_scaled, quantized) {
            (Some(scaled), Some(q)) => {
                out.push(ClkAction::Out(q.1));
                out.push(ClkAction::Led(leds.set(0, Led::Top, self.led_color, Brightness::Custom((scaled / 16) as u8))));
                out.push(ClkAction::Led(leds.set(1, Led::Top, self.led_color, Brightness::Custom((self.att_reg / 16) as u8))));
                if self.midi_mode == 1 {
                    out.push(ClkAction::NoteOn(q.0));
                    self.midi_note = q.0;
                }
                if self.midi_mode == 2 {
                    out.push(ClkAction::Cc(self.midi_cc, self.att_reg));
                }
                out.push(ClkAction::Led(leds.set(0, Led::Bottom, Color::Red, Brightness::Low)));
            },
            _ => {},
        }
        self.pending_scaled = None;
        let ghost a = out@;
        if self.input <= THRESHOLD && self.old_input > THRESHOLD {
            out.push(ClkAction::Led(leds.set(0, Led::Bottom, Color::Red, Brightness::Custom(0))));
            if self.midi_mode == 1 {
                out.push(ClkAction::NoteOff(self.midi_note));
            }
            self.register_glob = self.register;
        }
        self.old_input = self.input;
        proof {
            let e = ms_end_spec(*old(self), *leds, quantized);
            let aa = match (old(self).pending_scaled, quantized) {
                (Some(scaled), Some(q)) => seq![
                    ClkAction::Out(q.1),
                    led_req(*leds, 0, Led::Top, LedMsg::SetMode(LedMode::Static(old(self).led_color, Brightness::Custom((scaled / 16) as u8)))),
                    led_req(*leds, 1, Led::Top, LedMsg::SetMode(LedMode::Static(old(self).led_color, Brightness::Custom((old(self).att_reg / 16) as u8)))),
                ] + (if old(self).midi_mode == 1 {
                    seq![ClkAction::NoteOn(q.0)]
                } else if old(self).midi_mode == 2 {
                    seq![ClkAction::Cc(old(self).midi_cc, old(self).att_reg)]
                } else {
                    Seq::empty()
                }) + seq![led_req(*leds, 0, Led::Bottom, LedMsg::SetMode(LedMode::Static(Color::Red, Brightness::Low)))],
                _ => Seq::empty(),
            };
            assert(a =~= aa);
            assert(out@ =~= e.1);
        }
        out
    }

    /// A fader change arrived: only every second one is handled (the
    /// handler waits for two changes). Returns whether this one is.
    pub fn fader_event(&mut self) -> (handled: bool)
        ensures
            handled == old(self).fader_armed,
            *final(self) == (ClkTuring { fader_armed: !old(self).fader_armed, ..*old(self) }),
            old(self).wf() ==> final(self).wf(),
    {
        let handled = self.fader_armed;
        self.fader_armed = !handled;
        handled
    }

    /// A handled fader change gave the latch's value `v` (12-bit): the first
    /// fader sets the flip chance, the second the depth (saved). Returns
    /// whether to save.
    pub fn on_fader(&mut self, chan: usize, v: u16) -> (save: bool)
        requires
            old(self).wf(),
            v <= 4095,
        ensures
            final(self).wf(),
            save == (chan == 1),
            chan == 0 ==> *final(self) == (ClkTuring { prob: v, ..*old(self) }),
            chan == 1 ==> *final(self) == (ClkTuring { stored: Storage { att_saved: v, ..old(self).stored }, ..*old(self) }),
            chan > 1 ==> *final(self) == *old(self),
    {
        if chan == 0 {
            self.prob = v;
            false
        } else if chan == 1 {
            self.stored.att_saved = v;
            true
        } else {
            false
        }
    }

    /// The first button went down: while the length is being recorded, a
    /// press with shift counts one more, up to 16.
    pub fn on_button_down(&mut self, shift: bool)
        ensures
            *final(self) == (ClkTuring {
                length_rec: if shift && old(self).rec_flag {
                    if old(self).length_rec + 1 > 16 { 16 } else { (old(self).length_rec + 1) as u16 }
                } else {
                    old(self).length_rec
                },
                ..*old(self)
            }),
            old(self).wf() ==> final(self).wf(),
    {
        if shift && self.rec_flag {
            self.length_rec = if self.length_rec >= 16 {
                16
            } else {
                self.length_rec + 1
            };
        }
    }

    /// One millisecond of the shift loop: pressing shift starts a length
    /// recording from 0; releasing it ends the recording, and a count of
    /// more than one becomes the length less one (the count is saved).
    /// Returns whether to save.
    pub fn on_shift_frame(&mut self, shift: bool) -> (save: bool)
        requires
            old(self).wf(),
        ensures
            final(self).wf(),
            shift && !old(self).shift_old ==> !save && *final(self) == (ClkTuring { shift_old: true, rec_flag: true, length_rec: 0, ..*old(self) }),
            shift && old(self).shift_old ==> !save && *final(self) == *old(self),
            !shift && old(self).shift_old ==> save == (old(self).length_rec > 1) && *final(self) == if old(self).length_rec > 1 {
                ClkTuring {
                    shift_old: false,
                    rec_flag: false,
                    length: (old(self).length_rec - 1) as u16,
                    stored: Storage { length_saved: old(self).length_rec, ..old(self).stored },
                    ..*old(self)
                }
            } else {
                ClkTuring { shift_old: false, rec_flag: false, ..*old(self) }
            },
            !shift && !old(self).shift_old ==> !save && *final(self) == *old(self),
    {
        if shift {
            if !self.shift_old {
                self.shift_old = true;
                self.rec_flag = true;
                self.length_rec = 0;
            }
            return false;
        }
        if self.shift_old {
            self.shift_old = false;
            self.rec_flag = false;
            let length = self.length_rec;
            if length > 1 {
                self.length = length - 1;
                self.stored.length_saved = length;
                return true;
            }
        }
        false
    }

    /// A scene was loaded (its length at most 15): the app takes its
    /// storage, length and register, and the flip chance goes to 0.
    pub fn on_scene_load(&mut self, stored: Storage)
        requires
            old(self).wf(),
            storage_ok(stored),
        ensures
            final(self).wf(),
            *final(self) == (ClkTuring {
                stored: stored,
                length: stored.length_saved,
                register_glob: stored.register_saved,
                prob: 0,
                ..*old(self)
            }),
    {
        self.stored = stored;
        self.length = stored.length_saved;
        self.register_glob = stored.register_saved;
        self.prob = 0;
    }
}

/// A step only happens on a rising edge: with the input staying on the
/// same side of the threshold, a millisecond neither steps the register
/// nor asks the quantizer.
pub proof fn law_no_edge_no_step(s: ClkTuring, input: u16, roll: u16)
    requires
        (input >= THRESHOLD) == (s.old_input >= THRESHOLD),
    ensures
        ms_start_spec(s, input, roll).1 is None,
        ms_start_spec(s, input, roll).0.register == s.register,
{
}

/// A step's register is kept for the next step only when the input falls:
/// the register between steps changes on a falling edge and nowhere else.
pub proof fn law_register_kept_on_fall(s: ClkTuring, leds: Leds<2>, quantized: Option<(u8, u16)>)
    requires
        !(s.input <= THRESHOLD && s.old_input > THRESHOLD),
    ensures
        ms_end_spec(s, leds, quantized).0.register_glob == s.register_glob,
        ms_end_spec(s, leds, quantized).0.old_input == s.input,
{
}

} // verus!
