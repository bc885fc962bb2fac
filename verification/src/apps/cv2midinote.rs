//! CV to MIDI note: a gate samples the pitch input and plays it as a note,
//! transposed by octaves and semitones.

use vstd::prelude::*;

use crate::storage::AppStorage;
use crate::app::{LedRequest, Leds};
use crate::scaling::{split_unsigned, split_unsigned_value};
use crate::types::{Brightness, Color, LatchLayer, Led, LedMode, LedMsg};

verus! {

/// Brightness of the button LEDs.
pub const BUTTON_BRIGHTNESS: Brightness = Brightness::Low;
/// Input level (0 to 10 V range) at which a gate input counts as high.
pub const THRESHOLD: u16 = 406;

/// What the converter keeps: the semitone and octave faders, and mute.
#[derive(Clone, Copy, Debug)]
pub struct Storage {
    pub fader_saved: [u16; 2],
    pub muted: bool,
}

impl Default for Storage {
    /// No semitone shift, lowest octave fader, playing.
    fn default() -> (r: Self)
        ensures
            r.fader_saved[0] == 2047 && r.fader_saved[1] == 0 && !r.muted,
    {
        Storage { fader_saved: [2047, 0], muted: false }
    }
}

impl AppStorage for Storage {}

/// Whether both stored faders are within their 12-bit range.
pub open spec fn storage_ok(st: Storage) -> bool {
    st.fader_saved[0] <= 4095 && st.fader_saved[1] <= 4095
}

/// Work for the device: MIDI notes, LEDs.
#[derive(Clone, Copy, Debug, PartialEq, Eq)]
pub enum CvNoteAction {
    NoteOn(u8),
    NoteOff(u8),
    Led(LedRequest),
}

/// A running converter: color, storage, mute, the last note, whether it
/// sounds, the last gate level, and whether a sample is awaited.
#[derive(Clone, Copy)]
pub struct CvToNote {
    pub led_color: Color,
    pub stored: Storage,
    pub muted: bool,
    pub note: i32,
    pub note_on: bool,
    pub old_gate: u16,
    pub awaiting: bool,
}

/// The light `color` at `b` on `led` of `chan`.
pub open spec fn lit(leds: Leds<2>, chan: usize, led: Led, color: Color, b: Brightness) -> CvNoteAction {
    CvNoteAction::Led((leds.device_channel(chan) as usize, led, LedMsg::SetMode(LedMode::Static(color, b))))
}

/// The darkened `led` of `chan`.
pub open spec fn dark(leds: Leds<2>, chan: usize, led: Led) -> CvNoteAction {
    CvNoteAction::Led((leds.device_channel(chan) as usize, led, LedMsg::Reset))
}

/// The note of an input sample: the input over 0..=120 semitones, plus
/// the octave fader's -5 to +5 octaves and the semitone fader's 0 to 12,
/// limited to 0..=120.
pub open spec fn note_of(input: u16, st: Storage) -> int {
    let base = ((if input > 4095 { 4095 } else { input as int }) + 5) * 120 / 4095;
    let n = base + (st.fader_saved[1] as int * 10 / 4095 - 5) * 12 + st.fader_saved[0] as int * 12 / 4095;
    if n < 0 { 0 } else if n > 120 { 120 } else { n }
}

/// The LEDs that show a note (its place in 0..=120 split over the first
/// channel's top and bottom, each level doubled in 8 bits) and light the
/// second channel's top.
pub open spec fn note_lights(leds: Leds<2>, note: int, color: Color) -> Seq<CvNoteAction> {
    let pair = split_unsigned((note * 4095 / 120) as u16);
    seq![
        lit(leds, 0, Led::Top, color, Brightness::Custom(((pair[0] as nat * 2) % 256) as u8)),
        lit(leds, 0, Led::Bottom, color, Brightness::Custom(((pair[1] as nat * 2) % 256) as u8)),
        lit(leds, 1, Led::Top, color, Brightness::Lower),
    ]
}

impl CvToNote {
    /// The invariant: stored faders in range and a note within 0..=120.
    pub open spec fn wf(&self) -> bool {
        storage_ok(self.stored) && 0 <= self.note <= 120
    }

    /// The converter as `run` starts it: muted, the second button dark;
    /// else both buttons lit.
    pub fn new(leds: &Leds<2>, led_color: Color, stored: Storage) -> (r: (Self, Vec<CvNoteAction>))
        requires
            storage_ok(stored),
            leds.start_channel + 2 <= usize::MAX,
        ensures
            r.0.wf(),
            r.0 == (CvToNote { led_color: led_color, stored: stored, muted: stored.muted, note: 0, note_on: false, old_gate: 0, awaiting: false }),
            r.1@ == if stored.muted {
                seq![dark(*leds, 1, Led::Button)]
            } else {
                seq![lit(*leds, 1, Led::Button, led_color, BUTTON_BRIGHTNESS), lit(*leds, 0, Led::Button, led_color, BUTTON_BRIGHTNESS)]
            },
    {
        let mut out: Vec<CvNoteAction> = Vec::new();
        if stored.muted {
            out.push(CvNoteAction::Led(leds.unset(1, Led::Button)));
        } else {
            out.push(CvNoteAction::Led(leds.set(1, Led::Button, led_color, BUTTON_BRIGHTNESS)));
            out.push(CvNoteAction::Led(leds.set(0, Led::Button, led_color, BUTTON_BRIGHTNESS)));
        }
        (CvToNote { led_color, stored, muted: stored.muted, note: 0, note_on: false, old_gate: 0, awaiting: false }, out)
    }

    fn show_note(&self, leds: &Leds<2>, out: &mut Vec<CvNoteAction>)
        requires
            self.wf(),
            leds.start_channel + 2 <= usize::MAX,
        ensures
            final(out)@ == old(out)@ + note_lights(*leds, self.note as int, self.led_color),
    {
        let pair = split_unsigned_value((self.note as u32 * 4095 / 120) as u16);
        // Each level is doubled in 8 bits; a level above 127 wraps.
        out.push(CvNoteAction::Led(leds.set(0, Led::Top, self.led_color, Brightness::Custom(pair[0].wrapping_mul(2)))));
        out.push(CvNoteAction::Led(leds.set(0, Led::Bottom, self.led_color, Brightness::Custom(pair[1].wrapping_mul(2)))));
        out.push(CvNoteAction::Led(leds.set(1, Led::Top, self.led_color, Brightness::Lower)));
        assert(out@ =~= old(out)@ + note_lights(*leds, self.note as int, self.led_color));
    }

    /// One millisecond with gate level `gate`. A rising edge past the
    /// threshold, unmuted, asks for a sample (returns true: after the delay
    /// the input goes to `on_sample`); muted, it shows the last note. A
    /// falling edge stops a sounding note (the second button shows mute)
    /// and darkens the second top LED.
    pub fn on_ms(&mut self, leds: &Leds<2>, gate: u16) -> (r: (Vec<CvNoteAction>, bool))
        requires
            old(self).wf(),
            leds.start_channel + 2 <= usize::MAX,
        ensures
            final(self).wf(),
            ({
                let s = *old(self);
                let rising = gate >= THRESHOLD && s.old_gate < THRESHOLD;
                let falling = gate <= THRESHOLD && s.old_gate > THRESHOLD;
                &&& r.1 == (rising && !s.muted)
                &&& *final(self) == (CvToNote {
                    old_gate: gate,
                    awaiting: rising && !s.muted,
                    note_on: if falling { false } else { s.note_on },
                    ..s
                })
                &&& r.0@ == if rising && s.muted {
                    note_lights(*leds, s.note as int, s.led_color)
                } else if falling {
                    (if s.note_on {
                        seq![
                            CvNoteAction::NoteOff(s.note as u8),
                            if s.muted { dark(*leds, 1, Led::Button) } else { lit(*leds, 1, Led::Button, s.led_color, Brightness::Low) },
                        ]
                    } else {
                        Seq::empty()
                    }) + seq![dark(*leds, 1, Led::Top)]
                } else {
                    Seq::empty()
                }
            }),
    {
        let mut out: Vec<CvNoteAction> = Vec::new();
        let old_gate = self.old_gate;
        self.old_gate = gate;
        self.awaiting = false;
        if gate >= THRESHOLD && old_gate < THRESHOLD {
            if !self.muted {
                self.awaiting = true;
                return (out, true);
            }
            self.show_note(leds, &mut out);
            return (out, false);
        }
        if gate <= THRESHOLD && old_gate > THRESHOLD {
            if self.note_on {
                out.push(CvNoteAction::NoteOff(self.note as u8));
                self.note_on = false;
                if self.muted {
                    out.push(CvNoteAction::Led(leds.unset(1, Led::Button)));
                } else {
                    out.push(CvNoteAction::Led(leds.set(1, Led::Button, self.led_color, Brightness::Low)));
                }
            }
            out.push(CvNoteAction::Led(leds.unset(1, Led::Top)));
        }
        (out, false)
    }

    /// The input sampled after a rising edge (and the delay): its note
    /// plays (see `note_of`), the second button lights, and the LEDs show it.
    pub fn on_sample(&mut self, leds: &Leds<2>, input: u16) -> (r: Vec<CvNoteAction>)
        requires
            old(self).wf(),
            leds.start_channel + 2 <= usize::MAX,
        ensures
            final(self).wf(),
            old(self).awaiting ==> *final(self) == (CvToNote {
                note: note_of(input, old(self).stored) as i32,
                note_on: true,
                awaiting: false,
                ..*old(self)
            }) && r@ == seq![
                CvNoteAction::NoteOn(note_of(input, old(self).stored) as u8),
                lit(*leds, 1, Led::Button, old(self).led_color, Brightness::Low),
            ] + note_lights(*leds, note_of(input, old(self).stored), old(self).led_color),
            !old(self).awaiting ==> *final(self) == *old(self) && r@.len() == 0,
    {
        let mut out: Vec<CvNoteAction> = Vec::new();
        if !self.awaiting {
            return out;
        }
        self.awaiting = false;
        let v: i32 = if input > 4095 {
            4095
        } else {
            input as i32
        };
        let base = (v + 5) * 120 / 4095;
        let n = base + (self.stored.fader_saved[1] as i32 * 10 / 4095 - 5) * 12 + self.stored.fader_saved[0] as i32 * 12 / 4095;
        let note = if n < 0 {
            0
        } else if n > 120 {
            120
        } else {
            n
        };
        self.note = note;
        out.push(CvNoteAction::NoteOn(note as u8));
        self.note_on = true;
        out.push(CvNoteAction::Led(leds.set(1, Led::Button, self.led_color, Brightness::Low)));
        self.show_note(leds, &mut out);
        out
    }

    /// A button went down: the first resets the semitone fader to 0, the
    /// second toggles mute (the button shows it); both are saved. Returns
    /// the work and whether to save.
    pub fn on_button_down(&mut self, leds: &Leds<2>, chan: usize) -> (r: (Vec<CvNoteAction>, bool))
        requires
            old(self).wf(),
            leds.start_channel + 2 <= usize::MAX,
        ensures
            final(self).wf(),
            r.1 == (chan < 2),
            chan == 0 ==> final(self).stored.fader_saved[0] == 0 && final(self).stored.fader_saved[1] == old(self).stored.fader_saved[1]
                && *final(self) == (CvToNote { stored: final(self).stored, ..*old(self) })
                && final(self).stored.muted == old(self).stored.muted && r.0@.len() == 0,
            chan == 1 ==> *final(self) == (CvToNote {
                muted: !old(self).stored.muted,
                stored: Storage { muted: !old(self).stored.muted, ..old(self).stored },
                ..*old(self)
            }) && r.0@ == if !old(self).stored.muted {
                seq![dark(*leds, 1, Led::Button)]
            } else {
                seq![lit(*leds, 1, Led::Button, old(self).led_color, Brightness::Low)]
            },
            chan > 1 ==> *final(self) == *old(self) && r.0@.len() == 0,
    {
        let mut out: Vec<CvNoteAction> = Vec::new();
        if chan == 0 {
            self.stored.fader_saved[0] = 0;
            (out, true)
        } else if chan == 1 {
            let muted = !self.stored.muted;
            self.stored.muted = muted;
            self.muted = muted;
            if muted {
                out.push(CvNoteAction::Led(leds.unset(1, Led::Button)));
            } else {
                out.push(CvNoteAction::Led(leds.set(1, Led::Button, self.led_color, Brightness::Low)));
            }
            (out, true)
        } else {
            (out, false)
        }
    }

    /// Fader `chan` gave the latch's value `v` (12-bit): on the main layer
    /// it is stored (and saved); the shift layer does nothing. Returns
    /// whether to save.
    pub fn on_fader(&mut self, chan: usize, layer: LatchLayer, v: u16) -> (save: bool)
        requires
            old(self).wf(),
            chan < 2,
            v <= 4095,
        ensures
            final(self).wf(),
            save == (layer == LatchLayer::Main),
            save ==> final(self).stored.fader_saved@ == old(self).stored.fader_saved@.update(chan as int, v)
                && final(self).stored.muted == old(self).stored.muted
                && *final(self) == (CvToNote { stored: final(self).stored, ..*old(self) }),
            !save ==> *final(self) == *old(self),
    {
        if layer == LatchLayer::Main {
            self.stored.fader_saved[chan] = v;
            true
        } else {
            false
        }
    }

    /// Where fader `chan`'s latch picks up: its stored value on the main
    /// layer, 0 on the shift layer.
    pub fn latch_target(&self, chan: usize, layer: LatchLayer) -> (r: u16)
        requires
            chan < 2,
        ensures
            r == if layer == LatchLayer::Main { self.stored.fader_saved[chan as int] } else { 0 },
    {
        if layer == LatchLayer::Main {
            self.stored.fader_saved[chan]
        } else {
            0
        }
    }

    /// A scene was loaded: the converter takes its storage and mute; the
    /// second button shows mute.
    pub fn on_scene_load(&mut self, leds: &Leds<2>, stored: Storage) -> (r: Vec<CvNoteAction>)
        requires
            old(self).wf(),
            storage_ok(stored),
            leds.start_channel + 2 <= usize::MAX,
        ensures
            final(self).wf(),
            *final(self) == (CvToNote { stored: stored, muted: stored.muted, ..*old(self) }),
            r@ == if stored.muted {
                seq![dark(*leds, 1, Led::Button)]
            } else {
                seq![lit(*leds, 1, Led::Button, old(self).led_color, Brightness::Low)]
            },
    {
        self.stored = stored;
        self.muted = stored.muted;
        let mut out: Vec<CvNoteAction> = Vec::new();
        if stored.muted {
            out.push(CvNoteAction::Led(leds.unset(1, Led::Button)));
        } else {
            out.push(CvNoteAction::Led(leds.set(1, Led::Button, self.led_color, Brightness::Low)));
        }
        out
    }
}

/// Every played note is a MIDI note within 0..=120, whatever the input and faders.
pub proof fn law_note_in_range(input: u16, st: Storage)
    ensures
        0 <= note_of(input, st) <= 120,
{
}

} // verus!
