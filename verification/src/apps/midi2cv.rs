//! MIDI to CV: a CC, note pitch, gate, velocity, aftertouch or pitch bend
//! becomes a control voltage.

use vstd::prelude::*;

use crate::storage::AppStorage;
use crate::app::{LedRequest, Leds};
use crate::config::Curve;
use crate::scaling::{clickless, clickless_step};
use crate::tables::{curve_at, curve_value};
use crate::types::{Brightness, Color, LatchLayer, Led, LedMode, LedMsg};

verus! {

/// Brightness of the lit LEDs.
pub const LED_BRIGHTNESS: Brightness = Brightness::Lower;

/// What the converter does with incoming MIDI.
#[derive(Clone, Copy, Debug, PartialEq, Eq, Structural)]
pub enum Mode {
    Cc,
    Pitch,
    Gate,
    Velocity,
    Aftertouch,
    Bend,
    NoteGate,
}

/// What the converter keeps: mute and the attenuation.
#[derive(Clone, Copy, Debug, PartialEq, Eq, Structural)]
pub struct Storage {
    pub muted: bool,
    pub att_saved: u16,
}

impl Default for Storage {
    /// Playing, no attenuation.
    fn default() -> (r: Self)
        ensures
            r == (Storage { muted: false, att_saved: 4095 }),
    {
        Storage { muted: false, att_saved: 4095 }
    }
}

impl AppStorage for Storage {}

/// A MIDI message on the converter's channel. A pitch bend arrives as the
/// output it asks for and its two LED levels (computed in floating point).
#[derive(Clone, Copy, Debug, PartialEq, Eq)]
pub enum MidiIn {
    Controller(u8, u8),
    NoteOn(u8, u8),
    NoteOff(u8),
    PitchBend(u16, u8, u8),
    Aftertouch(u8),
    Other,
}

/// Work for the device: the jack's value, LEDs.
#[derive(Clone, Copy, Debug, PartialEq, Eq)]
pub enum M2cAction {
    Out(u16),
    Led(LedRequest),
}

/// A running converter: mode, curve, CC number, gate note, color;
/// storage; mute, the value MIDI sets, the pitch, the held notes, the
/// fader's value and the click-free output.
#[derive(Clone, Copy)]
pub struct Midi2Cv {
    pub mode: Mode,
    pub curve: Curve,
    pub midi_cc: u16,
    pub note: u16,
    pub led_color: Color,
    pub stored: Storage,
    pub muted: bool,
    pub offset: u16,
    pub pitch: u16,
    pub note_num: i32,
    pub fadval: u16,
    pub outval: u16,
}

/// A 7-bit MIDI value scaled to 12 bits, as `libfp::utils::scale_bits_7_12` does.
pub open spec fn scale_7_12(value: u8) -> u16 {
    (value as int * 4095 / 127) as u16
}

/// Scales a 7-bit MIDI value (below 128) to 12 bits.
pub fn scale_bits_7_12(value: u8) -> (r: u16)
    requires
        value < 128,
    ensures
        r == scale_7_12(value),
        r <= 4095,
{
    ((value as u32 * 4095) / 127) as u16
}

/// The request for `led` of the app's channel.
pub open spec fn led_req(leds: Leds<1>, led: Led, msg: LedMsg) -> M2cAction {
    M2cAction::Led((leds.device_channel(0) as usize, led, msg))
}

/// The static light `color` at `b`.
pub open spec fn shine(color: Color, b: Brightness) -> LedMsg {
    LedMsg::SetMode(LedMode::Static(color, b))
}

/// The pitch of a note key with the octave fader: the key in steps of
/// 410/12 counts, shifted by -5 to +5 octaves, within 0..=4095.
pub open spec fn pitch_of(key: u8, fader: u16) -> u16 {
    let n = (key as int * 410 / 12) as u16;
    let p = n as int + (fader as int * 10 / 4095 - 5) * 410;
    (if p < 0 { 0 } else if p > 4095 { 4095 } else { p }) as u16
}

impl Midi2Cv {
    /// The invariant: attenuation and values in range.
    pub open spec fn wf(&self) -> bool {
        &&& self.stored.att_saved <= 4095
        &&& self.offset <= 4095
        &&& self.fadval <= 4095
        &&& self.pitch <= 4095
        &&& 0 <= self.note_num
    }

    /// The converter as `run` starts it from its mode, curve, CC number
    /// (1 to 128), gate note, color, storage and the fader's position: the
    /// button shows mute; pitch and bend modes start at the middle.
    pub fn new(leds: &Leds<1>, mode: Mode, curve: Curve, midi_cc: u16, note: u16, led_color: Color, stored: Storage, fader: u16) -> (r: (Self, Vec<M2cAction>))
        requires
            stored.att_saved <= 4095,
            fader <= 4095,
            leds.start_channel + 1 <= usize::MAX,
        ensures
            r.0.wf(),
            r.0 == (Midi2Cv {
                mode: mode,
                curve: curve,
                midi_cc: midi_cc,
                note: note,
                led_color: led_color,
                stored: stored,
                muted: stored.muted,
                offset: if mode == Mode::Bend || mode == Mode::Pitch { 2048 } else { 0 },
                pitch: 0,
                note_num: 0,
                fadval: fader,
                outval: 0,
            }),
            r.1@ == seq![
                if stored.muted { led_req(*leds, Led::Button, LedMsg::Reset) } else { led_req(*leds, Led::Button, shine(led_color, LED_BRIGHTNESS)) },
                M2cAction::Out(if mode == Mode::Bend || mode == Mode::Pitch { 2048 } else { 0 }),
            ],
    {
        let mut out: Vec<M2cAction> = Vec::new();
        if stored.muted {
            out.push(M2cAction::Led(leds.unset(0, Led::Button)));
        } else {
            out.push(M2cAction::Led(leds.set(0, Led::Button, led_color, LED_BRIGHTNESS)));
        }
        let mid = mode == Mode::Bend || mode == Mode::Pitch;
        out.push(M2cAction::Out(if mid {
            2048
        } else {
            0
        }));
        let m = Midi2Cv {
            mode,
            curve,
            midi_cc,
            note,
            led_color,
            stored,
            muted: stored.muted,
            offset: if mid {
                2048
            } else {
                0
            },
            pitch: 0,
            note_num: 0,
            fadval: fader,
            outval: 0,
        };
        (m, out)
    }

    /// One millisecond on `layer` with the fader at `fader` (12-bit) and
    /// shift's state. CC and aftertouch modes: the fader (unless shift is
    /// held) plus the MIDI value, through the curve (0 when muted), goes
    /// click-free and attenuated to the jack, the top LED showing it (or
    /// the attenuation in red on the shift layer). Bend mode: the jack goes
    /// click-free to the bend (the middle when muted). Pitch mode: the
    /// bend goes click-free and the jack takes the pitch plus the bend
    /// around the middle. Other modes: nothing.
    pub fn on_ms(&mut self, leds: &Leds<1>, layer: LatchLayer, fader: u16, shift: bool) -> (r: Vec<M2cAction>)
        requires
            old(self).wf(),
            fader <= 4095,
            leds.start_channel + 1 <= usize::MAX,
        ensures
            final(self).wf(),
            ({
                let s = *old(self);
                let c = s.led_color;
                if s.mode == Mode::Cc || s.mode == Mode::Aftertouch {
                    let fadval = if !shift { fader } else { s.fadval };
                    let val = if s.muted { 0u16 } else { curve_value(s.curve, (fadval + s.offset) as u16) };
                    let out = clickless_step(s.outval, val);
                    let att = ((out as int * s.stored.att_saved as int) / 4095) as u16;
                    &&& *final(self) == (Midi2Cv { fadval: fadval, outval: out, ..s })
                    &&& r@ == seq![M2cAction::Out(att)] + if layer == LatchLayer::Alt {
                        seq![
                            led_req(*leds, Led::Top, shine(Color::Red, Brightness::Custom((s.stored.att_saved / 16) as u8))),
                            led_req(*leds, Led::Bottom, LedMsg::Reset),
                        ]
                    } else {
                        seq![led_req(*leds, Led::Top, shine(c, Brightness::Custom((att / 16) as u8)))]
                    }
                } else if s.mode == Mode::Bend {
                    let out = clickless_step(s.outval, if s.muted { 2048 } else { s.offset });
                    &&& *final(self) == (Midi2Cv { outval: out, ..s })
                    &&& r@ == seq![M2cAction::Out(out)]
                } else if s.mode == Mode::Pitch {
                    let out = clickless_step(s.outval, if s.muted { 2047 } else { s.offset });
                    let p = s.pitch as int + out as int - 2047;
                    &&& *final(self) == (Midi2Cv { outval: out, ..s })
                    &&& r@ == seq![M2cAction::Out((if p < 0 { 0 } else if p > 4095 { 4095 } else { p }) as u16)]
                } else {
                    &&& *final(self) == s
                    &&& r@.len() == 0
                }
            }),
    {
        let mut out: Vec<M2cAction> = Vec::new();
        if self.mode == Mode::Cc || self.mode == Mode::Aftertouch {
            if !shift {
                self.fadval = fader;
            }
            let att = self.stored.att_saved;
            let val = if self.muted {
                0
            } else {
                curve_at(self.curve, self.fadval + self.offset)
            };
            let o = clickless(self.outval, val);
            self.outval = o;
            assert(o as u32 * att as u32 <= 65535 * 4095) by (nonlinear_arith)
                requires
                    att <= 4095,
            ;
            let attval = ((o as u32 * att as u32) / 4095) as u16;
            out.push(M2cAction::Out(attval));
            if layer == LatchLayer::Alt {
                out.push(M2cAction::Led(leds.set(0, Led::Top, Color::Red, Brightness::Custom((att / 16) as u8))));
                out.push(M2cAction::Led(leds.unset(0, Led::Bottom)));
            } else {
                // `attval / 16` is what the float division by 16.0 and the
                // cast give for a value below 2^24.
                out.push(M2cAction::Led(leds.set(0, Led::Top, self.led_color, Brightness::Custom((attval / 16) as u8))));
            }
        } else if self.mode == Mode::Bend {
            let target = if !self.muted {
                self.offset
            } else {
                2048
            };
            self.outval = clickless(self.outval, target);
            out.push(M2cAction::Out(self.outval));
        } else if self.mode == Mode::Pitch {
            let target = if !self.muted {
                self.offset
            } else {
                2047
            };
            self.outval = clickless(self.outval, target);
            let p = self.pitch as i32 + self.outval as i32 - 2047;
            out.push(M2cAction::Out((if p < 0 {
                0
            } else if p > 4095 {
                4095
            } else {
                p
            }) as u16));
        }
        out
    }

    /// The button went down: mute flips (saved) and the button shows it;
    /// in velocity mode the jack and top LED go to 0.
    pub fn on_button_down(&mut self, leds: &Leds<1>) -> (r: Vec<M2cAction>)
        requires
            leds.start_channel + 1 <= usize::MAX,
        ensures
            *final(self) == (Midi2Cv {
                muted: !old(self).stored.muted,
                stored: Storage { muted: !old(self).stored.muted, ..old(self).stored },
                ..*old(self)
            }),
            r@ == seq![
                if !old(self).stored.muted {
                    led_req(*leds, Led::Button, LedMsg::Reset)
                } else {
                    led_req(*leds, Led::Button, shine(old(self).led_color, LED_BRIGHTNESS))
                },
            ] + if old(self).mode == Mode::Velocity {
                seq![M2cAction::Out(0), led_req(*leds, Led::Top, LedMsg::Reset)]
            } else {
                Seq::empty()
            },
            old(self).wf() ==> final(self).wf(),
    {
        let muted = !self.stored.muted;
        self.stored.muted = muted;
        self.muted = muted;
        let mut out: Vec<M2cAction> = Vec::new();
        if muted {
            out.push(M2cAction::Led(leds.unset(0, Led::Button)));
        } else {
            out.push(M2cAction::Led(leds.set(0, Led::Button, self.led_color, LED_BRIGHTNESS)));
        }
        if self.mode == Mode::Velocity {
            out.push(M2cAction::Out(0));
            out.push(M2cAction::Led(leds.unset(0, Led::Top)));
        }
        out
    }

    /// Where the fader's latch picks up: the attenuation on the shift layer, else 0.
    pub fn latch_target(&self, layer: LatchLayer) -> (r: u16)
        ensures
            r == if layer == LatchLayer::Alt { self.stored.att_saved } else { 0 },
    {
        if layer == LatchLayer::Alt {
            self.stored.att_saved
        } else {
            0
        }
    }

    /// The fader gave the latch's value `v` (12-bit): on the shift layer it
    /// is the attenuation (saved). Returns whether to save.
    pub fn on_fader(&mut self, layer: LatchLayer, v: u16) -> (save: bool)
        requires
            old(self).wf(),
            v <= 4095,
        ensures
            final(self).wf(),
            save == (layer == LatchLayer::Alt),
            save ==> *final(self) == (Midi2Cv { stored: Storage { att_saved: v, ..old(self).stored }, ..*old(self) }),
            !save ==> *final(self) == *old(self),
    {
        if layer == LatchLayer::Alt {
            self.stored.att_saved = v;
            true
        } else {
            false
        }
    }

    /// A MIDI message with the fader at `fader` (12-bit). CC mode: the
    /// chosen controller sets the value. Pitch mode: an unmuted note sets
    /// the pitch (see `pitch_of`), shown on the top LED. Gate modes (any
    /// note, or the chosen one): an unmuted note raises the jack and counts
    /// as held (muted, the count restarts); releasing the last held note
    /// drops it. Velocity mode: the velocity (0 when muted) goes to the
    /// jack and top LED. Bend and pitch modes take a bend and its LEDs;
    /// aftertouch mode takes the pressure.
    pub fn on_midi(&mut self, leds: &Leds<1>, msg: MidiIn, fader: u16) -> (r: Vec<M2cAction>)
        requires
            old(self).wf(),
            fader <= 4095,
            leds.start_channel + 1 <= usize::MAX,
            msg matches MidiIn::Controller(c, v) ==> v < 128,
            msg matches MidiIn::NoteOn(k, v) ==> k < 128 && v < 128,
            msg matches MidiIn::PitchBend(o, t, b) ==> o <= 4095,
            msg matches MidiIn::Aftertouch(v) ==> v < 128,
        ensures
            final(self).wf(),
            ({
                let s = *old(self);
                let c = s.led_color;
                match msg {
                    MidiIn::Controller(cc, v) => r@.len() == 0 && *final(self) == if s.mode == Mode::Cc && cc as u16 == s.midi_cc {
                        Midi2Cv { offset: scale_7_12(v), ..s }
                    } else {
                        s
                    },
                    MidiIn::NoteOn(k, v) => {
                        let gate = s.mode == Mode::Gate || (s.mode == Mode::NoteGate && k as u16 == s.note);
                        if s.mode == Mode::Pitch && !s.muted {
                            *final(self) == (Midi2Cv { pitch: pitch_of(k, fader), ..s })
                                && r@ == seq![led_req(*leds, Led::Top, shine(c, Brightness::Custom((pitch_of(k, fader) / 16) as u8)))]
                        } else if gate && !s.muted {
                            *final(self) == (Midi2Cv { note_num: if s.note_num < i32::MAX { (s.note_num + 1) as i32 } else { s.note_num }, ..s })
                                && r@ == seq![M2cAction::Out(4095), led_req(*leds, Led::Top, shine(c, LED_BRIGHTNESS))]
                        } else if gate {
                            *final(self) == (Midi2Cv { note_num: 0, ..s }) && r@.len() == 0
                        } else if s.mode == Mode::Velocity {
                            let vel = if s.muted { 0u16 } else { scale_7_12(v) };
                            *final(self) == s && r@ == seq![M2cAction::Out(vel), led_req(*leds, Led::Top, shine(c, Brightness::Custom((vel / 16) as u8)))]
                        } else {
                            *final(self) == s && r@.len() == 0
                        }
                    },
                    MidiIn::NoteOff(k) => {
                        let gate = s.mode == Mode::Gate || (s.mode == Mode::NoteGate && k as u16 == s.note);
                        if gate {
                            let n = released(s.note_num);
                            *final(self) == (Midi2Cv { note_num: n, ..s })
                                && r@ == if n == 0 { seq![M2cAction::Out(0), led_req(*leds, Led::Top, LedMsg::Reset)] } else { Seq::empty() }
                        } else {
                            *final(self) == s && r@.len() == 0
                        }
                    },
                    MidiIn::PitchBend(o, t, b) => if s.mode == Mode::Bend || s.mode == Mode::Pitch {
                        *final(self) == (Midi2Cv { offset: o, ..s }) && r@ == seq![
                            led_req(*leds, Led::Top, shine(c, Brightness::Custom(t))),
                            led_req(*leds, Led::Bottom, shine(c, Brightness::Custom(b))),
                        ]
                    } else {
                        *final(self) == s && r@.len() == 0
                    },
                    MidiIn::Aftertouch(v) => r@.len() == 0 && *final(self) == if s.mode == Mode::Aftertouch {
                        Midi2Cv { offset: scale_7_12(v), ..s }
                    } else {
                        s
                    },
                    MidiIn::Other => *final(self) == s && r@.len() == 0,
                }
            }),
    {
        let mut out: Vec<M2cAction> = Vec::new();
        match msg {
            MidiIn::Controller(cc, v) => {
                if self.mode == Mode::Cc && cc as u16 == self.midi_cc {
                    self.offset = scale_bits_7_12(v);
                }
            },
            MidiIn::NoteOn(k, v) => {
                let gate = self.mode == Mode::Gate || (self.mode == Mode::NoteGate && k as u16 == self.note);
                if self.mode == Mode::Pitch {
                    if !self.muted {
                        let n = (k as u32 * 410 / 12) as u16;
                        let p = n as i32 + (fader as i32 * 10 / 4095 - 5) * 410;
                        let pitch = (if p < 0 {
                            0
                        } else if p > 4095 {
                            4095
                        } else {
                            p
                        }) as u16;
                        self.pitch = pitch;
                        out.push(M2cAction::Led(leds.set(0, Led::Top, self.led_color, Brightness::Custom((pitch / 16) as u8))));
                    }
                } else if gate {
                    if !self.muted {
                        out.push(M2cAction::Out(4095));
                        self.note_num = if self.note_num < i32::MAX {
                            self.note_num + 1
                        } else {
                            self.note_num
                        };
                        out.push(M2cAction::Led(leds.set(0, Led::Top, self.led_color, LED_BRIGHTNESS)));
                    } else {
                        self.note_num = 0;
                    }
                } else if self.mode == Mode::Velocity {
                    let vel = if !self.muted {
                        scale_bits_7_12(v)
                    } else {
                        0
                    };
                    out.push(M2cAction::Out(vel));
                    out.push(M2cAction::Led(leds.set(0, Led::Top, self.led_color, Brightness::Custom((vel / 16) as u8))));
                }
            },
            MidiIn::NoteOff(k) => {
                let gate = self.mode == Mode::Gate || (self.mode == Mode::NoteGate && k as u16 == self.note);
                if gate {
                    self.note_num = if self.note_num - 1 < 0 {
                        0
                    } else {
                        self.note_num - 1
                    };
                    if self.note_num == 0 {
                        out.push(M2cAction::Out(0));
                        out.push(M2cAction::Led(leds.unset(0, Led::Top)));
                    }
                }
            },
            MidiIn::PitchBend(o, t, b) => {
                if self.mode == Mode::Bend || self.mode == Mode::Pitch {
                    self.offset = o;
                    out.push(M2cAction::Led(leds.set(0, Led::Top, self.led_color, Brightness::Custom(t))));
                    out.push(M2cAction::Led(leds.set(0, Led::Bottom, self.led_color, Brightness::Custom(b))));
                }
            },
            MidiIn::Aftertouch(v) => {
                if self.mode == Mode::Aftertouch {
                    self.offset = scale_bits_7_12(v);
                }
            },
            MidiIn::Other => {},
        }
        out
    }

    /// A scene was loaded: the converter takes its storage and mute; the
    /// button shows mute.
    pub fn on_scene_load(&mut self, leds: &Leds<1>, stored: Storage) -> (r: M2cAction)
        requires
            old(self).wf(),
            stored.att_saved <= 4095,
            leds.start_channel + 1 <= usize::MAX,
        ensures
            final(self).wf(),
            *final(self) == (Midi2Cv { stored: stored, muted: stored.muted, ..*old(self) }),
            r == if stored.muted {
                led_req(*leds, Led::Button, LedMsg::Reset)
            } else {
                led_req(*leds, Led::Button, shine(old(self).led_color, LED_BRIGHTNESS))
            },
    {
        self.stored = stored;
        self.muted = stored.muted;
        if stored.muted {
            M2cAction::Led(leds.unset(0, Led::Button))
        } else {
            M2cAction::Led(leds.set(0, Led::Button, self.led_color, LED_BRIGHTNESS))
        }
    }
}

/// The held-note count after a release: one less, never below 0.
pub open spec fn released(n: i32) -> i32 {
    if n - 1 < 0 { 0 } else { (n - 1) as i32 }
}

/// A gate falls only with the last held note: releasing one of several
/// held notes keeps it up, releasing the only one drops it.
pub proof fn law_gate_falls_with_last_note(n: i32)
    requires
        n >= 1,
    ensures
        n >= 2 ==> released(n) >= 1,
        n == 1 ==> released(n) == 0,
{
}

/// The octave fader only ever raises the pitch as it is raised: for any
/// note key, a higher fader never gives a lower pitch. With the fader at
/// the top the note sits five octaves (5 * 410 counts) above its own
/// pitch, at the bottom five below (both within 0..=4095), and in the
/// middle (2048) it is the note's own pitch (at most 4095).
pub proof fn law_octave_fader_raises_pitch(key: u8, f1: u16, f2: u16)
    requires
        f1 <= f2 <= 4095,
        key < 128,
    ensures
        pitch_of(key, f1) <= pitch_of(key, f2),
        pitch_of(key, 4095) == (if key as int * 410 / 12 + 2050 > 4095 {
            4095
        } else {
            key as int * 410 / 12 + 2050
        }),
        pitch_of(key, 0) == (if key as int * 410 / 12 - 2050 < 0 {
            0
        } else {
            key as int * 410 / 12 - 2050
        }),
        pitch_of(key, 2048) == (if key as int * 410 / 12 > 4095 { 4095 } else { key as int * 410 / 12 }),
{
    assert(2048int * 10 / 4095 == 5);
    assert(4095int * 10 / 4095 == 10);
    assert(f1 as int * 10 / 4095 <= f2 as int * 10 / 4095) by (nonlinear_arith)
        requires
            f1 <= f2,
    ;
    assert(key as int * 410 / 12 <= 127 * 410 / 12) by (nonlinear_arith)
        requires
            key < 128,
    ;
}

} // verus!
