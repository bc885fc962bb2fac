//! LFO: the colors that show the selected wave shape.

use vstd::prelude::*;

use crate::storage::AppStorage;
use crate::app::{LedRequest, Leds};
use crate::scaling::{attenuate, attenuate_bipolar, bipolar_attenuated, split_unsigned, split_unsigned_value};
use crate::types::{Brightness, Color, LatchLayer, Led, LedMode, LedMsg};

verus! {

/// Wave shapes of the LFO.
#[derive(Clone, Copy, Debug, PartialEq, Eq, Structural)]
pub enum Waveform {
    Triangle,
    Saw,
    SawInv,
    Square,
    Sine,
}

/// The color that shows a wave shape.
pub fn get_color_for(wave: Waveform) -> (r: Color)
    ensures
        r == match wave {
            Waveform::Sine => Color::Yellow,
            Waveform::Triangle => Color::Pink,
            Waveform::Saw => Color::Cyan,
            Waveform::SawInv => Color::Red,
            Waveform::Square => Color::White,
        },
{
    match wave {
        Waveform::Sine => Color::Yellow,
        Waveform::Triangle => Color::Pink,
        Waveform::Saw => Color::Cyan,
        Waveform::SawInv => Color::Red,
        Waveform::Square => Color::White,
    }
}

/// The next wave shape in the selection cycle.
pub open spec fn next_wave(w: Waveform) -> Waveform {
    match w {
        Waveform::Sine => Waveform::Triangle,
        Waveform::Triangle => Waveform::Saw,
        Waveform::Saw => Waveform::SawInv,
        Waveform::SawInv => Waveform::Square,
        Waveform::Square => Waveform::Sine,
    }
}

impl Waveform {
    /// The next wave shape, as `libfp::Waveform::cycle` gives it.
    pub fn cycle(&self) -> (r: Waveform)
        ensures
            r == next_wave(*self),
    {
        match self {
            Waveform::Sine => Waveform::Triangle,
            Waveform::Triangle => Waveform::Saw,
            Waveform::Saw => Waveform::SawInv,
            Waveform::SawInv => Waveform::Square,
            Waveform::Square => Waveform::Sine,
        }
    }
}

/// Sample `i` of one period of a wave shape, as `libfp::Waveform::at` reads it.
pub uninterp spec fn wave_sample(wave: Waveform, i: usize) -> u16;

/// Calls `libfp::Waveform::at` on the same wave shape of libfp, which
/// reads entry `index % 4096` of the shape's table in `libfp::constants`;
/// the entries are named.
#[verifier::external_body]
fn wave_at(wave: Waveform, index: usize) -> (r: u16)
    ensures
        r == wave_sample(wave, index % 4096),
{
    let w = match wave {
        Waveform::Triangle => libfp::Waveform::Triangle,
        Waveform::Saw => libfp::Waveform::Saw,
        Waveform::SawInv => libfp::Waveform::SawInv,
        Waveform::Square => libfp::Waveform::Square,
        Waveform::Sine => libfp::Waveform::Sine,
    };
    w.at(index)
}

/// Clock ticks per quarter of the synced LFO's period, chosen by the speed
/// fader in steps of 500.
pub const RESOLUTION: [u32; 9] = [384, 192, 96, 48, 24, 16, 12, 8, 6];

/// What the LFO keeps: clock sync, attenuation, speed and wave shape.
#[derive(Clone, Copy, Debug, PartialEq, Eq, Structural)]
pub struct Storage {
    pub clocked: bool,
    pub layer_attenuation: u16,
    pub layer_speed: u16,
    pub wave: Waveform,
}

impl Default for Storage {
    /// Free running, no attenuation, speed 2000, sine.
    fn default() -> (r: Self)
        ensures
            r == (Storage { clocked: false, layer_attenuation: 4095, layer_speed: 2000, wave: Waveform::Sine }),
    {
        Storage { clocked: false, layer_attenuation: 4095, layer_speed: 2000, wave: Waveform::Sine }
    }
}

impl AppStorage for Storage {}

/// Work for the device: the jack, the MIDI CC, LEDs.
#[derive(Clone, Copy, Debug, PartialEq, Eq)]
pub enum LfoAction {
    Out(u16),
    Cc(u16),
    Led(LedRequest),
}

/// A running LFO (its phase, in floating point, is kept outside): bipolar
/// range, MIDI on or off, the start color, storage, the sync division and
/// the last value sent.
#[derive(Clone, Copy)]
pub struct Lfo {
    pub bipolar: bool,
    pub use_midi: bool,
    pub start_color: Color,
    pub stored: Storage,
    pub div: u32,
    pub last_out: u16,
}

/// The sync division of a speed fader position (at most 4095).
pub open spec fn div_of(speed: u16) -> u32 {
    RESOLUTION[speed as int / 500]
}

/// The request for `led` of the app's channel.
pub open spec fn led_req(leds: Leds<1>, led: Led, msg: LedMsg) -> LfoAction {
    LfoAction::Led((leds.device_channel(0) as usize, led, msg))
}

/// The static light `color` at `b`.
pub open spec fn shine(color: Color, b: Brightness) -> LedMsg {
    LedMsg::SetMode(LedMode::Static(color, b))
}

/// The color of a wave shape, as a spec.
pub open spec fn wave_color(wave: Waveform) -> Color {
    match wave {
        Waveform::Sine => Color::Yellow,
        Waveform::Triangle => Color::Pink,
        Waveform::Saw => Color::Cyan,
        Waveform::SawInv => Color::Red,
        Waveform::Square => Color::White,
    }
}

/// The output at phase `pos`: the wave's sample, attenuated (around the
/// middle when bipolar).
pub open spec fn value_at(s: Lfo, pos: u16) -> u16 {
    let w = wave_sample(s.stored.wave, (pos as usize % 4096) as usize);
    if s.bipolar {
        bipolar_attenuated(w, s.stored.layer_attenuation)
    } else {
        ((w as int * s.stored.layer_attenuation as int) / 4095) as u16
    }
}

impl Lfo {
    /// The invariant: speed fader in range.
    pub open spec fn wf(&self) -> bool {
        self.stored.layer_speed <= 4095
    }

    /// The LFO as `run` starts it: the division from the speed, the button
    /// in the wave's color.
    pub fn new(leds: &Leds<1>, bipolar: bool, use_midi: bool, stored: Storage) -> (r: (Self, LfoAction))
        requires
            stored.layer_speed <= 4095,
            leds.start_channel + 1 <= usize::MAX,
        ensures
            r.0.wf(),
            r.0 == (Lfo { bipolar: bipolar, use_midi: use_midi, start_color: wave_color(stored.wave), stored: stored, div: div_of(stored.layer_speed), last_out: 0 }),
            r.1 == led_req(*leds, Led::Button, shine(wave_color(stored.wave), Brightness::Lower)),
    {
        let color = get_color_for(stored.wave);
        let res = RESOLUTION;
        let l = Lfo { bipolar, use_midi, start_color: color, stored, div: res[(stored.layer_speed / 500) as usize], last_out: 0 };
        (l, LfoAction::Led(leds.set(0, Led::Button, color, Brightness::Lower)))
    }

    /// One millisecond at phase `pos` (0 to 4095) on `layer`: the output
    /// (see `value_at`) goes to the jack, and with MIDI on goes out as a CC
    /// when it moved to another step of 32; the button dims in the second
    /// half of a synced cycle; the top and bottom LEDs show the output (or
    /// the attenuation in red on the shift layer).
    pub fn on_ms(&mut self, leds: &Leds<1>, layer: LatchLayer, pos: u16) -> (r: Vec<LfoAction>)
        requires
            old(self).wf(),
            pos < 4096,
            leds.start_channel + 1 <= usize::MAX,
        ensures
            final(self).wf(),
            ({
                let s = *old(self);
                let v = value_at(s, pos);
                let c = wave_color(s.stored.wave);
                let cc = if s.use_midi && s.last_out / 32 != v / 32 { seq![LfoAction::Cc(v)] } else { Seq::empty() };
                let led = if s.bipolar { split_unsigned(v) } else { [(v / 16) as u8, 0u8] };
                &&& *final(self) == (Lfo { last_out: if s.use_midi { v } else { s.last_out }, ..s })
                &&& r@ == seq![LfoAction::Out(v)] + cc + seq![
                    led_req(*leds, Led::Button, shine(c, if s.stored.clocked && pos > 2048 { Brightness::Lowest } else { Brightness::Lower })),
                ] + if layer == LatchLayer::Alt {
                    seq![
                        led_req(*leds, Led::Top, shine(Color::Red, Brightness::Custom(((s.stored.layer_attenuation / 16) / 2) as u8))),
                        led_req(*leds, Led::Bottom, LedMsg::Reset),
                    ]
                } else {
                    seq![led_req(*leds, Led::Top, shine(c, Brightness::Custom(led[0]))), led_req(*leds, Led::Bottom, shine(c, Brightness::Custom(led[1])))]
                }
            }),
    {
        let w = wave_at(self.stored.wave, pos as usize);
        let att = self.stored.layer_attenuation;
        let val = if self.bipolar {
            attenuate_bipolar(w, att)
        } else {
            attenuate(w, att)
        };
        let mut out: Vec<LfoAction> = Vec::new();
        out.push(LfoAction::Out(val));
        if self.use_midi {
            if self.last_out / 32 != val / 32 {
                out.push(LfoAction::Cc(val));
            }
            self.last_out = val;
        }
        let led: [u8; 2] = if self.bipolar {
            split_unsigned_value(val)
        } else {
            [(val / 16) as u8, 0]
        };
        let color = get_color_for(self.stored.wave);
        let b = if self.stored.clocked && pos > 2048 {
            Brightness::Lowest
        } else {
            Brightness::Lower
        };
        out.push(LfoAction::Led(leds.set(0, Led::Button, color, b)));
        if layer == LatchLayer::Alt {
            out.push(LfoAction::Led(leds.set(0, Led::Top, Color::Red, Brightness::Custom(((att / 16) / 2) as u8))));
            out.push(LfoAction::Led(leds.unset(0, Led::Bottom)));
        } else {
            out.push(LfoAction::Led(leds.set(0, Led::Top, color, Brightness::Custom(led[0]))));
            out.push(LfoAction::Led(leds.set(0, Led::Bottom, color, Brightness::Custom(led[1]))));
        }
        proof {
            let s = *old(self);
            let cc = if s.use_midi && s.last_out / 32 != val / 32 { seq![LfoAction::Cc(val)] } else { Seq::empty() };
            let ledv = if s.bipolar { split_unsigned(val) } else { [(val / 16) as u8, 0u8] };
            assert(led == ledv);
        }
        out
    }

    /// The button went down: alone it selects the next wave shape (saved;
    /// the button shows its color); with shift it asks for the phase to
    /// restart (returns true). Returns the work, the restart and whether to save.
    pub fn on_button_down(&mut self, leds: &Leds<1>, shift: bool) -> (r: (Option<LfoAction>, bool, bool))
        requires
            leds.start_channel + 1 <= usize::MAX,
        ensures
            !shift ==> *final(self) == (Lfo { stored: Storage { wave: next_wave(old(self).stored.wave), ..old(self).stored }, ..*old(self) })
                && r == (Some(led_req(*leds, Led::Button, shine(wave_color(next_wave(old(self).stored.wave)), Brightness::Lower))), false, true),
            shift ==> *final(self) == *old(self) && r == (None::<LfoAction>, true, false),
            old(self).wf() ==> final(self).wf(),
    {
        if !shift {
            let wave = self.stored.wave.cycle();
            self.stored.wave = wave;
            (Some(LfoAction::Led(leds.set(0, Led::Button, get_color_for(wave), Brightness::Lower))), false, true)
        } else {
            (None, true, false)
        }
    }

    /// A long press: with shift, clock sync flips (saved) and, now synced,
    /// the button flashes four times in the color the LFO started with.
    /// Returns the work and whether to save.
    pub fn on_long_press(&mut self, leds: &Leds<1>, shift: bool) -> (r: (Option<LfoAction>, bool))
        requires
            leds.start_channel + 1 <= usize::MAX,
        ensures
            shift ==> *final(self) == (Lfo { stored: Storage { clocked: !old(self).stored.clocked, ..old(self).stored }, ..*old(self) })
                && r == (if !old(self).stored.clocked {
                    Some(led_req(*leds, Led::Button, LedMsg::SetMode(LedMode::Flash(old(self).start_color, Some(4usize)))))
                } else {
                    None::<LfoAction>
                }, true),
            !shift ==> *final(self) == *old(self) && r == (None::<LfoAction>, false),
            old(self).wf() ==> final(self).wf(),
    {
        if !shift {
            return (None, false);
        }
        let clocked = !self.stored.clocked;
        self.stored.clocked = clocked;
        if clocked {
            (Some(LfoAction::Led(leds.set_mode(0, Led::Button, LedMode::Flash(self.start_color, Some(4))))), true)
        } else {
            (None, true)
        }
    }

    /// Where the fader's latch picks up: the speed, or on the shift layer
    /// the attenuation.
    pub fn latch_target(&self, layer: LatchLayer) -> (r: u16)
        ensures
            r == if layer == LatchLayer::Alt { self.stored.layer_attenuation } else { self.stored.layer_speed },
    {
        if layer == LatchLayer::Alt {
            self.stored.layer_attenuation
        } else {
            self.stored.layer_speed
        }
    }

    /// The fader gave the latch's value `v` (12-bit): the speed (and its
    /// sync division), or on the shift layer the attenuation; each saved.
    pub fn on_fader(&mut self, layer: LatchLayer, v: u16)
        requires
            old(self).wf(),
            v <= 4095,
        ensures
            final(self).wf(),
            layer == LatchLayer::Alt ==> *final(self) == (Lfo { stored: Storage { layer_attenuation: v, ..old(self).stored }, ..*old(self) }),
            layer != LatchLayer::Alt ==> *final(self) == (Lfo { stored: Storage { layer_speed: v, ..old(self).stored }, div: div_of(v), ..*old(self) }),
    {
        if layer == LatchLayer::Alt {
            self.stored.layer_attenuation = v;
        } else {
            self.stored.layer_speed = v;
            let res = RESOLUTION;
            self.div = res[(v / 500) as usize];
        }
    }

    /// A scene was loaded (speed at most 4095): the LFO takes its storage
    /// and division; the button shows the wave's color.
    pub fn on_scene_load(&mut self, leds: &Leds<1>, stored: Storage) -> (r: LfoAction)
        requires
            old(self).wf(),
            stored.layer_speed <= 4095,
            leds.start_channel + 1 <= usize::MAX,
        ensures
            final(self).wf(),
            *final(self) == (Lfo { stored: stored, div: div_of(stored.layer_speed), ..*old(self) }),
            r == led_req(*leds, Led::Button, shine(wave_color(stored.wave), Brightness::Lower)),
    {
        self.stored = stored;
        let res = RESOLUTION;
        self.div = res[(stored.layer_speed / 500) as usize];
        LfoAction::Led(leds.set(0, Led::Button, get_color_for(stored.wave), Brightness::Lower))
    }
}

/// Five presses of the button go through every wave shape and back.
pub proof fn law_wave_cycle(w: Waveform)
    ensures
        next_wave(next_wave(next_wave(next_wave(next_wave(w))))) == w,
        next_wave(w) != w,
{
}

} // verus!
