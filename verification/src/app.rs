//! The services an app uses on its channels: LEDs, jacks, buttons, faders,
//! clock, MIDI and I2C output, globals and the die. Each service maps the
//! app's local channel numbers onto the device's channels and produces the
//! requests that the device tasks carry out.

use vstd::prelude::*;

use crate::types::{
    scale_12_7_spec, scale_bits_12_7, Brightness, ClockEvent, Color, InputEvent, LatchLayer, Led, LedMode,
    LedMsg, MidiMessage, Range,
};

verus! {

/// `chan` limited to the app's `n` channels.
pub open spec fn clamp_chan(chan: usize, n: usize) -> usize {
    if chan > n - 1 {
        (n - 1) as usize
    } else {
        chan
    }
}

/// Limits a local channel to the app's `n` channels.
pub fn clamp_channel(chan: usize, n: usize) -> (r: usize)
    requires
        n > 0,
    ensures
        r == clamp_chan(chan, n),
        r < n,
{
    if chan > n - 1 {
        n - 1
    } else {
        chan
    }
}

/// The LEDs of an app's channels.
#[derive(Clone, Copy)]
pub struct Leds<const N: usize> {
    pub start_channel: usize,
}

/// An LED request: device channel, LED, message.
pub type LedRequest = (usize, Led, LedMsg);

impl<const N: usize> Leds<N> {
    /// The LEDs of the app starting at `start_channel`.
    pub fn new(start_channel: usize) -> (r: Self)
        ensures
            r.start_channel == start_channel,
    {
        Self { start_channel }
    }

    /// Device channel of local channel `chan` (limited to the app's channels).
    pub open spec fn device_channel(&self, chan: usize) -> int {
        self.start_channel + clamp_chan(chan, N)
    }

    /// The request that lights `position` of `chan` in `color` at `brightness`.
    pub fn set(&self, chan: usize, position: Led, color: Color, brightness: Brightness) -> (r: LedRequest)
        requires
            N > 0,
            self.start_channel + N <= usize::MAX,
        ensures
            r == (
                self.device_channel(chan) as usize,
                position,
                LedMsg::SetMode(LedMode::Static(color, brightness)),
            ),
    {
        let channel = self.start_channel + clamp_channel(chan, N);
        (channel, position, LedMsg::SetMode(LedMode::Static(color, brightness)))
    }

    /// The request that puts `position` of `chan` in `mode`.
    pub fn set_mode(&self, chan: usize, position: Led, mode: LedMode) -> (r: LedRequest)
        requires
            N > 0,
            self.start_channel + N <= usize::MAX,
        ensures
            r == (self.device_channel(chan) as usize, position, LedMsg::SetMode(mode)),
    {
        let channel = self.start_channel + clamp_channel(chan, N);
        (channel, position, LedMsg::SetMode(mode))
    }

    /// The request that resets `position` of `chan`.
    pub fn unset(&self, chan: usize, position: Led) -> (r: LedRequest)
        requires
            N > 0,
            self.start_channel + N <= usize::MAX,
        ensures
            r == (self.device_channel(chan) as usize, position, LedMsg::Reset),
    {
        let channel = self.start_channel + clamp_channel(chan, N);
        (channel, position, LedMsg::Reset)
    }

    /// The requests that reset the three LEDs of `chan`: top, bottom, button.
    pub fn unset_chan(&self, chan: usize) -> (r: Vec<LedRequest>)
        requires
            N > 0,
            self.start_channel + N <= usize::MAX,
        ensures
            r@ == seq![
                (self.device_channel(chan) as usize, Led::Top, LedMsg::Reset),
                (self.device_channel(chan) as usize, Led::Bottom, LedMsg::Reset),
                (self.device_channel(chan) as usize, Led::Button, LedMsg::Reset),
            ],
    {
        let channel = self.start_channel + clamp_channel(chan, N);
        let mut out: Vec<LedRequest> = Vec::new();
        out.push((channel, Led::Top, LedMsg::Reset));
        out.push((channel, Led::Bottom, LedMsg::Reset));
        out.push((channel, Led::Button, LedMsg::Reset));
        assert(out@ =~= seq![
            (channel, Led::Top, LedMsg::Reset),
            (channel, Led::Bottom, LedMsg::Reset),
            (channel, Led::Button, LedMsg::Reset),
        ]);
        out
    }

    /// The requests that reset all LEDs of all the app's channels, channel by
    /// channel, each top, bottom, button.
    pub fn unset_all(&self) -> (r: Vec<LedRequest>)
        requires
            N > 0,
            self.start_channel + N <= usize::MAX,
        ensures
            r@.len() == 3 * N,
            forall|c: int, k: int|
                0 <= c < N && 0 <= k < 3 ==> #[trigger] r@[3 * c + k] == (
                    (self.start_channel + c) as usize,
                    if k == 0 {
                        Led::Top
                    } else if k == 1 {
                        Led::Bottom
                    } else {
                        Led::Button
                    },
                    LedMsg::Reset,
                ),
    {
        let mut out: Vec<LedRequest> = Vec::new();
        let mut chan: usize = 0;
        while chan < N
            invariant
                chan <= N,
                N > 0,
                self.start_channel + N <= usize::MAX,
                out@.len() == 3 * chan,
                forall|c: int, k: int|
                    0 <= c < chan && 0 <= k < 3 ==> #[trigger] out@[3 * c + k] == (
                        (self.start_channel + c) as usize,
                        if k == 0 {
                            Led::Top
                        } else if k == 1 {
                            Led::Bottom
                        } else {
                            Led::Button
                        },
                        LedMsg::Reset,
                    ),
            decreases N - chan,
        {
            let channel = self.start_channel + clamp_channel(chan, N);
            out.push((channel, Led::Top, LedMsg::Reset));
            out.push((channel, Led::Bottom, LedMsg::Reset));
            out.push((channel, Led::Button, LedMsg::Reset));
            proof {
                assert forall|c: int, k: int| 0 <= c < chan + 1 && 0 <= k < 3 implies #[trigger] out@[3
                    * c + k] == (
                    (self.start_channel + c) as usize,
                    if k == 0 {
                        Led::Top
                    } else if k == 1 {
                        Led::Bottom
                    } else {
                        Led::Button
                    },
                    LedMsg::Reset,
                ) by {
                    if c == chan {
                        assert(3 * c + k == 3 * chan + k);
                    } else {
                        assert(3 * c + k < 3 * chan);
                    }
                }
            }
            chan = chan + 1;
        }
        out
    }
}

/// An input jack: its device channel and range.
#[derive(Clone, Copy)]
pub struct InJack {
    pub channel: usize,
    pub range: Range,
}

/// The value an input reads for raw ADC counts `raw`: doubled (saturating)
/// for the 0-5V range.
pub open spec fn input_value(range: Range, raw: u16) -> u16 {
    match range {
        Range::_0_5V => if raw * 2 > u16::MAX {
            u16::MAX
        } else {
            (raw * 2) as u16
        },
        _ => raw,
    }
}

impl InJack {
    /// The input jack on device channel `channel` in `range`.
    pub fn new(channel: usize, range: Range) -> (r: Self)
        ensures
            r.channel == channel,
            r.range == range,
    {
        Self { channel, range }
    }

    /// The input's value, from the ADC readings `adc` of all channels.
    pub fn get_value(&self, adc: &[u16]) -> (r: u16)
        requires
            self.channel < adc@.len(),
        ensures
            r == input_value(self.range, adc@[self.channel as int]),
    {
        let val = adc[self.channel];
        match self.range {
            Range::_0_5V => if val > 32767 {
                u16::MAX
            } else {
                val * 2
            },
            _ => val,
        }
    }
}

/// Level of a gate output held high.
pub const GATE_HIGH: u8 = 2;
/// Level of a gate output held low.
pub const GATE_LOW: u8 = 1;

/// A gate output on a device channel.
#[derive(Clone, Copy)]
pub struct GateJack {
    pub channel: usize,
}

impl GateJack {
    /// A gate output on device channel `channel`.
    pub fn new(channel: usize) -> (r: Self)
        ensures
            r.channel == channel,
    {
        Self { channel }
    }

    /// Sets this output high in `gpo`, the levels of all gate outputs.
    pub fn set_high(&self, gpo: &mut [u8; 16])
        requires
            self.channel < 16,
        ensures
            final(gpo)@ == old(gpo)@.update(self.channel as int, GATE_HIGH),
    {
        gpo[self.channel] = GATE_HIGH;
    }

    /// Sets this output low in `gpo`, the levels of all gate outputs.
    pub fn set_low(&self, gpo: &mut [u8; 16])
        requires
            self.channel < 16,
        ensures
            final(gpo)@ == old(gpo)@.update(self.channel as int, GATE_LOW),
    {
        gpo[self.channel] = GATE_LOW;
    }
}

/// An output jack: its device channel and range.
#[derive(Clone, Copy)]
pub struct OutJack {
    pub channel: usize,
    pub range: Range,
}

/// The DAC counts an output writes for `value`: halved for the 0-5V range.
pub open spec fn output_value(range: Range, value: u16) -> u16 {
    match range {
        Range::_0_5V => value / 2,
        _ => value,
    }
}

impl OutJack {
    /// The output jack on device channel `channel` in `range`.
    pub fn new(channel: usize, range: Range) -> (r: Self)
        ensures
            r.channel == channel,
            r.range == range,
    {
        Self { channel, range }
    }

    /// Writes `value` into the DAC values of all channels.
    pub fn set_value(&self, value: u16, dac: &mut [u16; 16])
        requires
            self.channel < 16,
        ensures
            final(dac)@ == old(dac)@.update(self.channel as int, output_value(self.range, value)),
    {
        let val = match self.range {
            Range::_0_5V => value / 2,
            _ => value,
        };
        dac[self.channel] = val;
    }
}

/// The local channel of device channel `channel` for an app on `n` channels
/// from `start`, if the channel is the app's.
pub open spec fn local_of(start: usize, n: usize, channel: usize) -> Option<usize> {
    if start <= channel < start + n {
        Some((channel - start) as usize)
    } else {
        None
    }
}

/// An app's buttons.
#[derive(Clone, Copy)]
pub struct Buttons<const N: usize> {
    pub start_channel: usize,
}

impl<const N: usize> Buttons<N> {
    /// The buttons of the app starting at `start_channel`.
    pub fn new(start_channel: usize) -> (r: Self)
        ensures
            r.start_channel == start_channel,
    {
        Self { start_channel }
    }

    /// The app's local channel of device channel `channel`, if it is the app's.
    pub fn local_channel(&self, channel: usize) -> (r: Option<usize>)
        requires
            self.start_channel + N <= usize::MAX,
        ensures
            r == local_of(self.start_channel, N, channel),
    {
        if self.start_channel <= channel && channel < self.start_channel + N {
            Some(channel - self.start_channel)
        } else {
            None
        }
    }

    /// For a button-down event on one of the app's channels, the local
    /// channel and whether shift is held.
    pub fn any_down(&self, event: InputEvent, shift_pressed: bool) -> (r: Option<(usize, bool)>)
        requires
            self.start_channel + N <= usize::MAX,
        ensures
            r == (match event {
                InputEvent::ButtonDown(c) => match local_of(self.start_channel, N, c) {
                    Some(l) => Some((l, shift_pressed)),
                    None => None,
                },
                _ => None,
            }),
    {
        match event {
            InputEvent::ButtonDown(c) => match self.local_channel(c) {
                Some(l) => Some((l, shift_pressed)),
                None => None,
            },
            _ => None,
        }
    }

    /// For a button-up event on one of the app's channels, the local channel
    /// and whether shift is held.
    pub fn any_up(&self, event: InputEvent, shift_pressed: bool) -> (r: Option<(usize, bool)>)
        requires
            self.start_channel + N <= usize::MAX,
        ensures
            r == (match event {
                InputEvent::ButtonUp(c) => match local_of(self.start_channel, N, c) {
                    Some(l) => Some((l, shift_pressed)),
                    None => None,
                },
                _ => None,
            }),
    {
        match event {
            InputEvent::ButtonUp(c) => match self.local_channel(c) {
                Some(l) => Some((l, shift_pressed)),
                None => None,
            },
            _ => None,
        }
    }

    /// For a long press on one of the app's channels, the local channel and
    /// whether shift is held.
    pub fn any_long_press(&self, event: InputEvent, shift_pressed: bool) -> (r: Option<(usize, bool)>)
        requires
            self.start_channel + N <= usize::MAX,
        ensures
            r == (match event {
                InputEvent::ButtonLongPress(c) => match local_of(self.start_channel, N, c) {
                    Some(l) => Some((l, shift_pressed)),
                    None => None,
                },
                _ => None,
            }),
    {
        match event {
            InputEvent::ButtonLongPress(c) => match self.local_channel(c) {
                Some(l) => Some((l, shift_pressed)),
                None => None,
            },
            _ => None,
        }
    }

    /// Whether a button-down event is the one waited for on local channel
    /// `chan` (limited to the app's channels); if so, whether shift is held.
    pub fn down_on(&self, event: InputEvent, chan: usize, shift_pressed: bool) -> (r: Option<bool>)
        requires
            N > 0,
            self.start_channel + N <= usize::MAX,
        ensures
            r == (match event {
                InputEvent::ButtonDown(c) => if local_of(self.start_channel, N, c) == Some(
                    clamp_chan(chan, N),
                ) {
                    Some(shift_pressed)
                } else {
                    None
                },
                _ => None,
            }),
    {
        let chan = clamp_channel(chan, N);
        match self.any_down(event, shift_pressed) {
            Some((channel, shift)) => if channel == chan {
                Some(shift)
            } else {
                None
            },
            None => None,
        }
    }

    /// Whether the button of local channel `chan` (limited to the app's
    /// channels) is held, from the button states of all channels.
    pub fn is_button_pressed(&self, chan: usize, pressed: &[bool]) -> (r: bool)
        requires
            N > 0,
            self.start_channel + N <= pressed@.len(),
        ensures
            r == pressed@[self.start_channel + clamp_chan(chan, N)],
    {
        let chan = clamp_channel(chan, N);
        let _len = pressed.len();
        pressed[self.start_channel + chan]
    }
}

/// An app's faders.
#[derive(Clone, Copy)]
pub struct Faders<const N: usize> {
    pub start_channel: usize,
}

impl<const N: usize> Faders<N> {
    /// The faders of the app starting at `start_channel`.
    pub fn new(start_channel: usize) -> (r: Self)
        ensures
            r.start_channel == start_channel,
    {
        Self { start_channel }
    }

    /// For a fader change on one of the app's channels, its local channel.
    pub fn any_change(&self, event: InputEvent) -> (r: Option<usize>)
        requires
            self.start_channel + N <= usize::MAX,
        ensures
            r == (match event {
                InputEvent::FaderChange(c) => local_of(self.start_channel, N, c),
                _ => None,
            }),
    {
        match event {
            InputEvent::FaderChange(c) => {
                if self.start_channel <= c && c < self.start_channel + N {
                    Some(c - self.start_channel)
                } else {
                    None
                }
            },
            _ => None,
        }
    }

    /// Position of the fader of local channel `chan` (limited to the app's
    /// channels), from the positions of all faders.
    pub fn get_value_at(&self, chan: usize, faders: &[u16]) -> (r: u16)
        requires
            N > 0,
            self.start_channel + N <= faders@.len(),
        ensures
            r == faders@[self.start_channel + clamp_chan(chan, N)],
    {
        let chan = clamp_channel(chan, N);
        let _len = faders.len();
        faders[self.start_channel + chan]
    }

    /// Positions of all the app's faders.
    pub fn get_all_values(&self, faders: &[u16]) -> (r: [u16; N])
        requires
            self.start_channel + N <= faders@.len(),
        ensures
            forall|i: int| 0 <= i < N ==> #[trigger] r@[i] == faders@[self.start_channel + i],
    {
        let mut buf = [0u16; N];
        let _len = faders.len();
        let mut i: usize = 0;
        while i < N
            invariant
                i <= N,
                self.start_channel + N <= faders@.len(),
                faders@.len() <= usize::MAX,
                forall|j: int| 0 <= j < i ==> #[trigger] buf@[j] == faders@[self.start_channel + j],
            decreases N - i,
        {
            buf[i] = faders[self.start_channel + i];
            i = i + 1;
        }
        buf
    }

    /// Position of the first fader of the app.
    pub fn get_value(&self, faders: &[u16]) -> (r: u16)
        requires
            self.start_channel < faders@.len(),
        ensures
            r == faders@[self.start_channel as int],
    {
        faders[self.start_channel]
    }
}

/// Divides the device clock for an app: counts ticks and passes every
/// `division`-th on; start and reset restart the count.
pub struct Clock {
    pub tick_count: u16,
}

impl Clock {
    /// A clock that has counted no tick.
    pub fn new() -> (r: Self)
        ensures
            r.tick_count == 0,
    {
        Self { tick_count: 0 }
    }

    /// Handles one device clock event; returns the event to pass to the app,
    /// if any. A tick is passed on when it completes `division` ticks.
    pub fn on_event(&mut self, event: ClockEvent, division: u16) -> (r: Option<ClockEvent>)
        requires
            old(self).tick_count < u16::MAX,
        ensures
            final(self).tick_count < u16::MAX,
            match event {
                ClockEvent::Tick(_) => if old(self).tick_count + 1 >= division {
                    r == Some(event) && final(self).tick_count == 0
                } else {
                    r is None && final(self).tick_count == old(self).tick_count + 1
                },
                ClockEvent::Stop => r == Some(event) && final(self).tick_count == old(
                    self,
                ).tick_count,
                _ => r == Some(event) && final(self).tick_count == 0,
            },
    {
        match event {
            ClockEvent::Tick(_) => {
                self.tick_count = self.tick_count + 1;
                if self.tick_count >= division {
                    self.tick_count = 0;
                    Some(event)
                } else {
                    None
                }
            },
            ClockEvent::Stop => Some(event),
            _ => {
                self.tick_count = 0;
                Some(event)
            },
        }
    }
}

/// Over `division` ticks from a fresh count, exactly the last is passed on.
pub proof fn law_clock_divides(count: u16, division: u16)
    requires
        count < division,
    ensures
        (count + 1 >= division) == (count == division - 1),
{
}

/// Scene requests to an app.
#[derive(Clone, Copy, PartialEq, Eq, Structural)]
pub enum SceneEvent {
    LoadSscene(u8),
    SaveScene(u8),
}

/// The scene request an input event carries, if any.
pub fn scene_event(event: InputEvent) -> (r: Option<SceneEvent>)
    ensures
        r == (match event {
            InputEvent::LoadScene(s) => Some(SceneEvent::LoadSscene(s)),
            InputEvent::SaveScene(s) => Some(SceneEvent::SaveScene(s)),
            _ => None,
        }),
{
    match event {
        InputEvent::LoadScene(s) => Some(SceneEvent::LoadSscene(s)),
        InputEvent::SaveScene(s) => Some(SceneEvent::SaveScene(s)),
        _ => None,
    }
}

/// An app's I2C fader output.
#[derive(Clone, Copy)]
pub struct I2cOutput<const N: usize> {
    pub start_channel: usize,
}

impl<const N: usize> I2cOutput<N> {
    /// The I2C output of the app starting at `start_channel`.
    pub fn new(start_channel: usize) -> (r: Self)
        ensures
            r.start_channel == start_channel,
    {
        Self { start_channel }
    }

    /// The fader-value message `(device channel, value)` to send, when an
    /// I2C leader is connected.
    pub fn send_fader_value(&self, chan: usize, value: u16, connected: bool) -> (r: Option<(usize, u16)>)
        requires
            N > 0,
            self.start_channel + N <= usize::MAX,
        ensures
            r == if connected {
                Some(((self.start_channel + clamp_chan(chan, N)) as usize, value))
            } else {
                None
            },
    {
        if connected {
            let chan = clamp_channel(chan, N);
            Some((self.start_channel + chan, value))
        } else {
            None
        }
    }
}

/// An app's MIDI output on one MIDI channel (0..=15).
#[derive(Clone, Copy)]
pub struct MidiOutput {
    pub start_channel: usize,
    pub midi_channel: u8,
}

/// A MIDI send request: sending app's start channel, MIDI channel, message.
pub type MidiRequest = (usize, u8, MidiMessage);

impl MidiOutput {
    /// The MIDI output of the app at `start_channel` on `midi_channel`
    /// (taken modulo 16).
    pub fn new(start_channel: usize, midi_channel: u8) -> (r: Self)
        ensures
            r.start_channel == start_channel,
            r.midi_channel == midi_channel % 16,
    {
        Self { start_channel, midi_channel: midi_channel % 16 }
    }

    /// A control change; `value` is 12-bit and is scaled to 7 bits.
    pub fn send_cc(&self, cc: u8, value: u16) -> (r: MidiRequest)
        ensures
            r == (
                self.start_channel,
                self.midi_channel,
                MidiMessage::Controller { controller: cc % 128, value: scale_12_7_spec(value) },
            ),
    {
        (
            self.start_channel,
            self.midi_channel,
            MidiMessage::Controller { controller: cc % 128, value: scale_bits_12_7(value) },
        )
    }

    /// A note-on; `velocity` is 12-bit and is scaled to 7 bits.
    pub fn send_note_on(&self, note_number: u8, velocity: u16) -> (r: MidiRequest)
        ensures
            r == (
                self.start_channel,
                self.midi_channel,
                MidiMessage::NoteOn { key: note_number % 128, vel: scale_12_7_spec(velocity) },
            ),
    {
        (
            self.start_channel,
            self.midi_channel,
            MidiMessage::NoteOn { key: note_number % 128, vel: scale_bits_12_7(velocity) },
        )
    }

    /// A note-off with velocity 0.
    pub fn send_note_off(&self, note_number: u8) -> (r: MidiRequest)
        ensures
            r == (
                self.start_channel,
                self.midi_channel,
                MidiMessage::NoteOff { key: note_number % 128, vel: 0 },
            ),
    {
        (self.start_channel, self.midi_channel, MidiMessage::NoteOff { key: note_number % 128, vel: 0 })
    }

    /// Polyphonic aftertouch; `velocity` is 12-bit and is scaled to 7 bits.
    pub fn send_aftertouch(&self, note_number: u8, velocity: u16) -> (r: MidiRequest)
        ensures
            r == (
                self.start_channel,
                self.midi_channel,
                MidiMessage::Aftertouch { key: note_number % 128, vel: scale_12_7_spec(velocity) },
            ),
    {
        (
            self.start_channel,
            self.midi_channel,
            MidiMessage::Aftertouch { key: note_number % 128, vel: scale_bits_12_7(velocity) },
        )
    }

    /// A pitch bend; `bend` keeps its low 14 bits.
    pub fn send_pitch_bend(&self, bend: u16) -> (r: MidiRequest)
        ensures
            r == (self.start_channel, self.midi_channel, MidiMessage::PitchBend { bend: bend % 16384 }),
    {
        (self.start_channel, self.midi_channel, MidiMessage::PitchBend { bend: bend % 16384 })
    }
}

/// An app's MIDI input on one MIDI channel (0..=15).
#[derive(Clone, Copy)]
pub struct MidiInput {
    pub midi_channel: u8,
}

impl MidiInput {
    /// The MIDI input on `midi_channel` (taken modulo 16).
    pub fn new(midi_channel: u8) -> (r: Self)
        ensures
            r.midi_channel == midi_channel % 16,
    {
        Self { midi_channel: midi_channel % 16 }
    }

    /// The message of a MIDI event on the input's channel, if it is one.
    pub fn accept(&self, event: InputEvent) -> (r: Option<MidiMessage>)
        ensures
            r == (match event {
                InputEvent::MidiMsg(ch, m) => if ch == self.midi_channel {
                    Some(m)
                } else {
                    None
                },
                _ => None,
            }),
    {
        match event {
            InputEvent::MidiMsg(ch, m) => if ch == self.midi_channel {
                Some(m)
            } else {
                None
            },
            _ => None,
        }
    }
}

/// A value an app shares between its tasks.
pub struct Global<T> {
    pub inner: T,
}

impl<T: Copy> Global<T> {
    /// A global holding `initial`.
    pub fn new(initial: T) -> (r: Self)
        ensures
            r.inner == initial,
    {
        Self { inner: initial }
    }

    /// The current value.
    pub fn get(&self) -> (r: T)
        ensures
            r == self.inner,
    {
        self.inner
    }

    /// Replaces the value; returns the new value.
    pub fn set(&mut self, val: T) -> (r: T)
        ensures
            final(self).inner == val,
            r == val,
    {
        self.inner = val;
        self.inner
    }

    /// Replaces the value by what `modifier` makes of it; returns the new value.
    pub fn modify<F: FnOnce(&T) -> T>(&mut self, modifier: F) -> (r: T)
        requires
            modifier.requires((&old(self).inner,)),
        ensures
            modifier.ensures((&old(self).inner,), r),
            final(self).inner == r,
    {
        let v = modifier(&self.inner);
        self.inner = v;
        self.inner
    }
}

impl Global<bool> {
    /// Flips the value; returns the new value.
    pub fn toggle(&mut self) -> (r: bool)
        ensures
            r == !old(self).inner,
            final(self).inner == r,
    {
        self.inner = !self.inner;
        self.inner
    }
}

/// Toggling twice restores the value.
pub proof fn law_toggle_twice(b: bool)
    ensures
        !(!b) == b,
{
}

#[verifier::external_type_specification]
#[verifier::external_body]
pub struct ExAnalogLatch(libfp::latch::AnalogLatch);

/// What a pickup latch remembers: the active layer, whether the fader is in
/// control of that layer's value, the fader's previous value, the last
/// value reported and the previous stored (target) value.
#[derive(Clone, Copy, PartialEq, Eq, Structural)]
pub struct LatchModel {
    pub layer: LatchLayer,
    pub latched: bool,
    pub prev: u16,
    pub last_emitted: u16,
    pub prev_target: u16,
}

/// A fader's pickup latch: after a layer switch, or when the stored value
/// changes under it, the fader takes control of the value only once it
/// reaches (or crosses) that value. Every `Latch` is made by `Latch::new`,
/// in pickup mode; its model is kept by the two calls into `libfp` alone.
#[derive(Clone, Copy)]
pub struct Latch {
    inner: libfp::latch::AnalogLatch,
    model: Ghost<LatchModel>,
}

/// What `libfp::latch::AnalogLatch::update` does on a pickup-mode latch with
/// default tolerances whose state is `m`: the value reported (if any) and
/// the state after, for the fader at `value` with `layer` active and
/// `target` stored for it.
pub uninterp spec fn latch_step(m: LatchModel, value: u16, layer: LatchLayer, target: u16) -> (Option<u16>, LatchModel);

/// Distance between two fader values.
pub open spec fn fader_distance(a: u16, b: u16) -> int {
    if a >= b {
        a - b
    } else {
        b - a
    }
}

/// What `AnalogLatch::update`'s source shows in pickup mode for a step from
/// `m` reporting `out` and leaving `next`: the layer becomes `layer` and the
/// stored value `target`; the fader value is remembered; it reports nothing
/// or the fader's own value, and a report is remembered and leaves the fader
/// in control; at either end of travel (0 or 4095) a value not yet reported
/// is always reported; while in control on the same layer with the same
/// stored value it reports exactly when the fader moved more than 25 from
/// the last report (or reached an end not yet reported).
pub open spec fn pickup_facts(m: LatchModel, value: u16, layer: LatchLayer, target: u16, out: Option<u16>, next: LatchModel) -> bool {
    let edge = (value == 0 || value == 4095) && value != m.last_emitted;
    &&& next.layer == layer
    &&& next.prev_target == target
    &&& next.prev == value
    &&& (out is None || out == Some(value))
    &&& (out is Some ==> next.last_emitted == value && next.latched)
    &&& (out is None ==> next.last_emitted == m.last_emitted)
    &&& (edge ==> out == Some(value))
    &&& (m.latched && layer == m.layer && target == m.prev_target ==> (out is Some <==> (edge || fader_distance(
        value,
        m.last_emitted,
    ) > 25)))
}

/// Calls `libfp::latch::AnalogLatch::new(initial, TakeoverMode::Pickup)`:
/// a latch on the main layer, latched at `initial` (its previous fader
/// value, last report and previous stored value all `initial`), with the
/// default tolerances (25 while in control, 50 for pickup).
#[verifier::external_body]
fn new_pickup_latch(initial: u16) -> (r: Latch)
    ensures
        r.model@ == (LatchModel {
            layer: LatchLayer::Main,
            latched: true,
            prev: initial,
            last_emitted: initial,
            prev_target: initial,
        }),
{
    Latch {
        inner: libfp::latch::AnalogLatch::new(initial, libfp::latch::TakeoverMode::Pickup),
        model: Ghost(LatchModel {
            layer: LatchLayer::Main,
            latched: true,
            prev: initial,
            last_emitted: initial,
            prev_target: initial,
        }),
    }
}

/// Calls `libfp::latch::AnalogLatch::update` on a pickup-mode latch with
/// the fader's value, the active layer and that layer's stored value. The
/// report and the state after are named (`latch_step` of the state before);
/// the facts of `pickup_facts`, read off the source, hold of them.
#[verifier::external_body]
fn latch_update(latch: &mut Latch, value: u16, layer: LatchLayer, target: u16) -> (r: Option<u16>)
    ensures
        (r, final(latch).model@) == latch_step(old(latch).model@, value, layer, target),
        pickup_facts(old(latch).model@, value, layer, target, r, final(latch).model@),
{
    let fp_layer = match layer {
        LatchLayer::Main => libfp::latch::LatchLayer::Main,
        LatchLayer::Alt => libfp::latch::LatchLayer::Alt,
        LatchLayer::Third => libfp::latch::LatchLayer::Third,
    };
    latch.inner.update(value, fp_layer, target)
}

impl Latch {
    /// The latch's state.
    pub closed spec fn model(&self) -> LatchModel {
        self.model@
    }

    /// A pickup latch that starts latched at `initial` on the main layer.
    pub fn new(initial: u16) -> (r: Latch)
        ensures
            r.model() == (LatchModel {
                layer: LatchLayer::Main,
                latched: true,
                prev: initial,
                last_emitted: initial,
                prev_target: initial,
            }),
    {
        new_pickup_latch(initial)
    }

    /// The fader moved to `value` with `layer` active and `target` stored
    /// for that layer: `Some(value)` when the fader is (or just became) in
    /// control and moved enough to report, else `None` (see `pickup_facts`).
    pub fn update(&mut self, value: u16, layer: LatchLayer, target: u16) -> (r: Option<u16>)
        ensures
            (r, final(self).model()) == latch_step(old(self).model(), value, layer, target),
            pickup_facts(old(self).model(), value, layer, target, r, final(self).model()),
    {
        latch_update(self, value, layer, target)
    }
}

/// A source of random values in `0..=4095`.
#[derive(Clone, Copy)]
pub struct Die;

/// The die value of two random bytes: their little-endian `u16` modulo 4096.
pub open spec fn die_value(b1: u8, b2: u8) -> u16 {
    ((b1 + 256 * b2) % 4096) as u16
}

impl Die {
    /// The die.
    pub fn new() -> (r: Self)
        ensures
            r == Die,
    {
        Self
    }

    /// A roll from two random bytes.
    pub fn roll_from(&self, b1: u8, b2: u8) -> (r: u16)
        ensures
            r == die_value(b1, b2),
            r < 4096,
    {
        let random_u16: u16 = b1 as u16 + 256 * (b2 as u16);
        random_u16 % 4096
    }
}

/// Errors of app state handling.
#[derive(Debug, Clone, Copy, PartialEq, Eq, Structural)]
pub enum AppError {
    DeserializeFailed,
}

/// How a jack's port is configured.
#[derive(Clone, Copy, Debug, PartialEq, Eq, Structural)]
pub enum PortMode {
    /// Port off.
    Off,
    /// Analog input, bipolar (-5..5V) or 0..10V.
    Adc { bipolar: bool },
    /// Analog output, bipolar (-5..5V) or 0..10V.
    Dac { bipolar: bool },
    /// Gate output at the given level.
    Gpo { level: u16 },
}

/// The port reconfiguration request: device channel and mode.
pub type PortRequest = (usize, PortMode);

/// An app instance: its id, start channel and layout id.
#[derive(Clone, Copy)]
pub struct App<const N: usize> {
    pub app_id: u8,
    pub start_channel: usize,
    pub layout_id: u8,
}

impl<const N: usize> App<N> {
    /// The app `app_id` at `start_channel` with `layout_id`.
    pub fn new(app_id: u8, start_channel: usize, layout_id: u8) -> (r: Self)
        ensures
            r.app_id == app_id,
            r.start_channel == start_channel,
            r.layout_id == layout_id,
    {
        Self { app_id, start_channel, layout_id }
    }

    /// A global holding `initial`.
    pub fn make_global<T: Copy>(&self, initial: T) -> (r: Global<T>)
        ensures
            r.inner == initial,
    {
        Global::new(initial)
    }

    /// An input jack on local channel `chan` (limited to the app's channels)
    /// and the port configuration it needs.
    pub fn make_in_jack(&self, chan: usize, range: Range) -> (r: (PortRequest, InJack))
        requires
            N > 0,
            self.start_channel + N <= usize::MAX,
        ensures
            r.0 == (
                (self.start_channel + clamp_chan(chan, N)) as usize,
                PortMode::Adc { bipolar: range == Range::_Neg5_5V },
            ),
            r.1.channel == self.start_channel + clamp_chan(chan, N),
            r.1.range == range,
    {
        let chan = clamp_channel(chan, N);
        let bipolar = match range {
            Range::_Neg5_5V => true,
            _ => false,
        };
        let channel = self.start_channel + chan;
        ((channel, PortMode::Adc { bipolar }), InJack::new(channel, range))
    }

    /// An output jack on local channel `chan` (limited to the app's channels)
    /// and the port configuration it needs.
    pub fn make_out_jack(&self, chan: usize, range: Range) -> (r: (PortRequest, OutJack))
        requires
            N > 0,
            self.start_channel + N <= usize::MAX,
        ensures
            r.0 == (
                (self.start_channel + clamp_chan(chan, N)) as usize,
                PortMode::Dac { bipolar: range == Range::_Neg5_5V },
            ),
            r.1.channel == self.start_channel + clamp_chan(chan, N),
            r.1.range == range,
    {
        let chan = clamp_channel(chan, N);
        let bipolar = match range {
            Range::_Neg5_5V => true,
            _ => false,
        };
        let channel = self.start_channel + chan;
        ((channel, PortMode::Dac { bipolar }), OutJack::new(channel, range))
    }

    /// A gate output on local channel `chan` (limited to the app's channels)
    /// at `level`, and the port configuration it needs.
    pub fn make_gate_jack(&self, chan: usize, level: u16) -> (r: (PortRequest, GateJack))
        requires
            N > 0,
            self.start_channel + N <= usize::MAX,
        ensures
            r.0 == ((self.start_channel + clamp_chan(chan, N)) as usize, PortMode::Gpo { level }),
            r.1.channel == self.start_channel + clamp_chan(chan, N),
    {
        let chan = clamp_channel(chan, N);
        let channel = self.start_channel + chan;
        ((channel, PortMode::Gpo { level }), GateJack::new(channel))
    }

    /// The app's LEDs.
    pub fn use_leds(&self) -> (r: Leds<N>)
        ensures
            r.start_channel == self.start_channel,
    {
        Leds::new(self.start_channel)
    }

    /// The app's buttons.
    pub fn use_buttons(&self) -> (r: Buttons<N>)
        ensures
            r.start_channel == self.start_channel,
    {
        Buttons::new(self.start_channel)
    }

    /// The app's faders.
    pub fn use_faders(&self) -> (r: Faders<N>)
        ensures
            r.start_channel == self.start_channel,
    {
        Faders::new(self.start_channel)
    }

    /// A pickup latch for a fader at `initial`.
    pub fn make_latch(&self, initial: u16) -> (r: Latch)
        ensures
            r.model() == (LatchModel {
                layer: LatchLayer::Main,
                latched: true,
                prev: initial,
                last_emitted: initial,
                prev_target: initial,
            }),
    {
        Latch::new(initial)
    }

    /// The die.
    pub fn use_die(&self) -> (r: Die)
        ensures
            r == Die,
    {
        Die::new()
    }

    /// A clock divider with no tick counted.
    pub fn use_clock(&self) -> (r: Clock)
        ensures
            r.tick_count == 0,
    {
        Clock::new()
    }

    /// The app's I2C output.
    pub fn use_i2c_output(&self) -> (r: I2cOutput<N>)
        ensures
            r.start_channel == self.start_channel,
    {
        I2cOutput::new(self.start_channel)
    }

    /// The app's MIDI input on `midi_channel`.
    pub fn use_midi_input(&self, midi_channel: u8) -> (r: MidiInput)
        ensures
            r.midi_channel == midi_channel % 16,
    {
        MidiInput::new(midi_channel)
    }

    /// The app's MIDI output on `midi_channel`.
    pub fn use_midi_output(&self, midi_channel: u8) -> (r: MidiOutput)
        ensures
            r.start_channel == self.start_channel,
            r.midi_channel == midi_channel % 16,
    {
        MidiOutput::new(self.start_channel, midi_channel)
    }

    /// What exiting the app resets: the LEDs of all its channels, then each
    /// of its ports switched off, channel by channel.
    pub fn reset(&self) -> (r: (Vec<LedRequest>, Vec<PortRequest>))
        requires
            N > 0,
            self.start_channel + N <= usize::MAX,
        ensures
            r.0@.len() == 3 * N,
            r.1@.len() == N,
            forall|c: int|
                0 <= c < N ==> #[trigger] r.1@[c] == ((self.start_channel + c) as usize, PortMode::Off),
    {
        let leds = self.use_leds().unset_all();
        let mut ports: Vec<PortRequest> = Vec::new();
        let mut chan: usize = 0;
        while chan < N
            invariant
                chan <= N,
                self.start_channel + N <= usize::MAX,
                ports@.len() == chan,
                forall|c: int|
                    0 <= c < chan ==> #[trigger] ports@[c] == ((self.start_channel + c) as usize, PortMode::Off),
            decreases N - chan,
        {
            ports.push((self.start_channel + chan, PortMode::Off));
            chan = chan + 1;
        }
        (leds, ports)
    }
}

} // verus!
