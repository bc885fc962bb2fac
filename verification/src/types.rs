//! Plain data types shared by the device code: colors and LED modes, jack
//! ranges, MIDI messages, clock and input events, notes and scales.

use vstd::prelude::*;

verus! {

/// LED colors: the palette and custom RGB.
#[derive(Clone, Copy, Debug, PartialEq, Eq, Structural)]
pub enum Color {
    White,
    Yellow,
    Orange,
    Red,
    Lime,
    Green,
    Cyan,
    SkyBlue,
    Blue,
    Violet,
    Pink,
    PaleGreen,
    Sand,
    Rose,
    Salmon,
    LightBlue,
    Custom(u8, u8, u8),
}

/// LED brightness levels.
#[derive(Clone, Copy, Debug, PartialEq, Eq, Structural)]
pub enum Brightness {
    Off,
    Lowest,
    Lower,
    Low,
    Default,
    Mid,
    High,
    Custom(u8),
}

/// Voltage ranges of a jack.
#[derive(Clone, Copy, Debug, PartialEq, Eq, Structural)]
pub enum Range {
    _0_10V,
    _0_5V,
    _Neg5_5V,
}

/// The three LEDs of a channel.
#[derive(Clone, Copy, Debug, PartialEq, Eq, Structural)]
pub enum Led {
    Top,
    Bottom,
    Button,
}

/// What an LED shows.
#[derive(Clone, Copy, Debug, PartialEq, Eq, Structural)]
pub enum LedMode {
    Static(Color, Brightness),
    FadeOut(Color),
    Flash(Color, Option<usize>),
    StaticFade(Color, u16),
    ClockFlash(Color, Brightness, Brightness),
    FlashThenStatic(Color, usize, Color, Brightness),
}

/// A request to the LED task.
#[derive(Clone, Copy, Debug, PartialEq, Eq, Structural)]
pub enum LedMsg {
    SetMode(LedMode),
    Reset,
}

/// A MIDI channel message; 7-bit data bytes are held in `u8`, the pitch
/// bend in `u16` (0..16384).
#[derive(Clone, Copy, Debug, PartialEq, Eq, Structural)]
pub enum MidiMessage {
    NoteOff { key: u8, vel: u8 },
    NoteOn { key: u8, vel: u8 },
    Aftertouch { key: u8, vel: u8 },
    Controller { controller: u8, value: u8 },
    ProgramChange { program: u8 },
    ChannelAftertouch { vel: u8 },
    PitchBend { bend: u16 },
}

/// Clock events; a tick carries the tick count.
#[derive(Clone, Copy, Debug, PartialEq, Eq, Structural)]
pub enum ClockEvent {
    Tick(u64),
    Start,
    Stop,
    Reset,
}

/// Events broadcast to the apps.
#[derive(Clone, Copy, Debug, PartialEq, Eq, Structural)]
pub enum InputEvent {
    ButtonDown(usize),
    ButtonUp(usize),
    ButtonLongPress(usize),
    FaderChange(usize),
    MidiMsg(u8, MidiMessage),
    LoadScene(u8),
    SaveScene(u8),
}

/// MIDI input as the MIDI tasks deliver it.
#[derive(Clone, Copy, Debug, PartialEq, Eq, Structural)]
pub enum MidiEvent {
    Live { channel: u8, message: MidiMessage },
    Nrpn { channel: u8, param: u16, value: u16 },
    Other,
}

/// Layers of a fader's latch: main, alt (with shift) and third.
#[derive(Clone, Copy, Debug, PartialEq, Eq, Structural)]
pub enum LatchLayer {
    Main,
    Alt,
    Third,
}

/// Pitch classes.
#[derive(Clone, Copy, Debug, PartialEq, Eq, Structural)]
pub enum Note {
    C,
    CSharp,
    D,
    DSharp,
    E,
    F,
    FSharp,
    G,
    GSharp,
    A,
    ASharp,
    B,
}

/// Semitone of a pitch class above C.
pub open spec fn note_index(n: Note) -> u8 {
    match n {
        Note::C => 0,
        Note::CSharp => 1,
        Note::D => 2,
        Note::DSharp => 3,
        Note::E => 4,
        Note::F => 5,
        Note::FSharp => 6,
        Note::G => 7,
        Note::GSharp => 8,
        Note::A => 9,
        Note::ASharp => 10,
        Note::B => 11,
    }
}

impl Note {
    /// Semitone above C (0..=11).
    pub fn index(self) -> (r: u8)
        ensures
            r == note_index(self),
            r < 12,
    {
        match self {
            Note::C => 0,
            Note::CSharp => 1,
            Note::D => 2,
            Note::DSharp => 3,
            Note::E => 4,
            Note::F => 5,
            Note::FSharp => 6,
            Note::G => 7,
            Note::GSharp => 8,
            Note::A => 9,
            Note::ASharp => 10,
            Note::B => 11,
        }
    }

    /// The pitch class of semitone `value` above C (values past 11 give B).
    pub fn from_index(value: u8) -> (r: Note)
        ensures
            note_index(r) == if value > 11 {
                11
            } else {
                value
            },
    {
        match value {
            0 => Note::C,
            1 => Note::CSharp,
            2 => Note::D,
            3 => Note::DSharp,
            4 => Note::E,
            5 => Note::F,
            6 => Note::FSharp,
            7 => Note::G,
            8 => Note::GSharp,
            9 => Note::A,
            10 => Note::ASharp,
            _ => Note::B,
        }
    }
}

/// Scales of the quantizer.
#[derive(Clone, Copy, Debug, PartialEq, Eq, Structural)]
pub enum Key {
    Chromatic,
    Ionian,
    Dorian,
    Phrygian,
    Lydian,
    Mixolydian,
    Aeolian,
    Locrian,
    BluesMaj,
    BluesMin,
    PentatonicMaj,
    PentatonicMin,
    Folk,
    Japanese,
    Gamelan,
    HungarianMin,
    Off,
}

/// The 12-bit interval mask of a scale: bit 11 is the root, bit 0 the major
/// seventh. `Off` counts as chromatic.
pub open spec fn key_mask_spec(k: Key) -> u16 {
    match k {
        Key::Chromatic => 0b111111111111,
        Key::Ionian => 0b101011010101,
        Key::Dorian => 0b101101010110,
        Key::Phrygian => 0b110101011010,
        Key::Lydian => 0b101010110101,
        Key::Mixolydian => 0b101011010110,
        Key::Aeolian => 0b101101011010,
        Key::Locrian => 0b110101101010,
        Key::BluesMaj => 0b101110010100,
        Key::BluesMin => 0b100101110010,
        Key::PentatonicMaj => 0b101010010100,
        Key::PentatonicMin => 0b100101010010,
        Key::Folk => 0b110111011010,
        Key::Japanese => 0b110001011000,
        Key::Gamelan => 0b110100011000,
        Key::HungarianMin => 0b101100111001,
        Key::Off => 0b111111111111,
    }
}

impl Key {
    /// The 12-bit interval mask of the scale.
    pub fn as_u16_key(&self) -> (r: u16)
        ensures
            r == key_mask_spec(*self),
            r < 4096,
    {
        match self {
            Key::Chromatic => 0b111111111111,
            Key::Ionian => 0b101011010101,
            Key::Dorian => 0b101101010110,
            Key::Phrygian => 0b110101011010,
            Key::Lydian => 0b101010110101,
            Key::Mixolydian => 0b101011010110,
            Key::Aeolian => 0b101101011010,
            Key::Locrian => 0b110101101010,
            Key::BluesMaj => 0b101110010100,
            Key::BluesMin => 0b100101110010,
            Key::PentatonicMaj => 0b101010010100,
            Key::PentatonicMin => 0b100101010010,
            Key::Folk => 0b110111011010,
            Key::Japanese => 0b110001011000,
            Key::Gamelan => 0b110100011000,
            Key::HungarianMin => 0b101100111001,
            Key::Off => 0b111111111111,
        }
    }
}

/// MIDI outputs to send to: `[usb, out1, out2]`.
#[derive(Clone, Copy, Debug)]
pub struct MidiOut(pub [bool; 3]);

/// Volts-per-octave standards.
#[derive(Clone, Copy, Debug, PartialEq, Eq, Structural)]
pub enum VoltPerOct {
    Standard,
    Buchla,
    Custom(u8),
}

/// A 12-bit value scaled to 7 bits: each step covers 32 input values; the
/// 7-bit result keeps the low seven bits of larger inputs.
pub open spec fn scale_12_7_spec(value: u16) -> u8 {
    ((value / 32) % 128) as u8
}

/// Scales a 12-bit value to a 7-bit MIDI value, as `libfp::utils::scale_bits_12_7`
/// does (divide by 32, keep seven bits).
pub fn scale_bits_12_7(value: u16) -> (r: u8)
    ensures
        r == scale_12_7_spec(value),
        r < 128,
{
    ((value / 32) % 128) as u8
}

} // verus!
