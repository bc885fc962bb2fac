//! The host side of installable native apps: the event queue the app reads,
//! the command queue it fills, blob reads and writes of its stored state,
//! wake-up scheduling, and the decoding of its commands into device requests.

use vstd::prelude::*;

use crate::app::PortMode;
use crate::storage::{
    app_block_bytes, params_address, scene_slot, storage_address, AppParamsAddress, AppStorageAddress,
};
use crate::types::{
    Brightness, ClockEvent, Color, InputEvent, Led, LedMode, LedMsg, MidiEvent, MidiMessage,
    MidiOut, Range, VoltPerOct,
};

verus! {

/// Largest instance memory a native app may ask for.
pub const MAX_INSTANCE_BYTES: usize = 8192;
/// Capacity of the event queue.
pub const EVENT_QUEUE_LEN: usize = 64;
/// Capacity of the command queue.
pub const COMMAND_QUEUE_LEN: usize = 32;
/// Largest blob (stored record) in bytes.
pub const MAX_DATA_LEN: usize = 400;

/// Kinds of events handed to a native app.
#[derive(Clone, Copy, Debug, PartialEq, Eq, Structural)]
pub enum EventKind {
    /// A plain value event with the given raw kind code.
    Value(u8),
    Fader,
    ButtonDown,
    ButtonUp,
    ButtonLongPress,
    SceneLoad,
    SceneSave,
    ClockTick,
    ClockStart,
    ClockStop,
    ClockReset,
    MidiDinMessage,
    MidiUsbMessage,
    MidiDinNrpn,
    MidiUsbNrpn,
    ParamSet,
    ParamRequest,
}

/// An event as a native app reads it.
#[derive(Clone, Copy, Debug, PartialEq, Eq, Structural)]
pub struct EventV1 {
    pub kind: EventKind,
    pub channel: u8,
    pub value: u16,
    pub data: u64,
    pub sequence: u32,
}

/// An event of `kind` with every other field zero.
pub open spec fn bare_event(kind: EventKind) -> EventV1 {
    EventV1 { kind, channel: 0, value: 0, data: 0, sequence: 0 }
}

impl EventV1 {
    /// An event of `kind` with every other field zero.
    pub fn bare(kind: EventKind) -> (r: Self)
        ensures
            r == bare_event(kind),
    {
        EventV1 { kind, channel: 0, value: 0, data: 0, sequence: 0 }
    }

    /// A value event of raw kind `kind` on `channel`.
    pub fn value(kind: u8, channel: u8, value: u16) -> (r: Self)
        ensures
            r == (EventV1 { kind: EventKind::Value(kind), channel, value, data: 0, sequence: 0 }),
    {
        EventV1 { kind: EventKind::Value(kind), channel, value, data: 0, sequence: 0 }
    }
}

/// Kinds of commands a native app submits.
#[derive(Clone, Copy, Debug, PartialEq, Eq, Structural)]
pub enum CommandKind {
    LedSet,
    LedUnset,
    JackInput,
    JackOutput,
    JackGate,
    GateHigh,
    GateLow,
    MidiCc,
    MidiNoteOn,
    MidiNoteOff,
    I2cFader,
    Other(u8),
}

/// A command as a native app submits it.
#[derive(Clone, Copy, Debug, PartialEq, Eq, Structural)]
pub struct CommandV1 {
    pub kind: CommandKind,
    pub channel: u8,
    pub flags: u16,
    pub arg0: u32,
    pub arg1: u32,
    pub arg2: u32,
}

/// What a native app can read synchronously.
#[derive(Clone, Copy, Debug, PartialEq, Eq, Structural)]
pub enum ValueKind {
    Fader,
    Button,
    Shift,
    Input,
    Random,
    GlobalSwing,
    TakeoverMode,
    AppId,
    StartChannel,
    LayoutId,
    GlobalKey,
    GlobalTonic,
    Other(u8),
}

/// Kinds of blobs a native app reads and writes.
#[derive(Clone, Copy, Debug, PartialEq, Eq, Structural)]
pub enum BlobKind {
    Storage,
    Params,
    ParamUpdate,
    ParamResponse,
    Other(u8),
}

/// Device state a value read draws from.
#[derive(Clone, Copy)]
pub struct HostReadings {
    pub faders: [u16; 16],
    pub buttons: [bool; 16],
    pub shift: bool,
    pub adc: [u16; 16],
    pub random: u16,
    pub swing: u32,
    /// 0 pickup, 1 jump, 2 scale.
    pub takeover: u32,
    pub key: u32,
    pub tonic: u32,
}

/// The last blob read back for the app.
pub struct BlobCache {
    pub kind: BlobKind,
    pub index: u8,
    pub ready: bool,
    pub bytes: Vec<u8>,
}

/// A blob write waiting to be carried out.
#[derive(Clone)]
pub struct BlobWrite {
    pub kind: BlobKind,
    pub index: u8,
    pub bytes: Vec<u8>,
}

impl BlobCache {
    /// An empty cache: no blob kind (code 0), index 0, nothing ready, no bytes.
    pub fn new() -> (r: Self)
        ensures
            r.kind == BlobKind::Other(0),
            r.index == 0,
            !r.ready,
            r.bytes@.len() == 0,
    {
        BlobCache { kind: BlobKind::Other(0), index: 0, ready: false, bytes: Vec::new() }
    }

    /// Caches `bytes` (at most `MAX_DATA_LEN` of them) as blob `kind`/`index`.
    pub fn store(&mut self, kind: BlobKind, index: u8, bytes: &[u8])
        ensures
            final(self).kind == kind,
            final(self).index == index,
            final(self).ready,
            final(self).bytes@ == bytes@.take(
                if bytes@.len() < MAX_DATA_LEN {
                    bytes@.len() as int
                } else {
                    MAX_DATA_LEN as int
                },
            ),
    {
        let len = if bytes.len() < MAX_DATA_LEN {
            bytes.len()
        } else {
            MAX_DATA_LEN
        };
        let mut out: Vec<u8> = Vec::new();
        let mut i: usize = 0;
        while i < len
            invariant
                i <= len,
                len <= bytes@.len(),
                out@ == bytes@.take(i as int),
            decreases len - i,
        {
            out.push(bytes[i]);
            i = i + 1;
            assert(out@ =~= bytes@.take(i as int));
        }
        self.kind = kind;
        self.index = index;
        self.bytes = out;
        self.ready = true;
    }
}

/// The queue of events for a native app: a `heapless::Deque<EventV1, 64>`
/// (whose storage type Verus cannot be told of), oldest first.
#[verifier::external_body]
pub struct EventQueue {
    items: heapless::Deque<EventV1, EVENT_QUEUE_LEN>,
}

/// The events an event queue holds, oldest first.
pub uninterp spec fn event_queue_items(q: EventQueue) -> Seq<EventV1>;

impl View for EventQueue {
    type V = Seq<EventV1>;

    open spec fn view(&self) -> Seq<EventV1> {
        event_queue_items(*self)
    }
}

/// Calls `heapless::Deque::<EventV1, 64>::new`: an empty queue.
#[verifier::external_body]
fn event_queue_new() -> (r: EventQueue)
    ensures
        event_queue_items(r) == Seq::<EventV1>::empty(),
{
    EventQueue { items: heapless::Deque::new() }
}

/// Calls `heapless::Deque::len`: the number of events held (at most 64).
#[verifier::external_body]
fn event_queue_len(q: &EventQueue) -> (r: usize)
    ensures
        r == event_queue_items(*q).len(),
        r <= EVENT_QUEUE_LEN,
{
    q.items.len()
}

/// Calls `heapless::Deque::get`: the event `index` places from the oldest,
/// if there is one.
#[verifier::external_body]
fn event_queue_get(q: &EventQueue, index: usize) -> (r: Option<EventV1>)
    ensures
        r == if index < event_queue_items(*q).len() { Some(event_queue_items(*q)[index as int]) } else { None::<EventV1> },
{
    q.items.get(index).copied()
}

/// Calls `heapless::Deque::push_back`: below the capacity of 64 the event
/// joins the back (`true`); a full queue is left as it was (`false`).
#[verifier::external_body]
fn event_queue_push_back(q: &mut EventQueue, event: EventV1) -> (pushed: bool)
    ensures
        pushed == (event_queue_items(*old(q)).len() < EVENT_QUEUE_LEN),
        pushed ==> event_queue_items(*final(q)) == event_queue_items(*old(q)).push(event),
        !pushed ==> event_queue_items(*final(q)) == event_queue_items(*old(q)),
        event_queue_items(*final(q)).len() <= EVENT_QUEUE_LEN,
{
    q.items.push_back(event).is_ok()
}

/// Calls `heapless::Deque::pop_front`: the oldest event leaves, if any.
#[verifier::external_body]
fn event_queue_pop_front(q: &mut EventQueue) -> (r: Option<EventV1>)
    ensures
        event_queue_items(*old(q)).len() == 0 ==> r is None && event_queue_items(*final(q)) == event_queue_items(*old(q)),
        event_queue_items(*old(q)).len() > 0 ==> r == Some(event_queue_items(*old(q))[0]) && event_queue_items(*final(q)) == event_queue_items(*old(q)).drop_first(),
{
    q.items.pop_front()
}

impl EventQueue {
    /// The number of events held.
    pub fn len(&self) -> (r: usize)
        ensures
            r == self@.len(),
            r <= EVENT_QUEUE_LEN,
    {
        event_queue_len(self)
    }

    /// The event `index` places from the oldest, if there is one.
    pub fn get(&self, index: usize) -> (r: Option<EventV1>)
        ensures
            r == if index < self@.len() { Some(self@[index as int]) } else { None::<EventV1> },
    {
        event_queue_get(self, index)
    }
}

/// The queue of commands from a native app: a `heapless::Deque<CommandV1,
/// 32>`, oldest first.
#[verifier::external_body]
pub struct CommandQueue {
    items: heapless::Deque<CommandV1, COMMAND_QUEUE_LEN>,
}

/// The commands a command queue holds, oldest first.
pub uninterp spec fn command_queue_items(q: CommandQueue) -> Seq<CommandV1>;

impl View for CommandQueue {
    type V = Seq<CommandV1>;

    open spec fn view(&self) -> Seq<CommandV1> {
        command_queue_items(*self)
    }
}

/// Calls `heapless::Deque::<CommandV1, 32>::new`: an empty queue.
#[verifier::external_body]
fn command_queue_new() -> (r: CommandQueue)
    ensures
        command_queue_items(r) == Seq::<CommandV1>::empty(),
{
    CommandQueue { items: heapless::Deque::new() }
}

/// Calls `heapless::Deque::push_back`: below the capacity of 32 the command
/// joins the back (`true`); a full queue is left as it was (`false`).
#[verifier::external_body]
fn command_queue_push_back(q: &mut CommandQueue, command: CommandV1) -> (pushed: bool)
    ensures
        pushed == (command_queue_items(*old(q)).len() < COMMAND_QUEUE_LEN),
        pushed ==> command_queue_items(*final(q)) == command_queue_items(*old(q)).push(command),
        !pushed ==> command_queue_items(*final(q)) == command_queue_items(*old(q)),
        command_queue_items(*final(q)).len() <= COMMAND_QUEUE_LEN,
{
    q.items.push_back(command).is_ok()
}

/// Calls `heapless::Deque::pop_front`: the oldest command leaves, if any.
#[verifier::external_body]
fn command_queue_pop_front(q: &mut CommandQueue) -> (r: Option<CommandV1>)
    ensures
        command_queue_items(*old(q)).len() == 0 ==> r is None && command_queue_items(*final(q)) == command_queue_items(*old(q)),
        command_queue_items(*old(q)).len() > 0 ==> r == Some(command_queue_items(*old(q))[0]) && command_queue_items(*final(q)) == command_queue_items(*old(q)).drop_first(),
{
    q.items.pop_front()
}

/// The host state of one running native app.
pub struct RuntimeContext {
    pub app_id: u8,
    pub start_channel: usize,
    pub channels: usize,
    pub layout_id: u8,
    pub events: EventQueue,
    pub event_sequence: u32,
    pub commands: CommandQueue,
    pub blob_cache: BlobCache,
    pub pending_blob_read: Option<(BlobKind, u8)>,
    pub pending_blob_write: Option<BlobWrite>,
    pub wake_at: Option<u64>,
    /// Whether the app asked to be polled again.
    pub wake_signalled: bool,
}

/// Whether a native app of `channels` channels can run at `start_channel`.
pub open spec fn placement_ok(start_channel: usize, channels: usize) -> bool {
    channels != 0 && start_channel + channels <= 16
}

/// The sequence number that follows `seq`: wrapping, and never 0.
pub open spec fn next_sequence(seq: u32) -> u32 {
    if seq == u32::MAX {
        1
    } else {
        (seq + 1) as u32
    }
}

/// The first event in `events` with a sequence number above `sequence`.
pub open spec fn first_after(events: Seq<EventV1>, sequence: u32) -> Option<EventV1>
    decreases events.len(),
{
    if events.len() == 0 {
        None
    } else if events[0].sequence > sequence {
        Some(events[0])
    } else {
        first_after(events.drop_first(), sequence)
    }
}

/// The raw value and packed data of a MIDI message: note and controller
/// messages pack the first data byte low and the second in bits 8 up.
pub open spec fn midi_encoding(message: MidiMessage) -> (u16, u64) {
    match message {
        MidiMessage::NoteOff { key, vel } => (0, (key + vel * 256) as u64),
        MidiMessage::NoteOn { key, vel } => (1, (key + vel * 256) as u64),
        MidiMessage::Aftertouch { key, vel } => (2, (key + vel * 256) as u64),
        MidiMessage::Controller { controller, value } => (3, (controller + value * 256) as u64),
        MidiMessage::ProgramChange { program } => (4, program as u64),
        MidiMessage::ChannelAftertouch { vel } => (5, vel as u64),
        MidiMessage::PitchBend { bend } => (6, bend as u64),
    }
}

/// Packs a MIDI message for a native app.
pub fn encode_midi_message(message: MidiMessage) -> (r: (u16, u64))
    ensures
        r == midi_encoding(message),
{
    match message {
        MidiMessage::NoteOff { key, vel } => {
            proof {
                lemma_pack_bytes(key, vel);
            }
            (0, key as u64 | ((vel as u64) << 8u64))
        },
        MidiMessage::NoteOn { key, vel } => {
            proof {
                lemma_pack_bytes(key, vel);
            }
            (1, key as u64 | ((vel as u64) << 8u64))
        },
        MidiMessage::Aftertouch { key, vel } => {
            proof {
                lemma_pack_bytes(key, vel);
            }
            (2, key as u64 | ((vel as u64) << 8u64))
        },
        MidiMessage::Controller { controller, value } => {
            proof {
                lemma_pack_bytes(controller, value);
            }
            (3, controller as u64 | ((value as u64) << 8u64))
        },
        MidiMessage::ProgramChange { program } => (4, program as u64),
        MidiMessage::ChannelAftertouch { vel } => (5, vel as u64),
        MidiMessage::PitchBend { bend } => (6, bend as u64),
    }
}

proof fn lemma_pack_bytes(lo: u8, hi: u8)
    ensures
        (lo as u64 | ((hi as u64) << 8u64)) == lo + hi * 256,
{
    assert((lo as u64 | ((hi as u64) << 8u64)) == lo + hi * 256) by (bit_vector);
}

/// The event for a clock event.
pub open spec fn clock_event_spec(event: ClockEvent) -> EventV1 {
    match event {
        ClockEvent::Tick(ticks) => EventV1 { data: ticks, ..bare_event(EventKind::ClockTick) },
        ClockEvent::Start => bare_event(EventKind::ClockStart),
        ClockEvent::Stop => bare_event(EventKind::ClockStop),
        ClockEvent::Reset => bare_event(EventKind::ClockReset),
    }
}

/// The event for MIDI input, from USB or from the DIN port; `None` for
/// MIDI input a native app is not told of.
pub open spec fn midi_event_spec(event: MidiEvent, usb: bool) -> Option<EventV1> {
    match event {
        MidiEvent::Live { channel, message } => Some(
            EventV1 {
                kind: if usb {
                    EventKind::MidiUsbMessage
                } else {
                    EventKind::MidiDinMessage
                },
                channel,
                value: midi_encoding(message).0,
                data: midi_encoding(message).1,
                sequence: 0,
            },
        ),
        MidiEvent::Nrpn { channel, param, value } => Some(
            EventV1 {
                kind: if usb {
                    EventKind::MidiUsbNrpn
                } else {
                    EventKind::MidiDinNrpn
                },
                channel,
                value: 0,
                data: (param + value * 65536) as u64,
                sequence: 0,
            },
        ),
        MidiEvent::Other => None,
    }
}

/// The event a native app on `channels` channels from `start` is told of,
/// for a device input event; `None` when the event is not for it.
pub open spec fn input_event_spec(
    start: usize,
    channels: usize,
    event: InputEvent,
    faders: Seq<u16>,
    shift: bool,
) -> Option<EventV1> {
    let local = |c: usize, kind: EventKind, value: u16|
        if start <= c < start + channels {
            Some(EventV1 { kind, channel: (c - start) as u8, value, data: 0, sequence: 0 })
        } else {
            None
        };
    match event {
        InputEvent::FaderChange(c) => local(c, EventKind::Fader, faders[c as int]),
        InputEvent::ButtonDown(c) => local(c, EventKind::ButtonDown, if shift {
            1
        } else {
            0
        }),
        InputEvent::ButtonUp(c) => local(c, EventKind::ButtonUp, if shift {
            1
        } else {
            0
        }),
        InputEvent::ButtonLongPress(c) => local(c, EventKind::ButtonLongPress, if shift {
            1
        } else {
            0
        }),
        InputEvent::LoadScene(s) => Some(EventV1 { value: s as u16, ..bare_event(EventKind::SceneLoad) }),
        InputEvent::SaveScene(s) => Some(EventV1 { value: s as u16, ..bare_event(EventKind::SceneSave) }),
        InputEvent::MidiMsg(_, _) => None,
    }
}

/// The device request a decoded command asks for.
#[derive(Clone, Copy, Debug, PartialEq, Eq, Structural)]
pub enum MidiCommand {
    Cc { cc: u16, value: u16 },
    NoteOn { note: u8, velocity: u16 },
    NoteOff { note: u8 },
}

/// What a command asks the device to do.
#[derive(Clone, Copy, Debug)]
pub enum DeviceAction {
    Led(usize, Led, LedMsg),
    Port(usize, PortMode),
    GateHigh(usize),
    GateLow(usize),
    /// MIDI to send: outputs, sending app's start channel, MIDI channel
    /// (0..=15), whether to send 14-bit NRPN, and the message.
    Midi { outs: MidiOut, start_channel: usize, midi_channel: u8, nrpn: bool, command: MidiCommand },
    /// A fader value for the I2C leader: device channel, value, range.
    I2c(usize, u16, Range),
    Nothing,
}

/// Range coded as 1 (0-5V) or 2 (-5..5V); anything else is 0-10V.
pub open spec fn range_code(value: u8) -> Range {
    if value == 1 {
        Range::_0_5V
    } else if value == 2 {
        Range::_Neg5_5V
    } else {
        Range::_0_10V
    }
}

/// Decodes a range code.
pub fn decode_range(value: u8) -> (r: Range)
    ensures
        r == range_code(value),
{
    match value {
        1 => Range::_0_5V,
        2 => Range::_Neg5_5V,
        _ => Range::_0_10V,
    }
}

/// LED coded as 1 (bottom) or 2 (button); anything else is the top LED.
pub open spec fn led_code(value: u8) -> Led {
    if value == 1 {
        Led::Bottom
    } else if value == 2 {
        Led::Button
    } else {
        Led::Top
    }
}

/// Decodes an LED code.
pub fn decode_led(value: u8) -> (r: Led)
    ensures
        r == led_code(value),
{
    match value {
        1 => Led::Bottom,
        2 => Led::Button,
        _ => Led::Top,
    }
}

/// Color coded with the top bit set: custom RGB in bits 16-23, 8-15, 0-7;
/// otherwise 1..=15 pick a palette color and anything else is white.
pub open spec fn color_code(value: u32) -> Color {
    if value >= 0x8000_0000 {
        Color::Custom(((value / 65536) % 256) as u8, ((value / 256) % 256) as u8, (value % 256) as u8)
    } else if value == 1 {
        Color::Yellow
    } else if value == 2 {
        Color::Orange
    } else if value == 3 {
        Color::Red
    } else if value == 4 {
        Color::Lime
    } else if value == 5 {
        Color::Green
    } else if value == 6 {
        Color::Cyan
    } else if value == 7 {
        Color::SkyBlue
    } else if value == 8 {
        Color::Blue
    } else if value == 9 {
        Color::Violet
    } else if value == 10 {
        Color::Pink
    } else if value == 11 {
        Color::PaleGreen
    } else if value == 12 {
        Color::Sand
    } else if value == 13 {
        Color::Rose
    } else if value == 14 {
        Color::Salmon
    } else if value == 15 {
        Color::LightBlue
    } else {
        Color::White
    }
}

/// Decodes a color code.
pub fn decode_color(value: u32) -> (r: Color)
    ensures
        r == color_code(value),
{
    if value & 0x8000_0000 != 0 {
        assert(value & 0x8000_0000 != 0 <==> value >= 0x8000_0000) by (bit_vector);
        let r = (value >> 16) as u8;
        let g = (value >> 8) as u8;
        let b = value as u8;
        assert(r == ((value / 65536) % 256) as u8 && g == ((value / 256) % 256) as u8 && b == (
        value % 256) as u8) by (bit_vector)
            requires
                r == (value >> 16) as u8,
                g == (value >> 8) as u8,
                b == value as u8,
        ;
        return Color::Custom(r, g, b);
    }
    assert(value & 0x8000_0000 == 0 <==> value < 0x8000_0000) by (bit_vector);
    match value {
        1 => Color::Yellow,
        2 => Color::Orange,
        3 => Color::Red,
        4 => Color::Lime,
        5 => Color::Green,
        6 => Color::Cyan,
        7 => Color::SkyBlue,
        8 => Color::Blue,
        9 => Color::Violet,
        10 => Color::Pink,
        11 => Color::PaleGreen,
        12 => Color::Sand,
        13 => Color::Rose,
        14 => Color::Salmon,
        15 => Color::LightBlue,
        _ => Color::White,
    }
}

/// LED mode coded by `kind` with a color code and two arguments.
pub open spec fn led_mode_code(kind: u8, color: u32, arg1: u32, arg2: u32) -> LedMode {
    let c = color_code(color);
    if kind == 1 {
        LedMode::FadeOut(c)
    } else if kind == 2 {
        LedMode::Flash(c, if arg1 == u32::MAX {
            None
        } else {
            Some(arg1 as usize)
        })
    } else if kind == 3 {
        LedMode::StaticFade(c, (arg1 % 65536) as u16)
    } else if kind == 4 {
        LedMode::ClockFlash(
            c,
            Brightness::Custom((arg1 % 256) as u8),
            Brightness::Custom(((arg1 / 256) % 256) as u8),
        )
    } else if kind == 5 {
        LedMode::FlashThenStatic(
            c,
            (arg1 % 65536) as usize,
            color_code(arg2),
            Brightness::Custom(((arg1 / 65536) % 256) as u8),
        )
    } else {
        LedMode::Static(c, Brightness::Custom((arg1 % 256) as u8))
    }
}

/// Decodes an LED mode.
pub fn decode_led_mode(kind: u8, color: u32, arg1: u32, arg2: u32) -> (r: LedMode)
    ensures
        r == led_mode_code(kind, color, arg1, arg2),
{
    let color = decode_color(color);
    let lo8 = arg1 as u8;
    let lo16 = arg1 as u16;
    let mid8 = (arg1 >> 8) as u8;
    let hi8 = (arg1 >> 16) as u8;
    assert(lo8 == (arg1 % 256) as u8 && lo16 == (arg1 % 65536) as u16 && mid8 == ((arg1 / 256)
        % 256) as u8 && hi8 == ((arg1 / 65536) % 256) as u8) by (bit_vector)
        requires
            lo8 == arg1 as u8,
            lo16 == arg1 as u16,
            mid8 == (arg1 >> 8) as u8,
            hi8 == (arg1 >> 16) as u8,
    ;
    match kind {
        1 => LedMode::FadeOut(color),
        2 => LedMode::Flash(color, if arg1 == u32::MAX {
            None
        } else {
            Some(arg1 as usize)
        }),
        3 => LedMode::StaticFade(color, lo16),
        4 => LedMode::ClockFlash(color, Brightness::Custom(lo8), Brightness::Custom(mid8)),
        5 => {
            let masked = arg1 & 0xffff;
            assert(masked == arg1 % 65536) by (bit_vector)
                requires
                    masked == arg1 & 0xffff,
            ;
            LedMode::FlashThenStatic(
                color,
                masked as usize,
                decode_color(arg2),
                Brightness::Custom(hi8),
            )
        },
        _ => LedMode::Static(color, Brightness::Custom(lo8)),
    }
}

/// MIDI outputs coded in the low three bits of `flags`: usb, out1, out2.
pub fn decode_midi_out(flags: u16) -> (r: MidiOut)
    ensures
        r == decode_midi_out_spec(flags),
        r.0@ == seq![flags % 2 == 1, (flags / 2) % 2 == 1, (flags / 4) % 2 == 1],
{
    let a = flags & 1 != 0;
    let b = flags & 2 != 0;
    let c = flags & 4 != 0;
    assert(a == (flags % 2 == 1) && b == ((flags / 2) % 2 == 1) && c == ((flags / 4) % 2 == 1))
        by (bit_vector)
        requires
            a == (flags & 1 != 0),
            b == (flags & 2 != 0),
            c == (flags & 4 != 0),
    ;
    let r = MidiOut([a, b, c]);
    assert(r.0@ =~= seq![a, b, c]);
    r
}

/// Volts-per-octave coded as 1 (Buchla), 2 and up (custom curve `code - 2`),
/// anything else standard.
pub fn decode_vpo(vpo: u8) -> (r: VoltPerOct)
    ensures
        r == (if vpo == 1 {
            VoltPerOct::Buchla
        } else if vpo >= 2 {
            VoltPerOct::Custom((vpo - 2) as u8)
        } else {
            VoltPerOct::Standard
        }),
{
    match vpo {
        1 => VoltPerOct::Buchla,
        custom if custom >= 2 => VoltPerOct::Custom(custom - 2),
        _ => VoltPerOct::Standard,
    }
}

/// The quantizer's answer to a native app: the MIDI note in the low byte,
/// bit 8 set when the raw value passed through unquantized.
pub fn pack_quantized(midi: u8, raw: bool) -> (r: u32)
    requires
        midi < 128,
    ensures
        r == midi + if raw {
            256int
        } else {
            0int
        },
{
    let flag: u32 = if raw {
        1
    } else {
        0
    };
    let m = midi as u32;
    assert((m | (flag << 8u32)) == m + flag * 256) by (bit_vector)
        requires
            m < 128,
            flag <= 1,
    ;
    m | (flag << 8u32)
}

/// Entry address of a native function: image base plus offset (wrapping),
/// with the Thumb bit set.
pub fn native_address(code_base: u32, offset: u32) -> (r: usize)
    ensures
        r == (((code_base + offset) % 0x1_0000_0000) as u32 | 1u32) as usize,
{
    let a = code_base.wrapping_add(offset);
    (a | 1) as usize
}

/// Whether a native app of `channels` channels can run at `start_channel`.
pub fn placement_allowed(start_channel: usize, channels: usize) -> (r: bool)
    ensures
        r == placement_ok(start_channel, channels),
{
    channels != 0 && channels <= 16 && start_channel <= 16 - channels
}

/// Whether the instance memory a native app asks for fits the host's buffer.
pub fn instance_fits(required: usize) -> (r: bool)
    ensures
        r == (required <= MAX_INSTANCE_BYTES),
{
    required <= MAX_INSTANCE_BYTES
}

impl RuntimeContext {
    /// Queues within capacity, and the app's channels within the device.
    pub open spec fn wf(&self) -> bool {
        &&& self.events@.len() <= EVENT_QUEUE_LEN
        &&& self.commands@.len() <= COMMAND_QUEUE_LEN
        &&& placement_ok(self.start_channel, self.channels)
    }

    /// A fresh context for app `app_id` on `channels` channels from `start_channel`.
    pub fn new(app_id: u8, start_channel: usize, channels: usize, layout_id: u8) -> (r: Self)
        requires
            placement_ok(start_channel, channels),
        ensures
            r.wf(),
            r.app_id == app_id,
            r.start_channel == start_channel,
            r.channels == channels,
            r.layout_id == layout_id,
            r.events@.len() == 0,
            r.commands@.len() == 0,
            r.event_sequence == 0,
            r.pending_blob_read is None,
            r.pending_blob_write is None,
            r.wake_at is None,
            !r.blob_cache.ready,
    {
        RuntimeContext {
            app_id,
            start_channel,
            channels,
            layout_id,
            events: event_queue_new(),
            event_sequence: 0,
            commands: command_queue_new(),
            blob_cache: BlobCache::new(),
            pending_blob_read: None,
            pending_blob_write: None,
            wake_at: None,
            wake_signalled: false,
        }
    }

    /// The event the app is told of for a device input event, reading fader
    /// positions from `faders` and the shift button from `shift`.
    pub fn translate(&self, event: InputEvent, faders: &[u16], shift: bool) -> (r: Option<EventV1>)
        requires
            self.wf(),
            event matches InputEvent::FaderChange(c) ==> c < faders@.len(),
        ensures
            r == input_event_spec(self.start_channel, self.channels, event, faders@, shift),
    {
        let shift_value: u16 = if shift {
            1
        } else {
            0
        };
        let (kind, channel, value) = match event {
            InputEvent::FaderChange(channel) => (EventKind::Fader, channel, faders[channel]),
            InputEvent::ButtonDown(channel) => (EventKind::ButtonDown, channel, shift_value),
            InputEvent::ButtonUp(channel) => (EventKind::ButtonUp, channel, shift_value),
            InputEvent::ButtonLongPress(channel) => (EventKind::ButtonLongPress, channel, shift_value),
            InputEvent::LoadScene(scene) => {
                return Some(EventV1 { value: scene as u16, ..EventV1::bare(EventKind::SceneLoad) });
            },
            InputEvent::SaveScene(scene) => {
                return Some(EventV1 { value: scene as u16, ..EventV1::bare(EventKind::SceneSave) });
            },
            _ => return None,
        };
        if !(self.start_channel <= channel && channel < self.start_channel + self.channels) {
            return None;
        }
        Some(
            EventV1 {
                kind,
                channel: (channel - self.start_channel) as u8,
                value,
                data: 0,
                sequence: 0,
            },
        )
    }

    /// The event for a clock event.
    pub fn translate_clock(event: ClockEvent) -> (r: EventV1)
        ensures
            r == clock_event_spec(event),
    {
        match event {
            ClockEvent::Tick(ticks) => EventV1 { data: ticks, ..EventV1::bare(EventKind::ClockTick) },
            ClockEvent::Start => EventV1::bare(EventKind::ClockStart),
            ClockEvent::Stop => EventV1::bare(EventKind::ClockStop),
            ClockEvent::Reset => EventV1::bare(EventKind::ClockReset),
        }
    }

    /// The event for MIDI input from USB (`usb`) or the DIN port.
    pub fn translate_midi(event: MidiEvent, usb: bool) -> (r: Option<EventV1>)
        ensures
            r == midi_event_spec(event, usb),
    {
        match event {
            MidiEvent::Live { channel, message } => {
                let (value, data) = encode_midi_message(message);
                Some(
                    EventV1 {
                        kind: if usb {
                            EventKind::MidiUsbMessage
                        } else {
                            EventKind::MidiDinMessage
                        },
                        channel,
                        value,
                        data,
                        sequence: 0,
                    },
                )
            },
            MidiEvent::Nrpn { channel, param, value } => {
                let data = param as u64 | ((value as u64) << 16u64);
                assert(data == param + value * 65536) by (bit_vector)
                    requires
                        data == param as u64 | ((value as u64) << 16u64),
                ;
                Some(
                    EventV1 {
                        kind: if usb {
                            EventKind::MidiUsbNrpn
                        } else {
                            EventKind::MidiDinNrpn
                        },
                        channel,
                        value: 0,
                        data,
                        sequence: 0,
                    },
                )
            },
            MidiEvent::Other => None,
        }
    }

    /// Queues `event` under the next sequence number; when the queue is full
    /// the oldest event is dropped.
    pub fn push_event(&mut self, event: EventV1)
        requires
            old(self).wf(),
        ensures
            final(self).wf(),
            final(self).event_sequence == next_sequence(old(self).event_sequence),
            final(self).events@ == (if old(self).events@.len() == EVENT_QUEUE_LEN {
                old(self).events@.drop_first()
            } else {
                old(self).events@
            }).push(EventV1 { sequence: next_sequence(old(self).event_sequence), ..event }),
            final(self).commands == old(self).commands,
            final(self).start_channel == old(self).start_channel,
            final(self).channels == old(self).channels,
            final(self).blob_cache == old(self).blob_cache,
            final(self).wake_at == old(self).wake_at,
    {
        let seq = self.event_sequence.wrapping_add(1);
        let seq = if seq < 1 {
            1
        } else {
            seq
        };
        self.event_sequence = seq;
        let stamped = EventV1 { sequence: seq, ..event };
        if !event_queue_push_back(&mut self.events, stamped) {
            let _ = event_queue_pop_front(&mut self.events);
            let _ = event_queue_push_back(&mut self.events, stamped);
        }
    }

    /// New parameter values for the app: their encoding (when encoding
    /// succeeded) is cached as the parameter-update blob, and the app is told.
    pub fn on_param_values(&mut self, encoded: Option<&[u8]>)
        requires
            old(self).wf(),
        ensures
            final(self).wf(),
            final(self).event_sequence == next_sequence(old(self).event_sequence),
            final(self).events@ == (if old(self).events@.len() == EVENT_QUEUE_LEN {
                old(self).events@.drop_first()
            } else {
                old(self).events@
            }).push(EventV1 { sequence: next_sequence(old(self).event_sequence), ..bare_event(EventKind::ParamSet) }),
            encoded matches Some(bytes) ==> {
                &&& final(self).blob_cache.kind == BlobKind::ParamUpdate
                &&& final(self).blob_cache.index == 0
                &&& final(self).blob_cache.ready
                &&& final(self).blob_cache.bytes@ == bytes@.take(
                    if bytes@.len() < MAX_DATA_LEN { bytes@.len() as int } else { MAX_DATA_LEN as int },
                )
            },
            encoded is None ==> final(self).blob_cache == old(self).blob_cache,
            final(self).commands == old(self).commands,
            final(self).wake_at == old(self).wake_at,
    {
        if let Some(bytes) = encoded {
            self.blob_cache.store(BlobKind::ParamUpdate, 0, bytes);
        }
        self.push_event(EventV1::bare(EventKind::ParamSet));
    }

    /// The configurator asks for the app's parameter values: the app is told.
    pub fn on_param_request(&mut self)
        requires
            old(self).wf(),
        ensures
            final(self).wf(),
            final(self).event_sequence == next_sequence(old(self).event_sequence),
            final(self).events@ == (if old(self).events@.len() == EVENT_QUEUE_LEN {
                old(self).events@.drop_first()
            } else {
                old(self).events@
            }).push(EventV1 { sequence: next_sequence(old(self).event_sequence), ..bare_event(EventKind::ParamRequest) }),
            final(self).commands == old(self).commands,
            final(self).blob_cache == old(self).blob_cache,
            final(self).wake_at == old(self).wake_at,
    {
        self.push_event(EventV1::bare(EventKind::ParamRequest));
    }

    /// The wake-up timer fired: the deadline is spent.
    pub fn on_wake_timer(&mut self)
        ensures
            final(self).wake_at is None,
            final(self).events == old(self).events,
            final(self).event_sequence == old(self).event_sequence,
            final(self).commands == old(self).commands,
            final(self).start_channel == old(self).start_channel,
            final(self).channels == old(self).channels,
    {
        self.wake_at = None;
    }

    /// After start-up the app is told each of its faders' positions, channel
    /// by channel, as raw value events of kind 0.
    pub fn push_fader_positions(&mut self, faders: &[u16; 16])
        requires
            old(self).wf(),
            old(self).events@.len() + old(self).channels <= EVENT_QUEUE_LEN,
        ensures
            final(self).wf(),
            final(self).events@.len() == old(self).events@.len() + old(self).channels,
            forall|c: int| 0 <= c < old(self).channels ==> {
                let e = #[trigger] final(self).events@[old(self).events@.len() + c];
                &&& e.kind == EventKind::Value(0)
                &&& e.channel == c as u8
                &&& e.value == faders[old(self).start_channel + c]
            },
            forall|i: int| 0 <= i < old(self).events@.len() ==> #[trigger] final(self).events@[i] == old(self).events@[i],
    {
        let n0 = self.events.len();
        let mut channel: usize = 0;
        while channel < self.channels
            invariant
                self.wf(),
                self.channels == old(self).channels,
                self.start_channel == old(self).start_channel,
                channel <= self.channels,
                n0 == old(self).events@.len(),
                n0 + self.channels <= EVENT_QUEUE_LEN,
                self.events@.len() == n0 + channel,
                forall|c: int| 0 <= c < channel ==> {
                    let e = #[trigger] self.events@[n0 + c];
                    &&& e.kind == EventKind::Value(0)
                    &&& e.channel == c as u8
                    &&& e.value == faders[self.start_channel + c]
                },
                forall|i: int| 0 <= i < n0 ==> #[trigger] self.events@[i] == old(self).events@[i],
            decreases self.channels - channel,
        {
            let v = faders[self.start_channel + channel];
            self.push_event(EventV1::value(0, channel as u8, v));
            channel += 1;
        }
    }

    /// The sequence number of the newest event.
    pub fn event_cursor(&self) -> (r: u32)
        ensures
            r == self.event_sequence,
    {
        self.event_sequence
    }

    /// The oldest queued event newer than `sequence`.
    pub fn read_event_after(&self, sequence: u32) -> (r: Option<EventV1>)
        ensures
            r == first_after(self.events@, sequence),
    {
        let mut i: usize = 0;
        assert(self.events@.skip(0) =~= self.events@);
        while i < self.events.len()
            invariant
                i <= self.events@.len(),
                first_after(self.events@, sequence) == first_after(self.events@.skip(i as int), sequence),
            decreases self.events@.len() - i,
        {
            assert(self.events@.skip(i as int).drop_first() =~= self.events@.skip(i + 1));
            let e = event_queue_get(&self.events, i).unwrap();
            if e.sequence > sequence {
                return Some(e);
            }
            i = i + 1;
        }
        None
    }

    /// Where an output value goes: the app's channel `channel` as a device
    /// channel, with the value limited to 4095; `None` past the app's channels.
    pub fn set_output(&self, channel: u8, value: u16) -> (r: Option<(usize, u16)>)
        requires
            self.wf(),
        ensures
            r == (if (channel as usize) < self.channels {
                Some(((self.start_channel + channel) as usize, if value > 4095 {
                    4095u16
                } else {
                    value
                }))
            } else {
                None
            }),
    {
        let channel = channel as usize;
        if channel < self.channels {
            Some((self.start_channel + channel, if value > 4095 {
                4095
            } else {
                value
            }))
        } else {
            None
        }
    }

    /// The device channel of the app's channel `index` (limited to the app's channels).
    pub open spec fn value_channel(&self, index: u8) -> int {
        self.start_channel + if index as int > self.channels - 1 {
            self.channels - 1
        } else {
            index as int
        }
    }

    /// A synchronous read of `kind` at the app's channel `index`.
    pub fn read_value(&self, kind: ValueKind, index: u8, readings: &HostReadings) -> (r: u32)
        requires
            self.wf(),
        ensures
            r == (match kind {
                ValueKind::Fader => readings.faders@[self.value_channel(index)] as u32,
                ValueKind::Button => if readings.buttons@[self.value_channel(index)] {
                    1u32
                } else {
                    0u32
                },
                ValueKind::Shift => if readings.shift {
                    1u32
                } else {
                    0u32
                },
                ValueKind::Input => readings.adc@[self.value_channel(index)] as u32,
                ValueKind::Random => readings.random as u32,
                ValueKind::GlobalSwing => readings.swing,
                ValueKind::TakeoverMode => readings.takeover,
                ValueKind::AppId => self.app_id as u32,
                ValueKind::StartChannel => self.start_channel as u32,
                ValueKind::LayoutId => self.layout_id as u32,
                ValueKind::GlobalKey => readings.key,
                ValueKind::GlobalTonic => readings.tonic,
                ValueKind::Other(_) => 0u32,
            }),
    {
        let last = self.channels - 1;
        let local = if (index as usize) < last {
            index as usize
        } else {
            last
        };
        let channel = self.start_channel + local;
        match kind {
            ValueKind::Fader => readings.faders[channel] as u32,
            ValueKind::Button => if readings.buttons[channel] {
                1
            } else {
                0
            },
            ValueKind::Shift => if readings.shift {
                1
            } else {
                0
            },
            ValueKind::Input => readings.adc[channel] as u32,
            ValueKind::Random => readings.random as u32,
            ValueKind::GlobalSwing => readings.swing,
            ValueKind::TakeoverMode => readings.takeover,
            ValueKind::AppId => self.app_id as u32,
            ValueKind::StartChannel => self.start_channel as u32,
            ValueKind::LayoutId => self.layout_id as u32,
            ValueKind::GlobalKey => readings.key,
            ValueKind::GlobalTonic => readings.tonic,
            ValueKind::Other(_) => 0,
        }
    }

    /// Queues a command; refused (false) when the queue is full.
    pub fn submit_command(&mut self, command: CommandV1) -> (accepted: bool)
        requires
            old(self).wf(),
        ensures
            final(self).wf(),
            accepted == (old(self).commands@.len() < COMMAND_QUEUE_LEN),
            accepted ==> final(self).commands@ == old(self).commands@.push(command),
            !accepted ==> final(self).commands@ == old(self).commands@,
            final(self).events == old(self).events,
    {
        command_queue_push_back(&mut self.commands, command)
    }

    /// Reads blob `kind`/`index`: the cached bytes (at most `capacity`) when
    /// the cache holds that blob; otherwise asks for it (if no read is
    /// pending yet) and answers `None` for now.
    pub fn read_blob(&mut self, kind: BlobKind, index: u8, capacity: usize) -> (r: Option<Vec<u8>>)
        ensures
            final(self).blob_cache == old(self).blob_cache,
            final(self).events == old(self).events,
            final(self).commands == old(self).commands,
            final(self).pending_blob_write == old(self).pending_blob_write,
            final(self).start_channel == old(self).start_channel,
            final(self).channels == old(self).channels,
            final(self).layout_id == old(self).layout_id,
            ({
                let hit = old(self).blob_cache.ready && old(self).blob_cache.kind == kind
                    && old(self).blob_cache.index == index;
                &&& hit ==> r is Some && r->0@ == old(self).blob_cache.bytes@.take(
                    if (old(self).blob_cache.bytes@.len() as int) < capacity {
                        old(self).blob_cache.bytes@.len() as int
                    } else {
                        capacity as int
                    },
                )
                &&& hit ==> final(self).pending_blob_read == old(self).pending_blob_read
                &&& !hit ==> r is None && final(self).pending_blob_read == (
                    if old(self).pending_blob_read is None {
                        Some((kind, index))
                    } else {
                        old(self).pending_blob_read
                    })
            }),
    {
        if self.blob_cache.ready && self.blob_cache.kind == kind && self.blob_cache.index == index {
            let n = if self.blob_cache.bytes.len() < capacity {
                self.blob_cache.bytes.len()
            } else {
                capacity
            };
            let mut out: Vec<u8> = Vec::new();
            let mut i: usize = 0;
            while i < n
                invariant
                    i <= n,
                    n <= self.blob_cache.bytes@.len(),
                    out@ == self.blob_cache.bytes@.take(i as int),
                decreases n - i,
            {
                out.push(self.blob_cache.bytes[i]);
                i = i + 1;
                assert(out@ =~= self.blob_cache.bytes@.take(i as int));
            }
            return Some(out);
        }
        if self.pending_blob_read.is_none() {
            self.pending_blob_read = Some((kind, index));
            self.wake_signalled = true;
        }
        None
    }

    /// Accepts a blob write when it fits and no write is pending.
    pub fn write_blob(&mut self, kind: BlobKind, index: u8, data: &[u8]) -> (accepted: bool)
        ensures
            accepted == (data@.len() <= MAX_DATA_LEN && old(self).pending_blob_write is None),
            accepted ==> (final(self).pending_blob_write matches Some(w) && w.kind == kind
                && w.index == index && w.bytes@ == data@),
            !accepted ==> final(self).pending_blob_write == old(self).pending_blob_write,
            final(self).events == old(self).events,
            final(self).commands == old(self).commands,
            final(self).pending_blob_read == old(self).pending_blob_read,
            final(self).start_channel == old(self).start_channel,
            final(self).channels == old(self).channels,
    {
        if data.len() > MAX_DATA_LEN {
            return false;
        }
        if self.pending_blob_write.is_some() {
            return false;
        }
        let mut bytes: Vec<u8> = Vec::new();
        let mut i: usize = 0;
        while i < data.len()
            invariant
                i <= data@.len(),
                bytes@ == data@.take(i as int),
            decreases data@.len() - i,
        {
            bytes.push(data[i]);
            i = i + 1;
            assert(bytes@ =~= data@.take(i as int));
        }
        assert(data@.take(data@.len() as int) =~= data@);
        self.pending_blob_write = Some(BlobWrite { kind, index, bytes });
        true
    }

    /// Asks to be woken at `deadline` (milliseconds); the earliest request wins.
    pub fn schedule_wake_at(&mut self, deadline: u64)
        ensures
            final(self).wake_at == Some(match old(self).wake_at {
                None => deadline,
                Some(current) => if current < deadline {
                    current
                } else {
                    deadline
                },
            }),
            final(self).events == old(self).events,
            final(self).commands == old(self).commands,
            final(self).start_channel == old(self).start_channel,
            final(self).channels == old(self).channels,
    {
        self.wake_at = Some(
            match self.wake_at {
                None => deadline,
                Some(current) => if current < deadline {
                    current
                } else {
                    deadline
                },
            },
        );
    }

    /// Takes the pending work in the order it is carried out: the queued
    /// commands (oldest first), then the pending write, then the pending
    /// read; the flag says whether there was any.
    pub fn take_services(&mut self) -> (r: (Vec<CommandV1>, Option<BlobWrite>, Option<(BlobKind, u8)>, bool))
        requires
            old(self).wf(),
        ensures
            final(self).wf(),
            r.0@ == old(self).commands@,
            r.1 == old(self).pending_blob_write,
            r.2 == old(self).pending_blob_read,
            r.3 == (old(self).commands@.len() > 0 || old(self).pending_blob_write is Some
                || old(self).pending_blob_read is Some),
            final(self).commands@.len() == 0,
            final(self).pending_blob_write is None,
            final(self).pending_blob_read is None,
            final(self).events == old(self).events,
            final(self).start_channel == old(self).start_channel,
            final(self).channels == old(self).channels,
            final(self).layout_id == old(self).layout_id,
    {
        let mut commands: Vec<CommandV1> = Vec::new();
        let ghost queued = self.commands@;
        loop
            invariant
                commands@ + self.commands@ == queued,
                queued == old(self).commands@,
                self.events == old(self).events,
                self.start_channel == old(self).start_channel,
                self.channels == old(self).channels,
                self.layout_id == old(self).layout_id,
                self.pending_blob_write == old(self).pending_blob_write,
                self.pending_blob_read == old(self).pending_blob_read,
                self.wf(),
            ensures
                commands@ == queued,
                self.commands@.len() == 0,
                self.events == old(self).events,
                self.start_channel == old(self).start_channel,
                self.channels == old(self).channels,
                self.layout_id == old(self).layout_id,
                self.pending_blob_write == old(self).pending_blob_write,
                self.pending_blob_read == old(self).pending_blob_read,
                self.wf(),
            decreases self.commands@.len(),
        {
            match command_queue_pop_front(&mut self.commands) {
                Some(c) => {
                    assert(commands@.push(c) + self.commands@ =~= queued);
                    commands.push(c);
                },
                None => {
                    assert(commands@ =~= queued);
                    break;
                },
            }
        }
        let write = self.pending_blob_write.take();
        let read = self.pending_blob_read.take();
        let processed = commands.len() > 0 || write.is_some() || read.is_some();
        (commands, write, read, processed)
    }

    /// The device channel a command addresses: its channel limited to the
    /// app's channels.
    pub open spec fn command_channel(&self, command: CommandV1) -> usize {
        (self.start_channel + if command.channel as int > self.channels - 1 {
            self.channels - 1
        } else {
            command.channel as int
        }) as usize
    }

    /// What `command` asks the device to do: the device action for its kind
    /// on its channel.
    pub open spec fn resolved(&self, command: CommandV1) -> DeviceAction {
        let absolute = self.command_channel(command);
        let midi_channel = if command.arg0 % 256 + 1 > 16 {
            15u8
        } else {
            (command.arg0 % 256) as u8
        };
        match command.kind {
            CommandKind::LedSet => DeviceAction::Led(
                absolute,
                led_code((command.flags % 256) as u8),
                LedMsg::SetMode(
                    led_mode_code(
                        (command.flags / 256) as u8,
                        command.arg0,
                        command.arg1,
                        command.arg2,
                    ),
                ),
            ),
            CommandKind::LedUnset => DeviceAction::Led(
                absolute,
                led_code((command.flags % 256) as u8),
                LedMsg::Reset,
            ),
            CommandKind::JackInput => DeviceAction::Port(
                absolute,
                PortMode::Adc {
                    bipolar: range_code((command.flags % 256) as u8) == Range::_Neg5_5V,
                },
            ),
            CommandKind::JackOutput => DeviceAction::Port(
                absolute,
                PortMode::Dac {
                    bipolar: range_code((command.flags % 256) as u8) == Range::_Neg5_5V,
                },
            ),
            CommandKind::JackGate => DeviceAction::Port(
                absolute,
                PortMode::Gpo { level: (command.arg0 % 65536) as u16 },
            ),
            CommandKind::GateHigh => DeviceAction::GateHigh(absolute),
            CommandKind::GateLow => DeviceAction::GateLow(absolute),
            CommandKind::MidiCc => DeviceAction::Midi {
                outs: decode_midi_out_spec(command.flags),
                start_channel: self.start_channel,
                midi_channel,
                nrpn: (command.flags / 8) % 2 == 1,
                command: MidiCommand::Cc {
                    cc: if command.arg1 % 65536 > 16383 {
                        16383u16
                    } else {
                        (command.arg1 % 65536) as u16
                    },
                    value: (command.arg2 % 65536) as u16,
                },
            },
            CommandKind::MidiNoteOn => DeviceAction::Midi {
                outs: decode_midi_out_spec(command.flags),
                start_channel: self.start_channel,
                midi_channel,
                nrpn: (command.flags / 8) % 2 == 1,
                command: MidiCommand::NoteOn {
                    note: if command.arg1 % 256 > 127 {
                        127u8
                    } else {
                        (command.arg1 % 256) as u8
                    },
                    velocity: (command.arg2 % 65536) as u16,
                },
            },
            CommandKind::MidiNoteOff => DeviceAction::Midi {
                outs: decode_midi_out_spec(command.flags),
                start_channel: self.start_channel,
                midi_channel,
                nrpn: (command.flags / 8) % 2 == 1,
                command: MidiCommand::NoteOff {
                    note: if command.arg1 % 256 > 127 {
                        127u8
                    } else {
                        (command.arg1 % 256) as u8
                    },
                },
            },
            CommandKind::I2cFader => DeviceAction::I2c(
                absolute,
                (command.arg0 % 65536) as u16,
                range_code((command.flags % 256) as u8),
            ),
            CommandKind::Other(_) => DeviceAction::Nothing,
        }
    }

    /// Whether `command` can be resolved: a MIDI command's channel number
    /// (its low byte of `arg0`, counted from 0) must leave room for the
    /// 1-based channel the device computes, so 255 is refused.
    pub open spec fn resolvable(command: CommandV1) -> bool {
        (command.kind == CommandKind::MidiCc || command.kind == CommandKind::MidiNoteOn
            || command.kind == CommandKind::MidiNoteOff) ==> (command.arg0 % 256) < 255
    }

    /// What `command` asks the device to do, or `None` for a MIDI command
    /// whose channel byte is 255 (which the device cannot turn into a
    /// channel): a native app chooses its commands, so they are checked here.
    pub fn resolve_checked(&self, command: CommandV1) -> (r: Option<DeviceAction>)
        requires
            self.wf(),
        ensures
            r == if Self::resolvable(command) { Some(self.resolved(command)) } else { None::<DeviceAction> },
    {
        let midi = match command.kind {
            CommandKind::MidiCc => true,
            CommandKind::MidiNoteOn => true,
            CommandKind::MidiNoteOff => true,
            _ => false,
        };
        let low = command.arg0 % 256;
        if midi && low == 255 {
            None
        } else {
            Some(self.resolve_command(command))
        }
    }

    /// What `command` asks the device to do.
    pub fn resolve_command(&self, command: CommandV1) -> (r: DeviceAction)
        requires
            self.wf(),
            (command.kind == CommandKind::MidiCc || command.kind == CommandKind::MidiNoteOn
                || command.kind == CommandKind::MidiNoteOff) ==> (command.arg0 % 256) < 255,
        ensures
            r == self.resolved(command),
    {
        let last = self.channels - 1;
        let channel = if (command.channel as usize) < last {
            command.channel as usize
        } else {
            last
        };
        let absolute = self.start_channel + channel;
        let flags = command.flags;
        let low = flags as u8;
        let high = (flags >> 8) as u8;
        let a0 = command.arg0;
        let a1 = command.arg1;
        let a2 = command.arg2;
        let arg0_16 = a0 as u16;
        let arg0_8 = a0 as u8;
        let arg1_16 = a1 as u16;
        let arg1_8 = a1 as u8;
        let arg2_16 = a2 as u16;
        assert(low == (flags % 256) as u8 && high == (flags / 256) as u8) by (bit_vector)
            requires
                low == flags as u8,
                high == (flags >> 8) as u8,
        ;
        assert(arg0_16 == (a0 % 65536) as u16 && arg0_8 == (a0 % 256) as u8 && arg1_16 == (a1
            % 65536) as u16 && arg1_8 == (a1 % 256) as u8 && arg2_16 == (a2 % 65536) as u16)
            by (bit_vector)
            requires
                arg0_16 == a0 as u16,
                arg0_8 == a0 as u8,
                arg1_16 == a1 as u16,
                arg1_8 == a1 as u8,
                arg2_16 == a2 as u16,
        ;
        let nrpn = flags & 8 != 0;
        assert(nrpn == ((flags / 8) % 2 == 1)) by (bit_vector)
            requires
                nrpn == (flags & 8 != 0),
        ;
        match command.kind {
            CommandKind::LedSet => DeviceAction::Led(
                absolute,
                decode_led(low),
                LedMsg::SetMode(decode_led_mode(high, command.arg0, command.arg1, command.arg2)),
            ),
            CommandKind::LedUnset => DeviceAction::Led(absolute, decode_led(low), LedMsg::Reset),
            CommandKind::JackInput => {
                let bipolar = decode_range(low) == Range::_Neg5_5V;
                DeviceAction::Port(absolute, PortMode::Adc { bipolar })
            },
            CommandKind::JackOutput => {
                let bipolar = decode_range(low) == Range::_Neg5_5V;
                DeviceAction::Port(absolute, PortMode::Dac { bipolar })
            },
            CommandKind::JackGate => DeviceAction::Port(absolute, PortMode::Gpo { level: arg0_16 }),
            CommandKind::GateHigh => DeviceAction::GateHigh(absolute),
            CommandKind::GateLow => DeviceAction::GateLow(absolute),
            CommandKind::MidiCc | CommandKind::MidiNoteOn | CommandKind::MidiNoteOff => {
                let channel_param = arg0_8 + 1;
                let channel_param = if channel_param > 16 {
                    16
                } else {
                    channel_param
                };
                let midi_channel = channel_param - 1;
                let outs = decode_midi_out(flags);
                let midi_command = match command.kind {
                    CommandKind::MidiCc => MidiCommand::Cc {
                        cc: if arg1_16 > 16383 {
                            16383
                        } else {
                            arg1_16
                        },
                        value: arg2_16,
                    },
                    CommandKind::MidiNoteOn => MidiCommand::NoteOn {
                        note: if arg1_8 > 127 {
                            127
                        } else {
                            arg1_8
                        },
                        velocity: arg2_16,
                    },
                    _ => MidiCommand::NoteOff {
                        note: if arg1_8 > 127 {
                            127
                        } else {
                            arg1_8
                        },
                    },
                };
                DeviceAction::Midi {
                    outs,
                    start_channel: self.start_channel,
                    midi_channel,
                    nrpn,
                    command: midi_command,
                }
            },
            CommandKind::I2cFader => DeviceAction::I2c(absolute, arg0_16, decode_range(low)),
            CommandKind::Other(_) => DeviceAction::Nothing,
        }
    }

    /// The FRAM address of blob `kind`/`index` of this app: its stored
    /// state (index 0 the live state, `i` scene `i - 1`) or its parameters;
    /// `None` for other kinds.
    pub fn blob_address(&self, kind: BlobKind, index: u8) -> (r: Option<u32>)
        ensures
            r == (match kind {
                BlobKind::Storage => Some(
                    storage_address(
                        AppStorageAddress {
                            start_channel: self.layout_id as usize,
                            scene: if index == 0 {
                                None
                            } else {
                                Some((index - 1) as u8)
                            },
                        },
                    ) as u32,
                ),
                BlobKind::Params => Some(
                    params_address(AppParamsAddress { start_channel: self.layout_id as usize }) as u32,
                ),
                _ => None,
            }),
    {
        match kind {
            BlobKind::Storage => {
                let scene = if index == 0 {
                    None
                } else {
                    Some(index - 1)
                };
                let key = AppStorageAddress::new(self.layout_id as usize, scene);
                proof {
                    let ch = key.start_channel as u32;
                    let sl = scene_slot(key.scene);
                    assert(ch <= 255);
                    assert(0 <= sl <= 256);
                    assert(ch * 6800 + sl * 400 <= 255 * 6800 + 256 * 400) by (nonlinear_arith)
                        requires
                            ch <= 255,
                            0 <= sl <= 256,
                    ;
                    assert(app_block_bytes() == 6800);
                }
                assert(storage_address(key) <= 1024 + 255 * 6800 + 256 * 400);
                Some(key.to_address())
            },
            BlobKind::Params => {
                let key = AppParamsAddress::new(self.layout_id as usize);
                Some(key.to_address())
            },
            _ => None,
        }
    }
}

/// The outputs a flags word selects, as `decode_midi_out` decodes them.
pub open spec fn decode_midi_out_spec(flags: u16) -> MidiOut {
    MidiOut([flags % 2 == 1, (flags / 2) % 2 == 1, (flags / 4) % 2 == 1])
}

/// The event queue keeps its newest events: after a push the pushed event is
/// the last one and can be read back as the first after the previous cursor.
pub proof fn law_pushed_event_is_readable(events: Seq<EventV1>, stamped: EventV1, previous: u32)
    requires
        forall|i: int| 0 <= i < events.len() ==> (#[trigger] events[i]).sequence <= previous,
        stamped.sequence > previous,
    ensures
        first_after(events.push(stamped), previous) == Some(stamped),
    decreases events.len(),
{
    if events.len() > 0 {
        assert(events.push(stamped).drop_first() =~= events.drop_first().push(stamped));
        assert forall|i: int| 0 <= i < events.drop_first().len() implies (
        #[trigger] events.drop_first()[i]).sequence <= previous by {
            assert(events.drop_first()[i] == events[i + 1]);
        }
        assert(events[0].sequence <= previous);
        law_pushed_event_is_readable(events.drop_first(), stamped, previous);
    }
}

} // verus!
