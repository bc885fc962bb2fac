//! Keyboard: sixteen keys mapped to the notes of the global scale (or to
//! semitones), with an arpeggiator over the held notes.

use vstd::prelude::*;

use crate::app::{LedRequest, Leds};
use crate::types::{key_mask_spec, note_index, Brightness, Color, Key, Led, LedMode, LedMsg, Note};

verus! {

/// Channels of the keyboard.
pub const CHANNELS: usize = 16;
/// Most steps an arpeggio holds.
pub const ARP_MAX_STEPS: usize = 64;

/// Piano black keys by semitone above C.
pub const IS_BLACK_KEY: [bool; 12] = [
    false, true, false, true, false, false, true, false, true, false, true, false,
];

/// Whether semitone `pc` above C is a black key of a piano.
pub open spec fn black_key(pc: int) -> bool {
    pc == 1 || pc == 3 || pc == 6 || pc == 8 || pc == 10
}

/// Interval mask of `key` as a `u32`: bit 11 is the root, bit 0 the major
/// seventh; `Off` counts as chromatic.
pub open spec fn scale_mask_spec(key: Key) -> u32 {
    key_mask_spec(key) as u32
}

/// Interval mask of a scale; `Off` is chromatic (all twelve semitones).
pub fn scale_mask(key: Key) -> (r: u32)
    ensures
        r == scale_mask_spec(key),
        r < 4096,
{
    if matches!(key, Key::Off) {
        0xFFF
    } else {
        key.as_u16_key() as u32
    }
}

/// Degree of MIDI note `note` above `tonic`, 0..12.
pub open spec fn degree_of(note: int, tonic: Note) -> int {
    (note % 12 + 12 - note_index(tonic)) % 12
}

/// Whether MIDI note `note` belongs to `key` rooted at `tonic`.
pub open spec fn in_scale(note: int, key: Key, tonic: Note) -> bool {
    (scale_mask_spec(key) >> ((11 - degree_of(note, tonic)) as u32)) & 1 != 0
}

/// The in-scale notes from `from` up to 127, ascending.
pub open spec fn scale_notes_from(from: int, key: Key, tonic: Note) -> Seq<u8>
    decreases 128 - from,
{
    if from >= 128 || from < 0 {
        Seq::empty()
    } else if in_scale(from, key, tonic) {
        seq![from as u8] + scale_notes_from(from + 1, key, tonic)
    } else {
        scale_notes_from(from + 1, key, tonic)
    }
}

/// The channel-to-note map of the keyboard: in chromatic mode (1) channel
/// `ch` plays `base + ch` (at most 127); otherwise the channels play the
/// first sixteen in-scale notes from `base` up, and channels left over play 127.
pub open spec fn note_map_spec(base: u8, key: Key, tonic: Note, mode: usize, ch: int) -> u8 {
    if mode == 1 {
        if base + ch > 127 {
            127
        } else {
            (base + ch) as u8
        }
    } else {
        let notes = scale_notes_from(base as int, key, tonic);
        if ch < notes.len() {
            notes[ch]
        } else {
            127
        }
    }
}

fn note_in_scale(note: u32, mask: u32, tonic: u8) -> (r: bool)
    requires
        tonic < 12,
    ensures
        r == ((mask >> ((11 - (note % 12 + 12 - tonic) % 12) as u32)) & 1 != 0),
{
    let degree = (note % 12 + 12 - tonic as u32) % 12;
    (mask >> (11 - degree)) & 1 != 0
}

/// Maps the sixteen channels to MIDI notes from `base_note` up.
pub fn build_note_map(base_note: u8, key: Key, tonic: Note, mode: usize) -> (r: [u8; 16])
    ensures
        forall|ch: int| 0 <= ch < 16 ==> #[trigger] r[ch] == note_map_spec(base_note, key, tonic, mode, ch),
{
    if mode == 1 {
        let mut map = [0u8; 16];
        let mut ch: usize = 0;
        while ch < CHANNELS
            invariant
                ch <= 16,
                mode == 1,
                forall|c: int| 0 <= c < ch ==> #[trigger] map[c] == note_map_spec(base_note, key, tonic, mode, c),
            decreases 16 - ch,
        {
            let v = base_note as u32 + ch as u32;
            map[ch] = if v > 127 { 127 } else { v as u8 };
            ch += 1;
        }
        map
    } else {
        let mask = scale_mask(key);
        let tonic_u = tonic.index();
        let mut map = [127u8; 16];
        let mut count: usize = 0;
        let mut note: u32 = base_note as u32;
        let ghost all = scale_notes_from(base_note as int, key, tonic);
        while count < CHANNELS && note < 128
            invariant
                count <= 16,
                base_note <= note,
                note <= 128 || note == base_note,
                mask == scale_mask_spec(key),
                tonic_u == note_index(tonic),
                all == scale_notes_from(base_note as int, key, tonic),
                all == map@.take(count as int) + scale_notes_from(note as int, key, tonic),
                forall|c: int| count <= c < 16 ==> #[trigger] map[c] == 127,
            decreases 16 - count, 128 - note,
        {
            let hit = note_in_scale(note, mask, tonic_u);
            let ghost before = map@.take(count as int);
            if hit {
                assert(in_scale(note as int, key, tonic));
                map[count] = note as u8;
                assert(map@.take(count as int + 1) =~= before + seq![note as u8]);
                count += 1;
            } else {
                assert(!in_scale(note as int, key, tonic));
            }
            note += 1;
        }
        proof {
            if note >= 128 {
                assert(scale_notes_from(note as int, key, tonic) =~= Seq::<u8>::empty());
            }
            assert forall|ch: int| 0 <= ch < 16 implies #[trigger] map[ch] == note_map_spec(
                base_note,
                key,
                tonic,
                mode,
                ch,
            ) by {
                if ch < count {
                    assert(all[ch] == map@.take(count as int)[ch]);
                } else if note >= 128 {
                    assert(all.len() == count);
                }
            }
        }
        map
    }
}

/// Piano color of a note: yellow for black keys, white for white keys.
pub open spec fn key_color_spec(note_num: u8) -> Color {
    if black_key((note_num % 12) as int) {
        Color::Yellow
    } else {
        Color::White
    }
}

/// Piano color of a note: yellow for black keys, white for white keys.
pub fn key_color(note_num: u8) -> (r: Color)
    ensures
        r == key_color_spec(note_num),
{
    let pc = (note_num % 12) as usize;
    if IS_BLACK_KEY[pc] {
        Color::Yellow
    } else {
        Color::White
    }
}

/// Brightness of a key's LED: the tonic is bright; in chromatic mode the
/// in-scale keys are medium and the others dim; in scale mode every key is
/// medium.
pub open spec fn key_brightness_spec(note_num: u8, key: Key, tonic: Note, mode: usize) -> Brightness {
    if note_num % 12 == note_index(tonic) {
        Brightness::High
    } else if mode == 1 {
        if in_scale(note_num as int, key, tonic) {
            Brightness::Mid
        } else {
            Brightness::Low
        }
    } else {
        Brightness::Mid
    }
}

/// The request that lights the button of channel `ch`, which plays `note_num`.
pub fn set_key_led(leds: &Leds<16>, ch: usize, note_num: u8, key: Key, tonic: Note, mode: usize) -> (r: LedRequest)
    requires
        leds.start_channel + 16 <= usize::MAX,
    ensures
        r == (
            leds.device_channel(ch) as usize,
            Led::Button,
            LedMsg::SetMode(LedMode::Static(key_color_spec(note_num), key_brightness_spec(note_num, key, tonic, mode))),
        ),
{
    let abs = note_num % 12;
    let tonic_u = tonic.index();
    let color = key_color(note_num);
    let brightness = if abs == tonic_u {
        Brightness::High
    } else if mode == 1 {
        let mask = scale_mask(key);
        if note_in_scale(note_num as u32, mask, tonic_u) {
            Brightness::Mid
        } else {
            Brightness::Low
        }
    } else {
        Brightness::Mid
    };
    leds.set(ch, Led::Button, color, brightness)
}

/// The requests that light every key's button from the note map, channel by channel.
pub fn paint_leds(leds: &Leds<16>, map: &[u8; 16], key: Key, tonic: Note, mode: usize) -> (r: Vec<LedRequest>)
    requires
        leds.start_channel + 16 <= usize::MAX,
    ensures
        r.len() == 16,
        forall|ch: int| 0 <= ch < 16 ==> #[trigger] r[ch] == (
            leds.device_channel(ch as usize) as usize,
            Led::Button,
            LedMsg::SetMode(LedMode::Static(key_color_spec(map[ch]), key_brightness_spec(map[ch], key, tonic, mode))),
        ),
{
    let mut out: Vec<LedRequest> = Vec::new();
    let mut ch: usize = 0;
    while ch < CHANNELS
        invariant
            ch <= 16,
            out.len() == ch,
            leds.start_channel + 16 <= usize::MAX,
            forall|c: int| 0 <= c < ch ==> #[trigger] out[c] == (
                leds.device_channel(c as usize) as usize,
                Led::Button,
                LedMsg::SetMode(LedMode::Static(key_color_spec(map[c]), key_brightness_spec(map[c], key, tonic, mode))),
            ),
        decreases 16 - ch,
    {
        let req = set_key_led(leds, ch, map[ch], key, tonic, mode);
        out.push(req);
        ch += 1;
    }
    out
}

/// Held entries of `buf` whose note is `n`, in channel order.
pub open spec fn held_with_pitch(buf: Seq<Option<(u8, u16)>>, n: int) -> Seq<(u8, u16)>
    decreases buf.len(),
{
    if buf.len() == 0 {
        Seq::empty()
    } else {
        let rest = held_with_pitch(buf.drop_last(), n);
        match buf.last() {
            Some(e) => if e.0 == n {
                rest.push(e)
            } else {
                rest
            },
            None => rest,
        }
    }
}

/// Held entries of `buf` with notes below `upto`, by ascending note; equal
/// notes keep channel order.
pub open spec fn held_by_pitch(buf: Seq<Option<(u8, u16)>>, upto: int) -> Seq<(u8, u16)>
    decreases upto,
{
    if upto <= 0 {
        Seq::empty()
    } else {
        held_by_pitch(buf, upto - 1) + held_with_pitch(buf, upto - 1)
    }
}

/// `base` transposed up `oct` octaves, each note at most 127.
pub open spec fn shifted(base: Seq<(u8, u16)>, oct: int) -> Seq<(u8, u16)> {
    base.map_values(|e: (u8, u16)| (if e.0 + oct * 12 > 127 { 127u8 } else { (e.0 + oct * 12) as u8 }, e.1))
}

/// `base` repeated over `span` octaves, lowest octave first.
pub open spec fn over_octaves(base: Seq<(u8, u16)>, span: int) -> Seq<(u8, u16)>
    decreases span,
{
    if span <= 0 {
        Seq::empty()
    } else {
        over_octaves(base, span - 1) + shifted(base, span - 1)
    }
}

/// The first 64 steps of `s`.
pub open spec fn capped(s: Seq<(u8, u16)>) -> Seq<(u8, u16)> {
    if s.len() <= 64 {
        s
    } else {
        s.take(64)
    }
}

/// The arpeggio: the held notes sorted by pitch, repeated over `span`
/// octaves, at most 64 steps, reversed for direction 1 (down).
pub open spec fn arp_sequence_spec(buf: Seq<Option<(u8, u16)>>, span: u8, dir: usize) -> Seq<(u8, u16)> {
    let s = capped(over_octaves(held_by_pitch(buf, 256), span as int));
    if dir == 1 {
        s.reverse()
    } else {
        s
    }
}

/// Builds the note sequence the arpeggiator steps through from the held
/// (note, velocity) pairs.
pub fn build_arp_sequence(buf: &[Option<(u8, u16)>; 16], span: u8, dir: usize) -> (r: Vec<(u8, u16)>)
    ensures
        r@ == arp_sequence_spec(buf@, span, dir),
        r.len() <= ARP_MAX_STEPS,
{
    let mut base: Vec<(u8, u16)> = Vec::new();
    let mut n: u16 = 0;
    while n < 256
        invariant
            n <= 256,
            base@ == held_by_pitch(buf@, n as int),
            base.len() <= 16 * n,
        decreases 256 - n,
    {
        let mut i: usize = 0;
        while i < CHANNELS
            invariant
                i <= 16,
                n < 256,
                base@ == held_by_pitch(buf@, n as int) + held_with_pitch(buf@.take(i as int), n as int),
                base.len() <= 16 * n + i,
            decreases 16 - i,
        {
            proof {
                assert(buf@.take(i as int + 1).drop_last() =~= buf@.take(i as int));
                assert(buf@.take(i as int + 1).last() == buf@[i as int]);
            }
            match buf[i] {
                Some(e) => {
                    if e.0 as u16 == n {
                        base.push(e);
                    }
                },
                None => {},
            }
            i += 1;
        }
        assert(buf@.take(16) =~= buf@);
        n += 1;
    }
    let ghost sorted = base@;
    let mut seq: Vec<(u8, u16)> = Vec::new();
    let mut oct: u8 = 0;
    while oct < span
        invariant
            oct <= span,
            base@ == sorted,
            seq@ == capped(over_octaves(sorted, oct as int)),
        decreases span - oct,
    {
        let mut k: usize = 0;
        while k < base.len()
            invariant
                k <= base.len(),
                oct < span,
                base@ == sorted,
                seq@ == capped(over_octaves(sorted, oct as int) + shifted(sorted, oct as int).take(k as int)),
            decreases base.len() - k,
        {
            let e = base[k];
            let lifted = e.0 as u16 + oct as u16 * 12;
            let note = if lifted > 127 { 127u8 } else { lifted as u8 };
            let ghost whole = over_octaves(sorted, oct as int) + shifted(sorted, oct as int).take(k as int);
            let ghost next = over_octaves(sorted, oct as int) + shifted(sorted, oct as int).take(k as int + 1);
            proof {
                assert(shifted(sorted, oct as int).take(k as int + 1) =~= shifted(sorted, oct as int).take(k as int).push((note, e.1)));
                assert(next =~= whole.push((note, e.1)));
            }
            if seq.len() < ARP_MAX_STEPS {
                seq.push((note, e.1));
                assert(seq@ =~= capped(next));
            } else {
                assert(capped(whole) =~= whole.take(64));
                assert(capped(next) =~= next.take(64));
                assert(whole.take(64) =~= next.take(64));
            }
            k += 1;
        }
        assert(shifted(sorted, oct as int).take(base.len() as int) =~= shifted(sorted, oct as int));
        oct += 1;
    }
    if dir == 1 {
        let mut rev: Vec<(u8, u16)> = Vec::new();
        let mut j: usize = seq.len();
        while j > 0
            invariant
                j <= seq.len(),
                rev.len() == seq.len() - j,
                forall|t: int| 0 <= t < rev.len() ==> #[trigger] rev@[t] == seq@[seq.len() - 1 - t],
            decreases j,
        {
            j -= 1;
            rev.push(seq[j]);
        }
        assert(rev@ =~= seq@.reverse());
        rev
    } else {
        seq
    }
}

/// The next arpeggio position and direction flag: up and down (0, 1) wrap
/// around, ping-pong (2) turns at either end, random (3 and above) takes
/// the die roll modulo the length.
pub open spec fn advance_arp_spec(pos: int, len: int, dir: usize, going_up: bool, die_roll: u16) -> (int, bool) {
    if len == 0 {
        (0, going_up)
    } else if dir == 0 || dir == 1 {
        ((pos + 1) % len, going_up)
    } else if dir == 2 {
        if len == 1 {
            (0, going_up)
        } else if going_up {
            if pos + 1 >= len {
                (len - 2, false)
            } else {
                (pos + 1, true)
            }
        } else if pos == 0 {
            (1, true)
        } else {
            (pos - 1, false)
        }
    } else {
        (die_roll as int % len, going_up)
    }
}

/// Advances the arpeggio position by one step.
pub fn advance_arp(pos: usize, len: usize, dir: usize, going_up: &mut bool, die_roll: u16) -> (r: usize)
    requires
        pos < usize::MAX,
    ensures
        (r as int, *final(going_up)) == advance_arp_spec(pos as int, len as int, dir, *old(going_up), die_roll),
        len > 0 && pos < len ==> r < len,
{
    if len == 0 {
        return 0;
    }
    if dir == 0 || dir == 1 {
        (pos + 1) % len
    } else if dir == 2 {
        if len == 1 {
            return 0;
        }
        if *going_up {
            if pos + 1 >= len {
                *going_up = false;
                len - 2
            } else {
                pos + 1
            }
        } else if pos == 0 {
            *going_up = true;
            1
        } else {
            pos - 1
        }
    } else {
        (die_roll as usize) % len
    }
}

/// Clock ticks per arpeggio step chosen by a fader: 1/4, 1/8, 1/16 or 1/32
/// notes over its four quarters.
pub fn arp_ticks_from_value(value: u16) -> (r: u8)
    ensures
        r == if value / 1024 == 0 {
            24u8
        } else if value / 1024 == 1 {
            12u8
        } else if value / 1024 == 2 {
            6u8
        } else {
            3u8
        },
{
    match value / 1024 {
        0 => 24,
        1 => 12,
        2 => 6,
        _ => 3,
    }
}

/// Arpeggio direction chosen by a fader: four equal zones of the 12-bit range.
pub fn arp_direction_from_value(value: u16) -> (r: usize)
    ensures
        r == value as int * 4 / 4096,
{
    (value as usize * 4) / 4096
}

/// Octaves spanned by the arpeggio, chosen by a fader: 1 to 4.
pub fn arp_span_from_value(value: u16) -> (r: u8)
    ensures
        r == if value / 1024 + 1 > 4 {
            4
        } else {
            value / 1024 + 1
        },
        1 <= r <= 4,
{
    let s = value / 1024 + 1;
    if s > 4 {
        4
    } else {
        s as u8
    }
}

/// The base note transposed by `octaves`, limited to the MIDI range.
pub fn effective_base(base_note: u8, octaves: i32) -> (r: u8)
    ensures
        r == if base_note + octaves * 12 < 0 {
            0
        } else if base_note + octaves * 12 > 127 {
            127
        } else {
            base_note + octaves * 12
        },
{
    let v = base_note as i64 + octaves as i64 * 12;
    if v < 0 {
        0
    } else if v > 127 {
        127
    } else {
        v as u8
    }
}

/// Work for the device: MIDI note on (12-bit velocity) or off, or an LED request.
#[derive(Clone, Copy, Debug, PartialEq, Eq)]
pub enum KeyAction {
    NoteOn(u8, u16),
    NoteOff(u8),
    Led(LedRequest),
}

/// The base note transposed by `octaves`, within 0..=127.
pub open spec fn effective_base_spec(base_note: u8, octaves: i32) -> u8 {
    if base_note + octaves * 12 < 0 {
        0
    } else if base_note + octaves * 12 > 127 {
        127
    } else {
        (base_note + octaves * 12) as u8
    }
}

/// The LED request of key `ch` playing `note`.
pub open spec fn key_led_spec(leds: Leds<16>, ch: int, note: u8, key: Key, tonic: Note, mode: usize) -> KeyAction {
    KeyAction::Led(
        (
            leds.device_channel(ch as usize) as usize,
            Led::Button,
            LedMsg::SetMode(LedMode::Static(key_color_spec(note), key_brightness_spec(note, key, tonic, mode))),
        ),
    )
}

/// The cyan indicator on button `ch` (arpeggio on: 3, hold: 4).
pub open spec fn cyan_spec(leds: Leds<16>, ch: int, brightness: Brightness) -> KeyAction {
    KeyAction::Led(
        (
            leds.device_channel(ch as usize) as usize,
            Led::Button,
            LedMsg::SetMode(LedMode::Static(Color::Cyan, brightness)),
        ),
    )
}

/// A bright key: the piano color at full brightness.
pub open spec fn pressed_spec(leds: Leds<16>, ch: int, note: u8) -> KeyAction {
    KeyAction::Led(
        (
            leds.device_channel(ch as usize) as usize,
            Led::Button,
            LedMsg::SetMode(LedMode::Static(key_color_spec(note), Brightness::High)),
        ),
    )
}

/// All sixteen key lights for `map`.
pub open spec fn paint_spec(leds: Leds<16>, map: [u8; 16], key: Key, tonic: Note, mode: usize) -> Seq<KeyAction> {
    Seq::new(16, |ch: int| key_led_spec(leds, ch, map[ch], key, tonic, mode))
}

/// Note-offs for the held notes, in channel order.
pub open spec fn held_offs(held: Seq<Option<u8>>) -> Seq<KeyAction>
    decreases held.len(),
{
    if held.len() == 0 {
        Seq::empty()
    } else {
        let rest = held_offs(held.drop_last());
        match held.last() {
            Some(n) => rest.push(KeyAction::NoteOff(n)),
            None => rest,
        }
    }
}

/// The keyboard as `run` keeps it: its settings, the held notes, octave
/// shift, scale, note map and the arpeggiator's state.
#[derive(Clone, Copy)]
pub struct Keyboard {
    pub base_note: u8,
    pub mode: usize,
    pub key: Key,
    pub tonic: Note,
    pub note_map: [u8; 16],
    /// The note each channel sounds while its key is down.
    pub held: [Option<u8>; 16],
    pub octave_offset: i32,
    pub arp_active: bool,
    pub arp_hold: bool,
    pub arp_buffer: [Option<(u8, u16)>; 16],
    pub arp_dir: usize,
    pub arp_span: u8,
    pub arp_clk_div: u8,
    pub last_all_released: bool,
    pub arp_pos: usize,
    pub going_up: bool,
    pub last_note: Option<u8>,
}

/// Whether `map` is the note map of `s`'s scale and mode from `base`.
pub open spec fn is_map(s: Keyboard, map: [u8; 16], base: u8) -> bool {
    forall|ch: int| 0 <= ch < 16 ==> #[trigger] map[ch] == note_map_spec(base, s.key, s.tonic, s.mode, ch)
}

/// After a shift+button octave step by `delta`: the octave (within -5..=5)
/// and note map change and every key is repainted, with the arpeggio's
/// indicators restored.
pub open spec fn octave_post(s: Keyboard, t: Keyboard, r: Seq<KeyAction>, leds: Leds<16>, delta: i32) -> bool {
    let off = if s.octave_offset + delta < -5 {
        -5
    } else if s.octave_offset + delta > 5 {
        5
    } else {
        s.octave_offset + delta
    };
    &&& t == Keyboard { octave_offset: off as i32, note_map: t.note_map, ..s }
    &&& is_map(s, t.note_map, effective_base_spec(s.base_note, off as i32))
    &&& r == paint_spec(leds, t.note_map, s.key, s.tonic, s.mode) + if s.arp_active {
        seq![cyan_spec(leds, 3, Brightness::Mid)] + if s.arp_hold {
            seq![cyan_spec(leds, 4, Brightness::High)]
        } else {
            Seq::empty()
        }
    } else {
        Seq::empty()
    }
}

impl Keyboard {
    /// The invariant: the octave shift stays within five octaves.
    pub open spec fn wf(&self) -> bool {
        -5 <= self.octave_offset <= 5
    }

    /// A keyboard from the base-note and mode parameters and the global
    /// scale: nothing held, no transposition, arpeggio off (up, one octave,
    /// sixteenth notes).
    pub fn new(base_note: i32, mode: usize, key: Key, tonic: Note) -> (r: Self)
        ensures
            r.wf(),
            r.base_note == if base_note < 0 { 0 } else if base_note > 127 { 127 } else { base_note as u8 },
            r.mode == mode && r.key == key && r.tonic == tonic,
            is_map(r, r.note_map, r.base_note),
            forall|ch: int| 0 <= ch < 16 ==> #[trigger] r.held[ch] is None && r.arp_buffer[ch] is None,
            r.octave_offset == 0,
            !r.arp_active && !r.arp_hold && !r.last_all_released,
            r.arp_dir == 0 && r.arp_span == 1 && r.arp_clk_div == 6,
            r.arp_pos == 0 && r.going_up && r.last_note is None,
    {
        let base: u8 = if base_note < 0 {
            0
        } else if base_note > 127 {
            127
        } else {
            base_note as u8
        };
        let map = build_note_map(effective_base(base, 0), key, tonic, mode);
        Keyboard {
            base_note: base,
            mode,
            key,
            tonic,
            note_map: map,
            held: [None; 16],
            octave_offset: 0,
            arp_active: false,
            arp_hold: false,
            arp_buffer: [None; 16],
            arp_dir: 0,
            arp_span: 1,
            arp_clk_div: 6,
            last_all_released: false,
            arp_pos: 0,
            going_up: true,
            last_note: None,
        }
    }

    /// The key lights of the whole keyboard.
    pub fn paint(&self, leds: &Leds<16>) -> (r: Vec<KeyAction>)
        requires
            leds.start_channel + 16 <= usize::MAX,
        ensures
            r@ == paint_spec(*leds, self.note_map, self.key, self.tonic, self.mode),
    {
        let reqs = paint_leds(leds, &self.note_map, self.key, self.tonic, self.mode);
        let mut out: Vec<KeyAction> = Vec::new();
        let mut ch: usize = 0;
        while ch < 16
            invariant
                ch <= 16,
                reqs.len() == 16,
                forall|c: int| 0 <= c < 16 ==> #[trigger] reqs[c] == (
                    leds.device_channel(c as usize) as usize,
                    Led::Button,
                    LedMsg::SetMode(LedMode::Static(key_color_spec(self.note_map[c]), key_brightness_spec(self.note_map[c], self.key, self.tonic, self.mode))),
                ),
                out@ == paint_spec(*leds, self.note_map, self.key, self.tonic, self.mode).take(ch as int),
            decreases 16 - ch,
        {
            out.push(KeyAction::Led(reqs[ch]));
            assert(out@ =~= paint_spec(*leds, self.note_map, self.key, self.tonic, self.mode).take(ch as int + 1));
            ch += 1;
        }
        assert(paint_spec(*leds, self.note_map, self.key, self.tonic, self.mode).take(16) =~= paint_spec(*leds, self.note_map, self.key, self.tonic, self.mode));
        out
    }

    fn key_led(&self, leds: &Leds<16>, ch: usize) -> (r: KeyAction)
        requires
            ch < 16,
            leds.start_channel + 16 <= usize::MAX,
        ensures
            r == key_led_spec(*leds, ch as int, self.note_map[ch as int], self.key, self.tonic, self.mode),
    {
        KeyAction::Led(set_key_led(leds, ch, self.note_map[ch], self.key, self.tonic, self.mode))
    }

    fn shift_octave(&mut self, leds: &Leds<16>, delta: i32) -> (r: Vec<KeyAction>)
        requires
            old(self).wf(),
            delta == -1 || delta == 1,
            leds.start_channel + 16 <= usize::MAX,
        ensures
            final(self).wf(),
            octave_post(*old(self), *final(self), r@, *leds, delta),
    {
        let mut off = self.octave_offset + delta;
        if off < -5 {
            off = -5;
        }
        if off > 5 {
            off = 5;
        }
        self.octave_offset = off;
        let eb = effective_base(self.base_note, off);
        self.note_map = build_note_map(eb, self.key, self.tonic, self.mode);
        let mut out = self.paint(leds);
        let ghost painted = out@;
        if self.arp_active {
            out.push(KeyAction::Led(leds.set(3, Led::Button, Color::Cyan, Brightness::Mid)));
            if self.arp_hold {
                out.push(KeyAction::Led(leds.set(4, Led::Button, Color::Cyan, Brightness::High)));
                assert(out@ =~= painted + (seq![cyan_spec(*leds, 3, Brightness::Mid)] + seq![cyan_spec(*leds, 4, Brightness::High)]));
            } else {
                assert(out@ =~= painted + (seq![cyan_spec(*leds, 3, Brightness::Mid)] + Seq::empty()));
            }
        } else {
            assert(out@ =~= painted + Seq::empty());
        }
        out
    }
}

/// The arpeggio buffer taken from the held keys, each with its fader's velocity.
pub open spec fn buffer_from_held(held: [Option<u8>; 16], faders: [u16; 16], i: int) -> Option<(u8, u16)> {
    match held[i] {
        Some(n) => Some((n, faders[i])),
        None => None,
    }
}

/// After shift+button 3: the arpeggio toggles. Turning on, it takes the held
/// keys with their faders' velocities and lights its indicator; turning
/// off, it empties, ends hold, and restores keys 3 (and 4 if hold was on).
pub open spec fn arp_toggle_post(s: Keyboard, t: Keyboard, r: Seq<KeyAction>, leds: Leds<16>, faders: [u16; 16]) -> bool {
    if !s.arp_active {
        &&& t == Keyboard { arp_active: true, arp_buffer: t.arp_buffer, ..s }
        &&& forall|i: int| 0 <= i < 16 ==> #[trigger] t.arp_buffer[i] == buffer_from_held(s.held, faders, i)
        &&& r == seq![cyan_spec(leds, 3, Brightness::Mid)]
    } else {
        &&& t == Keyboard {
            arp_active: false,
            arp_buffer: t.arp_buffer,
            last_all_released: false,
            arp_hold: false,
            ..s
        }
        &&& forall|i: int| 0 <= i < 16 ==> #[trigger] t.arp_buffer[i] is None
        &&& r == seq![key_led_spec(leds, 3, s.note_map[3], s.key, s.tonic, s.mode)] + if s.arp_hold {
            seq![key_led_spec(leds, 4, s.note_map[4], s.key, s.tonic, s.mode)]
        } else {
            Seq::empty()
        }
    }
}

/// After shift+button 4: hold toggles; turning it off empties the arpeggio
/// and restores key 4's light.
pub open spec fn hold_toggle_post(s: Keyboard, t: Keyboard, r: Seq<KeyAction>, leds: Leds<16>) -> bool {
    if !s.arp_hold {
        &&& t == Keyboard { arp_hold: true, ..s }
        &&& r == seq![cyan_spec(leds, 4, Brightness::High)]
    } else {
        &&& t == Keyboard { arp_hold: false, arp_buffer: t.arp_buffer, ..s }
        &&& forall|i: int| 0 <= i < 16 ==> #[trigger] t.arp_buffer[i] is None
        &&& r == seq![key_led_spec(leds, 4, s.note_map[4], s.key, s.tonic, s.mode)]
    }
}

/// After a key press on channel `ch` with fader velocity `vel`: without the
/// arpeggio the note sounds and is held; with it the note joins the
/// arpeggio (a fresh chord after a full release in hold mode clears it
/// first). The key lights bright either way.
pub open spec fn press_post(s: Keyboard, t: Keyboard, r: Seq<KeyAction>, leds: Leds<16>, ch: int, vel: u16) -> bool {
    let note = s.note_map[ch];
    let held = vstd::array::spec_array_update(s.held, ch, Some(note));
    if !s.arp_active {
        &&& t == Keyboard { held: held, ..s }
        &&& r == seq![KeyAction::NoteOn(note, vel), pressed_spec(leds, ch, note)]
    } else {
        let fresh = s.arp_hold && s.last_all_released;
        &&& t == Keyboard { held: held, arp_buffer: t.arp_buffer, last_all_released: false, ..s }
        &&& forall|i: int| 0 <= i < 16 ==> #[trigger] t.arp_buffer[i] == if i == ch {
            Some((note, vel))
        } else if fresh {
            None
        } else {
            s.arp_buffer[i]
        }
        &&& r == seq![pressed_spec(leds, ch, note)]
    }
}

impl Keyboard {
    fn toggle_arp(&mut self, leds: &Leds<16>, faders: &[u16; 16]) -> (r: Vec<KeyAction>)
        requires
            old(self).wf(),
            leds.start_channel + 16 <= usize::MAX,
        ensures
            final(self).wf(),
            arp_toggle_post(*old(self), *final(self), r@, *leds, *faders),
    {
        let mut out: Vec<KeyAction> = Vec::new();
        let now_on = !self.arp_active;
        self.arp_active = now_on;
        if now_on {
            let mut buf: [Option<(u8, u16)>; 16] = [None; 16];
            let mut i: usize = 0;
            while i < 16
                invariant
                    i <= 16,
                    forall|j: int| 0 <= j < 16 ==> #[trigger] buf[j] == if j < i {
                        buffer_from_held(self.held, *faders, j)
                    } else {
                        None
                    },
                decreases 16 - i,
            {
                buf[i] = match self.held[i] {
                    Some(n) => Some((n, faders[i])),
                    None => None,
                };
                i += 1;
            }
            self.arp_buffer = buf;
            out.push(KeyAction::Led(leds.set(3, Led::Button, Color::Cyan, Brightness::Mid)));
            assert(out@ =~= seq![cyan_spec(*leds, 3, Brightness::Mid)]);
        } else {
            self.arp_buffer = [None; 16];
            self.last_all_released = false;
            out.push(self.key_led(leds, 3));
            if self.arp_hold {
                self.arp_hold = false;
                out.push(self.key_led(leds, 4));
                assert(out@ =~= seq![key_led_spec(*leds, 3, self.note_map[3], self.key, self.tonic, self.mode)] + seq![key_led_spec(*leds, 4, self.note_map[4], self.key, self.tonic, self.mode)]);
            } else {
                assert(out@ =~= seq![key_led_spec(*leds, 3, self.note_map[3], self.key, self.tonic, self.mode)] + Seq::empty());
            }
        }
        out
    }

    fn toggle_hold(&mut self, leds: &Leds<16>) -> (r: Vec<KeyAction>)
        requires
            old(self).wf(),
            leds.start_channel + 16 <= usize::MAX,
        ensures
            final(self).wf(),
            hold_toggle_post(*old(self), *final(self), r@, *leds),
    {
        let mut out: Vec<KeyAction> = Vec::new();
        let now_on = !self.arp_hold;
        self.arp_hold = now_on;
        if now_on {
            out.push(KeyAction::Led(leds.set(4, Led::Button, Color::Cyan, Brightness::High)));
        } else {
            self.arp_buffer = [None; 16];
            out.push(self.key_led(leds, 4));
        }
        assert(out@.len() == 1);
        out
    }

    fn press(&mut self, leds: &Leds<16>, ch: usize, vel: u16) -> (r: Vec<KeyAction>)
        requires
            old(self).wf(),
            ch < 16,
            leds.start_channel + 16 <= usize::MAX,
        ensures
            final(self).wf(),
            press_post(*old(self), *final(self), r@, *leds, ch as int, vel),
    {
        let mut out: Vec<KeyAction> = Vec::new();
        let note = self.note_map[ch];
        let ghost s0 = *self;
        if !self.arp_active {
            out.push(KeyAction::NoteOn(note, vel));
            self.held[ch] = Some(note);
            assert(self.held =~= vstd::array::spec_array_update(s0.held, ch as int, Some(note)));
        } else {
            if self.arp_hold && self.last_all_released {
                self.arp_buffer = [None; 16];
            }
            self.arp_buffer[ch] = Some((note, vel));
            self.held[ch] = Some(note);
            self.last_all_released = false;
            assert(self.held =~= vstd::array::spec_array_update(s0.held, ch as int, Some(note)));
        }
        out.push(KeyAction::Led(leds.set(ch, Led::Button, key_color(note), Brightness::High)));
        proof {
            if !s0.arp_active {
                assert(out@ =~= seq![KeyAction::NoteOn(note, vel), pressed_spec(*leds, ch as int, note)]);
            } else {
                assert(out@ =~= seq![pressed_spec(*leds, ch as int, note)]);
            }
        }
        out
    }

    /// A key press on channel `ch` (with shift or not) and the fader values
    /// at that moment. Shift with keys 0/1 steps the octave down/up, with 3
    /// toggles the arpeggio, with 4 toggles hold; any other press plays its note.
    pub fn on_button_down(&mut self, leds: &Leds<16>, ch: usize, shift: bool, faders: &[u16; 16]) -> (r: Vec<KeyAction>)
        requires
            old(self).wf(),
            ch < 16,
            leds.start_channel + 16 <= usize::MAX,
        ensures
            final(self).wf(),
            shift && ch == 0 ==> octave_post(*old(self), *final(self), r@, *leds, -1i32),
            shift && ch == 1 ==> octave_post(*old(self), *final(self), r@, *leds, 1i32),
            shift && ch == 3 ==> arp_toggle_post(*old(self), *final(self), r@, *leds, *faders),
            shift && ch == 4 ==> hold_toggle_post(*old(self), *final(self), r@, *leds),
            !(shift && (ch == 0 || ch == 1 || ch == 3 || ch == 4)) ==> press_post(
                *old(self),
                *final(self),
                r@,
                *leds,
                ch as int,
                faders[ch as int],
            ),
    {
        if shift && ch == 0 {
            self.shift_octave(leds, -1)
        } else if shift && ch == 1 {
            self.shift_octave(leds, 1)
        } else if shift && ch == 3 {
            self.toggle_arp(leds, faders)
        } else if shift && ch == 4 {
            self.toggle_hold(leds)
        } else {
            self.press(leds, ch, faders[ch])
        }
    }

    /// Release of key `ch`. A held key lets go: without the arpeggio its
    /// note stops; with it (not holding) it leaves the arpeggio; in hold
    /// mode a release of the last key marks the chord complete. The key's
    /// light is restored, and the arpeggio/hold indicators when on keys 3/4.
    /// A key that was not held does nothing.
    pub fn on_button_up(&mut self, leds: &Leds<16>, ch: usize) -> (r: Vec<KeyAction>)
        requires
            old(self).wf(),
            ch < 16,
            leds.start_channel + 16 <= usize::MAX,
        ensures
            final(self).wf(),
            old(self).held[ch as int] is None ==> *final(self) == *old(self) && r@.len() == 0,
            old(self).held[ch as int] matches Some(note) ==> {
                let s = *old(self);
                let t = *final(self);
                let held = vstd::array::spec_array_update(s.held, ch as int, None);
                let all_up = forall|i: int| 0 <= i < 16 ==> #[trigger] held[i] is None;
                &&& t == Keyboard {
                    held: held,
                    arp_buffer: t.arp_buffer,
                    last_all_released: if s.arp_active && s.arp_hold && all_up { true } else { s.last_all_released },
                    ..s
                }
                &&& t.arp_buffer == if s.arp_active && !s.arp_hold {
                    vstd::array::spec_array_update(s.arp_buffer, ch as int, None)
                } else {
                    s.arp_buffer
                }
                &&& r@ == (if !s.arp_active { seq![KeyAction::NoteOff(note)] } else { Seq::empty() }) + seq![
                    key_led_spec(*leds, ch as int, s.note_map[ch as int], s.key, s.tonic, s.mode),
                ] + (if ch == 3 && s.arp_active { seq![cyan_spec(*leds, 3, Brightness::Mid)] } else { Seq::empty() })
                    + (if ch == 4 && s.arp_hold { seq![cyan_spec(*leds, 4, Brightness::High)] } else { Seq::empty() })
            },
    {
        let mut out: Vec<KeyAction> = Vec::new();
        let note = match self.held[ch] {
            Some(n) => n,
            None => {
                return out;
            },
        };
        let ghost s0 = *self;
        self.held[ch] = None;
        assert(self.held =~= vstd::array::spec_array_update(s0.held, ch as int, None));
        let ghost part1: Seq<KeyAction>;
        if !self.arp_active {
            out.push(KeyAction::NoteOff(note));
            proof {
                part1 = seq![KeyAction::NoteOff(note)];
            }
        } else if !self.arp_hold {
            self.arp_buffer[ch] = None;
            assert(self.arp_buffer =~= vstd::array::spec_array_update(s0.arp_buffer, ch as int, None));
            proof {
                part1 = Seq::empty();
            }
        } else {
            let mut all_up = true;
            let mut i: usize = 0;
            while i < 16
                invariant
                    i <= 16,
                    all_up == forall|j: int| 0 <= j < i ==> #[trigger] self.held[j] is None,
                decreases 16 - i,
            {
                if self.held[i].is_some() {
                    all_up = false;
                }
                i += 1;
            }
            if all_up {
                self.last_all_released = true;
            }
            proof {
                part1 = Seq::empty();
            }
        }
        assert(out@ == part1);
        out.push(self.key_led(leds, ch));
        let ghost part2 = out@;
        if ch == 3 && self.arp_active {
            out.push(KeyAction::Led(leds.set(3, Led::Button, Color::Cyan, Brightness::Mid)));
        }
        let ghost part3 = out@;
        if ch == 4 && self.arp_hold {
            out.push(KeyAction::Led(leds.set(4, Led::Button, Color::Cyan, Brightness::High)));
        }
        proof {
            let tail3 = if ch == 3 && s0.arp_active { seq![cyan_spec(*leds, 3, Brightness::Mid)] } else { Seq::<KeyAction>::empty() };
            let tail4 = if ch == 4 && s0.arp_hold { seq![cyan_spec(*leds, 4, Brightness::High)] } else { Seq::<KeyAction>::empty() };
            assert(part2 =~= part1 + seq![key_led_spec(*leds, ch as int, s0.note_map[ch as int], s0.key, s0.tonic, s0.mode)]);
            assert(part3 =~= part2 + tail3);
            assert(out@ =~= part3 + tail4);
        }
        out
    }
}

impl Keyboard {
    /// A poll of the global scale. When it changed, every held note stops
    /// and is released, the note map is rebuilt for the new scale (same
    /// octave shift) and the keys are repainted with the arpeggio and hold
    /// indicators restored. An unchanged scale does nothing.
    pub fn on_scale(&mut self, leds: &Leds<16>, key: Key, tonic: Note) -> (r: Vec<KeyAction>)
        requires
            old(self).wf(),
            leds.start_channel + 16 <= usize::MAX,
        ensures
            final(self).wf(),
            key == old(self).key && tonic == old(self).tonic ==> *final(self) == *old(self) && r@.len() == 0,
            !(key == old(self).key && tonic == old(self).tonic) ==> {
                let s = *old(self);
                let t = *final(self);
                &&& t == Keyboard { key: key, tonic: tonic, held: t.held, note_map: t.note_map, ..s }
                &&& forall|i: int| 0 <= i < 16 ==> #[trigger] t.held[i] is None
                &&& is_map(t, t.note_map, effective_base_spec(s.base_note, s.octave_offset))
                &&& r@ == held_offs(s.held@) + paint_spec(*leds, t.note_map, key, tonic, s.mode)
                    + (if s.arp_active { seq![cyan_spec(*leds, 3, Brightness::Mid)] } else { Seq::empty() })
                    + (if s.arp_hold { seq![cyan_spec(*leds, 4, Brightness::High)] } else { Seq::empty() })
            },
    {
        let mut out: Vec<KeyAction> = Vec::new();
        if key == self.key && tonic == self.tonic {
            return out;
        }
        let ghost s0 = *self;
        self.key = key;
        self.tonic = tonic;
        let mut i: usize = 0;
        while i < 16
            invariant
                i <= 16,
                self.held == s0.held,
                out@ == held_offs(s0.held@.take(i as int)),
            decreases 16 - i,
        {
            assert(s0.held@.take(i as int + 1).drop_last() =~= s0.held@.take(i as int));
            if let Some(n) = self.held[i] {
                out.push(KeyAction::NoteOff(n));
            }
            i += 1;
        }
        assert(s0.held@.take(16) =~= s0.held@);
        self.held = [None; 16];
        let eb = effective_base(self.base_note, self.octave_offset);
        self.note_map = build_note_map(eb, key, tonic, self.mode);
        let ghost offs = out@;
        let mut painted = self.paint(leds);
        out.append(&mut painted);
        let ghost p = out@;
        if self.arp_active {
            out.push(KeyAction::Led(leds.set(3, Led::Button, Color::Cyan, Brightness::Mid)));
        }
        let ghost q = out@;
        if self.arp_hold {
            out.push(KeyAction::Led(leds.set(4, Led::Button, Color::Cyan, Brightness::High)));
        }
        proof {
            let t3 = if s0.arp_active { seq![cyan_spec(*leds, 3, Brightness::Mid)] } else { Seq::<KeyAction>::empty() };
            let t4 = if s0.arp_hold { seq![cyan_spec(*leds, 4, Brightness::High)] } else { Seq::<KeyAction>::empty() };
            assert(q =~= p + t3);
            assert(out@ =~= q + t4);
        }
        out
    }

    /// The arpeggiator on a clock tick with the tick count and a die roll:
    /// when on, and the tick falls on its division, and notes are in the
    /// arpeggio, the last arpeggio note stops and the next step's note
    /// sounds.
    pub fn on_tick(&mut self, ticks: u64, die_roll: u16) -> (r: Vec<KeyAction>)
        requires
            old(self).wf(),
        ensures
            final(self).wf(),
            ({
                let s = *old(self);
                let seq = arp_sequence_spec(s.arp_buffer@, s.arp_span, s.arp_dir);
                let div = s.arp_clk_div as int;
                let on_division = if div == 0 { ticks == 0 } else { ticks as int % div == 0 };
                if !s.arp_active || !on_division || seq.len() == 0 {
                    *final(self) == s && r@.len() == 0
                } else {
                    let pos = s.arp_pos as int % seq.len() as int;
                    let (next, up) = advance_arp_spec(pos, seq.len() as int, s.arp_dir, s.going_up, die_roll);
                    let played = seq[next];
                    &&& *final(self) == Keyboard { arp_pos: next as usize, going_up: up, last_note: Some(played.0), ..s }
                    &&& r@ == (match s.last_note {
                        Some(n) => seq![KeyAction::NoteOff(n)],
                        None => Seq::empty(),
                    }) + seq![KeyAction::NoteOn(played.0, played.1)]
                }
            }),
    {
        let mut out: Vec<KeyAction> = Vec::new();
        if !self.arp_active {
            return out;
        }
        let div = self.arp_clk_div as u64;
        let on_division = if div == 0 {
            ticks == 0
        } else {
            ticks % div == 0
        };
        if !on_division {
            return out;
        }
        let seq = build_arp_sequence(&self.arp_buffer, self.arp_span, self.arp_dir);
        if seq.len() == 0 {
            return out;
        }
        let ghost s0 = *self;
        self.arp_pos = self.arp_pos % seq.len();
        if let Some(n) = self.last_note {
            out.push(KeyAction::NoteOff(n));
        }
        let mut up = self.going_up;
        let pos = advance_arp(self.arp_pos, seq.len(), self.arp_dir, &mut up, die_roll);
        self.going_up = up;
        self.arp_pos = pos;
        let (note, vel) = seq[pos];
        out.push(KeyAction::NoteOn(note, vel));
        self.last_note = Some(note);
        proof {
            let first = match s0.last_note {
                Some(n) => seq![KeyAction::NoteOff(n)],
                None => Seq::<KeyAction>::empty(),
            };
            assert(out@ =~= first + seq![KeyAction::NoteOn(note, vel)]);
        }
        out
    }

    /// Clock stop or reset: the last arpeggio note stops and the arpeggio
    /// restarts from its first step, going up.
    pub fn on_clock_stop(&mut self) -> (r: Vec<KeyAction>)
        requires
            old(self).wf(),
        ensures
            final(self).wf(),
            *final(self) == (Keyboard { arp_pos: 0, going_up: true, last_note: None, ..*old(self) }),
            r@ == match old(self).last_note {
                Some(n) => seq![KeyAction::NoteOff(n)],
                None => Seq::<KeyAction>::empty(),
            },
    {
        let mut out: Vec<KeyAction> = Vec::new();
        if let Some(n) = self.last_note {
            out.push(KeyAction::NoteOff(n));
        }
        self.last_note = None;
        self.arp_pos = 0;
        self.going_up = true;
        proof {
            match old(self).last_note {
                Some(n) => assert(out@ =~= seq![KeyAction::NoteOff(n)]),
                None => assert(out@ =~= Seq::<KeyAction>::empty()),
            }
        }
        out
    }

    /// A fader moved: with shift, fader 2 sets the arpeggio's speed, 3 its
    /// direction and 4 its span; other faders only give velocities at key presses.
    pub fn on_fader(&mut self, ch: usize, value: u16, shift: bool)
        requires
            old(self).wf(),
        ensures
            final(self).wf(),
            shift && ch == 2 ==> *final(self) == (Keyboard {
                arp_clk_div: if value / 1024 == 0 {
                    24u8
                } else if value / 1024 == 1 {
                    12u8
                } else if value / 1024 == 2 {
                    6u8
                } else {
                    3u8
                },
                ..*old(self)
            }),
            shift && ch == 3 ==> *final(self) == (Keyboard { arp_dir: (value as int * 4 / 4096) as usize, ..*old(self) }),
            shift && ch == 4 ==> *final(self) == (Keyboard {
                arp_span: if value / 1024 + 1 > 4 { 4 } else { (value / 1024 + 1) as u8 },
                ..*old(self)
            }),
            !(shift && (ch == 2 || ch == 3 || ch == 4)) ==> *final(self) == *old(self),
    {
        if shift {
            if ch == 2 {
                self.arp_clk_div = arp_ticks_from_value(value);
            } else if ch == 3 {
                self.arp_dir = arp_direction_from_value(value);
            } else if ch == 4 {
                self.arp_span = arp_span_from_value(value);
            }
        }
    }
}

proof fn lemma_scale_notes(from: int, key: Key, tonic: Note)
    ensures
        forall|i: int| 0 <= i < scale_notes_from(from, key, tonic).len() ==> {
            let n = #[trigger] scale_notes_from(from, key, tonic)[i];
            &&& from <= n < 128
            &&& in_scale(n as int, key, tonic)
        },
        forall|i: int, j: int| 0 <= i < j < scale_notes_from(from, key, tonic).len() ==>
            #[trigger] scale_notes_from(from, key, tonic)[i] < #[trigger] scale_notes_from(from, key, tonic)[j],
    decreases 128 - from,
{
    if 0 <= from < 128 {
        lemma_scale_notes(from + 1, key, tonic);
        let rest = scale_notes_from(from + 1, key, tonic);
        let all = scale_notes_from(from, key, tonic);
        if in_scale(from, key, tonic) {
            assert(all == seq![from as u8] + rest);
            assert forall|i: int| 0 <= i < all.len() implies {
                let n = #[trigger] all[i];
                &&& from <= n < 128
                &&& in_scale(n as int, key, tonic)
            } by {
                if i > 0 {
                    assert(all[i] == rest[i - 1]);
                }
            }
            assert forall|i: int, j: int| 0 <= i < j < all.len() implies #[trigger] all[i] < #[trigger] all[j] by {
                assert(all[j] == rest[j - 1]);
                if i > 0 {
                    assert(all[i] == rest[i - 1]);
                }
            }
        }
    }
}

/// In scale mode the keys play notes of the scale, from the base note up,
/// each key higher than the one before (as far as the scale reaches below 128).
pub proof fn law_scale_keys_ascend_in_scale(base: u8, key: Key, tonic: Note, mode: usize, a: int, b: int)
    requires
        mode != 1,
        0 <= a < b < 16,
        b < scale_notes_from(base as int, key, tonic).len(),
    ensures
        in_scale(note_map_spec(base, key, tonic, mode, a) as int, key, tonic),
        base <= note_map_spec(base, key, tonic, mode, a) < note_map_spec(base, key, tonic, mode, b),
{
    lemma_scale_notes(base as int, key, tonic);
    let notes = scale_notes_from(base as int, key, tonic);
    assert(notes[a] < notes[b]);
    assert(base <= notes[a]);
}

proof fn lemma_with_pitch(buf: Seq<Option<(u8, u16)>>, n: int)
    ensures
        forall|i: int| 0 <= i < held_with_pitch(buf, n).len() ==> #[trigger] held_with_pitch(buf, n)[i].0 == n,
    decreases buf.len(),
{
    if buf.len() > 0 {
        lemma_with_pitch(buf.drop_last(), n);
        let rest = held_with_pitch(buf.drop_last(), n);
        let all = held_with_pitch(buf, n);
        assert forall|i: int| 0 <= i < all.len() implies #[trigger] all[i].0 == n by {
            if i < rest.len() {
                assert(all[i] == rest[i]);
            }
        }
    }
}

proof fn lemma_by_pitch(buf: Seq<Option<(u8, u16)>>, upto: int)
    ensures
        forall|i: int| 0 <= i < held_by_pitch(buf, upto).len() ==> #[trigger] held_by_pitch(buf, upto)[i].0 < upto,
        forall|i: int, j: int| 0 <= i < j < held_by_pitch(buf, upto).len() ==>
            #[trigger] held_by_pitch(buf, upto)[i].0 <= #[trigger] held_by_pitch(buf, upto)[j].0,
    decreases upto,
{
    if upto > 0 {
        lemma_by_pitch(buf, upto - 1);
        lemma_with_pitch(buf, upto - 1);
        let prev = held_by_pitch(buf, upto - 1);
        let cur = held_with_pitch(buf, upto - 1);
        let all = prev + cur;
        assert forall|i: int, j: int| 0 <= i < j < all.len() implies #[trigger] all[i].0 <= #[trigger] all[j].0 by {
            if j >= prev.len() {
                assert(all[j] == cur[j - prev.len()]);
                if i >= prev.len() {
                    assert(all[i] == cur[i - prev.len()]);
                } else {
                    assert(all[i] == prev[i]);
                }
            } else {
                assert(all[i] == prev[i]);
                assert(all[j] == prev[j]);
            }
        }
        assert forall|i: int| 0 <= i < all.len() implies #[trigger] all[i].0 < upto by {
            if i >= prev.len() {
                assert(all[i] == cur[i - prev.len()]);
            } else {
                assert(all[i] == prev[i]);
            }
        }
    }
}

/// The arpeggiator's notes (before octaves are added) come in ascending pitch.
pub proof fn law_arp_notes_ascend(buf: [Option<(u8, u16)>; 16], i: int, j: int)
    requires
        0 <= i < j < held_by_pitch(buf@, 256).len(),
    ensures
        held_by_pitch(buf@, 256)[i].0 <= held_by_pitch(buf@, 256)[j].0,
{
    lemma_by_pitch(buf@, 256);
}

/// Without the arpeggio a key press sounds the key's note and holds it, so
/// the key's release (`on_button_up`) stops exactly that note.
pub proof fn law_press_holds_its_note(s: Keyboard, t: Keyboard, r: Seq<KeyAction>, leds: Leds<16>, ch: int, vel: u16)
    requires
        0 <= ch < 16,
        !s.arp_active,
        press_post(s, t, r, leds, ch, vel),
    ensures
        r[0] == KeyAction::NoteOn(s.note_map[ch], vel),
        t.held[ch] == Some(s.note_map[ch]),
{
}

/// The ping-pong arpeggio position and direction after `k` steps from the
/// first note going up.
pub open spec fn ping_pong_walk(len: int, k: nat) -> (int, bool)
    decreases k,
{
    if k == 0 {
        (0, true)
    } else {
        let p = ping_pong_walk(len, (k - 1) as nat);
        advance_arp_spec(p.0, len, 2, p.1, 0)
    }
}

/// One ping-pong bounce over `len` (at least 2) notes climbs through every
/// position 0, 1, .., len - 1 going up, then turns and walks down through
/// len - 2, .., 0: after `k` steps (up to a full bounce of `2 * len - 2`)
/// the position is `k` while `k < len`, and `2 * len - 2 - k` after that.
pub proof fn law_ping_pong_bounce(len: int, k: nat)
    requires
        len >= 2,
        k <= 2 * len - 2,
    ensures
        k < len ==> ping_pong_walk(len, k) == (k as int, true),
        k >= len ==> ping_pong_walk(len, k) == (2 * len - 2 - k, false),
    decreases k,
{
    if k > 0 {
        law_ping_pong_bounce(len, (k - 1) as nat);
    }
}

} // verus!
