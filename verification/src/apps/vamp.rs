//! MIDI Vamp: diatonic chord progressions from genre presets, played by
//! hand (perform), captured from what was played, or stepped by the clock
//! (auto), optionally meandering along genre-typical chord moves.

use vstd::prelude::*;

use crate::storage::AppStorage;
use crate::app::{LedRequest, Leds};
use crate::scaling::{split_unsigned, split_unsigned_value, value_index, value_to_index, value_to_resolution};
use crate::types::{Brightness, Color, Key, LatchLayer, Led, LedMode, LedMsg, key_mask_spec};

verus! {

/// Slots of the vamp buffer.
pub const VAMP_CAP: usize = 32;
/// Entries of the played-chord ring.
pub const RING_CAP: usize = 64;
/// Most notes of a chord.
pub const SOUNDING_CAP: usize = 8;
/// Clock ticks of a bar.
pub const TICKS_PER_BAR: u32 = 96;
/// Genre presets.
pub const NUM_GENRES: usize = 8;
/// Degrees of a diatonic scale.
pub const NUM_DEGREES: usize = 7;
/// Bars captured for each capture-length choice.
pub const CAPTURE_BARS: [u32; 4] = [16, 8, 4, 2];
/// Clock ticks per step chosen by the division fader.
pub const CLOCK_RESOLUTIONS: [u16; 12] = [384, 192, 96, 48, 24, 16, 12, 8, 6, 4, 3, 2];

/// Repeat progressions (scale degrees) of the genres: Dub, Disco, Hip-Hop,
/// House, Techno, Trip-Hop, UK Garage, Dubstep.
pub const GENRE_PROGRESSIONS: [[u8; 8]; 8] = [
    [0, 3, 0, 4, 0, 3, 0, 4],
    [0, 5, 3, 4, 0, 5, 3, 4],
    [0, 5, 2, 6, 0, 5, 2, 6],
    [0, 6, 5, 6, 0, 6, 5, 6],
    [0, 0, 0, 4, 0, 0, 0, 4],
    [0, 6, 5, 4, 0, 6, 5, 4],
    [0, 2, 5, 6, 0, 2, 5, 6],
    [0, 0, 5, 6, 0, 0, 5, 6],
];

/// Markov weights of the genres, from degree (row) to degree (column).
pub const GENRE_MARKOV: [[[u8; 7]; 7]; 8] = [
    [
        [4, 1, 1, 6, 5, 2, 2],
        [3, 2, 1, 2, 3, 2, 1],
        [2, 2, 2, 2, 2, 3, 2],
        [5, 1, 1, 2, 4, 2, 1],
        [6, 1, 1, 3, 2, 2, 2],
        [3, 2, 2, 2, 2, 2, 3],
        [4, 1, 1, 2, 3, 2, 2],
    ],
    [
        [2, 1, 1, 4, 5, 6, 1],
        [2, 2, 2, 2, 3, 2, 2],
        [2, 2, 2, 3, 2, 3, 2],
        [3, 1, 1, 2, 6, 2, 1],
        [6, 1, 1, 3, 2, 2, 1],
        [3, 1, 2, 5, 3, 2, 1],
        [4, 1, 1, 2, 4, 2, 1],
    ],
    [
        [3, 1, 4, 2, 2, 5, 4],
        [2, 2, 2, 2, 2, 3, 2],
        [3, 1, 2, 2, 2, 4, 3],
        [3, 2, 2, 2, 3, 2, 2],
        [4, 1, 2, 2, 2, 3, 3],
        [4, 1, 3, 2, 2, 2, 3],
        [5, 1, 2, 2, 2, 3, 2],
    ],
    [
        [3, 1, 1, 2, 2, 4, 6],
        [2, 2, 2, 2, 2, 3, 2],
        [2, 2, 2, 2, 2, 3, 3],
        [3, 1, 1, 2, 3, 3, 3],
        [3, 1, 1, 2, 2, 3, 4],
        [4, 1, 1, 2, 2, 2, 5],
        [5, 1, 1, 2, 2, 4, 2],
    ],
    [
        [8, 1, 1, 2, 4, 2, 3],
        [4, 2, 1, 1, 2, 1, 1],
        [3, 1, 2, 1, 2, 1, 2],
        [4, 1, 1, 2, 3, 1, 2],
        [6, 1, 1, 2, 2, 2, 2],
        [4, 1, 1, 2, 2, 2, 3],
        [5, 1, 1, 1, 3, 2, 2],
    ],
    [
        [3, 1, 2, 2, 4, 4, 5],
        [2, 2, 2, 2, 2, 3, 2],
        [2, 2, 2, 2, 3, 3, 2],
        [3, 1, 2, 2, 3, 3, 2],
        [4, 1, 1, 2, 2, 3, 3],
        [4, 1, 2, 2, 3, 2, 4],
        [5, 1, 1, 2, 3, 4, 2],
    ],
    [
        [3, 1, 5, 2, 2, 4, 4],
        [2, 2, 3, 2, 2, 3, 2],
        [3, 2, 2, 2, 2, 4, 3],
        [3, 1, 2, 2, 3, 2, 2],
        [3, 1, 2, 2, 2, 3, 3],
        [4, 1, 3, 2, 2, 2, 4],
        [5, 1, 2, 2, 2, 3, 2],
    ],
    [
        [6, 1, 1, 2, 2, 5, 5],
        [3, 2, 1, 1, 2, 2, 2],
        [3, 1, 2, 1, 2, 2, 2],
        [3, 1, 1, 2, 3, 2, 2],
        [4, 1, 1, 2, 2, 3, 3],
        [4, 1, 1, 2, 2, 2, 5],
        [5, 1, 1, 1, 3, 4, 2],
    ],
];

/// A genre's chord material: its repeat progression and its Markov weights.
#[derive(Clone, Copy)]
pub struct GenrePreset {
    pub progression: [u8; 8],
    pub markov: [[u8; 7]; 7],
}

/// Genre index limited to the presets.
pub open spec fn genre_index(index: usize) -> int {
    if index > NUM_GENRES - 1 {
        NUM_GENRES - 1
    } else {
        index as int
    }
}

impl GenrePreset {
    /// The preset of genre `index` (the last genre for larger indices).
    pub fn get(index: usize) -> (r: Self)
        ensures
            r.progression == GENRE_PROGRESSIONS[genre_index(index)],
            r.markov == GENRE_MARKOV[genre_index(index)],
    {
        let g = if index > NUM_GENRES - 1 {
            NUM_GENRES - 1
        } else {
            index
        };
        GenrePreset { progression: GENRE_PROGRESSIONS[g], markov: GENRE_MARKOV[g] }
    }
}

/// Scale chosen by the scale parameter: the seven modes, then the major and
/// minor pentatonics; other indices give Ionian.
pub open spec fn scale_key(index: usize) -> Key {
    if index == 1 {
        Key::Dorian
    } else if index == 2 {
        Key::Phrygian
    } else if index == 3 {
        Key::Lydian
    } else if index == 4 {
        Key::Mixolydian
    } else if index == 5 {
        Key::Aeolian
    } else if index == 6 {
        Key::Locrian
    } else if index == 7 {
        Key::PentatonicMaj
    } else if index == 8 {
        Key::PentatonicMin
    } else {
        Key::Ionian
    }
}

/// The scale of the scale parameter's value.
pub fn scale_index_to_key(index: usize) -> (r: Key)
    ensures
        r == scale_key(index),
{
    match index {
        1 => Key::Dorian,
        2 => Key::Phrygian,
        3 => Key::Lydian,
        4 => Key::Mixolydian,
        5 => Key::Aeolian,
        6 => Key::Locrian,
        7 => Key::PentatonicMaj,
        8 => Key::PentatonicMin,
        _ => Key::Ionian,
    }
}

/// Semitones `0..upto` that the interval mask holds, ascending.
pub open spec fn offsets_upto(mask: u16, upto: int) -> Seq<u8>
    decreases upto,
{
    if upto <= 0 {
        Seq::empty()
    } else {
        let prev = offsets_upto(mask, upto - 1);
        if (mask >> ((11 - (upto - 1)) as u16)) & 1 != 0 {
            prev.push((upto - 1) as u8)
        } else {
            prev
        }
    }
}

/// Semitones above the tonic of the notes of `key`, ascending; a scale
/// with no notes gives just the tonic.
pub open spec fn scale_offsets_spec(key: Key) -> Seq<u8> {
    let s = offsets_upto(key_mask_spec(key), 12);
    if s.len() == 0 {
        seq![0u8]
    } else {
        s
    }
}

proof fn lemma_offsets_bounded(mask: u16, upto: int)
    requires
        0 <= upto <= 12,
    ensures
        offsets_upto(mask, upto).len() <= upto,
        forall|i: int| 0 <= i < offsets_upto(mask, upto).len() ==> #[trigger] offsets_upto(mask, upto)[i] < upto,
    decreases upto,
{
    if upto > 0 {
        lemma_offsets_bounded(mask, upto - 1);
    }
}

/// The semitone offsets of the notes of a scale.
pub fn scale_offsets(key: Key) -> (r: Vec<u8>)
    ensures
        r@ == scale_offsets_spec(key),
        1 <= r.len() <= 12,
        forall|i: int| 0 <= i < r.len() ==> #[trigger] r[i] < 12,
{
    let mask = key.as_u16_key();
    let mut notes: Vec<u8> = Vec::new();
    let mut i: u8 = 0;
    while i < 12
        invariant
            i <= 12,
            mask == key_mask_spec(key),
            notes@ == offsets_upto(mask, i as int),
        decreases 12 - i,
    {
        if (mask >> (11 - i) as u16) & 1 != 0 {
            notes.push(i);
        }
        i += 1;
    }
    proof {
        lemma_offsets_bounded(mask, 12);
    }
    if notes.len() == 0 {
        notes.push(0);
    }
    notes
}

/// A 7-bit velocity (limited to 1..=127) scaled to 12 bits.
pub open spec fn velocity_12bit_spec(vel_7: i32) -> u16 {
    let v = if vel_7 < 1 {
        1
    } else if vel_7 > 127 {
        127
    } else {
        vel_7 as int
    };
    (v * 4095 / 127) as u16
}

/// Scales a 7-bit velocity to 12 bits.
pub fn velocity_12bit(vel_7: i32) -> (r: u16)
    ensures
        r == velocity_12bit_spec(vel_7),
        r <= 4095,
{
    let v: u32 = if vel_7 < 1 {
        1
    } else if vel_7 > 127 {
        127
    } else {
        vel_7 as u32
    };
    assert(v * 4095 / 127 <= 4095) by (nonlinear_arith)
        requires
            1 <= v <= 127,
    ;
    ((v * 4095) / 127) as u16
}

/// Scale steps above the chord's root for each voicing: triads (default),
/// sevenths (1), ninths (2); spread (3) voices triads an octave apart.
pub open spec fn voicing_steps(voicing: usize) -> Seq<usize> {
    if voicing == 1 {
        seq![0usize, 2, 4, 6]
    } else if voicing == 2 {
        seq![0usize, 2, 4, 6, 8]
    } else {
        seq![0usize, 2, 4]
    }
}

/// Note `vi` of the chord on `degree`: the scale step `steps` above the
/// degree, over octaves, transposed so degree 0 is `root_midi`, within the
/// MIDI range; in the spread voicing every note past the first is raised
/// `vi` octaves (at most 127).
pub open spec fn chord_note(root_midi: u8, scale: Seq<u8>, degree: u8, voicing: usize, vi: int, steps: usize) -> u8 {
    let n = scale.len() as int;
    let d = (degree as int % 7) + steps;
    let semis = (d / n) * 12 + scale[d % n];
    let raw = root_midi + semis - scale[0];
    let note = if raw < 0 {
        0
    } else if raw > 127 {
        127
    } else {
        raw
    };
    if voicing == 3 && vi > 0 {
        if note + 12 * vi > 127 {
            127
        } else {
            (note + 12 * vi) as u8
        }
    } else {
        note as u8
    }
}

/// The MIDI notes of the diatonic chord on `degree` (0 = I .. 6 = vii).
pub open spec fn chord_spec(root_midi: u8, key: Key, degree: u8, voicing: usize) -> Seq<u8> {
    let steps = voicing_steps(voicing);
    Seq::new(
        steps.len(),
        |vi: int| chord_note(root_midi, scale_offsets_spec(key), degree, voicing, vi, steps[vi]),
    )
}

/// Builds the MIDI notes of the chord on `degree` of `key` rooted at `root_midi`.
pub fn build_chord(root_midi: u8, key: Key, degree: u8, voicing: usize) -> (r: Vec<u8>)
    ensures
        r@ == chord_spec(root_midi, key, degree, voicing),
        r.len() <= SOUNDING_CAP,
{
    let scale = scale_offsets(key);
    let n = scale.len();
    let ext: Vec<usize> = if voicing == 1 {
        vec![0, 2, 4, 6]
    } else if voicing == 2 {
        vec![0, 2, 4, 6, 8]
    } else {
        vec![0, 2, 4]
    };
    assert(ext@ =~= voicing_steps(voicing));
    let mut out: Vec<u8> = Vec::new();
    let base_degree = degree as usize % NUM_DEGREES;
    let mut vi: usize = 0;
    while vi < ext.len()
        invariant
            vi <= ext.len(),
            ext@ == voicing_steps(voicing),
            scale@ == scale_offsets_spec(key),
            n == scale.len(),
            1 <= n <= 12,
            forall|i: int| 0 <= i < scale.len() ==> #[trigger] scale[i] < 12,
            base_degree == degree as int % 7,
            out.len() == vi,
            forall|j: int| 0 <= j < vi ==> #[trigger] out@[j] == chord_note(root_midi, scale@, degree, voicing, j, ext@[j]),
        decreases ext.len() - vi,
    {
        let steps = ext[vi];
        let d = base_degree + steps;
        assert(d <= 14);
        let oct = (d / n) as i16;
        let idx = d % n;
        assert(oct <= 14) by (nonlinear_arith)
            requires
                d <= 14,
                n >= 1,
                oct == d / n,
        ;
        let semis = oct * 12 + scale[idx] as i16;
        let raw = root_midi as i16 + semis - scale[0] as i16;
        let mut note: u8 = if raw < 0 {
            0
        } else if raw > 127 {
            127
        } else {
            raw as u8
        };
        if voicing == 3 && vi > 0 {
            let lifted = note as u16 + 12 * vi as u16;
            note = if lifted > 127 { 127 } else { lifted as u8 };
        }
        out.push(note);
        vi += 1;
    }
    assert(out@ =~= chord_spec(root_midi, key, degree, voicing));
    out
}

/// Sum of the weights of `row` from column `i` on.
pub open spec fn weight_from(row: [u8; 7], i: int) -> int
    decreases 7 - i,
{
    if i >= 7 || i < 0 {
        0
    } else {
        row[i] + weight_from(row, i + 1)
    }
}

/// The column a pick lands in: the first column whose weight exceeds what is
/// left of the pick after the weights before it; the last column when none does.
pub open spec fn markov_walk(row: [u8; 7], pick: int, i: int) -> u8
    decreases 7 - i,
{
    if i >= 7 || i < 0 {
        6
    } else if pick < row[i] {
        i as u8
    } else {
        markov_walk(row, pick - row[i], i + 1)
    }
}

/// The next degree from `from`: a roll (0..4096) picks a column of the
/// degree's row in proportion to the weights; a row without weight stays.
pub open spec fn markov_next(from: u8, weights: [[u8; 7]; 7], roll: u16) -> u8 {
    let row = weights[from as int % 7];
    let total = weight_from(row, 0);
    if total == 0 {
        from
    } else {
        markov_walk(row, roll * total / 4096, 0)
    }
}

/// Picks the next chord degree from the Markov weights with a roll of the die.
pub fn pick_markov(from: u8, weights: &[[u8; 7]; 7], roll: u16) -> (r: u8)
    ensures
        r == markov_next(from, *weights, roll),
{
    let row = weights[(from as usize) % NUM_DEGREES];
    let mut total: u32 = 0;
    let mut k: usize = 7;
    while k > 0
        invariant
            k <= 7,
            total == weight_from(row, k as int),
            total <= 255 * (7 - k),
        decreases k,
    {
        k -= 1;
        total += row[k] as u32;
    }
    if total == 0 {
        return from;
    }
    assert(roll as u32 * total <= 65535 * 1785) by (nonlinear_arith)
        requires
            total <= 1785,
    ;
    let mut pick: u32 = (roll as u32 * total) / 4096;
    let ghost start = pick;
    let mut i: usize = 0;
    while i < NUM_DEGREES
        invariant
            i <= 7,
            row == weights[from as int % 7],
            total == weight_from(row, 0),
            total > 0,
            start == roll as int * total / 4096,
            markov_walk(row, start as int, 0) == markov_walk(row, pick as int, i as int),
        decreases 7 - i,
    {
        if pick < row[i] as u32 {
            return i as u8;
        }
        pick = pick - row[i] as u32;
        i += 1;
    }
    (NUM_DEGREES - 1) as u8
}

proof fn lemma_walk_lands_on_weight(row: [u8; 7], pick: int, i: int)
    requires
        0 <= i <= 7,
        0 <= pick < weight_from(row, i),
    ensures
        row[markov_walk(row, pick, i) as int] > 0,
    decreases 7 - i,
{
    if i < 7 && pick >= row[i] {
        lemma_walk_lands_on_weight(row, pick - row[i], i + 1);
    }
}

/// A roll of the die never moves the progression to a degree its genre
/// gives no weight from the current degree.
pub proof fn law_markov_pick_has_weight(from: u8, weights: [[u8; 7]; 7], roll: u16)
    requires
        roll < 4096,
        weight_from(weights[from as int % 7], 0) > 0,
    ensures
        weights[from as int % 7][markov_next(from, weights, roll) as int] > 0,
{
    let row = weights[from as int % 7];
    let total = weight_from(row, 0);
    assert(roll * total / 4096 < total) by (nonlinear_arith)
        requires
            0 <= roll < 4096,
            total > 0,
    ;
    lemma_walk_lands_on_weight(row, roll * total / 4096, 0);
}

/// Loads genre `genre`'s progression into the vamp slots (the rest zeroed)
/// and returns its length.
pub fn load_genre_into(slots: &mut [u8; 32], genre: usize) -> (r: u8)
    ensures
        r == 8,
        forall|i: int| 0 <= i < 32 ==> #[trigger] final(slots)[i] == if i < 8 {
            GENRE_PROGRESSIONS[genre_index(genre)][i]
        } else {
            0u8
        },
{
    let g = GenrePreset::get(genre);
    let mut i: usize = 0;
    while i < VAMP_CAP
        invariant
            i <= 32,
            g.progression == GENRE_PROGRESSIONS[genre_index(genre)],
            forall|j: int| 0 <= j < i ==> #[trigger] slots[j] == if j < 8 {
                g.progression[j]
            } else {
                0u8
            },
        decreases 32 - i,
    {
        slots[i] = if i < 8 {
            g.progression[i]
        } else {
            0
        };
        i += 1;
    }
    8
}

/// What the vamp keeps across power cycles: its slots, genre, fader
/// positions and modes.
#[derive(Clone, Copy)]
pub struct Storage {
    /// Degrees of the vamp (0 = I .. 6 = vii).
    pub slots: [u8; 32],
    pub slot_count: u8,
    pub genre: u8,
    pub scrub: u16,
    pub tension: u16,
    pub div_fader: u16,
    pub mode_auto: bool,
    pub meander: bool,
    pub auto_running: bool,
}

impl Default for Storage {
    /// The House progression, tension and division centred, perform mode.
    fn default() -> (r: Self)
        ensures
            r.slot_count == 8,
            r.genre == 3,
            forall|i: int| 0 <= i < 32 ==> #[trigger] r.slots[i] == if i < 8 {
                GENRE_PROGRESSIONS[3][i]
            } else {
                0u8
            },
            r.scrub == 0,
            r.tension == 2048,
            r.div_fader == 2048,
            !r.mode_auto,
            !r.meander,
            !r.auto_running,
    {
        let mut slots = [0u8; 32];
        let n = load_genre_into(&mut slots, 3);
        Storage {
            slots,
            slot_count: n,
            genre: 3,
            scrub: 0,
            tension: 2048,
            div_fader: 2048,
            mode_auto: false,
            meander: false,
            auto_running: false,
        }
    }
}

impl AppStorage for Storage {}

/// Clock division of a division-fader position: an entry of the
/// resolution table, in ticks.
pub open spec fn division_of(value: u16) -> u32 {
    CLOCK_RESOLUTIONS[value_index(value, 12) as int] as u32
}

fn division_from_fader(value: u16) -> (r: u32)
    ensures
        r == division_of(value),
        2 <= r <= 384,
{
    let table: [u16; 12] = CLOCK_RESOLUTIONS;
    let r = value_to_resolution(value, &table);
    let ghost i = value_index(value, 12) as int;
    assert(0 <= i < 12);
    assert(table@[i] == CLOCK_RESOLUTIONS[i]);
    assert(2 <= CLOCK_RESOLUTIONS[i] <= 384);
    if r < 1 {
        1
    } else {
        r
    }
}

/// The state of a running vamp: its settings, the values its tasks share,
/// the ring of chords played, and the clock's step counter.
#[derive(Clone, Copy)]
pub struct Vamp {
    pub root_midi: u8,
    pub key: Key,
    pub voicing: usize,
    pub vel12: u16,
    pub capture_bars: u32,
    pub led_color: Color,
    /// What the vamp has saved.
    pub stored: Storage,
    pub mode_auto: bool,
    pub meander: bool,
    pub auto_running: bool,
    pub scrub: u16,
    pub tension: u16,
    /// Clock ticks per auto step.
    pub div: u32,
    pub genre: usize,
    pub slots: [u8; 32],
    pub slot_count: u8,
    pub slot_idx: u8,
    /// The degree selected or last played.
    pub degree: u8,
    pub activity: u8,
    pub capture_flash: u8,
    pub long_press_fired: bool,
    pub panic_flag: bool,
    pub chord_held: bool,
    pub ring_deg: [u8; 64],
    pub ring_tick: [u32; 64],
    pub ring_write: u8,
    pub ring_len: u8,
    pub pending_play: bool,
    pub pending_degree: u8,
    pub pending_release: bool,
    pub pending_record: bool,
    /// Auto steps taken since the clock last stopped.
    pub auto_step: usize,
    /// The degree the clock last chose.
    pub clock_degree: u8,
    pub button: ButtonHold,
}

/// What the button handler waits for after a press.
#[derive(Clone, Copy, Debug, PartialEq, Eq, Structural)]
pub enum ButtonHold {
    Idle,
    /// Shift was held: the mode was toggled.
    ModeToggle,
    /// A press in auto mode: play/pause on release.
    AutoPress,
    /// A press in perform mode: the chord sounds until release.
    PerformHold,
}

/// Slots counted for selection: at least one.
pub open spec fn count_of(slot_count: u8) -> int {
    if slot_count == 0 {
        1
    } else {
        slot_count as int
    }
}

/// Capture length (bars) of the capture-length choice (the last for larger).
pub open spec fn capture_bars_of(capture_len: usize) -> u32 {
    CAPTURE_BARS[if capture_len > 3 { 3 } else { capture_len as int }]
}

/// Whether the vamp starts in auto mode: as stored, or when the start mode
/// asks for it and the storage is still untouched.
pub open spec fn starts_auto(stored: Storage, start_mode: usize) -> bool {
    stored.mode_auto || (!stored.auto_running && stored.scrub == 0 && stored.tension == 2048
        && stored.div_fader == 2048 && start_mode == 1)
}

impl Vamp {
    /// The invariant every handler keeps.
    pub open spec fn wf(&self) -> bool {
        &&& 2 <= self.div <= 384
        &&& self.slot_count <= 32
        &&& self.slot_idx < 32
        &&& self.ring_write < 64
        &&& self.ring_len <= 64
        &&& self.genre < 8
        &&& self.capture_bars <= 16
    }

    /// The vamp as `run` sets it up from the parameters and the storage: an
    /// empty vamp gets the genre's progression; a stored genre out of range
    /// gives way to the parameter; the scrub fader selects the first degree.
    pub fn new(
        root_midi: u8,
        scale: usize,
        genre_param: usize,
        voicing: usize,
        velocity: i32,
        auto_style: usize,
        start_mode: usize,
        capture_len: usize,
        led_color: Color,
        stored: Storage,
    ) -> (r: Self)
        requires
            stored.slot_count <= 32,
        ensures
            r.wf(),
            r.root_midi == root_midi,
            r.key == scale_key(scale),
            r.voicing == voicing,
            r.vel12 == velocity_12bit_spec(velocity),
            r.capture_bars == capture_bars_of(capture_len),
            r.led_color == led_color,
            r.stored == stored,
            stored.slot_count != 0 ==> r.slots == stored.slots && r.slot_count == stored.slot_count,
            stored.slot_count == 0 ==> r.slot_count == 8 && forall|i: int| 0 <= i < 32 ==> #[trigger] r.slots[i] == if i < 8 {
                GENRE_PROGRESSIONS[genre_index(genre_param)][i]
            } else {
                0u8
            },
            r.genre == if stored.genre < 8 { stored.genre as int } else { genre_index(genre_param) },
            r.mode_auto == starts_auto(stored, start_mode),
            r.meander == (stored.meander || auto_style == 1),
            r.auto_running == (stored.auto_running && r.mode_auto),
            r.scrub == stored.scrub,
            r.tension == stored.tension,
            r.div == division_of(stored.div_fader),
            r.slot_idx == value_index(stored.scrub, count_of(r.slot_count) as usize),
            r.degree == r.slots[r.slot_idx as int],
            r.clock_degree == r.degree,
            r.activity == 0 && r.capture_flash == 0,
            !r.long_press_fired && !r.panic_flag && !r.chord_held,
            r.ring_write == 0 && r.ring_len == 0,
            !r.pending_play && !r.pending_release && !r.pending_record && r.pending_degree == 0,
            r.auto_step == 0,
            r.button == ButtonHold::Idle,
    {
        let genre_param = if genre_param > NUM_GENRES - 1 {
            NUM_GENRES - 1
        } else {
            genre_param
        };
        let capture_len = if capture_len > 3 {
            3
        } else {
            capture_len
        };
        let mut slots = stored.slots;
        let mut slot_count = stored.slot_count;
        if slot_count == 0 {
            slot_count = load_genre_into(&mut slots, genre_param);
        }
        let genre = if (stored.genre as usize) < NUM_GENRES {
            stored.genre as usize
        } else {
            genre_param
        };
        let mut mode_auto = stored.mode_auto;
        if !stored.mode_auto && !stored.auto_running && stored.scrub == 0 && stored.tension == 2048
            && stored.div_fader == 2048 && start_mode == 1 {
            mode_auto = true;
        }
        let meander = stored.meander || auto_style == 1;
        let count: usize = if slot_count == 0 {
            1
        } else {
            slot_count as usize
        };
        assert(stored.scrub as int * count as int <= 65535 * 32) by (nonlinear_arith)
            requires
                count <= 32,
        ;
        let idx = value_to_index(stored.scrub, count);
        let degree = slots[idx];
        Vamp {
            root_midi,
            key: scale_index_to_key(scale),
            voicing,
            vel12: velocity_12bit(velocity),
            capture_bars: CAPTURE_BARS[capture_len],
            led_color,
            stored,
            mode_auto,
            meander,
            auto_running: stored.auto_running && mode_auto,
            scrub: stored.scrub,
            tension: stored.tension,
            div: division_from_fader(stored.div_fader),
            genre,
            slots,
            slot_count,
            slot_idx: idx as u8,
            degree,
            activity: 0,
            capture_flash: 0,
            long_press_fired: false,
            panic_flag: false,
            chord_held: false,
            ring_deg: [0u8; 64],
            ring_tick: [0u32; 64],
            ring_write: 0,
            ring_len: 0,
            pending_play: false,
            pending_degree: 0,
            pending_release: false,
            pending_record: false,
            auto_step: 0,
            clock_degree: degree,
            button: ButtonHold::Idle,
        }
    }

    /// The degree an auto step plays: the slot under the step, unless the
    /// vamp meanders with tension above 512, where the Markov pick wins
    /// except when, below 3000 tension, the tension roll exceeds the tension.
    pub open spec fn tick_degree(&self, markov_roll: u16, tension_roll: u16) -> u8 {
        let slot = self.slots[self.auto_step as int % count_of(self.slot_count)];
        if self.meander && self.tension > 512 {
            let next = markov_next(self.clock_degree, GENRE_MARKOV[self.genre as int], markov_roll);
            if self.tension < 3000 && tension_roll > self.tension {
                slot
            } else {
                next
            }
        } else {
            slot
        }
    }

    /// The tick within a step at which an auto chord is released: 80% of
    /// the step, at least the first tick and before the next step.
    pub open spec fn release_tick(div: u32) -> int {
        let p = div * 80 / 100;
        if p < 1 {
            1
        } else if p > div - 1 {
            div - 1
        } else {
            p
        }
    }

    /// The vamp after clock tick `clkn`: in auto mode, while running, a tick
    /// on the step grid queues the step's chord (played and recorded) and
    /// advances the step; the release tick queues a release.
    pub open spec fn on_tick_spec(self, clkn: u32, markov_roll: u16, tension_roll: u16) -> Vamp {
        if !(self.mode_auto && self.auto_running) {
            self
        } else {
            let stepped = if clkn % self.div == 0 {
                let d = self.tick_degree(markov_roll, tension_roll);
                Vamp {
                    clock_degree: d,
                    slot_idx: (self.auto_step as int % count_of(self.slot_count)) as u8,
                    pending_degree: d,
                    pending_record: true,
                    pending_play: true,
                    auto_step: if self.auto_step == usize::MAX { 0 } else { (self.auto_step + 1) as usize },
                    ..self
                }
            } else {
                self
            };
            if clkn % self.div == Self::release_tick(self.div) {
                Vamp { pending_release: true, ..stepped }
            } else {
                stepped
            }
        }
    }

    /// Handles a clock tick; the rolls are two throws of the die.
    pub fn on_tick(&mut self, clkn: u32, markov_roll: u16, tension_roll: u16)
        requires
            old(self).wf(),
        ensures
            final(self).wf(),
            *final(self) == old(self).on_tick_spec(clkn, markov_roll, tension_roll),
    {
        if !(self.mode_auto && self.auto_running) {
            return;
        }
        let div = self.div;
        if clkn % div == 0 {
            let count: usize = if self.slot_count == 0 {
                1
            } else {
                self.slot_count as usize
            };
            let slot = self.slots[self.auto_step % count];
            let degree = if self.meander {
                let tension = self.tension;
                if tension > 512 {
                    let g = GenrePreset::get(self.genre);
                    let next = pick_markov(self.clock_degree, &g.markov, markov_roll);
                    if tension < 3000 && tension_roll > tension {
                        slot
                    } else {
                        next
                    }
                } else {
                    slot
                }
            } else {
                slot
            };
            self.clock_degree = degree;
            self.slot_idx = (self.auto_step % count) as u8;
            self.pending_degree = degree;
            self.pending_record = true;
            self.pending_play = true;
            self.auto_step = if self.auto_step == usize::MAX {
                0
            } else {
                self.auto_step + 1
            };
        }
        let p = div * 80 / 100;
        let release = if p < 1 {
            1
        } else if p > div - 1 {
            div - 1
        } else {
            p
        };
        if clkn % div == release {
            self.pending_release = true;
        }
    }

    /// Clock stop or reset: the chord is released and the steps restart.
    pub fn on_clock_stop(&mut self)
        requires
            old(self).wf(),
        ensures
            final(self).wf(),
            *final(self) == (Vamp { pending_release: true, auto_step: 0, ..*old(self) }),
    {
        self.pending_release = true;
        self.auto_step = 0;
    }
}

/// A MIDI message the vamp sends: note on (12-bit velocity), note off, or a
/// controller change.
#[derive(Clone, Copy, Debug, PartialEq, Eq, Structural)]
pub enum VampMidi {
    NoteOn(u8, u16),
    NoteOff(u8),
    Cc(u8, u8),
}

/// The voice engine's own state: the notes sounding and the degree they
/// belong to.
pub struct Voice {
    pub sounding: Vec<u8>,
    pub degree: u8,
}

/// All sound off.
pub const ALL_SOUND_OFF: u8 = 120;
/// All notes off.
pub const ALL_NOTES_OFF: u8 = 123;

/// Note-offs for `notes`, in order.
pub open spec fn offs(notes: Seq<u8>) -> Seq<VampMidi> {
    notes.map_values(|n: u8| VampMidi::NoteOff(n))
}

/// Note-ons for `notes` at velocity `vel`, in order.
pub open spec fn ons(notes: Seq<u8>, vel: u16) -> Seq<VampMidi> {
    notes.map_values(|n: u8| VampMidi::NoteOn(n, vel))
}

/// Age of a recorded tick at `now`, on the wrapping 32-bit tick counter.
pub open spec fn tick_age(now: u32, tick: u32) -> int {
    if now >= tick {
        now - tick
    } else {
        now - tick + 0x1_0000_0000
    }
}

/// What the engine has done so far: the vamp, the notes sounding, the
/// voice's degree and the MIDI sent.
pub type EngineView = (Vamp, Seq<u8>, u8, Seq<VampMidi>);

impl Vamp {
    /// The vamp after `degree` is recorded at `tick` in the ring.
    pub open spec fn push_ring_spec(self, degree: u8, tick: u32) -> Vamp {
        let w = self.ring_write as int;
        Vamp {
            ring_deg: vstd::array::spec_array_update(self.ring_deg, w, degree),
            ring_tick: vstd::array::spec_array_update(self.ring_tick, w, tick),
            ring_write: ((w + 1) % 64) as u8,
            ring_len: if self.ring_len < 64 { (self.ring_len + 1) as u8 } else { self.ring_len },
            ..self
        }
    }

    fn push_ring(&mut self, degree: u8, tick: u32)
        requires
            old(self).wf(),
        ensures
            final(self).wf(),
            *final(self) == old(self).push_ring_spec(degree, tick),
    {
        let w = self.ring_write as usize;
        self.ring_deg[w] = degree;
        self.ring_tick[w] = tick;
        self.ring_write = ((w + 1) % RING_CAP) as u8;
        if (self.ring_len as usize) < RING_CAP {
            self.ring_len = self.ring_len + 1;
        }
        proof {
            let ghost target = old(self).push_ring_spec(degree, tick);
            assert(self.ring_deg =~= target.ring_deg);
            assert(self.ring_tick =~= target.ring_tick);
        }
    }
}

/// Engine step, panic: everything sounding stops, all-sound-off and
/// all-notes-off go out, and the held chord and pending work are dropped.
pub open spec fn panic_phase(e: EngineView) -> EngineView {
    if e.0.panic_flag {
        (
            Vamp {
                chord_held: false,
                pending_play: false,
                pending_release: false,
                panic_flag: false,
                activity: 0,
                ..e.0
            },
            Seq::empty(),
            e.2,
            e.3 + offs(e.1) + seq![VampMidi::Cc(ALL_SOUND_OFF, 0), VampMidi::Cc(ALL_NOTES_OFF, 0)],
        )
    } else {
        e
    }
}

/// Engine step, queued release: the sounding notes stop.
pub open spec fn release_phase(e: EngineView) -> EngineView {
    if e.0.pending_release {
        (Vamp { pending_release: false, ..e.0 }, Seq::empty(), e.2, e.3 + offs(e.1))
    } else {
        e
    }
}

/// Playing `degree`: the old notes stop, the chord sounds, the degree is
/// recorded at `now` when asked, and it becomes the selected degree with
/// full activity.
pub open spec fn play_spec(e: EngineView, degree: u8, record: bool, now: u32) -> EngineView {
    let s = if record {
        e.0.push_ring_spec(degree, now)
    } else {
        e.0
    };
    let chord = chord_spec(e.0.root_midi, e.0.key, degree, e.0.voicing);
    (
        Vamp { degree: degree, activity: 255, ..s },
        chord,
        degree,
        e.3 + offs(e.1) + ons(chord, e.0.vel12),
    )
}

/// Engine step, queued chord: it is played (and recorded when asked).
pub open spec fn pending_phase(e: EngineView, now: u32) -> EngineView {
    if e.0.pending_play {
        let d = e.0.pending_degree;
        let r = e.0.pending_record;
        play_spec((Vamp { pending_play: false, pending_record: false, ..e.0 }, e.1, e.2, e.3), d, r, now)
    } else {
        e
    }
}

/// Engine step, perform mode: a held button sounds the selected degree
/// (played and recorded when nothing sounds or the degree changed); with
/// the button up, anything sounding stops.
pub open spec fn perform_phase(e: EngineView, now: u32) -> EngineView {
    if e.0.mode_auto {
        e
    } else if e.0.chord_held {
        if e.1.len() == 0 || e.2 != e.0.degree {
            play_spec(e, e.0.degree, true, now)
        } else {
            e
        }
    } else if e.1.len() > 0 {
        (e.0, Seq::empty(), e.2, e.3 + offs(e.1))
    } else {
        e
    }
}

/// Engine step, fading: activity and capture flash dim.
pub open spec fn decay_phase(e: EngineView) -> EngineView {
    (
        Vamp {
            activity: if e.0.activity < 8 { 0 } else { (e.0.activity - 8) as u8 },
            capture_flash: if e.0.capture_flash < 4 { 0 } else { (e.0.capture_flash - 4) as u8 },
            ..e.0
        },
        e.1,
        e.2,
        e.3,
    )
}

/// One step of the voice engine at clock tick `now`.
pub open spec fn engine_spec(s: Vamp, sounding: Seq<u8>, voice_degree: u8, now: u32) -> EngineView {
    decay_phase(
        perform_phase(
            pending_phase(release_phase(panic_phase((s, sounding, voice_degree, Seq::empty()))), now),
            now,
        ),
    )
}

impl Voice {
    /// A silent voice on `degree`.
    pub fn new(degree: u8) -> (r: Self)
        ensures
            r.sounding@ == Seq::<u8>::empty(),
            r.degree == degree,
    {
        Voice { sounding: Vec::new(), degree }
    }

    fn release_all(&mut self, out: &mut Vec<VampMidi>)
        ensures
            final(self).sounding@ == Seq::<u8>::empty(),
            final(self).degree == old(self).degree,
            final(out)@ == old(out)@ + offs(old(self).sounding@),
    {
        let mut i: usize = 0;
        while i < self.sounding.len()
            invariant
                i <= self.sounding.len(),
                self.sounding@ == old(self).sounding@,
                self.degree == old(self).degree,
                out@ == old(out)@ + offs(self.sounding@.take(i as int)),
            decreases self.sounding.len() - i,
        {
            out.push(VampMidi::NoteOff(self.sounding[i]));
            assert(offs(self.sounding@.take(i as int + 1)) =~= offs(self.sounding@.take(i as int)).push(
                VampMidi::NoteOff(self.sounding@[i as int]),
            ));
            i += 1;
        }
        assert(self.sounding@.take(self.sounding.len() as int) =~= self.sounding@);
        self.sounding = Vec::new();
    }
}

impl Vamp {
    fn play_degree(&mut self, voice: &mut Voice, out: &mut Vec<VampMidi>, degree: u8, record: bool, now: u32)
        requires
            old(self).wf(),
        ensures
            final(self).wf(),
            (*final(self), final(voice).sounding@, final(voice).degree, final(out)@) == play_spec(
                (*old(self), old(voice).sounding@, old(voice).degree, old(out)@),
                degree,
                record,
                now,
            ),
    {
        voice.release_all(out);
        let notes = build_chord(self.root_midi, self.key, degree, self.voicing);
        let ghost before = out@;
        let mut i: usize = 0;
        while i < notes.len()
            invariant
                i <= notes.len(),
                voice.sounding@ == notes@.take(i as int),
                voice.degree == old(voice).degree,
                out@ == before + ons(notes@.take(i as int), self.vel12),
            decreases notes.len() - i,
        {
            out.push(VampMidi::NoteOn(notes[i], self.vel12));
            voice.sounding.push(notes[i]);
            assert(ons(notes@.take(i as int + 1), self.vel12) =~= ons(notes@.take(i as int), self.vel12).push(
                VampMidi::NoteOn(notes@[i as int], self.vel12),
            ));
            assert(notes@.take(i as int + 1) =~= notes@.take(i as int).push(notes@[i as int]));
            i += 1;
        }
        assert(notes@.take(notes.len() as int) =~= notes@);
        if record {
            self.push_ring(degree, now);
        }
        self.degree = degree;
        self.activity = 255;
        voice.degree = degree;
    }

    fn panic_step(&mut self, voice: &mut Voice, out: &mut Vec<VampMidi>)
        requires
            old(self).wf(),
        ensures
            final(self).wf(),
            (*final(self), final(voice).sounding@, final(voice).degree, final(out)@) == panic_phase(
                (*old(self), old(voice).sounding@, old(voice).degree, old(out)@),
            ),
    {
        if self.panic_flag {
            voice.release_all(out);
            out.push(VampMidi::Cc(ALL_SOUND_OFF, 0));
            out.push(VampMidi::Cc(ALL_NOTES_OFF, 0));
            self.chord_held = false;
            self.pending_play = false;
            self.pending_release = false;
            self.panic_flag = false;
            self.activity = 0;
        }
    }

    fn release_step(&mut self, voice: &mut Voice, out: &mut Vec<VampMidi>)
        requires
            old(self).wf(),
        ensures
            final(self).wf(),
            (*final(self), final(voice).sounding@, final(voice).degree, final(out)@) == release_phase(
                (*old(self), old(voice).sounding@, old(voice).degree, old(out)@),
            ),
    {
        if self.pending_release {
            self.pending_release = false;
            voice.release_all(out);
        }
    }

    fn pending_step(&mut self, voice: &mut Voice, out: &mut Vec<VampMidi>, now: u32)
        requires
            old(self).wf(),
        ensures
            final(self).wf(),
            (*final(self), final(voice).sounding@, final(voice).degree, final(out)@) == pending_phase(
                (*old(self), old(voice).sounding@, old(voice).degree, old(out)@),
                now,
            ),
    {
        if self.pending_play {
            self.pending_play = false;
            let degree = self.pending_degree;
            let record = self.pending_record;
            self.pending_record = false;
            self.play_degree(voice, out, degree, record, now);
        }
    }

    fn perform_step(&mut self, voice: &mut Voice, out: &mut Vec<VampMidi>, now: u32)
        requires
            old(self).wf(),
        ensures
            final(self).wf(),
            (*final(self), final(voice).sounding@, final(voice).degree, final(out)@) == perform_phase(
                (*old(self), old(voice).sounding@, old(voice).degree, old(out)@),
                now,
            ),
    {
        if !self.mode_auto {
            if self.chord_held {
                let deg = self.degree;
                if voice.sounding.len() == 0 || voice.degree != deg {
                    self.play_degree(voice, out, deg, true, now);
                }
            } else if voice.sounding.len() > 0 {
                voice.release_all(out);
            }
        }
    }

    fn decay_step(&mut self)
        requires
            old(self).wf(),
        ensures
            final(self).wf(),
            *final(self) == decay_phase((*old(self), Seq::empty(), 0, Seq::empty())).0,
    {
        if self.activity > 0 {
            self.activity = if self.activity < 8 {
                0
            } else {
                self.activity - 8
            };
        }
        if self.capture_flash > 0 {
            self.capture_flash = if self.capture_flash < 4 {
                0
            } else {
                self.capture_flash - 4
            };
        }
    }

    /// One step of the voice engine (the device runs one each millisecond):
    /// panic, queued release, queued chord, perform hold, fading. Returns
    /// the MIDI to send, in order.
    pub fn engine_step(&mut self, voice: &mut Voice, now: u32) -> (r: Vec<VampMidi>)
        requires
            old(self).wf(),
        ensures
            final(self).wf(),
            (*final(self), final(voice).sounding@, final(voice).degree, r@) == engine_spec(
                *old(self),
                old(voice).sounding@,
                old(voice).degree,
                now,
            ),
    {
        let mut out: Vec<VampMidi> = Vec::new();
        self.panic_step(voice, &mut out);
        self.release_step(voice, &mut out);
        self.pending_step(voice, &mut out, now);
        self.perform_step(voice, &mut out, now);
        self.decay_step();
        out
    }
}

/// Degrees captured from the ring at tick `now`: the first `upto` ring
/// entries (oldest first once the ring is full) recorded less than `window`
/// ticks ago, at most 32.
pub open spec fn captured_upto(s: Vamp, now: u32, window: u32, upto: int) -> Seq<u8>
    decreases upto,
{
    if upto <= 0 {
        Seq::empty()
    } else {
        let prev = captured_upto(s, now, window, upto - 1);
        let i = upto - 1;
        let idx = if s.ring_len < 64 {
            i
        } else {
            (s.ring_write + i) % 64
        };
        let age = tick_age(now, s.ring_tick[idx]);
        if age < window && age < 0x7fff_ffff && prev.len() < 32 {
            prev.push(s.ring_deg[idx])
        } else {
            prev
        }
    }
}

proof fn lemma_captured_len(s: Vamp, now: u32, window: u32, upto: int)
    ensures
        captured_upto(s, now, window, upto).len() <= 32,
    decreases upto,
{
    if upto > 0 {
        lemma_captured_len(s, now, window, upto - 1);
    }
}

impl Vamp {
    /// Degrees a long press captures at tick `now`: those played within the
    /// capture length.
    pub open spec fn captured(self, now: u32) -> Seq<u8> {
        captured_upto(self, now, (self.capture_bars * TICKS_PER_BAR) as u32, self.ring_len as int)
    }

    fn capture(&self, now: u32) -> (r: Vec<u8>)
        requires
            self.wf(),
        ensures
            r@ == self.captured(now),
            r.len() <= 32,
    {
        let window = self.capture_bars * TICKS_PER_BAR;
        let len = self.ring_len as usize;
        let write = self.ring_write as usize;
        let mut captured: Vec<u8> = Vec::new();
        let mut i: usize = 0;
        while i < len
            invariant
                self.wf(),
                len == self.ring_len,
                write == self.ring_write,
                window == self.capture_bars * TICKS_PER_BAR,
                i <= len,
                captured@ == captured_upto(*self, now, window, i as int),
            decreases len - i,
        {
            proof {
                lemma_captured_len(*self, now, window, i as int);
            }
            let idx = if len < RING_CAP {
                i
            } else {
                (write + i) % RING_CAP
            };
            let age = now.wrapping_sub(self.ring_tick[idx]);
            if age < window && age < u32::MAX / 2 && captured.len() < VAMP_CAP {
                captured.push(self.ring_deg[idx]);
            }
            i += 1;
        }
        proof {
            lemma_captured_len(*self, now, window, len as int);
        }
        captured
    }

    /// A press of the button. With shift it toggles perform/auto (leaving
    /// auto stops the autoplay and the held chord) and saves the mode; in
    /// auto mode it waits for the release; in perform mode it selects the
    /// slot under the scrub fader and holds its chord. A press while the
    /// last one is still down is ignored. Returns whether to save.
    pub fn on_button_down(&mut self, shift: bool) -> (save: bool)
        requires
            old(self).wf(),
        ensures
            final(self).wf(),
            old(self).button != ButtonHold::Idle ==> *final(self) == *old(self) && !save,
            old(self).button == ButtonHold::Idle && shift ==> save && {
                let next = !old(self).mode_auto;
                let running = if next { old(self).auto_running } else { false };
                *final(self) == (Vamp {
                    mode_auto: next,
                    auto_running: running,
                    chord_held: if next { old(self).chord_held } else { false },
                    stored: Storage { mode_auto: next, auto_running: running, ..old(self).stored },
                    button: ButtonHold::ModeToggle,
                    ..*old(self)
                })
            },
            old(self).button == ButtonHold::Idle && !shift && old(self).mode_auto ==> !save
                && *final(self) == (Vamp { long_press_fired: false, button: ButtonHold::AutoPress, ..*old(self) }),
            old(self).button == ButtonHold::Idle && !shift && !old(self).mode_auto ==> !save && {
                let idx = value_index(old(self).scrub, count_of(old(self).slot_count) as usize);
                *final(self) == (Vamp {
                    long_press_fired: false,
                    slot_idx: idx as u8,
                    degree: old(self).slots[idx as int],
                    chord_held: true,
                    button: ButtonHold::PerformHold,
                    ..*old(self)
                })
            },
    {
        if self.button != ButtonHold::Idle {
            return false;
        }
        if shift {
            let next = !self.mode_auto;
            self.mode_auto = next;
            if !next {
                self.auto_running = false;
                self.chord_held = false;
            }
            self.stored.mode_auto = next;
            self.stored.auto_running = self.auto_running;
            self.button = ButtonHold::ModeToggle;
            return true;
        }
        self.long_press_fired = false;
        if self.mode_auto {
            self.button = ButtonHold::AutoPress;
        } else {
            let count: usize = if self.slot_count == 0 {
                1
            } else {
                self.slot_count as usize
            };
            assert(self.scrub as int * count as int <= 65535 * 32) by (nonlinear_arith)
                requires
                    count <= 32,
            ;
            let idx = value_to_index(self.scrub, count);
            self.slot_idx = idx as u8;
            self.degree = self.slots[idx];
            self.chord_held = true;
            self.button = ButtonHold::PerformHold;
        }
        false
    }

    /// Release of the button. After an auto-mode press that was no long
    /// press, autoplay toggles (pausing queues a release) and is saved; after
    /// a perform press the chord is let go. Returns whether to save.
    pub fn on_button_up(&mut self) -> (save: bool)
        requires
            old(self).wf(),
        ensures
            final(self).wf(),
            old(self).button == ButtonHold::AutoPress && !old(self).long_press_fired ==> save && {
                let playing = !old(self).auto_running;
                *final(self) == (Vamp {
                    auto_running: playing,
                    pending_release: if playing { old(self).pending_release } else { true },
                    stored: Storage { auto_running: playing, ..old(self).stored },
                    button: ButtonHold::Idle,
                    ..*old(self)
                })
            },
            old(self).button == ButtonHold::PerformHold ==> !save
                && *final(self) == (Vamp { chord_held: false, button: ButtonHold::Idle, ..*old(self) }),
            (old(self).button == ButtonHold::Idle || old(self).button == ButtonHold::ModeToggle
                || (old(self).button == ButtonHold::AutoPress && old(self).long_press_fired)) ==> !save
                && *final(self) == (Vamp { button: ButtonHold::Idle, ..*old(self) }),
    {
        let hold = self.button;
        self.button = ButtonHold::Idle;
        match hold {
            ButtonHold::AutoPress => {
                if self.long_press_fired {
                    return false;
                }
                let playing = !self.auto_running;
                self.auto_running = playing;
                if !playing {
                    self.pending_release = true;
                }
                self.stored.auto_running = playing;
                true
            },
            ButtonHold::PerformHold => {
                self.chord_held = false;
                false
            },
            _ => false,
        }
    }

    /// A long press. With shift it panics (everything stops at the next
    /// engine step); otherwise the chords of the last capture length become
    /// the vamp (saved, with a bright flash), or, when none were played, a
    /// dim flash. Returns whether to save.
    pub fn on_long_press(&mut self, shift: bool, now: u32) -> (save: bool)
        requires
            old(self).wf(),
        ensures
            final(self).wf(),
            shift ==> !save && *final(self) == (Vamp { long_press_fired: true, panic_flag: true, ..*old(self) }),
            !shift && old(self).captured(now).len() == 0 ==> !save
                && *final(self) == (Vamp { long_press_fired: true, capture_flash: 64, ..*old(self) }),
            !shift && old(self).captured(now).len() > 0 ==> save && {
                let cap = old(self).captured(now);
                &&& *final(self) == (Vamp {
                    long_press_fired: true,
                    slots: final(self).slots,
                    slot_count: cap.len() as u8,
                    stored: Storage { slots: final(self).slots, slot_count: cap.len() as u8, ..old(self).stored },
                    capture_flash: 255,
                    chord_held: false,
                    ..*old(self)
                })
                &&& forall|i: int| 0 <= i < 32 ==> #[trigger] final(self).slots[i] == if i < cap.len() {
                    cap[i]
                } else {
                    0u8
                }
            },
    {
        let captured = self.capture(now);
        self.long_press_fired = true;
        if shift {
            self.panic_flag = true;
            return false;
        }
        if captured.len() > 0 {
            let mut slots = [0u8; 32];
            let n = captured.len();
            let mut i: usize = 0;
            while i < n
                invariant
                    i <= n,
                    n == captured.len(),
                    n <= 32,
                    forall|j: int| 0 <= j < 32 ==> #[trigger] slots[j] == if j < i {
                        captured@[j]
                    } else {
                        0u8
                    },
                decreases n - i,
            {
                slots[i] = captured[i];
                i += 1;
            }
            self.slots = slots;
            self.slot_count = n as u8;
            self.stored.slots = slots;
            self.stored.slot_count = n as u8;
            self.capture_flash = 255;
            self.chord_held = false;
            true
        } else {
            self.capture_flash = 64;
            false
        }
    }

    /// Where the fader's latch picks up on `layer`: the stored tension
    /// (auto) or scrub (perform), the stored genre's zone, or the stored
    /// division fader.
    pub fn latch_target(&self, layer: LatchLayer) -> (r: u16)
        ensures
            r == match layer {
                LatchLayer::Main => if self.mode_auto {
                    self.stored.tension
                } else {
                    self.stored.scrub
                },
                LatchLayer::Alt => (self.stored.genre as int * 4095 / 8) as u16,
                LatchLayer::Third => self.stored.div_fader,
            },
    {
        match layer {
            LatchLayer::Main => if self.mode_auto {
                self.stored.tension
            } else {
                self.stored.scrub
            },
            LatchLayer::Alt => ((self.stored.genre as usize * 4095) / NUM_GENRES) as u16,
            LatchLayer::Third => self.stored.div_fader,
        }
    }

    /// A new fader value taken by the latch on `layer`. Main sets the
    /// tension (auto) or scrubs to a slot and selects its degree (perform);
    /// alt picks a genre and, when it changes, loads its progression; third
    /// sets the clock division. Returns whether to save.
    pub fn on_fader(&mut self, layer: LatchLayer, value: u16) -> (save: bool)
        requires
            old(self).wf(),
        ensures
            final(self).wf(),
            layer == LatchLayer::Main && old(self).mode_auto ==> save && *final(self) == (Vamp {
                tension: value,
                stored: Storage { tension: value, ..old(self).stored },
                ..*old(self)
            }),
            layer == LatchLayer::Main && !old(self).mode_auto ==> save && {
                let idx = value_index(value, count_of(old(self).slot_count) as usize);
                *final(self) == (Vamp {
                    scrub: value,
                    slot_idx: idx as u8,
                    degree: old(self).slots[idx as int],
                    stored: Storage { scrub: value, ..old(self).stored },
                    ..*old(self)
                })
            },
            layer == LatchLayer::Alt && value_index(value, 8) == old(self).genre ==> !save && *final(self) == *old(self),
            layer == LatchLayer::Alt && value_index(value, 8) != old(self).genre ==> save && {
                let g = value_index(value, 8);
                &&& *final(self) == (Vamp {
                    genre: g as usize,
                    slots: final(self).slots,
                    slot_count: 8,
                    stored: Storage { genre: g as u8, slots: final(self).slots, slot_count: 8, ..old(self).stored },
                    ..*old(self)
                })
                &&& forall|i: int| 0 <= i < 32 ==> #[trigger] final(self).slots[i] == if i < 8 {
                    GENRE_PROGRESSIONS[g as int][i]
                } else {
                    0u8
                }
            },
            layer == LatchLayer::Third ==> save && *final(self) == (Vamp {
                div: division_of(value),
                stored: Storage { div_fader: value, ..old(self).stored },
                ..*old(self)
            }),
    {
        match layer {
            LatchLayer::Main => {
                self.fader_main(value);
                true
            },
            LatchLayer::Alt => self.fader_genre(value),
            LatchLayer::Third => {
                self.div = division_from_fader(value);
                self.stored.div_fader = value;
                true
            },
        }
    }

    fn fader_main(&mut self, value: u16)
        requires
            old(self).wf(),
        ensures
            final(self).wf(),
            old(self).mode_auto ==> *final(self) == (Vamp {
                tension: value,
                stored: Storage { tension: value, ..old(self).stored },
                ..*old(self)
            }),
            !old(self).mode_auto ==> {
                let idx = value_index(value, count_of(old(self).slot_count) as usize);
                *final(self) == (Vamp {
                    scrub: value,
                    slot_idx: idx as u8,
                    degree: old(self).slots[idx as int],
                    stored: Storage { scrub: value, ..old(self).stored },
                    ..*old(self)
                })
            },
    {
        if self.mode_auto {
            self.tension = value;
            self.stored.tension = value;
        } else {
            self.scrub = value;
            let count: usize = if self.slot_count == 0 {
                1
            } else {
                self.slot_count as usize
            };
            assert(value as int * count as int <= 65535 * 32) by (nonlinear_arith)
                requires
                    count <= 32,
            ;
            let idx = value_to_index(value, count);
            self.slot_idx = idx as u8;
            self.degree = self.slots[idx];
            self.stored.scrub = value;
        }
    }

    fn fader_genre(&mut self, value: u16) -> (save: bool)
        requires
            old(self).wf(),
        ensures
            final(self).wf(),
            value_index(value, 8) == old(self).genre ==> !save && *final(self) == *old(self),
            value_index(value, 8) != old(self).genre ==> save && {
                let g = value_index(value, 8);
                &&& *final(self) == (Vamp {
                    genre: g as usize,
                    slots: final(self).slots,
                    slot_count: 8,
                    stored: Storage { genre: g as u8, slots: final(self).slots, slot_count: 8, ..old(self).stored },
                    ..*old(self)
                })
                &&& forall|i: int| 0 <= i < 32 ==> #[trigger] final(self).slots[i] == if i < 8 {
                    GENRE_PROGRESSIONS[g as int][i]
                } else {
                    0u8
                }
            },
    {
        let g = value_to_index(value, NUM_GENRES);
        if g != self.genre {
            self.genre = g;
            let mut slots = self.slots;
            let n = load_genre_into(&mut slots, g);
            self.slots = slots;
            self.slot_count = n;
            self.stored.genre = g as u8;
            self.stored.slots = slots;
            self.stored.slot_count = n;
            true
        } else {
            false
        }
    }

    /// A scene was loaded into the storage: the vamp takes its slots (at
    /// least one counted), genre (limited to the presets), faders and modes,
    /// autoplay only in auto mode, and panics to silence what sounded.
    pub fn on_scene_load(&mut self, stored: Storage)
        requires
            old(self).wf(),
            stored.slot_count <= 32,
        ensures
            final(self).wf(),
            *final(self) == (Vamp {
                stored: stored,
                slots: stored.slots,
                slot_count: if stored.slot_count == 0 { 1 } else { stored.slot_count },
                genre: if stored.genre > 7 { 7 } else { stored.genre as usize },
                scrub: stored.scrub,
                tension: stored.tension,
                div: division_of(stored.div_fader),
                mode_auto: stored.mode_auto,
                meander: stored.meander,
                auto_running: stored.auto_running && stored.mode_auto,
                panic_flag: true,
                ..*old(self)
            }),
    {
        self.stored = stored;
        self.slots = stored.slots;
        self.slot_count = if stored.slot_count == 0 {
            1
        } else {
            stored.slot_count
        };
        self.genre = if stored.genre > 7 {
            7
        } else {
            stored.genre as usize
        };
        self.scrub = stored.scrub;
        self.tension = stored.tension;
        self.div = division_from_fader(stored.div_fader);
        self.mode_auto = stored.mode_auto;
        self.meander = stored.meander;
        self.auto_running = stored.auto_running && stored.mode_auto;
        self.panic_flag = true;
    }
}

/// Colors of the genres on the alt layer.
pub const GENRE_COLORS: [Color; 8] = [
    Color::Orange,
    Color::Yellow,
    Color::Red,
    Color::Pink,
    Color::Cyan,
    Color::Violet,
    Color::Green,
    Color::Blue,
];

/// The fader layer the buttons select: shift alone gives alt, the button
/// alone gives third, anything else main.
pub fn led_layer(shift: bool, pressed: bool) -> (r: LatchLayer)
    ensures
        r == if shift && !pressed {
            LatchLayer::Alt
        } else if !shift && pressed {
            LatchLayer::Third
        } else {
            LatchLayer::Main
        },
{
    if shift && !pressed {
        LatchLayer::Alt
    } else if !shift && pressed {
        LatchLayer::Third
    } else {
        LatchLayer::Main
    }
}

/// The request lighting `position` of the vamp's channel.
pub open spec fn lit(leds: Leds<1>, position: Led, color: Color, brightness: Brightness) -> LedRequest {
    (leds.device_channel(0) as usize, position, LedMsg::SetMode(LedMode::Static(color, brightness)))
}

/// The larger of two bytes.
pub open spec fn max_u8(a: u8, b: u8) -> u8 {
    if a > b {
        a
    } else {
        b
    }
}

impl Vamp {
    /// The fader LEDs' meter on the main layer: the selected slot's share of
    /// the slots, at most full scale.
    pub open spec fn slot_meter(self) -> u16 {
        let m = self.slot_idx as int * 4095 / count_of(self.slot_count);
        if m > 4095 {
            4095
        } else {
            m as u16
        }
    }

    /// The LED requests of one frame on `layer`: a capture flash on the
    /// button first; main shows the slot meter (pulsing with activity) in
    /// the app color (perform) or orange (auto, bright while playing);
    /// alt shows the genre's zone in its color; third the division fader
    /// in cyan. The button shows the layer's color unless it flashes.
    pub open spec fn led_frame_spec(self, leds: Leds<1>, layer: LatchLayer) -> Seq<LedRequest> {
        let flash = self.capture_flash;
        let first = if flash > 0 {
            seq![lit(leds, Led::Button, Color::White, Brightness::Custom(flash))]
        } else {
            Seq::empty()
        };
        let (top_color, top, bottom, button_color, button_bright) = match layer {
            LatchLayer::Main => {
                let led = split_unsigned(self.slot_meter());
                let (fc, bc, bb) = if self.mode_auto {
                    if self.auto_running {
                        (Color::Orange, Color::Orange, Brightness::High)
                    } else {
                        (Color::Orange, Color::Orange, Brightness::Low)
                    }
                } else {
                    (self.led_color, self.led_color, Brightness::Mid)
                };
                (fc, max_u8(led[0], self.activity), max_u8(led[1], self.activity / 2), bc, bb)
            },
            LatchLayer::Alt => {
                let color = GENRE_COLORS[self.genre as int];
                let led = split_unsigned((self.genre * 4095 / 8) as u16);
                (color, led[0], led[1], color, Brightness::High)
            },
            LatchLayer::Third => {
                let led = split_unsigned(self.stored.div_fader);
                (Color::Cyan, led[0], led[1], Color::Cyan, Brightness::Mid)
            },
        };
        let body = seq![
            lit(leds, Led::Top, top_color, Brightness::Custom(top)),
            lit(leds, Led::Bottom, top_color, Brightness::Custom(bottom)),
        ];
        let last = if flash == 0 {
            seq![lit(leds, Led::Button, button_color, button_bright)]
        } else {
            Seq::empty()
        };
        first + body + last
    }

    /// The LED requests of one frame on `layer`.
    pub fn led_frame(&self, leds: &Leds<1>, layer: LatchLayer) -> (r: Vec<LedRequest>)
        requires
            self.wf(),
            leds.start_channel + 1 <= usize::MAX,
        ensures
            r@ == self.led_frame_spec(*leds, layer),
    {
        let mut out: Vec<LedRequest> = Vec::new();
        let flash = self.capture_flash;
        if flash > 0 {
            out.push(leds.set(0, Led::Button, Color::White, Brightness::Custom(flash)));
        }
        let (top_color, top, bottom, button_color, button_bright) = match layer {
            LatchLayer::Main => {
                let count: u32 = if self.slot_count == 0 {
                    1
                } else {
                    self.slot_count as u32
                };
                let m = self.slot_idx as u32 * 4095 / count;
                let meter: u16 = if m > 4095 {
                    4095
                } else {
                    m as u16
                };
                let led = split_unsigned_value(meter);
                let pulse = self.activity;
                let (fc, bc, bb) = if self.mode_auto {
                    if self.auto_running {
                        (Color::Orange, Color::Orange, Brightness::High)
                    } else {
                        (Color::Orange, Color::Orange, Brightness::Low)
                    }
                } else {
                    (self.led_color, self.led_color, Brightness::Mid)
                };
                let t = if led[0] > pulse {
                    led[0]
                } else {
                    pulse
                };
                let b = if led[1] > pulse / 2 {
                    led[1]
                } else {
                    pulse / 2
                };
                (fc, t, b, bc, bb)
            },
            LatchLayer::Alt => {
                let g = self.genre;
                let color = GENRE_COLORS[g];
                let led = split_unsigned_value((g as u16 * 4095) / 8);
                (color, led[0], led[1], color, Brightness::High)
            },
            LatchLayer::Third => {
                let led = split_unsigned_value(self.stored.div_fader);
                (Color::Cyan, led[0], led[1], Color::Cyan, Brightness::Mid)
            },
        };
        out.push(leds.set(0, Led::Top, top_color, Brightness::Custom(top)));
        out.push(leds.set(0, Led::Bottom, top_color, Brightness::Custom(bottom)));
        if flash == 0 {
            out.push(leds.set(0, Led::Button, button_color, button_bright));
        }
        assert(out@ =~= self.led_frame_spec(*leds, layer));
        out
    }
}

/// A panic silences the vamp: after the engine step that sees it, no note
/// sounds.
pub proof fn law_panic_silences(s: Vamp, sounding: Seq<u8>, voice_degree: u8, now: u32)
    requires
        s.wf(),
        s.panic_flag,
    ensures
        engine_spec(s, sounding, voice_degree, now).1 == Seq::<u8>::empty(),
        engine_spec(s, sounding, voice_degree, now).3.take(sounding.len() as int) == offs(sounding),
{
    let e = panic_phase((s, sounding, voice_degree, Seq::empty()));
    assert(e.3.take(sounding.len() as int) =~= offs(sounding));
}

/// In perform mode a press sounds the chord of the slot under the scrub
/// fader at the next engine step (when no panic or queued work intervenes).
pub proof fn law_perform_press_sounds_chord(s: Vamp, sounding: Seq<u8>, voice_degree: u8, now: u32)
    requires
        s.wf(),
        !s.mode_auto,
        s.button == ButtonHold::Idle,
        !s.panic_flag,
        !s.pending_release,
        !s.pending_play,
    ensures
        ({
            let idx = value_index(s.scrub, count_of(s.slot_count) as usize);
            let pressed = Vamp {
                long_press_fired: false,
                slot_idx: idx as u8,
                degree: s.slots[idx as int],
                chord_held: true,
                button: ButtonHold::PerformHold,
                ..s
            };
            let e = engine_spec(pressed, sounding, voice_degree, now);
            let chord = chord_spec(s.root_midi, s.key, s.slots[idx as int], s.voicing);
            &&& e.0.degree == s.slots[idx as int]
            &&& (sounding.len() == 0 || voice_degree != s.slots[idx as int]) ==> e.1 == chord && e.3 == offs(
                sounding,
            ) + ons(chord, s.vel12)
            &&& !(sounding.len() == 0 || voice_degree != s.slots[idx as int]) ==> e.1 == sounding && e.3
                == Seq::<VampMidi>::empty()
        }),
{
    let idx = value_index(s.scrub, count_of(s.slot_count) as usize);
    let pressed = Vamp {
        long_press_fired: false,
        slot_idx: idx as u8,
        degree: s.slots[idx as int],
        chord_held: true,
        button: ButtonHold::PerformHold,
        ..s
    };
    let e0 = (pressed, sounding, voice_degree, Seq::<VampMidi>::empty());
    assert(panic_phase(e0) == e0);
    assert(release_phase(e0) == e0);
    assert(pending_phase(e0, now) == e0);
    assert(Seq::<VampMidi>::empty() + offs(sounding) =~= offs(sounding));
}

/// In perform mode, once the button is up (and nothing is queued), the
/// next engine step stops every sounding note and leaves none.
pub proof fn law_perform_release_silences(s: Vamp, sounding: Seq<u8>, voice_degree: u8, now: u32)
    requires
        s.wf(),
        !s.mode_auto,
        !s.chord_held,
        !s.pending_play,
    ensures
        engine_spec(s, sounding, voice_degree, now).1 == Seq::<u8>::empty(),
{
}

proof fn lemma_offsets_sorted(mask: u16, upto: int)
    requires
        0 <= upto <= 12,
    ensures
        forall|a: int, b: int|
            0 <= a < b < offsets_upto(mask, upto).len() ==> #[trigger] offsets_upto(mask, upto)[a]
                < #[trigger] offsets_upto(mask, upto)[b],
    decreases upto,
{
    if upto > 0 {
        lemma_offsets_sorted(mask, upto - 1);
        lemma_offsets_bounded(mask, upto - 1);
    }
}

/// The scale steps (in semitones) of `d` steps up a scale of offsets `s`:
/// whole octaves of the scale's length, then the offset within it.
proof fn lemma_scale_steps_ascend(s: Seq<u8>, d1: int, d2: int)
    requires
        s.len() >= 1,
        forall|i: int| 0 <= i < s.len() ==> #[trigger] s[i] < 12,
        forall|a: int, b: int| 0 <= a < b < s.len() ==> #[trigger] s[a] < #[trigger] s[b],
        0 <= d1 <= d2,
    ensures
        (d1 / (s.len() as int)) * 12 + s[d1 % (s.len() as int)] <= (d2 / (s.len() as int)) * 12 + s[d2 % (
        s.len() as int)],
{
    let n = s.len() as int;
    vstd::arithmetic::div_mod::lemma_div_is_ordered(d1, d2, n);
    vstd::arithmetic::div_mod::lemma_fundamental_div_mod(d1, n);
    vstd::arithmetic::div_mod::lemma_fundamental_div_mod(d2, n);
    vstd::arithmetic::div_mod::lemma_mod_pos_bound(d1, n);
    vstd::arithmetic::div_mod::lemma_mod_pos_bound(d2, n);
    let q1 = d1 / n;
    let q2 = d2 / n;
    let r1 = d1 % n;
    let r2 = d2 % n;
    if q1 == q2 {
        assert(r1 <= r2);
        if r1 < r2 {
            assert(s[r1] < s[r2]);
        }
    } else {
        assert(q1 + 1 <= q2);
        assert(s[r1] < 12);
        assert(q1 * 12 + 12 <= q2 * 12);
    }
}

/// The notes of a chord in the close voicings (triad, seventh, ninth) come
/// in ascending order: each note is the scale step above the degree counted
/// over whole octaves of the scale's own length, so a step that wraps past
/// the end of the scale lands in the next octave, never below.
pub proof fn law_chord_ascends(root_midi: u8, key: Key, degree: u8, voicing: usize, i: int, j: int)
    requires
        voicing != 3,
        0 <= i < j < chord_spec(root_midi, key, degree, voicing).len(),
    ensures
        chord_spec(root_midi, key, degree, voicing)[i] <= chord_spec(root_midi, key, degree, voicing)[j],
{
    let s = scale_offsets_spec(key);
    let m = key_mask_spec(key);
    lemma_offsets_sorted(m, 12);
    lemma_offsets_bounded(m, 12);
    assert(s.len() >= 1);
    assert forall|x: int| 0 <= x < s.len() implies #[trigger] s[x] < 12 by {}
    assert forall|a: int, b: int| 0 <= a < b < s.len() implies #[trigger] s[a] < #[trigger] s[b] by {}
    let steps = voicing_steps(voicing);
    assert(steps[i] <= steps[j]);
    let d1 = (degree as int % 7) + steps[i];
    let d2 = (degree as int % 7) + steps[j];
    lemma_scale_steps_ascend(s, d1, d2);
}

} // verus!
