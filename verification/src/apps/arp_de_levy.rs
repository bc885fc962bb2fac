//! Arp de Lévy: an arpeggiator over a pool of notes that mutates by Lévy
//! flights (mostly small steps, occasionally large jumps).

use vstd::prelude::*;

use crate::storage::AppStorage;
use crate::app::{LedRequest, Leds};
use crate::types::{Brightness, Color, LatchLayer, Led, LedMode, LedMsg, Note};

verus! {

/// Capacity of the note pool.
pub const POOL_CAP: usize = 16;
/// Shortest phrase.
pub const MIN_PHRASE: usize = 4;
/// Longest phrase.
pub const MAX_PHRASE: usize = 16;
/// Clock ticks per step.
pub const STEP_DIV: u32 = 6;
/// Step sizes of a Lévy flight, small ones more likely.
pub const LEVY_STEPS: [i8; 16] = [1, 1, 1, 1, 1, 1, 2, 2, 2, 3, 3, 5, 5, 8, 8, 12];

pub const MODE_UP: u8 = 0;
pub const MODE_DOWN: u8 = 1;
pub const MODE_UP_DOWN: u8 = 2;
pub const MODE_DOWN_UP: u8 = 3;
pub const MODE_RANDOM: u8 = 4;
pub const MODE_CONVERGE: u8 = 5;
pub const MODE_COUNT: u8 = 6;

/// Octave span chosen by a fader: 1 to 4 octaves over the fader's travel.
pub fn octaves_from_value(value: u16) -> (r: u8)
    ensures
        r == 1 + if value / 1024 > 3 {
            3
        } else {
            value / 1024
        },
        1 <= r <= 4,
{
    let q = value / 1024;
    1 + (if q > 3 {
        3
    } else {
        q
    }) as u8
}

/// Phrase length for texture `t`: 16 at the bottom down to 4 at the top.
pub open spec fn phrase_for(t: int) -> int {
    let p = MAX_PHRASE - t * ((MAX_PHRASE - MIN_PHRASE) as int) / 4095;
    if p < MIN_PHRASE {
        MIN_PHRASE as int
    } else if p > MAX_PHRASE {
        MAX_PHRASE as int
    } else {
        p
    }
}

/// Texture: (hit density threshold 820..=4095, phrase length, swing ticks).
/// Bottom: sparse, long phrase, no swing; top: dense, short, swung.
pub fn texture_from_value(value: u16) -> (r: (u16, usize, u32))
    requires
        value as int * 12 / 4095 <= 16,
    ensures
        r.0 == 820 + value as int * 3275 / 4095,
        r.1 == phrase_for(value as int),
        r.2 == value as int * 2 / 4095,
{
    let t = value as u32;
    assert(t * 3275 <= 65535 * 3275) by (nonlinear_arith)
        requires
            t <= 65535,
    ;
    assert(t * 3275 / 4095 <= 52412) by (nonlinear_arith)
        requires
            t <= 65535,
    ;
    let density = (820 + t * (4095 - 820) / 4095) as u16;
    let phrase = MAX_PHRASE - (t as usize * (MAX_PHRASE - MIN_PHRASE) / 4095);
    let phrase = if phrase < MIN_PHRASE {
        MIN_PHRASE
    } else if phrase > MAX_PHRASE {
        MAX_PHRASE
    } else {
        phrase
    };
    let swing = t * (STEP_DIV * 2 / 5) / 4095;
    (density, phrase, swing)
}

/// The LED color of an arp mode; up (and unknown modes) keep the app's color.
pub fn mode_color(mode: u8, led_color: Color) -> (r: Color)
    ensures
        r == (if mode == MODE_DOWN {
            Color::Orange
        } else if mode == MODE_UP_DOWN {
            Color::Yellow
        } else if mode == MODE_DOWN_UP {
            Color::Lime
        } else if mode == MODE_RANDOM {
            Color::Red
        } else if mode == MODE_CONVERGE {
            Color::Pink
        } else {
            led_color
        }),
{
    match mode {
        MODE_DOWN => Color::Orange,
        MODE_UP_DOWN => Color::Yellow,
        MODE_DOWN_UP => Color::Lime,
        MODE_RANDOM => Color::Red,
        MODE_CONVERGE => Color::Pink,
        _ => led_color,
    }
}

/// `n` limited to the MIDI note range.
pub open spec fn clamp_note_spec(n: int) -> u8 {
    if n < 0 {
        0
    } else if n > 127 {
        127
    } else {
        n as u8
    }
}

/// Limits a note number to 0..=127.
pub fn clamp_note(n: i16) -> (r: u8)
    ensures
        r == clamp_note_spec(n as int),
{
    if n < 0 {
        0
    } else if n > 127 {
        127
    } else {
        n as u8
    }
}

/// The Lévy step for two die rolls: the first picks the size from
/// `LEVY_STEPS`, the second's lowest bit the direction (0 up, 1 down).
pub open spec fn levy_step(first_roll: u16, second_roll: u16) -> i8 {
    let mag = LEVY_STEPS@[(first_roll % 16) as int];
    if second_roll % 2 == 0 {
        mag
    } else {
        (-mag) as i8
    }
}

/// One Lévy step from two die rolls.
pub fn levy_delta(first_roll: u16, second_roll: u16) -> (r: i8)
    ensures
        r == levy_step(first_roll, second_roll),
        -12 <= r <= 12,
{
    let idx = (first_roll as usize) % 16;
    let steps = LEVY_STEPS;
    let mag = steps[idx];
    assert(1 <= mag <= 12);
    let b = second_roll & 1;
    assert(b == second_roll % 2) by (bit_vector)
        requires
            b == second_roll & 1,
    ;
    if b == 0 {
        mag
    } else {
        -mag
    }
}

/// `v` limited to `lo..=hi`.
pub open spec fn clamp_u8(v: u8, lo: u8, hi: u8) -> u8 {
    if v < lo {
        lo
    } else if v > hi {
        hi
    } else {
        v
    }
}

/// Mutates one note of the phrase: the note at `pick_roll % phrase_len`
/// moves by a Lévy step (from the two step rolls), stays a MIDI note, and
/// is limited to `lo..=hi`. An empty phrase is left alone.
pub fn mutate_pool(
    pool: &mut [u8; 16],
    phrase_len: usize,
    lo: u8,
    hi: u8,
    pick_roll: u16,
    first_roll: u16,
    second_roll: u16,
)
    requires
        phrase_len <= POOL_CAP,
        phrase_len > 0 ==> lo <= hi,
    ensures
        phrase_len == 0 ==> final(pool)@ == old(pool)@,
        phrase_len > 0 ==> final(pool)@ == old(pool)@.update(
            (pick_roll as int) % (phrase_len as int),
            clamp_u8(
                clamp_note_spec(
                    old(pool)@[(pick_roll as int) % (phrase_len as int)] as int + levy_step(
                        first_roll,
                        second_roll,
                    ) as int,
                ),
                lo,
                hi,
            ),
        ),
{
    if phrase_len == 0 {
        return;
    }
    let i = (pick_roll as usize) % phrase_len;
    let next = clamp_note(pool[i] as i16 + levy_delta(first_roll, second_roll) as i16);
    pool[i] = if next < lo {
        lo
    } else if next > hi {
        hi
    } else {
        next
    };
}

/// The note a fresh roll `roll` gives in `lo..=hi`.
pub open spec fn reroll_note(lo: u8, hi: u8, roll: u16) -> int {
    let span = if hi - lo < 1 {
        1
    } else {
        hi - lo
    };
    lo + (roll * span) / 4095
}

/// Rolls a new phrase: slot `i` below `phrase_len` gets the note of die
/// roll `rolls[i]` (0 to 4095), scaled onto `lo..=lo + span` with the span
/// `hi - lo` (at least 1); the rest of the pool is set to `lo`.
pub fn reroll_pool(pool: &mut [u8; 16], phrase_len: usize, lo: u8, hi: u8, rolls: &[u16; 16])
    requires
        lo <= hi < 255,
        forall|i: int| 0 <= i < 16 && i < phrase_len ==> #[trigger] rolls@[i] <= 4095,
    ensures
        forall|i: int|
            0 <= i < 16 ==> #[trigger] final(pool)@[i] == (if i < phrase_len {
                reroll_note(lo, hi, rolls@[i]) as u8
            } else {
                lo
            }),
        forall|i: int|
            0 <= i < 16 && i < phrase_len ==> lo <= #[trigger] final(pool)@[i] <= lo + (if hi - lo < 1 {
                1
            } else {
                hi - lo
            }),
{
    let diff = hi - lo;
    let span: u32 = if diff < 1 {
        1
    } else {
        diff as u32
    };
    let mut i: usize = 0;
    while i < 16
        invariant
            i <= 16,
            lo <= hi < 255,
            span == (if hi - lo < 1 {
                1
            } else {
                hi - lo
            }),
            forall|k: int| 0 <= k < 16 && k < phrase_len ==> #[trigger] rolls@[k] <= 4095,
            forall|k: int|
                0 <= k < i ==> #[trigger] pool@[k] == (if k < phrase_len {
                    reroll_note(lo, hi, rolls@[k]) as u8
                } else {
                    lo
                }),
            forall|k: int|
                0 <= k < i && k < phrase_len ==> lo <= #[trigger] pool@[k] <= lo + span,
        decreases 16 - i,
    {
        if i < phrase_len {
            let roll = rolls[i] as u32;
            assert(roll * span <= 4095 * span && (roll * span) / 4095 <= span) by (nonlinear_arith)
                requires
                    roll <= 4095,
                    span >= 1,
            ;
            let step = (roll * span / 4095) as u8;
            assert(reroll_note(lo, hi, rolls@[i as int]) == lo + step);
            pool[i] = lo + step;
        } else {
            pool[i] = lo;
        }
        i = i + 1;
    }
}

/// Index of step `step` in a pool of `len` notes for an arp mode: down runs
/// backwards, up-down and down-up bounce without repeating the turning
/// notes, converge alternates between the ends moving inwards; up and random
/// (picked by the caller) run forwards. `reversed` mirrors the result.
pub open spec fn pool_index_spec(step: int, len: int, mode: u8, reversed: bool) -> int {
    if len == 0 {
        0
    } else {
        let cycle = if 2 * len - 2 < 1 {
            1
        } else {
            2 * len - 2
        };
        let i = if mode == MODE_DOWN {
            len - 1 - step % len
        } else if mode == MODE_UP_DOWN {
            let s = step % cycle;
            if s < len {
                s
            } else {
                cycle - s
            }
        } else if mode == MODE_DOWN_UP {
            let s = step % cycle;
            let up = if s < len {
                s
            } else {
                cycle - s
            };
            len - 1 - up
        } else if mode == MODE_CONVERGE {
            let half = step % len;
            if half % 2 == 0 {
                half / 2
            } else {
                len - 1 - half / 2
            }
        } else {
            step % len
        };
        if reversed {
            len - 1 - i
        } else {
            i
        }
    }
}

/// Maps a playback step to a pool index for the arp modes.
pub fn pool_index(step: usize, len: usize, mode: u8, reversed: bool) -> (r: usize)
    requires
        len <= usize::MAX / 2,
    ensures
        r == pool_index_spec(step as int, len as int, mode, reversed),
        len > 0 ==> r < len,
{
    if len == 0 {
        return 0;
    }
    let i = match mode {
        MODE_DOWN => len - 1 - (step % len),
        MODE_UP_DOWN => {
            let doubled = len * 2;
            let c = if doubled > 2 {
                doubled - 2
            } else {
                0
            };
            let cycle = if c < 1 {
                1
            } else {
                c
            };
            let s = step % cycle;
            if s < len {
                s
            } else {
                cycle - s
            }
        },
        MODE_DOWN_UP => {
            let doubled = len * 2;
            let c = if doubled > 2 {
                doubled - 2
            } else {
                0
            };
            let cycle = if c < 1 {
                1
            } else {
                c
            };
            let s = step % cycle;
            let up = if s < len {
                s
            } else {
                cycle - s
            };
            len - 1 - up
        },
        MODE_CONVERGE => {
            let half = step % len;
            if half % 2 == 0 {
                half / 2
            } else {
                len - 1 - half / 2
            }
        },
        _ => step % len,
    };
    if reversed {
        len - 1 - i
    } else {
        i
    }
}

/// Every arp mode stays inside the pool: the index of any step is below the
/// pool length.
pub proof fn law_pool_index_in_pool(step: int, len: int, mode: u8, reversed: bool)
    requires
        step >= 0,
        len > 0,
    ensures
        0 <= pool_index_spec(step, len, mode, reversed) < len,
{
}

/// Reversing mirrors the pool: for any step, mode and pool length the
/// reversed index is the forward index counted from the other end.
pub proof fn law_pool_index_reverse(step: int, len: int, mode: u8)
    requires
        step >= 0,
        len >= 1,
    ensures
        pool_index_spec(step, len, mode, true) == len - 1 - pool_index_spec(step, len, mode, false),
{
}

/// Up-down climbs the pool first: its first `len` steps play positions
/// 0, 1, .., len - 1 in order. Down-up is its mirror image, step for step:
/// the position counted from the other end, so after reaching the bottom it
/// bounces back up, with the same period of `2 * len - 2` steps.
pub proof fn law_down_up_mirrors_up_down(step: int, len: int, k: int)
    requires
        step >= 0,
        len > 1,
        0 <= k < len,
    ensures
        pool_index_spec(k, len, MODE_UP_DOWN, false) == k,
        pool_index_spec(step, len, MODE_DOWN_UP, false) == len - 1 - pool_index_spec(
            step,
            len,
            MODE_UP_DOWN,
            false,
        ),
        pool_index_spec(step + 2 * len - 2, len, MODE_DOWN_UP, false) == pool_index_spec(
            step,
            len,
            MODE_DOWN_UP,
            false,
        ),
{
    let cycle = 2 * len - 2;
    assert((step + cycle) % cycle == step % cycle) by (nonlinear_arith)
        requires
            cycle > 0,
            step >= 0,
    ;
    assert(k % cycle == k) by (nonlinear_arith)
        requires
            cycle > 0,
            0 <= k < len,
            len <= cycle,
    ;
}

/// Up-down never plays a turning note twice in a row: over a bounce of
/// `2 * len - 2` steps each inner note is played twice, the ends once.
pub proof fn law_up_down_period(step: int, len: int)
    requires
        step >= 0,
        len > 1,
    ensures
        pool_index_spec(step + 2 * len - 2, len, MODE_UP_DOWN, false) == pool_index_spec(
            step,
            len,
            MODE_UP_DOWN,
            false,
        ),
{
    let cycle = 2 * len - 2;
    assert((step + cycle) % cycle == step % cycle) by (nonlinear_arith)
        requires
            cycle > 0,
            step >= 0,
    ;
}

/// A pitch: octave (MIDI note 0 is C in octave -1) and pitch class.
#[derive(Clone, Copy, Debug, PartialEq, Eq, Structural)]
pub struct Pitch {
    pub octave: i8,
    pub note: Note,
}

/// The pitch of a MIDI note number.
pub fn note_to_pitch(note: u8) -> (r: Pitch)
    ensures
        r.octave == note / 12 - 1,
        crate::types::note_index(r.note) == note % 12,
{
    let octave = (note as i16 / 12) - 1;
    let pc = note % 12;
    Pitch { octave: octave as i8, note: Note::from_index(pc) }
}

/// Brightness of the button in its mode color.
pub const LED_BRIGHTNESS: Brightness = Brightness::Mid;
/// Length (ms) of the white fade that acknowledges a reversal.
pub const REVERSE_FADE_MS: u16 = 500;
/// Colors of the octave spans on the third layer.
pub const OCT_COLORS: [Color; 4] = [Color::Blue, Color::Cyan, Color::Yellow, Color::Red];
/// The seed pool above the base note: a major scale over two octaves.
pub const SEED_OFFSETS: [u8; 16] = [0, 2, 4, 5, 7, 9, 11, 12, 14, 16, 17, 19, 21, 23, 24, 26];

/// What the arpeggiator keeps: its three fader positions, mute, direction,
/// mode and the note pool with its live length.
#[derive(Clone, Copy)]
pub struct Storage {
    /// Mutation rate (main layer).
    pub fader_saved: u16,
    /// Texture (shift layer).
    pub shift_fader_saved: u16,
    /// Octave span (button held).
    pub octave_saved: u16,
    pub muted: bool,
    pub reversed: bool,
    pub mode: u8,
    pub pool: [u8; 16],
    pub phrase_len: u8,
}

impl Default for Storage {
    /// Frozen mutation, centred texture, two octaves, playing up over the
    /// seed pool from MIDI note 48, eight notes long.
    fn default() -> (r: Self)
        ensures
            forall|i: int| 0 <= i < 16 ==> #[trigger] r.pool[i] == 48 + SEED_OFFSETS[i],
            r.fader_saved == 0 && r.shift_fader_saved == 2048 && r.octave_saved == 1365,
            !r.muted && !r.reversed && r.mode == MODE_UP && r.phrase_len == 8,
    {
        let mut pool = [48u8; 16];
        let mut i: usize = 0;
        while i < 16
            invariant
                i <= 16,
                forall|j: int| 0 <= j < i ==> #[trigger] pool[j] == 48 + SEED_OFFSETS[j],
            decreases 16 - i,
        {
            pool[i] = 48 + SEED_OFFSETS[i];
            i += 1;
        }
        Storage {
            fader_saved: 0,
            shift_fader_saved: 2048,
            octave_saved: 1365,
            muted: false,
            reversed: false,
            mode: MODE_UP,
            pool,
            phrase_len: 8,
        }
    }
}

impl AppStorage for Storage {}

/// Rolls of the die for one clock tick, each for its own use: the pool
/// reroll, each of up to four mutation attempts (whether, which note, step
/// size, sign), the random mode's pick and the hit.
#[derive(Clone, Copy)]
pub struct ArpRolls {
    pub reroll: [u16; 16],
    pub mutate_check: [u16; 4],
    pub mutate_pick: [u16; 4],
    pub mutate_first: [u16; 4],
    pub mutate_second: [u16; 4],
    pub random_idx: u16,
    pub hit: u16,
}

/// Work for the device. `Fire` quantizes the note, sets the CV, stops the
/// note sounding (if any), plays the new one and lights the bottom LED;
/// `NoteOffCurrent` stops the note sounding, if any.
#[derive(Clone, Copy, Debug, PartialEq, Eq)]
pub enum ArpAction {
    Fire(u8),
    NoteOffCurrent,
    NoteOff(u8),
    CvZero,
    Led(LedRequest),
}

/// What the button handler waits for after a press.
#[derive(Clone, Copy, Debug, PartialEq, Eq, Structural)]
pub enum ArpButton {
    Idle,
    /// Pressed with shift: a short press reverses.
    ShiftPress,
    /// Pressed alone: a short press rerolls, a long one (without a fader move) mutes.
    Press,
}

/// A running arpeggiator: settings, shared values, and the clock task's
/// pool, step and scheduled note-on/gate-off.
#[derive(Clone, Copy)]
pub struct ArpDeLevy {
    /// The base (lowest) note.
    pub lo: u8,
    pub led_color: Color,
    pub stored: Storage,
    pub muted: bool,
    pub reversed: bool,
    pub mode: u8,
    pub mutation: u16,
    pub texture: u16,
    pub octave: u16,
    pub phrase: usize,
    pub reset: bool,
    pub reroll: bool,
    pub long_press_fired: bool,
    pub fader_moved: bool,
    pub reverse_fade: u16,
    pub reverse_fade_up: bool,
    pub reload_pool: bool,
    pub pool: [u8; 16],
    pub step: usize,
    pub pending_on_at: Option<u32>,
    pub pending_note: Option<u8>,
    pub gate_off_at: Option<u32>,
    pub button: ArpButton,
}

/// Octave span of a fader position, as a spec.
pub open spec fn octaves_spec(value: u16) -> u8 {
    (1 + if value / 1024 > 3 { 3 } else { value / 1024 }) as u8
}

/// The highest note of the pool's range: `octaves` above the base, at most 127.
pub open spec fn hi_spec(lo: u8, octave: u16) -> u8 {
    clamp_note_spec(lo + octaves_spec(octave) * 12)
}

/// Density threshold of a texture.
pub open spec fn density_spec(t: u16) -> u16 {
    (820 + t as int * 3275 / 4095) as u16
}

/// Swing (ticks) of a texture.
pub open spec fn swing_spec(t: u16) -> u32 {
    (t as int * 2 / 4095) as u32
}

/// The pool after a reroll of its first `k` slots.
pub open spec fn rerolled(pool: [u8; 16], phrase_len: usize, lo: u8, hi: u8, rolls: [u16; 16], k: int) -> [u8; 16]
    decreases k,
{
    if k <= 0 {
        pool
    } else {
        vstd::array::spec_array_update(
            rerolled(pool, phrase_len, lo, hi, rolls, k - 1),
            k - 1,
            if k - 1 < phrase_len {
                reroll_note(lo, hi, rolls[k - 1]) as u8
            } else {
                lo
            },
        )
    }
}

/// The pool after one mutation attempt that went ahead.
pub open spec fn mutated_once(pool: [u8; 16], phrase_len: usize, lo: u8, hi: u8, pick: u16, first: u16, second: u16) -> [u8; 16] {
    if phrase_len == 0 {
        pool
    } else {
        let i = pick as int % phrase_len as int;
        vstd::array::spec_array_update(
            pool,
            i,
            clamp_u8(clamp_note_spec(pool[i] + levy_step(first, second)), lo, hi),
        )
    }
}

/// The mutations at a phrase start: while the rate `m` is positive, attempt
/// `k` goes ahead when its roll is below `m`, and `m` drops by 1024. Gives
/// the pool and whether it changed.
pub open spec fn mutate_walk(pool: [u8; 16], m: u16, k: int, phrase_len: usize, lo: u8, hi: u8, rolls: ArpRolls) -> ([u8; 16], bool)
    decreases m,
{
    if m == 0 || k < 0 || k >= 4 {
        (pool, false)
    } else {
        let (p1, c1) = if rolls.mutate_check[k] < m {
            (
                mutated_once(pool, phrase_len, lo, hi, rolls.mutate_pick[k], rolls.mutate_first[k], rolls.mutate_second[k]),
                true,
            )
        } else {
            (pool, false)
        };
        let next_m: u16 = if m < 1024 { 0 } else { (m - 1024) as u16 };
        let (p2, c2) = mutate_walk(p1, next_m, k + 1, phrase_len, lo, hi, rolls);
        (p2, c1 || c2)
    }
}

/// The arpeggiator's work so far in a tick: its state, the actions, and
/// whether the storage changed.
pub type ArpView = (ArpDeLevy, Seq<ArpAction>, bool);

/// Tick, preparation: the phrase follows the texture; a reload takes the
/// stored pool; a queued reroll rerolls the live notes within the range and
/// stores the pool.
pub open spec fn prepare_phase(e: ArpView, rolls: ArpRolls) -> ArpView {
    let s = e.0;
    let lo = s.lo;
    let hi = hi_spec(lo, s.octave);
    let phrase_len = phrase_for(s.texture as int) as usize;
    let s1 = ArpDeLevy {
        phrase: phrase_len,
        reload_pool: false,
        pool: if s.reload_pool { s.stored.pool } else { s.pool },
        ..s
    };
    if s1.reroll {
        let pool = rerolled(s1.pool, phrase_len, lo, hi, rolls.reroll, 16);
        (
            ArpDeLevy {
                reroll: false,
                pool: pool,
                stored: Storage { pool: pool, phrase_len: phrase_len as u8, ..s1.stored },
                ..s1
            },
            e.1,
            true,
        )
    } else {
        (s1, e.1, e.2)
    }
}

/// Tick, gate end: a gate whose time has come ends (note off, bottom LED off).
pub open spec fn gate_phase(e: ArpView, leds: Leds<1>, clkn: u32) -> ArpView {
    match e.0.gate_off_at {
        Some(off) => if clkn >= off {
            (
                ArpDeLevy { gate_off_at: None, ..e.0 },
                e.1 + seq![
                    ArpAction::NoteOffCurrent,
                    ArpAction::Led(
                        (
                            leds.device_channel(0) as usize,
                            Led::Bottom,
                            LedMsg::SetMode(LedMode::Static(e.0.led_color, Brightness::Off)),
                        ),
                    ),
                ],
                e.2,
            )
        } else {
            e
        },
        None => e,
    }
}

/// Tick, swung note: a delayed note whose time has come fires (unless
/// muted), with its gate ending half a step after its time.
pub open spec fn swing_phase(e: ArpView, clkn: u32) -> ArpView {
    match e.0.pending_on_at {
        Some(on_at) => if clkn >= on_at {
            match e.0.pending_note {
                Some(raw) => if !e.0.muted {
                    (
                        ArpDeLevy {
                            pending_note: None,
                            pending_on_at: None,
                            gate_off_at: Some((on_at + STEP_DIV / 2) as u32),
                            ..e.0
                        },
                        e.1.push(ArpAction::Fire(raw)),
                        e.2,
                    )
                } else {
                    (ArpDeLevy { pending_note: None, pending_on_at: None, ..e.0 }, e.1, e.2)
                },
                None => (ArpDeLevy { pending_on_at: None, ..e.0 }, e.1, e.2),
            }
        } else {
            e
        },
        None => e,
    }
}

/// Tick, on the step grid (every sixth tick): a pending reset restarts the
/// phrase; at the phrase start the pool mutates by the rate (and is stored
/// if it changed); the step's note is picked by the mode (the random mode
/// by its roll) and limited to the range; a hit (roll below the density,
/// not muted) fires it now or, on odd steps with swing, schedules it; on
/// the main layer the top LED shows the phrase progress; the step advances
/// and wraps at the phrase length.
pub open spec fn beat_phase(e: ArpView, leds: Leds<1>, clkn: u32, layer: LatchLayer, rolls: ArpRolls) -> ArpView {
    if clkn % STEP_DIV != 0 {
        e
    } else {
        beat_play(beat_prelude(e, rolls), leds, clkn, layer, rolls)
    }
}

/// The start of a step: a pending reset restarts the phrase; at the phrase
/// start the pool mutates by the rate and is stored if it changed.
pub open spec fn beat_prelude(e: ArpView, rolls: ArpRolls) -> ArpView {
    let s0 = e.0;
    let phrase_len = s0.phrase;
    let lo = s0.lo;
    let hi = hi_spec(lo, s0.octave);
    let s1 = if s0.reset {
        ArpDeLevy { reset: false, step: 0, ..s0 }
    } else {
        s0
    };
    if s1.step == 0 {
        let (p, changed) = mutate_walk(s1.pool, s1.mutation, 0, phrase_len, lo, hi, rolls);
        if changed {
            (
                ArpDeLevy { pool: p, stored: Storage { pool: p, phrase_len: phrase_len as u8, ..s1.stored }, ..s1 },
                e.1,
                true,
            )
        } else {
            (ArpDeLevy { pool: p, ..s1 }, e.1, e.2)
        }
    } else {
        (s1, e.1, e.2)
    }
}

/// The pool index a step plays: by the mode, or by the roll in random mode.
pub open spec fn step_index(s: ArpDeLevy, rolls: ArpRolls) -> int {
    let len1 = if s.phrase < 1 { 1 } else { s.phrase as int };
    if s.mode == MODE_RANDOM {
        rolls.random_idx as int % len1
    } else {
        pool_index_spec(s.step as int, s.phrase as int, s.mode, s.reversed)
    }
}

/// The rest of a step: the note is picked and limited to the range; a hit
/// fires it now or, on odd steps with swing, schedules it; on the main layer
/// the top LED shows the phrase progress; the step advances and wraps.
pub open spec fn beat_play(e: ArpView, leds: Leds<1>, clkn: u32, layer: LatchLayer, rolls: ArpRolls) -> ArpView {
    beat_advance(beat_led(beat_fire(e, step_note(e.0, rolls), clkn, rolls), leds, layer))
}

/// The note a step plays: the pool entry at the step's index, limited to the range.
pub open spec fn step_note(s: ArpDeLevy, rolls: ArpRolls) -> u8 {
    clamp_u8(s.pool[step_index(s, rolls)], s.lo, hi_spec(s.lo, s.octave))
}

/// A hit (roll below the texture's density, not muted) fires `raw` now,
/// or on odd steps with swing schedules it `swing` ticks later.
pub open spec fn beat_fire(e: ArpView, raw: u8, clkn: u32, rolls: ArpRolls) -> ArpView {
    let s = e.0;
    let swing = swing_spec(s.texture);
    if rolls.hit < density_spec(s.texture) && !s.muted {
        if swing > 0 && s.step % 2 == 1 {
            (ArpDeLevy { pending_on_at: Some((clkn + swing) as u32), pending_note: Some(raw), ..s }, e.1, e.2)
        } else {
            (ArpDeLevy { gate_off_at: Some((clkn + STEP_DIV / 2) as u32), ..s }, e.1.push(ArpAction::Fire(raw)), e.2)
        }
    } else {
        e
    }
}

/// The top LED showing how far the step is into the phrase.
pub open spec fn progress_action(s: ArpDeLevy, leds: Leds<1>) -> ArpAction {
    ArpAction::Led(
        (
            leds.device_channel(0) as usize,
            Led::Top,
            LedMsg::SetMode(
                LedMode::Static(
                    s.led_color,
                    Brightness::Custom(((s.step as int % s.phrase as int) * 255 / s.phrase as int) as u8),
                ),
            ),
        ),
    )
}

/// On the main layer the top LED shows how far the step is into the phrase.
pub open spec fn beat_led(e: ArpView, leds: Leds<1>, layer: LatchLayer) -> ArpView {
    if layer == LatchLayer::Main {
        (e.0, e.1.push(progress_action(e.0, leds)), e.2)
    } else {
        e
    }
}

/// The step advances, back to 0 at the end of the phrase.
pub open spec fn beat_advance(e: ArpView) -> ArpView {
    let s = e.0;
    let next = if s.step == usize::MAX { 0 } else { (s.step + 1) as usize };
    let next = if s.phrase > 0 && next % s.phrase == 0 { 0 } else { next };
    (ArpDeLevy { step: next, ..s }, e.1, e.2)
}

/// One clock tick of the arpeggiator.
pub open spec fn tick_spec(s: ArpDeLevy, leds: Leds<1>, clkn: u32, layer: LatchLayer, rolls: ArpRolls) -> ArpView {
    beat_phase(
        swing_phase(gate_phase(prepare_phase((s, Seq::empty(), false), rolls), leds, clkn), clkn),
        leds,
        clkn,
        layer,
        rolls,
    )
}

/// Whether every roll of the reroll is a die value (0 to 4095).
pub open spec fn reroll_rolls_ok(rolls: [u16; 16]) -> bool {
    forall|i: int| 0 <= i < 16 ==> #[trigger] rolls[i] <= 4095
}

impl ArpDeLevy {
    /// The invariant: base note and values within range, a phrase length
    /// the texture gives, scheduled ticks clear of the counter's end.
    pub open spec fn wf(&self) -> bool {
        &&& self.lo <= 127
        &&& self.mode < MODE_COUNT
        &&& self.mutation <= 4095
        &&& self.texture <= 4095
        &&& MIN_PHRASE <= self.phrase <= MAX_PHRASE
        &&& self.pending_on_at matches Some(t) ==> t <= u32::MAX - 3
    }

    fn prepare(&mut self, rolls: &ArpRolls, save: &mut bool)
        requires
            old(self).wf(),
            old(self).reroll ==> reroll_rolls_ok(rolls.reroll),
        ensures
            final(self).wf(),
            (*final(self), Seq::<ArpAction>::empty(), *final(save)) == prepare_phase((*old(self), Seq::empty(), *old(save)), *rolls),
    {
        let octaves = octaves_from_value(self.octave);
        let lo = self.lo;
        let hi = clamp_note(lo as i16 + (octaves as i16) * 12);
        let (_, phrase_len, _) = texture_from_value(self.texture);
        self.phrase = phrase_len;
        if self.reload_pool {
            self.pool = self.stored.pool;
        }
        self.reload_pool = false;
        if self.reroll {
            self.reroll = false;
            let ghost before = self.pool;
            reroll_pool(&mut self.pool, phrase_len, lo, hi, &rolls.reroll);
            proof {
                lemma_rerolled(before, phrase_len, lo, hi, rolls.reroll, 16);
                assert(self.pool =~= rerolled(before, phrase_len, lo, hi, rolls.reroll, 16));
            }
            self.stored.pool = self.pool;
            self.stored.phrase_len = phrase_len as u8;
            *save = true;
        }
    }

    fn end_gate(&mut self, leds: &Leds<1>, clkn: u32, out: &mut Vec<ArpAction>)
        requires
            old(self).wf(),
            leds.start_channel + 1 <= usize::MAX,
        ensures
            final(self).wf(),
            (*final(self), final(out)@, false) == gate_phase((*old(self), old(out)@, false), *leds, clkn),
    {
        if let Some(off) = self.gate_off_at {
            if clkn >= off {
                out.push(ArpAction::NoteOffCurrent);
                out.push(ArpAction::Led(leds.set(0, Led::Bottom, self.led_color, Brightness::Off)));
                self.gate_off_at = None;
            }
        }
    }

    fn fire_swung(&mut self, clkn: u32, out: &mut Vec<ArpAction>)
        requires
            old(self).wf(),
        ensures
            final(self).wf(),
            (*final(self), final(out)@, false) == swing_phase((*old(self), old(out)@, false), clkn),
    {
        if let Some(on_at) = self.pending_on_at {
            if clkn >= on_at {
                if let Some(raw) = self.pending_note {
                    self.pending_note = None;
                    if !self.muted {
                        out.push(ArpAction::Fire(raw));
                        self.gate_off_at = Some(on_at + STEP_DIV / 2);
                    }
                }
                self.pending_on_at = None;
            }
        }
    }

    fn mutate_at_phrase_start(&mut self, rolls: &ArpRolls, lo: u8, hi: u8) -> (changed: bool)
        requires
            old(self).wf(),
            lo <= hi,
        ensures
            final(self).wf(),
            (final(self).pool, changed) == mutate_walk(old(self).pool, old(self).mutation, 0, old(self).phrase, lo, hi, *rolls),
            *final(self) == (ArpDeLevy { pool: final(self).pool, ..*old(self) }),
    {
        let mut m = self.mutation;
        let mut k: usize = 0;
        let mut changed = false;
        let ghost start = self.pool;
        while m > 0
            invariant
                k <= 4,
                m == 0 || m as int + 1024 * k <= 4095,
                k == 0 ==> m == old(self).mutation,
                self.wf(),
                lo <= hi,
                *self == (ArpDeLevy { pool: self.pool, ..*old(self) }),
                mutate_walk(start, old(self).mutation, 0, old(self).phrase, lo, hi, *rolls) == ({
                    let (p, c) = mutate_walk(self.pool, m, k as int, old(self).phrase, lo, hi, *rolls);
                    (p, changed || c)
                }),
            decreases m,
        {
            let ghost pool_before = self.pool;
            let ghost m_before = m;
            if rolls.mutate_check[k] < m {
                mutate_pool(
                    &mut self.pool,
                    self.phrase,
                    lo,
                    hi,
                    rolls.mutate_pick[k],
                    rolls.mutate_first[k],
                    rolls.mutate_second[k],
                );
                changed = true;
            }
            proof {
                assert(self.pool == (if rolls.mutate_check[k as int] < m_before {
                    mutated_once(pool_before, old(self).phrase, lo, hi, rolls.mutate_pick[k as int], rolls.mutate_first[k as int], rolls.mutate_second[k as int])
                } else {
                    pool_before
                })) by {
                    if rolls.mutate_check[k as int] < m_before && old(self).phrase > 0 {
                        assert(self.pool =~= mutated_once(pool_before, old(self).phrase, lo, hi, rolls.mutate_pick[k as int], rolls.mutate_first[k as int], rolls.mutate_second[k as int]));
                    }
                }
            }
            m = if m < 1024 {
                0
            } else {
                m - 1024
            };
            k += 1;
        }
        changed
    }
}

impl ArpDeLevy {
    fn beat_start(&mut self, rolls: &ArpRolls, save: &mut bool)
        requires
            old(self).wf(),
        ensures
            final(self).wf(),
            forall|x: Seq<ArpAction>| #![trigger beat_prelude((*old(self), x, *old(save)), *rolls)]
                (*final(self), x, *final(save)) == beat_prelude((*old(self), x, *old(save)), *rolls),
    {
        let phrase_len = self.phrase;
        let octaves = octaves_from_value(self.octave);
        let lo = self.lo;
        let hi = clamp_note(lo as i16 + (octaves as i16) * 12);
        if self.reset {
            self.reset = false;
            self.step = 0;
        }
        if self.step == 0 {
            let changed = self.mutate_at_phrase_start(rolls, lo, hi);
            if changed {
                self.stored.pool = self.pool;
                self.stored.phrase_len = phrase_len as u8;
                *save = true;
            }
        }
    }

    fn beat(&mut self, leds: &Leds<1>, clkn: u32, layer: LatchLayer, rolls: &ArpRolls, out: &mut Vec<ArpAction>, save: &mut bool)
        requires
            old(self).wf(),
            leds.start_channel + 1 <= usize::MAX,
            clkn <= u32::MAX - 8,
        ensures
            final(self).wf(),
            (*final(self), final(out)@, *final(save)) == beat_phase((*old(self), old(out)@, *old(save)), *leds, clkn, layer, *rolls),
    {
        if clkn % STEP_DIV != 0 {
            return;
        }
        let ghost e0 = (*self, out@, *save);
        self.beat_start(rolls, save);
        let ghost e1 = (*self, out@, *save);
        assert(e1 == beat_prelude(e0, *rolls));
        self.beat_rest(leds, clkn, layer, rolls, out);
        proof {
            lemma_beat_play_keeps_save(e1.0, e1.1, *save, *leds, clkn, layer, *rolls);
        }
    }

    fn pick_raw(&self, rolls: &ArpRolls) -> (raw: u8)
        requires
            self.wf(),
        ensures
            raw == step_note(*self, *rolls),
    {
        let phrase_len = self.phrase;
        let octaves = octaves_from_value(self.octave);
        let lo = self.lo;
        let hi = clamp_note(lo as i16 + (octaves as i16) * 12);
        let idx = if self.mode == MODE_RANDOM {
            (rolls.random_idx as usize) % phrase_len
        } else {
            pool_index(self.step, phrase_len, self.mode, self.reversed)
        };
        let note = self.pool[idx];
        if note < lo {
            lo
        } else if note > hi {
            hi
        } else {
            note
        }
    }

    fn progress_led(&self, leds: &Leds<1>) -> (r: ArpAction)
        requires
            self.wf(),
            leds.start_channel + 1 <= usize::MAX,
        ensures
            r == progress_action(*self, *leds),
    {
        let len = self.phrase;
        let rem = self.step % len;
        assert(rem * 255 / (len as int) <= 255) by (nonlinear_arith)
            requires
                len >= 1,
                rem < len,
        ;
        let b = (rem * 255 / len) as u8;
        ArpAction::Led(leds.set(0, Led::Top, self.led_color, Brightness::Custom(b)))
    }

    fn fire_step(&mut self, raw: u8, clkn: u32, rolls: &ArpRolls, out: &mut Vec<ArpAction>)
        requires
            old(self).wf(),
            clkn <= u32::MAX - 8,
        ensures
            final(self).wf(),
            (*final(self), final(out)@, false) == beat_fire((*old(self), old(out)@, false), raw, clkn, *rolls),
    {
        let (density, _, swing) = texture_from_value(self.texture);
        if rolls.hit < density && !self.muted {
            if swing > 0 && self.step % 2 == 1 {
                self.pending_on_at = Some(clkn + swing);
                self.pending_note = Some(raw);
            } else {
                out.push(ArpAction::Fire(raw));
                self.gate_off_at = Some(clkn + STEP_DIV / 2);
            }
        }
    }

    fn advance_step(&mut self)
        requires
            old(self).wf(),
        ensures
            final(self).wf(),
            *final(self) == beat_advance((*old(self), Seq::empty(), false)).0,
    {
        let next = if self.step == usize::MAX {
            0
        } else {
            self.step + 1
        };
        self.step = if next % self.phrase == 0 {
            0
        } else {
            next
        };
    }

    fn beat_rest(&mut self, leds: &Leds<1>, clkn: u32, layer: LatchLayer, rolls: &ArpRolls, out: &mut Vec<ArpAction>)
        requires
            old(self).wf(),
            leds.start_channel + 1 <= usize::MAX,
            clkn <= u32::MAX - 8,
        ensures
            final(self).wf(),
            (*final(self), final(out)@, false) == beat_play((*old(self), old(out)@, false), *leds, clkn, layer, *rolls),
    {
        let raw = self.pick_raw(rolls);
        let ghost e0 = (*self, out@, false);
        self.fire_step(raw, clkn, rolls, out);
        let ghost e1 = (*self, out@, false);
        assert(e1 == beat_fire(e0, step_note(e0.0, *rolls), clkn, *rolls));
        if layer == LatchLayer::Main {
            let led = self.progress_led(leds);
            out.push(led);
        }
        let ghost e2 = (*self, out@, false);
        assert(e2 == beat_led(e1, *leds, layer));
        self.advance_step();
        assert((*self, out@, false) == beat_advance(e2));
    }

    /// One clock tick at count `clkn` on fader layer `layer`, with this
    /// tick's rolls of the die. Returns the device work, in order, and
    /// whether to save the storage.
    #[verifier::rlimit(40)]
    pub fn on_tick(&mut self, leds: &Leds<1>, clkn: u32, layer: LatchLayer, rolls: &ArpRolls) -> (r: (Vec<ArpAction>, bool))
        requires
            old(self).wf(),
            leds.start_channel + 1 <= usize::MAX,
            clkn <= u32::MAX - 8,
            old(self).reroll ==> reroll_rolls_ok(rolls.reroll),
        ensures
            final(self).wf(),
            (*final(self), r.0@, r.1) == tick_spec(*old(self), *leds, clkn, layer, *rolls),
    {
        let mut out: Vec<ArpAction> = Vec::new();
        let mut save = false;
        self.prepare(rolls, &mut save);
        let ghost s1 = *self;
        let ghost save1 = save;
        self.end_gate(leds, clkn, &mut out);
        proof {
            assert(gate_phase((s1, Seq::<ArpAction>::empty(), save1), *leds, clkn) == (*self, out@, save1));
        }
        let ghost s2 = *self;
        let ghost out2 = out@;
        self.fire_swung(clkn, &mut out);
        proof {
            assert(swing_phase((s2, out2, save1), clkn) == (*self, out@, save1));
        }
        self.beat(leds, clkn, layer, rolls, &mut out, &mut save);
        (out, save)
    }
}

#[verifier::spinoff_prover]
#[verifier::rlimit(40)]
proof fn lemma_beat_play_keeps_save(s: ArpDeLevy, x: Seq<ArpAction>, b: bool, leds: Leds<1>, clkn: u32, layer: LatchLayer, rolls: ArpRolls)
    ensures
        beat_play((s, x, b), leds, clkn, layer, rolls) == ({
            let r = beat_play((s, x, false), leds, clkn, layer, rolls);
            (r.0, r.1, b)
        }),
{
}

proof fn lemma_rerolled(pool: [u8; 16], phrase_len: usize, lo: u8, hi: u8, rolls: [u16; 16], k: int)
    requires
        0 <= k <= 16,
    ensures
        forall|i: int| 0 <= i < 16 ==> #[trigger] rerolled(pool, phrase_len, lo, hi, rolls, k)[i] == if i < k {
            if i < phrase_len {
                reroll_note(lo, hi, rolls[i]) as u8
            } else {
                lo
            }
        } else {
            pool[i]
        },
    decreases k,
{
    if k > 0 {
        lemma_rerolled(pool, phrase_len, lo, hi, rolls, k - 1);
        let prev = rerolled(pool, phrase_len, lo, hi, rolls, k - 1);
        let v: u8 = if k - 1 < phrase_len {
            reroll_note(lo, hi, rolls[k - 1]) as u8
        } else {
            lo
        };
        let cur = rerolled(pool, phrase_len, lo, hi, rolls, k);
        assert(cur == vstd::array::spec_array_update(prev, k - 1, v));
        assert(cur@ == prev@.update(k - 1, v));
        assert forall|i: int| 0 <= i < 16 implies #[trigger] cur[i] == if i < k {
            if i < phrase_len {
                reroll_note(lo, hi, rolls[i]) as u8
            } else {
                lo
            }
        } else {
            pool[i]
        } by {
            if i != k - 1 {
                assert(cur[i] == prev[i]);
            }
        }
    }
}

/// The button light of a mode: dark while muted, the mode's color otherwise.
pub open spec fn button_light(leds: Leds<1>, muted: bool, mode: u8, led_color: Color) -> ArpAction {
    if muted {
        ArpAction::Led((leds.device_channel(0) as usize, Led::Button, LedMsg::Reset))
    } else {
        ArpAction::Led(
            (
                leds.device_channel(0) as usize,
                Led::Button,
                LedMsg::SetMode(LedMode::Static(mode_color_spec(mode, led_color), LED_BRIGHTNESS)),
            ),
        )
    }
}

/// Color of an arpeggio mode.
pub open spec fn mode_color_spec(mode: u8, led_color: Color) -> Color {
    if mode == MODE_DOWN {
        Color::Orange
    } else if mode == MODE_UP_DOWN {
        Color::Yellow
    } else if mode == MODE_DOWN_UP {
        Color::Lime
    } else if mode == MODE_RANDOM {
        Color::Red
    } else if mode == MODE_CONVERGE {
        Color::Pink
    } else {
        led_color
    }
}

/// Whether stored fader positions are within the faders' 12-bit range.
pub open spec fn storage_ok(st: Storage) -> bool {
    st.fader_saved <= 4095 && st.shift_fader_saved <= 4095 && st.octave_saved <= 4095
}

impl ArpDeLevy {
    fn button_led(&self, leds: &Leds<1>) -> (r: ArpAction)
        requires
            leds.start_channel + 1 <= usize::MAX,
        ensures
            r == button_light(*leds, self.muted, self.mode, self.led_color),
    {
        if self.muted {
            ArpAction::Led(leds.unset(0, Led::Button))
        } else {
            ArpAction::Led(leds.set(0, Led::Button, mode_color(self.mode, self.led_color), LED_BRIGHTNESS))
        }
    }

    /// The arpeggiator as `run` starts it from the base note (at most 127),
    /// its color and its storage, with the start-up work: the base note and
    /// every pool note are stopped, the CV goes to 0, and the button shows
    /// the mode (dark when muted).
    pub fn new(leds: &Leds<1>, base_note: u8, led_color: Color, stored: Storage) -> (r: (Self, Vec<ArpAction>))
        requires
            base_note <= 127,
            storage_ok(stored),
            leds.start_channel + 1 <= usize::MAX,
        ensures
            r.0.wf(),
            r.0.lo == base_note && r.0.led_color == led_color && r.0.stored == stored,
            r.0.muted == stored.muted && r.0.reversed == stored.reversed,
            r.0.mode == if stored.mode > MODE_COUNT - 1 { (MODE_COUNT - 1) as u8 } else { stored.mode },
            r.0.mutation == stored.fader_saved && r.0.texture == stored.shift_fader_saved,
            r.0.octave == stored.octave_saved,
            r.0.phrase == phrase_for(stored.shift_fader_saved as int),
            r.0.pool == stored.pool,
            r.0.step == 0 && r.0.pending_on_at is None && r.0.pending_note is None && r.0.gate_off_at is None,
            !r.0.reset && !r.0.reroll && !r.0.long_press_fired && !r.0.fader_moved && !r.0.reload_pool,
            r.0.reverse_fade == 0 && r.0.button == ArpButton::Idle,
            r.1@ == seq![ArpAction::NoteOff(base_note)] + stored.pool@.map_values(|n: u8| ArpAction::NoteOff(n))
                + seq![ArpAction::CvZero, button_light(*leds, r.0.muted, r.0.mode, led_color)],
    {
        let mode = if stored.mode > MODE_COUNT - 1 {
            MODE_COUNT - 1
        } else {
            stored.mode
        };
        let (_, phrase, _) = texture_from_value(stored.shift_fader_saved);
        let arp = ArpDeLevy {
            lo: base_note,
            led_color,
            stored,
            muted: stored.muted,
            reversed: stored.reversed,
            mode,
            mutation: stored.fader_saved,
            texture: stored.shift_fader_saved,
            octave: stored.octave_saved,
            phrase,
            reset: false,
            reroll: false,
            long_press_fired: false,
            fader_moved: false,
            reverse_fade: 0,
            reverse_fade_up: false,
            reload_pool: false,
            pool: stored.pool,
            step: 0,
            pending_on_at: None,
            pending_note: None,
            gate_off_at: None,
            button: ArpButton::Idle,
        };
        let mut out: Vec<ArpAction> = Vec::new();
        out.push(ArpAction::NoteOff(base_note));
        let mut i: usize = 0;
        while i < 16
            invariant
                i <= 16,
                out@ == seq![ArpAction::NoteOff(base_note)] + stored.pool@.take(i as int).map_values(|n: u8| ArpAction::NoteOff(n)),
            decreases 16 - i,
        {
            out.push(ArpAction::NoteOff(stored.pool[i]));
            assert(stored.pool@.take(i as int + 1).map_values(|n: u8| ArpAction::NoteOff(n)) =~= stored.pool@.take(i as int).map_values(|n: u8| ArpAction::NoteOff(n)).push(ArpAction::NoteOff(stored.pool@[i as int])));
            i += 1;
        }
        assert(stored.pool@.take(16) =~= stored.pool@);
        out.push(ArpAction::CvZero);
        out.push(arp.button_led(leds));
        (arp, out)
    }

    /// Clock stop or reset: the note sounding stops, scheduled notes and
    /// gates are dropped, the phrase restarts, the CV goes to 0 and the
    /// top and bottom LEDs go dark.
    pub fn on_clock_stop(&mut self, leds: &Leds<1>) -> (r: Vec<ArpAction>)
        requires
            old(self).wf(),
            leds.start_channel + 1 <= usize::MAX,
        ensures
            final(self).wf(),
            *final(self) == (ArpDeLevy {
                pending_on_at: None,
                pending_note: None,
                gate_off_at: None,
                step: 0,
                reset: false,
                ..*old(self)
            }),
            r@ == seq![
                ArpAction::NoteOffCurrent,
                ArpAction::CvZero,
                ArpAction::Led((leds.device_channel(0) as usize, Led::Top, LedMsg::Reset)),
                ArpAction::Led((leds.device_channel(0) as usize, Led::Bottom, LedMsg::Reset)),
            ],
    {
        self.pending_on_at = None;
        self.pending_note = None;
        self.gate_off_at = None;
        self.step = 0;
        self.reset = false;
        let mut out: Vec<ArpAction> = Vec::new();
        out.push(ArpAction::NoteOffCurrent);
        out.push(ArpAction::CvZero);
        out.push(ArpAction::Led(leds.unset(0, Led::Top)));
        out.push(ArpAction::Led(leds.unset(0, Led::Bottom)));
        out
    }

    /// A press of the button (with shift or not); the release decides.
    pub fn on_button_down(&mut self, shift: bool)
        ensures
            shift ==> *final(self) == (ArpDeLevy { long_press_fired: false, button: ArpButton::ShiftPress, ..*old(self) }),
            !shift ==> *final(self) == (ArpDeLevy {
                long_press_fired: false,
                fader_moved: false,
                button: ArpButton::Press,
                ..*old(self)
            }),
    {
        self.long_press_fired = false;
        if shift {
            self.button = ArpButton::ShiftPress;
        } else {
            self.fader_moved = false;
            self.button = ArpButton::Press;
        }
    }

    /// Release of the button. A short shift press reverses (saved, with a
    /// white fade up when now forward, down when now reversed); a short
    /// press queues a reroll from the phrase start; a long press with no
    /// fader move toggles mute (saved; muting stops the base note and darkens
    /// button and bottom, unmuting shows the mode). Returns the work and
    /// whether to save.
    pub fn on_button_up(&mut self, leds: &Leds<1>) -> (r: (Vec<ArpAction>, bool))
        requires
            leds.start_channel + 1 <= usize::MAX,
        ensures
            old(self).button == ArpButton::ShiftPress && !old(self).long_press_fired ==> r.1 && r.0@.len() == 0
                && *final(self) == reversed_by_press(*old(self)),
            old(self).button == ArpButton::Press && !old(self).long_press_fired ==> !r.1 && r.0@.len() == 0
                && *final(self) == (ArpDeLevy { reroll: true, reset: true, button: ArpButton::Idle, ..*old(self) }),
            old(self).button == ArpButton::Press && old(self).long_press_fired && !old(self).fader_moved ==> r.1 && {
                let muted = !old(self).muted;
                &&& *final(self) == (ArpDeLevy {
                    muted: muted,
                    stored: Storage { muted: muted, ..old(self).stored },
                    button: ArpButton::Idle,
                    ..*old(self)
                })
                &&& r.0@ == if muted {
                    seq![
                        ArpAction::NoteOff(old(self).lo),
                        ArpAction::Led((leds.device_channel(0) as usize, Led::Button, LedMsg::Reset)),
                        ArpAction::Led((leds.device_channel(0) as usize, Led::Bottom, LedMsg::Reset)),
                    ]
                } else {
                    seq![button_light(*leds, false, old(self).mode, old(self).led_color)]
                }
            },
            (old(self).button == ArpButton::Idle || (old(self).button == ArpButton::ShiftPress && old(self).long_press_fired)
                || (old(self).button == ArpButton::Press && old(self).long_press_fired && old(self).fader_moved)) ==> !r.1
                && r.0@.len() == 0 && *final(self) == (ArpDeLevy { button: ArpButton::Idle, ..*old(self) }),
    {
        let mut out: Vec<ArpAction> = Vec::new();
        let hold = self.button;
        self.button = ArpButton::Idle;
        match hold {
            ArpButton::ShiftPress => {
                if self.long_press_fired {
                    return (out, false);
                }
                let reversed = !self.reversed;
                self.reversed = reversed;
                self.stored.reversed = reversed;
                self.reverse_fade_up = !reversed;
                self.reverse_fade = REVERSE_FADE_MS;
                (out, true)
            },
            ArpButton::Press => {
                if !self.long_press_fired {
                    self.reroll = true;
                    self.reset = true;
                    (out, false)
                } else if !self.fader_moved {
                    let muted = !self.muted;
                    self.muted = muted;
                    self.stored.muted = muted;
                    if muted {
                        out.push(ArpAction::NoteOff(self.lo));
                        out.push(ArpAction::Led(leds.unset(0, Led::Button)));
                        out.push(ArpAction::Led(leds.unset(0, Led::Bottom)));
                    } else {
                        out.push(self.button_led(leds));
                        assert(out@ =~= seq![button_light(*leds, false, old(self).mode, old(self).led_color)]);
                    }
                    (out, true)
                } else {
                    (out, false)
                }
            },
            ArpButton::Idle => (out, false),
        }
    }

    /// A long press: with shift the arpeggio mode advances (saved; the
    /// button shows it unless muted). Returns the work and whether to save.
    pub fn on_long_press(&mut self, leds: &Leds<1>, shift: bool) -> (r: (Vec<ArpAction>, bool))
        requires
            old(self).wf(),
            leds.start_channel + 1 <= usize::MAX,
        ensures
            final(self).wf(),
            !shift ==> !r.1 && r.0@.len() == 0 && *final(self) == (ArpDeLevy { long_press_fired: true, ..*old(self) }),
            shift ==> r.1 && *final(self) == mode_advanced(*old(self)) && r.0@ == if old(self).muted {
                Seq::<ArpAction>::empty()
            } else {
                seq![button_light(*leds, false, final(self).mode, old(self).led_color)]
            },
    {
        let mut out: Vec<ArpAction> = Vec::new();
        self.long_press_fired = true;
        if !shift {
            return (out, false);
        }
        let mode = (self.mode + 1) % MODE_COUNT;
        self.mode = mode;
        self.stored.mode = mode;
        if !self.muted {
            out.push(self.button_led(leds));
            assert(out@ =~= seq![button_light(*leds, false, mode, old(self).led_color)]);
        }
        (out, true)
    }

    /// Where the fader's latch picks up on `layer`: the stored mutation
    /// rate, the stored texture, or the middle of the current octave zone.
    pub fn latch_target(&self, layer: LatchLayer) -> (r: u16)
        ensures
            r == match layer {
                LatchLayer::Main => self.stored.fader_saved,
                LatchLayer::Alt => self.stored.shift_fader_saved,
                LatchLayer::Third => ((octaves_spec(self.octave) - 1) * 1024 + 512) as u16,
            },
    {
        match layer {
            LatchLayer::Main => self.stored.fader_saved,
            LatchLayer::Alt => self.stored.shift_fader_saved,
            LatchLayer::Third => {
                let oct = octaves_from_value(self.octave) - 1;
                oct as u16 * 1024 + 512
            },
        }
    }

    /// The fader moved on `layer`; `taken` is the latch's new value, if it
    /// took one (a 12-bit fader value). On the third layer any move counts
    /// as a fader move. A value sets the mutation rate, the texture (and its
    /// phrase length) or the octave span, and is saved. Returns whether to save.
    pub fn on_fader(&mut self, layer: LatchLayer, taken: Option<u16>) -> (save: bool)
        requires
            old(self).wf(),
            taken matches Some(v) ==> v <= 4095,
        ensures
            final(self).wf(),
            save == taken is Some,
            taken is None ==> *final(self) == (ArpDeLevy {
                fader_moved: if layer == LatchLayer::Third { true } else { old(self).fader_moved },
                ..*old(self)
            }),
            taken matches Some(v) ==> *final(self) == match layer {
                LatchLayer::Main => ArpDeLevy {
                    mutation: v,
                    stored: Storage { fader_saved: v, ..old(self).stored },
                    ..*old(self)
                },
                LatchLayer::Alt => ArpDeLevy {
                    texture: v,
                    phrase: phrase_for(v as int) as usize,
                    stored: Storage {
                        shift_fader_saved: v,
                        phrase_len: phrase_for(v as int) as u8,
                        ..old(self).stored
                    },
                    ..*old(self)
                },
                LatchLayer::Third => ArpDeLevy {
                    fader_moved: true,
                    octave: v,
                    stored: Storage { octave_saved: v, ..old(self).stored },
                    ..*old(self)
                },
            },
    {
        if layer == LatchLayer::Third {
            self.fader_moved = true;
        }
        match taken {
            None => false,
            Some(v) => {
                match layer {
                    LatchLayer::Main => {
                        self.mutation = v;
                        self.stored.fader_saved = v;
                    },
                    LatchLayer::Alt => {
                        self.texture = v;
                        let (_, phrase, _) = texture_from_value(v);
                        self.phrase = phrase;
                        self.stored.shift_fader_saved = v;
                        self.stored.phrase_len = phrase as u8;
                    },
                    LatchLayer::Third => {
                        self.octave = v;
                        self.stored.octave_saved = v;
                    },
                }
                true
            },
        }
    }

    /// A scene was loaded: the arpeggiator takes its faders, mute, direction
    /// and mode (limited), the phrase length of its texture, cancels a queued
    /// reroll, reloads the pool and restarts the phrase at the next step; the
    /// base note stops and the button goes dark when muted, else shows the mode.
    pub fn on_scene_load(&mut self, leds: &Leds<1>, stored: Storage) -> (r: Vec<ArpAction>)
        requires
            old(self).wf(),
            storage_ok(stored),
            leds.start_channel + 1 <= usize::MAX,
        ensures
            final(self).wf(),
            *final(self) == (ArpDeLevy {
                stored: stored,
                mutation: stored.fader_saved,
                texture: stored.shift_fader_saved,
                octave: stored.octave_saved,
                muted: stored.muted,
                reversed: stored.reversed,
                mode: if stored.mode > MODE_COUNT - 1 { (MODE_COUNT - 1) as u8 } else { stored.mode },
                phrase: phrase_for(stored.shift_fader_saved as int) as usize,
                reroll: false,
                reload_pool: true,
                reset: true,
                ..*old(self)
            }),
            r@ == if stored.muted {
                seq![
                    ArpAction::NoteOff(old(self).lo),
                    ArpAction::Led((leds.device_channel(0) as usize, Led::Button, LedMsg::Reset)),
                ]
            } else {
                seq![button_light(*leds, false, final(self).mode, old(self).led_color)]
            },
    {
        self.stored = stored;
        self.mutation = stored.fader_saved;
        self.texture = stored.shift_fader_saved;
        self.octave = stored.octave_saved;
        self.muted = stored.muted;
        self.reversed = stored.reversed;
        self.mode = if stored.mode > MODE_COUNT - 1 {
            MODE_COUNT - 1
        } else {
            stored.mode
        };
        let (_, phrase, _) = texture_from_value(stored.shift_fader_saved);
        self.phrase = phrase;
        self.reroll = false;
        self.reload_pool = true;
        self.reset = true;
        let mut out: Vec<ArpAction> = Vec::new();
        if stored.muted {
            out.push(ArpAction::NoteOff(self.lo));
            out.push(ArpAction::Led(leds.unset(0, Led::Button)));
        } else {
            out.push(self.button_led(leds));
            assert(out@ =~= seq![button_light(*leds, false, self.mode, old(self).led_color)]);
        }
        out
    }

    /// One millisecond of the LED loop: on the texture layer the top LED
    /// shows the texture in orange, on the octave layer it shows the span's
    /// color; while the reverse gesture's fade runs, the button shows white
    /// at the fade's level, one step nearer the end each time, and shows the
    /// mode again (dark when muted) when it ends.
    pub fn on_frame(&mut self, leds: &Leds<1>, layer: LatchLayer) -> (r: Vec<ArpAction>)
        requires
            leds.start_channel + 1 <= usize::MAX,
        ensures
            *final(self) == (ArpDeLevy {
                reverse_fade: if old(self).reverse_fade > 0 { (old(self).reverse_fade - 1) as u16 } else { 0 },
                ..*old(self)
            }),
            r@ == layer_light(*leds, layer, old(self).texture, old(self).octave) + if old(self).reverse_fade > 0 {
                seq![ArpAction::Led(
                    (
                        leds.device_channel(0) as usize,
                        Led::Button,
                        LedMsg::SetMode(LedMode::Static(
                            Color::White,
                            Brightness::Custom(fade_level(old(self).reverse_fade, old(self).reverse_fade_up)),
                        )),
                    ),
                )] + if old(self).reverse_fade == 1 {
                    seq![button_light(*leds, old(self).muted, old(self).mode, old(self).led_color)]
                } else {
                    Seq::empty()
                }
            } else {
                Seq::empty()
            },
    {
        let mut out: Vec<ArpAction> = Vec::new();
        match layer {
            LatchLayer::Alt => {
                out.push(ArpAction::Led(leds.set(0, Led::Top, Color::Orange, Brightness::Custom((self.texture / 16) as u8))));
            },
            LatchLayer::Third => {
                let oct = octaves_from_value(self.octave) - 1;
                out.push(ArpAction::Led(leds.set(0, Led::Top, OCT_COLORS[oct as usize], Brightness::High)));
            },
            LatchLayer::Main => {},
        }
        let ghost lit = out@;
        let fade_left = self.reverse_fade;
        if fade_left > 0 {
            let elapsed = REVERSE_FADE_MS.saturating_sub(fade_left);
            let bright: u8 = if self.reverse_fade_up {
                ((elapsed as u32 * 255) / REVERSE_FADE_MS as u32) as u8
            } else {
                (((REVERSE_FADE_MS - elapsed) as u32 * 255) / REVERSE_FADE_MS as u32) as u8
            };
            out.push(ArpAction::Led(leds.set(0, Led::Button, Color::White, Brightness::Custom(bright))));
            let next = fade_left - 1;
            self.reverse_fade = next;
            if next == 0 {
                out.push(self.button_led(leds));
            }
        }
        proof {
            if fade_left > 0 {
                if fade_left == 1 {
                    assert(out@ =~= lit + seq![out@[lit.len() as int], out@[lit.len() + 1int]]);
                } else {
                    assert(out@ =~= lit + seq![out@[lit.len() as int]]);
                }
            } else {
                assert(out@ =~= lit);
            }
        }
        out
    }
}

/// What the top LED shows on a latch layer: the texture in orange (its
/// level the texture over 16) on the shift layer, the color of the octave
/// span on the button layer, nothing on the main layer.
pub open spec fn layer_light(leds: Leds<1>, layer: LatchLayer, texture: u16, octave: u16) -> Seq<ArpAction> {
    match layer {
        LatchLayer::Alt => seq![ArpAction::Led(
            (
                leds.device_channel(0) as usize,
                Led::Top,
                LedMsg::SetMode(LedMode::Static(Color::Orange, Brightness::Custom((texture / 16) as u8))),
            ),
        )],
        LatchLayer::Third => seq![ArpAction::Led(
            (
                leds.device_channel(0) as usize,
                Led::Top,
                LedMsg::SetMode(LedMode::Static(OCT_COLORS[octaves_spec(octave) - 1], Brightness::High)),
            ),
        )],
        LatchLayer::Main => Seq::empty(),
    }
}

/// Level of the button while the reverse fade has `fade_left` milliseconds
/// to run: rising from dark to full over the fade when `up`, falling otherwise.
pub open spec fn fade_level(fade_left: u16, up: bool) -> u8 {
    let elapsed: int = if fade_left >= REVERSE_FADE_MS { 0 } else { REVERSE_FADE_MS - fade_left };
    if up {
        (elapsed * 255 / (REVERSE_FADE_MS as int)) as u8
    } else {
        ((REVERSE_FADE_MS - elapsed) * 255 / (REVERSE_FADE_MS as int)) as u8
    }
}

/// The arpeggiator after a short press with shift: direction flipped (and
/// kept), the fade set to run up when now forward and down when reversed.
pub open spec fn reversed_by_press(s: ArpDeLevy) -> ArpDeLevy {
    ArpDeLevy {
        reversed: !s.reversed,
        stored: Storage { reversed: !s.reversed, ..s.stored },
        reverse_fade_up: s.reversed,
        reverse_fade: REVERSE_FADE_MS,
        button: ArpButton::Idle,
        ..s
    }
}

/// The arpeggiator after a long press with shift: the next mode, kept.
pub open spec fn mode_advanced(s: ArpDeLevy) -> ArpDeLevy {
    let mode = ((s.mode + 1) % (MODE_COUNT as int)) as u8;
    ArpDeLevy { long_press_fired: true, mode: mode, stored: Storage { mode: mode, ..s.stored }, ..s }
}

/// Two short presses with shift leave the arpeggio playing, and kept, in
/// the direction it had, with all else but the fade as it was.
pub proof fn law_reverse_twice(s: ArpDeLevy)
    ensures
        ({
            let t = reversed_by_press(reversed_by_press(s));
            &&& t.reversed == s.reversed
            &&& t.stored == Storage { reversed: s.reversed, ..s.stored }
            &&& t == ArpDeLevy {
                stored: t.stored,
                reverse_fade_up: !s.reversed,
                reverse_fade: REVERSE_FADE_MS,
                button: ArpButton::Idle,
                ..s
            }
        }),
{
}

/// Six long presses with shift go through every mode and back to the one
/// the arpeggiator started in.
pub proof fn law_mode_cycle(s: ArpDeLevy)
    requires
        s.mode < MODE_COUNT,
    ensures
        mode_advanced(mode_advanced(mode_advanced(mode_advanced(mode_advanced(mode_advanced(s)))))).mode == s.mode,
        mode_advanced(mode_advanced(mode_advanced(mode_advanced(mode_advanced(mode_advanced(s)))))).stored.mode == s.mode,
{
}

} // verus!
