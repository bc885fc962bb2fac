//! Sequencer: four 16-step CV/gate sequences on eight faders, two pages
//! per sequence, with per-track length, gate length, octave, range and
//! clock resolution on the shift layer.

use vstd::prelude::*;

use crate::storage::AppStorage;
use crate::storage::Arr;
use crate::app::{LedRequest, Leds};
use crate::types::{Brightness, Color, LatchLayer, Led, LedMode, LedMsg};

verus! {

/// Channels of the sequencer.
pub const CHANNELS: usize = 8;
/// Clock ticks per step for each resolution choice.
pub const RESOLUTION: [usize; 8] = [24, 16, 12, 8, 6, 4, 3, 2];

/// What the sequencer keeps: the steps and the shift-layer fader positions.
#[derive(Clone, Copy)]
pub struct Storage {
    pub seq: Arr<u16, 64>,
    pub gateseq: Arr<bool, 64>,
    pub legato_seq: Arr<bool, 64>,
    /// Track length: `value / 256 + 1` steps.
    pub length_fader: [u16; 4],
    /// Gate length as a share of the step.
    pub gate_fader: [u16; 4],
    /// Octave: `value / 1000`.
    pub oct_fader: [u16; 4],
    /// Range: `value / 1000 + 1` octaves.
    pub range_fader: [u16; 4],
    /// Resolution choice: `value / 512`.
    pub res_fader: [u16; 4],
}

impl Default for Storage {
    /// Silent steps with gates on, 16 steps, long gates, octave 0, range 3,
    /// sixteenth notes.
    fn default() -> (r: Self)
        ensures
            forall|i: int| 0 <= i < 64 ==> #[trigger] r.seq.0[i] == 0u16 && r.gateseq.0[i] && !r.legato_seq.0[i],
            forall|n: int| 0 <= n < 4 ==> #[trigger] r.length_fader[n] == 3840u16 && r.gate_fader[n] == 2032u16
                && r.oct_fader[n] == 0u16 && r.range_fader[n] == 2000u16 && r.res_fader[n] == 2048u16,
    {
        Storage {
            seq: Arr::new([0; 64]),
            gateseq: Arr::new([true; 64]),
            legato_seq: Arr::new([false; 64]),
            length_fader: [3840; 4],
            gate_fader: [2032; 4],
            oct_fader: [0; 4],
            range_fader: [2000; 4],
            res_fader: [2048; 4],
        }
    }
}

impl AppStorage for Storage {}

/// Steps of a track for a length-fader position, kept to eight bits.
pub open spec fn seq_length_of(length: u16) -> u8 {
    ((length / 256 + 1) % 256) as u8
}

/// Gate length in ticks for a step of `clockres` ticks: its gate fader's
/// share of the step (kept to eight bits), at least one tick and at most one tick short of the step.
pub open spec fn gate_length_of(clockres: usize, gate: u16) -> u8 {
    let g = ((clockres * gate / 4096) % 256) as u8;
    let hi = (clockres as u8 - 1) as u8;
    if g < 1 {
        1
    } else if g > hi {
        hi
    } else {
        g
    }
}

fn gate_length(clockres: usize, gate: u16) -> (r: u8)
    requires
        2 <= clockres <= 255,
    ensures
        r == gate_length_of(clockres, gate),
        1 <= r < clockres,
{
    assert(clockres * gate as usize <= 255 * 65535) by (nonlinear_arith)
        requires
            clockres <= 255,
    ;
    let g = ((clockres * (gate as usize) / 4096) % 256) as u8;
    let hi = clockres as u8 - 1;
    if g < 1 {
        1
    } else if g > hi {
        hi
    } else {
        g
    }
}

/// Whether every resolution is a usable step length (2..=255 ticks).
pub open spec fn resolutions_ok(resolution: [usize; 8]) -> bool {
    forall|i: int| 0 <= i < 8 ==> 2 <= #[trigger] resolution[i] <= 255
}

/// Derives per track the length in steps, the ticks per step and its gate
/// length from the stored fader positions.
pub fn derive_runtime_params(
    length_faders: [u16; 4],
    gate_faders: [u16; 4],
    res_faders: [u16; 4],
    resolution: &[usize; 8],
) -> (r: ([u8; 4], [usize; 4], [u8; 4]))
    requires
        forall|n: int| 0 <= n < 4 ==> #[trigger] res_faders[n] < 4096,
        resolutions_ok(*resolution),
    ensures
        forall|n: int| 0 <= n < 4 ==> #[trigger] r.0[n] == seq_length_of(length_faders[n]),
        forall|n: int| 0 <= n < 4 ==> #[trigger] r.1[n] == resolution[(res_faders[n] / 512) as int],
        forall|n: int| 0 <= n < 4 ==> #[trigger] r.2[n] == gate_length_of(r.1[n], gate_faders[n]) && 1 <= r.2[n] < r.1[n],
{
    let mut seq_length = [0u8; 4];
    let mut clockres = [0usize; 4];
    let mut gatel = [0u8; 4];
    let mut n: usize = 0;
    while n < 4
        invariant
            n <= 4,
            forall|k: int| 0 <= k < 4 ==> #[trigger] res_faders[k] < 4096,
            resolutions_ok(*resolution),
            forall|k: int| 0 <= k < n ==> #[trigger] seq_length[k] == seq_length_of(length_faders[k]),
            forall|k: int| 0 <= k < n ==> #[trigger] clockres[k] == resolution[(res_faders[k] / 512) as int],
            forall|k: int| 0 <= k < n ==> #[trigger] gatel[k] == gate_length_of(clockres[k], gate_faders[k]) && 1 <= gatel[k] < clockres[k],
        decreases 4 - n,
    {
        seq_length[n] = ((length_faders[n] / 256 + 1) % 256) as u8;
        let cr = resolution[(res_faders[n] / 512) as usize];
        clockres[n] = cr;
        gatel[n] = gate_length(cr, gate_faders[n]);
        n += 1;
    }
    (seq_length, clockres, gatel)
}

/// Stored values within the faders' 12-bit range, as the faders write them.
pub open spec fn stored_ok(st: Storage) -> bool {
    &&& forall|n: int| 0 <= n < 4 ==> #[trigger] st.length_fader[n] < 4096
    &&& forall|n: int| 0 <= n < 4 ==> #[trigger] st.res_fader[n] < 4096
    &&& forall|n: int| 0 <= n < 4 ==> #[trigger] st.oct_fader[n] < 4096
    &&& forall|n: int| 0 <= n < 4 ==> #[trigger] st.range_fader[n] < 4096
    &&& forall|i: int| 0 <= i < 64 ==> #[trigger] st.seq.0[i] < 4096
}

/// A step of work for the device: stop the track's last note, quantize a
/// value and play it (note on, CV, gate high), or drop the track's gate.
#[derive(Clone, Copy, Debug, PartialEq, Eq, Structural)]
pub enum Seq8Action {
    NoteOffLast(usize),
    PlayStep(usize, u16),
    GateLow(usize),
}

/// A running sequencer: its storage, the page shown, and the per-track
/// length, ticks per step and gate length, with gate lengths as last
/// taken when a step played.
#[derive(Clone, Copy)]
pub struct Seq8 {
    pub stored: Storage,
    pub page: usize,
    pub seq_length: [u8; 4],
    pub clockres: [usize; 4],
    pub gatel: [u8; 4],
    pub gate_snapshot: [u8; 4],
}

/// The value a gated step hands the quantizer: the step scaled to the
/// track's range (in 410-count octaves) plus its octave.
pub open spec fn step_value(st: Storage, n: int, idx: int) -> u16 {
    (st.seq.0[idx] * (st.range_fader[n] / 1000 + 1) * 410 / 4095 + (st.oct_fader[n] / 1000) * 410) as u16
}

proof fn lemma_resolution_bounds(i: int)
    requires
        0 <= i < 8,
    ensures
        2 <= RESOLUTION[i] <= 24,
{
}

impl Seq8 {
    /// The invariant of the sequencer.
    pub open spec fn wf(&self) -> bool {
        &&& stored_ok(self.stored)
        &&& self.page < 8
        &&& forall|n: int| 0 <= n < 4 ==> #[trigger] self.seq_length[n] == seq_length_of(self.stored.length_fader[n])
        &&& forall|n: int| 0 <= n < 4 ==> #[trigger] self.clockres[n] == RESOLUTION[(self.stored.res_fader[n] / 512) as int]
        &&& forall|n: int| 0 <= n < 4 ==> 1 <= #[trigger] self.gatel[n] <= self.clockres[n]
        &&& forall|n: int| 0 <= n < 4 ==> 1 <= #[trigger] self.gate_snapshot[n]
    }

    /// The sequencer on page 0 with the runtime values derived from `stored`.
    pub fn new(stored: Storage) -> (r: Self)
        requires
            stored_ok(stored),
        ensures
            r.wf(),
            r.stored == stored,
            r.page == 0,
            forall|n: int| 0 <= n < 4 ==> #[trigger] r.gatel[n] == gate_length_of(r.clockres[n], stored.gate_fader[n]),
            forall|n: int| 0 <= n < 4 ==> #[trigger] r.gate_snapshot[n] == 128u8,
    {
        let resolution = RESOLUTION;
        let (seq_length, clockres, gatel) = derive_runtime_params(
            stored.length_fader,
            stored.gate_fader,
            stored.res_fader,
            &resolution,
        );
        Seq8 { stored, page: 0, seq_length, clockres, gatel, gate_snapshot: [128; 4] }
    }

    /// Where a shift-layer fader's latch picks up: length, gate, octave,
    /// range or resolution of track `seq_idx` for faders 0 to 4, 0 for the others.
    pub fn get_alt_target(&self, chan: usize, seq_idx: usize) -> (r: u16)
        requires
            seq_idx < 4,
        ensures
            r == if chan == 0 {
                self.stored.length_fader[seq_idx as int]
            } else if chan == 1 {
                self.stored.gate_fader[seq_idx as int]
            } else if chan == 2 {
                self.stored.oct_fader[seq_idx as int]
            } else if chan == 3 {
                self.stored.range_fader[seq_idx as int]
            } else if chan == 4 {
                self.stored.res_fader[seq_idx as int]
            } else {
                0
            },
    {
        match chan {
            0 => self.stored.length_fader[seq_idx],
            1 => self.stored.gate_fader[seq_idx],
            2 => self.stored.oct_fader[seq_idx],
            3 => self.stored.range_fader[seq_idx],
            4 => self.stored.res_fader[seq_idx],
            _ => 0,
        }
    }

    /// Where fader `chan`'s latch picks up on `layer`: its step on the
    /// page (main), its track setting (alt), nothing (third).
    pub fn latch_target(&self, layer: LatchLayer, chan: usize) -> (r: u16)
        requires
            self.wf(),
            chan < 8,
        ensures
            layer == LatchLayer::Main ==> r == self.stored.seq.0[chan + self.page * 8],
            layer == LatchLayer::Alt ==> r == if chan == 0 {
                self.stored.length_fader[(self.page / 2) as int]
            } else if chan == 1 {
                self.stored.gate_fader[(self.page / 2) as int]
            } else if chan == 2 {
                self.stored.oct_fader[(self.page / 2) as int]
            } else if chan == 3 {
                self.stored.range_fader[(self.page / 2) as int]
            } else if chan == 4 {
                self.stored.res_fader[(self.page / 2) as int]
            } else {
                0
            },
            layer == LatchLayer::Third ==> r == 0,
    {
        match layer {
            LatchLayer::Main => self.stored.seq.at(chan + self.page * 8),
            LatchLayer::Alt => self.get_alt_target(chan, self.page / 2),
            LatchLayer::Third => 0,
        }
    }

    /// A new shift-layer value for fader `chan` on track `seq_idx`: length
    /// (0), gate (1, its gate length follows within the step), octave (2),
    /// range (3) or resolution (4, its gate length is kept within the new
    /// step). Returns whether the storage changed.
    pub fn apply_alt_update(&mut self, chan: usize, seq_idx: usize, value: u16) -> (save: bool)
        requires
            old(self).wf(),
            seq_idx < 4,
            value < 4096,
        ensures
            final(self).wf(),
            save == (chan <= 4),
            final(self).page == old(self).page,
            final(self).gate_snapshot == old(self).gate_snapshot,
            final(self).stored.seq == old(self).stored.seq,
            final(self).stored.gateseq == old(self).stored.gateseq,
            final(self).stored.legato_seq == old(self).stored.legato_seq,
            chan > 4 ==> *final(self) == *old(self),
            chan == 0 ==> final(self).stored == (Storage {
                length_fader: vstd::array::spec_array_update(old(self).stored.length_fader, seq_idx as int, value),
                ..old(self).stored
            }) && final(self).gatel == old(self).gatel,
            chan == 1 ==> final(self).stored == (Storage {
                gate_fader: vstd::array::spec_array_update(old(self).stored.gate_fader, seq_idx as int, value),
                ..old(self).stored
            }) && final(self).gatel == vstd::array::spec_array_update(old(self).gatel, 
                seq_idx as int,
                gate_length_of(old(self).clockres[seq_idx as int], value),
            ),
            chan == 2 ==> final(self).stored == (Storage {
                oct_fader: vstd::array::spec_array_update(old(self).stored.oct_fader, seq_idx as int, value),
                ..old(self).stored
            }) && final(self).gatel == old(self).gatel,
            chan == 3 ==> final(self).stored == (Storage {
                range_fader: vstd::array::spec_array_update(old(self).stored.range_fader, seq_idx as int, value),
                ..old(self).stored
            }) && final(self).gatel == old(self).gatel,
            chan == 4 ==> final(self).stored == (Storage {
                res_fader: vstd::array::spec_array_update(old(self).stored.res_fader, seq_idx as int, value),
                ..old(self).stored
            }) && final(self).gatel == vstd::array::spec_array_update(old(self).gatel, 
                seq_idx as int,
                if old(self).gatel[seq_idx as int] > final(self).clockres[seq_idx as int] {
                    final(self).clockres[seq_idx as int] as u8
                } else {
                    old(self).gatel[seq_idx as int]
                },
            ),
    {
        let ghost before = *self;
        match chan {
            0 => {
                self.stored.length_fader[seq_idx] = value;
                self.seq_length[seq_idx] = ((value / 256 + 1) % 256) as u8;
                assert(self.stored.length_fader =~= vstd::array::spec_array_update(before.stored.length_fader, seq_idx as int, value));
                true
            },
            1 => {
                self.stored.gate_fader[seq_idx] = value;
                proof {
                    lemma_resolution_bounds((self.stored.res_fader[seq_idx as int] / 512) as int);
                }
                let g = gate_length(self.clockres[seq_idx], value);
                self.gatel[seq_idx] = g;
                assert(self.stored.gate_fader =~= vstd::array::spec_array_update(before.stored.gate_fader, seq_idx as int, value));
                true
            },
            2 => {
                self.stored.oct_fader[seq_idx] = value;
                assert(self.stored.oct_fader =~= vstd::array::spec_array_update(before.stored.oct_fader, seq_idx as int, value));
                true
            },
            3 => {
                self.stored.range_fader[seq_idx] = value;
                assert(self.stored.range_fader =~= vstd::array::spec_array_update(before.stored.range_fader, seq_idx as int, value));
                true
            },
            4 => {
                self.stored.res_fader[seq_idx] = value;
                let res_index = (value / 512) as usize;
                proof {
                    lemma_resolution_bounds(res_index as int);
                }
                let cr = RESOLUTION[res_index];
                self.clockres[seq_idx] = cr;
                let hi = cr as u8;
                if self.gatel[seq_idx] > hi {
                    self.gatel[seq_idx] = hi;
                }
                assert(self.stored.res_fader =~= vstd::array::spec_array_update(before.stored.res_fader, seq_idx as int, value));
                true
            },
            _ => false,
        }
    }

    /// A new value from fader `chan`'s latch on `layer`: on main it becomes
    /// the step under the fader on the current page; on alt it sets the
    /// page's track. Returns whether to save.
    pub fn on_fader(&mut self, layer: LatchLayer, chan: usize, value: u16) -> (save: bool)
        requires
            old(self).wf(),
            chan < 8,
            value < 4096,
        ensures
            final(self).wf(),
            layer == LatchLayer::Main ==> save && *final(self) == (Seq8 {
                stored: Storage {
                    seq: Arr(vstd::array::spec_array_update(old(self).stored.seq.0, chan + old(self).page * 8, value)),
                    ..old(self).stored
                },
                ..*old(self)
            }),
            layer == LatchLayer::Third ==> !save && *final(self) == *old(self),
    {
        match layer {
            LatchLayer::Main => {
                let i = chan + self.page * 8;
                let ghost before = *self;
                self.stored.seq.set_at(i, value);
                assert(self.stored.seq.0 =~= vstd::array::spec_array_update(before.stored.seq.0, i as int, value));
                true
            },
            LatchLayer::Alt => {
                let seq_idx = self.page / 2;
                self.apply_alt_update(chan, seq_idx, value)
            },
            LatchLayer::Third => false,
        }
    }

    /// A press of button `chan`: without shift it toggles the step's gate
    /// (clearing its legato) and saves; with shift it selects page `chan`.
    pub fn on_button_down(&mut self, chan: usize, shift: bool) -> (save: bool)
        requires
            old(self).wf(),
            chan < 8,
        ensures
            final(self).wf(),
            shift ==> !save && *final(self) == (Seq8 { page: chan, ..*old(self) }),
            !shift ==> save && {
                let i = chan + old(self).page * 8;
                *final(self) == (Seq8 {
                    stored: Storage {
                        gateseq: Arr(vstd::array::spec_array_update(old(self).stored.gateseq.0, i, !old(self).stored.gateseq.0[i])),
                        legato_seq: Arr(vstd::array::spec_array_update(old(self).stored.legato_seq.0, i, false)),
                        ..old(self).stored
                    },
                    ..*old(self)
                })
            },
    {
        if shift {
            self.page = chan;
            return false;
        }
        let i = chan + self.page * 8;
        let ghost before = *self;
        let gate = self.stored.gateseq.at(i);
        self.stored.gateseq.set_at(i, !gate);
        self.stored.legato_seq.set_at(i, false);
        assert(self.stored.gateseq.0 =~= vstd::array::spec_array_update(before.stored.gateseq.0, i as int, !gate));
        assert(self.stored.legato_seq.0 =~= vstd::array::spec_array_update(before.stored.legato_seq.0, i as int, false));
        true
    }

    /// A long press of button `chan` without shift: the step's legato
    /// toggles and its gate turns on; saved.
    pub fn on_long_press(&mut self, chan: usize, shift: bool) -> (save: bool)
        requires
            old(self).wf(),
            chan < 8,
        ensures
            final(self).wf(),
            shift ==> !save && *final(self) == *old(self),
            !shift ==> save && {
                let i = chan + old(self).page * 8;
                *final(self) == (Seq8 {
                    stored: Storage {
                        gateseq: Arr(vstd::array::spec_array_update(old(self).stored.gateseq.0, i, true)),
                        legato_seq: Arr(vstd::array::spec_array_update(old(self).stored.legato_seq.0, i, !old(self).stored.legato_seq.0[i])),
                        ..old(self).stored
                    },
                    ..*old(self)
                })
            },
    {
        if shift {
            return false;
        }
        let i = chan + self.page * 8;
        let ghost before = *self;
        let legato = self.stored.legato_seq.at(i);
        self.stored.legato_seq.set_at(i, !legato);
        self.stored.gateseq.set_at(i, true);
        assert(self.stored.gateseq.0 =~= vstd::array::spec_array_update(before.stored.gateseq.0, i as int, true));
        assert(self.stored.legato_seq.0 =~= vstd::array::spec_array_update(before.stored.legato_seq.0, i as int, !legato));
        true
    }

    /// A scene was loaded: the sequencer takes its storage and derives the
    /// runtime values again.
    pub fn on_scene_load(&mut self, stored: Storage)
        requires
            old(self).wf(),
            stored_ok(stored),
        ensures
            final(self).wf(),
            final(self).stored == stored,
            final(self).page == old(self).page,
            final(self).gate_snapshot == old(self).gate_snapshot,
            forall|n: int| 0 <= n < 4 ==> #[trigger] final(self).gatel[n] == gate_length_of(
                final(self).clockres[n],
                stored.gate_fader[n],
            ),
    {
        let resolution = RESOLUTION;
        let (seq_length, clockres, gatel) = derive_runtime_params(
            stored.length_fader,
            stored.gate_fader,
            stored.res_fader,
            &resolution,
        );
        self.stored = stored;
        self.seq_length = seq_length;
        self.clockres = clockres;
        self.gatel = gatel;
    }

    /// Clock stop or reset: every track's note stops and its gate drops.
    pub fn on_clock_stop(&self) -> (r: Vec<Seq8Action>)
        ensures
            r@ == seq![
                Seq8Action::NoteOffLast(0),
                Seq8Action::GateLow(0),
                Seq8Action::NoteOffLast(1),
                Seq8Action::GateLow(1),
                Seq8Action::NoteOffLast(2),
                Seq8Action::GateLow(2),
                Seq8Action::NoteOffLast(3),
                Seq8Action::GateLow(3),
            ],
    {
        let mut out: Vec<Seq8Action> = Vec::new();
        out.push(Seq8Action::NoteOffLast(0));
        out.push(Seq8Action::GateLow(0));
        out.push(Seq8Action::NoteOffLast(1));
        out.push(Seq8Action::GateLow(1));
        out.push(Seq8Action::NoteOffLast(2));
        out.push(Seq8Action::GateLow(2));
        out.push(Seq8Action::NoteOffLast(3));
        out.push(Seq8Action::GateLow(3));
        assert(out@ =~= seq![
            Seq8Action::NoteOffLast(0),
            Seq8Action::GateLow(0),
            Seq8Action::NoteOffLast(1),
            Seq8Action::GateLow(1),
            Seq8Action::NoteOffLast(2),
            Seq8Action::GateLow(2),
            Seq8Action::NoteOffLast(3),
            Seq8Action::GateLow(3),
        ]);
        out
    }
}

/// The work of tick `clockn` for tracks `0..k`, with gate lengths in
/// force after them. A track whose step falls on the tick stops its last
/// note and plays its step (taking the current gate lengths) or drops its
/// gate; a track whose gate length has run out since the previous step
/// drops its gate and stops its note, unless that step is off or legato.
pub open spec fn tick_upto(s: Seq8, clockn: usize, k: int) -> (Seq<Seq8Action>, [u8; 4])
    decreases k,
{
    if k <= 0 {
        (Seq::empty(), s.gate_snapshot)
    } else {
        let (acts, snap) = tick_upto(s, clockn, k - 1);
        let n = k - 1;
        let cr = s.clockres[n] as int;
        let len = s.seq_length[n] as int;
        let c = clockn as int;
        let (a1, snap1) = if c % cr == 0 {
            let idx = (c / cr) % len + n * 16;
            if s.stored.gateseq.0[idx] {
                (
                    seq![Seq8Action::NoteOffLast(n as usize), Seq8Action::PlayStep(n as usize, step_value(s.stored, n, idx))],
                    s.gatel,
                )
            } else {
                (seq![Seq8Action::NoteOffLast(n as usize), Seq8Action::GateLow(n as usize)], snap)
            }
        } else {
            (Seq::empty(), snap)
        };
        let g = snap1[n] as int;
        let a2 = if c >= g && (c - g) % cr == 0 {
            let idx = ((c - 1) / cr) % len + n * 16;
            if s.stored.gateseq.0[idx] && !s.stored.legato_seq.0[idx] {
                seq![Seq8Action::GateLow(n as usize), Seq8Action::NoteOffLast(n as usize)]
            } else {
                Seq::empty()
            }
        } else {
            Seq::empty()
        };
        (acts + a1 + a2, snap1)
    }
}

impl Seq8 {
    /// The work of clock tick `clockn` for the four tracks, in order; the
    /// gate lengths taken by played steps are kept.
    pub fn on_tick(&mut self, clockn: usize) -> (r: Vec<Seq8Action>)
        requires
            old(self).wf(),
        ensures
            final(self).wf(),
            r@ == tick_upto(*old(self), clockn, 4).0,
            *final(self) == (Seq8 { gate_snapshot: tick_upto(*old(self), clockn, 4).1, ..*old(self) }),
    {
        let ghost s0 = *self;
        let mut out: Vec<Seq8Action> = Vec::new();
        let mut n: usize = 0;
        while n < 4
            invariant
                n <= 4,
                s0.wf(),
                *self == (Seq8 { gate_snapshot: self.gate_snapshot, ..s0 }),
                out@ == tick_upto(s0, clockn, n as int).0,
                self.gate_snapshot == tick_upto(s0, clockn, n as int).1,
                forall|k: int| 0 <= k < 4 ==> 1 <= #[trigger] self.gate_snapshot[k],
            decreases 4 - n,
        {
            let cr = self.clockres[n];
            proof {
                lemma_resolution_bounds((s0.stored.res_fader[n as int] / 512) as int);
            }
            let len = self.seq_length[n] as usize;
            assert(1 <= len <= 16);
            if clockn % cr == 0 {
                let idx = (clockn / cr) % len + n * 16;
                out.push(Seq8Action::NoteOffLast(n));
                if self.stored.gateseq.at(idx) {
                    let v = self.stored.seq.at(idx) as u32;
                    let range = (self.stored.range_fader[n] / 1000 + 1) as u32;
                    let oct = (self.stored.oct_fader[n] / 1000) * 410;
                    assert(v * range * 410 / 4095 <= 4095 * 5 * 410 / 4095) by (nonlinear_arith)
                        requires
                            v <= 4095,
                            range <= 5,
                    ;
                    let value = (v * range * 410 / 4095) as u16 + oct;
                    out.push(Seq8Action::PlayStep(n, value));
                    self.gate_snapshot = self.gatel;
                } else {
                    out.push(Seq8Action::GateLow(n));
                }
            }
            let g = self.gate_snapshot[n] as usize;
            if clockn >= g && (clockn - g) % cr == 0 {
                let idx = ((clockn - 1) / cr) % len + n * 16;
                if self.stored.gateseq.at(idx) && !self.stored.legato_seq.at(idx) {
                    out.push(Seq8Action::GateLow(n));
                    out.push(Seq8Action::NoteOffLast(n));
                }
            }
            proof {
                let ghost prev = tick_upto(s0, clockn, n as int);
                assert(out@ =~= tick_upto(s0, clockn, n as int + 1).0);
            }
            n += 1;
        }
        out
    }
}

/// Track colors.
pub const TRACK_COLORS: [Color; 4] = [Color::Yellow, Color::Pink, Color::Cyan, Color::White];

/// Lights `position` of channel `chan`.
pub open spec fn lit8(leds: Leds<8>, chan: int, position: Led, color: Color, brightness: Brightness) -> LedRequest {
    (leds.device_channel(chan as usize) as usize, position, LedMsg::SetMode(LedMode::Static(color, brightness)))
}

/// Turns `position` of channel `chan` off.
pub open spec fn dark8(leds: Leds<8>, chan: int, position: Led) -> LedRequest {
    (leds.device_channel(chan as usize) as usize, position, LedMsg::Reset)
}

/// Shift layer, track buttons `0..k`: the selected page bright, the others medium.
pub open spec fn shift_buttons(s: Seq8, leds: Leds<8>, k: int) -> Seq<LedRequest>
    decreases k,
{
    if k <= 0 {
        Seq::empty()
    } else {
        let n = k - 1;
        shift_buttons(s, leds, n).push(
            lit8(leds, n, Led::Button, TRACK_COLORS[n / 2], if n == s.page { Brightness::High } else { Brightness::Mid }),
        )
    }
}

/// Shift layer, step lights `0..k` of the page's track (tops for steps 0-7,
/// bottoms for 8-15): steps within the length medium, the playing step bright.
pub open spec fn shift_steps(s: Seq8, leds: Leds<8>, clockn: usize, k: int) -> Seq<LedRequest>
    decreases k,
{
    if k <= 0 {
        Seq::empty()
    } else {
        let n = k - 1;
        let t = (s.page / 2) as int;
        let len = s.seq_length[t] as int;
        let playing = ((clockn as int / s.clockres[t] as int) % 256) % len;
        let bright = if n >= len {
            Brightness::Off
        } else if n == playing {
            Brightness::High
        } else {
            Brightness::Mid
        };
        let req = if n < 8 {
            lit8(leds, n, Led::Top, Color::Red, bright)
        } else {
            lit8(leds, n - 8, Led::Bottom, Color::Red, bright)
        };
        shift_steps(s, leds, clockn, n).push(req)
    }
}

/// Main layer, the lights of channel `n`: the step's value on top, its
/// gate/legato on the button (dark past the track's length), and on the
/// bottom whether the track plays this half.
pub open spec fn main_channel(s: Seq8, leds: Leds<8>, clockn: usize, n: int) -> Seq<LedRequest> {
    let page = s.page as int;
    let color = TRACK_COLORS[page / 2];
    let i = n + page * 8;
    let top = lit8(leds, n, Led::Top, color, Brightness::Custom(((s.stored.seq.0[i] / 16) as u8 / 2) as u8));
    let bb = if s.stored.legato_seq.0[i] {
        Brightness::High
    } else if s.stored.gateseq.0[i] {
        Brightness::Mid
    } else {
        Brightness::Low
    };
    let button = lit8(leds, n, Led::Button, color, bb);
    let index = s.seq_length[page / 2] - (page % 2) * 8;
    let cut = if n >= index || index > 16 {
        seq![dark8(leds, n, Led::Button)]
    } else {
        Seq::empty()
    };
    let track = n / 2;
    let step = (clockn as int / s.clockres[track] as int) % (s.seq_length[track] as int);
    let active = if n % 2 == 0 {
        step < 8
    } else {
        step >= 8
    };
    let bottom = if active {
        lit8(leds, n, Led::Bottom, Color::Red, Brightness::Mid)
    } else {
        dark8(leds, n, Led::Bottom)
    };
    seq![top, button] + cut + seq![bottom]
}

/// Main layer, channels `0..k`.
pub open spec fn main_channels(s: Seq8, leds: Leds<8>, clockn: usize, k: int) -> Seq<LedRequest>
    decreases k,
{
    if k <= 0 {
        Seq::empty()
    } else {
        main_channels(s, leds, clockn, k - 1) + main_channel(s, leds, clockn, k - 1)
    }
}

impl Seq8 {
    /// One frame of the sequencer's LEDs. With shift: the eight page
    /// buttons and the page's track steps. Without: each channel's step,
    /// gate and half indicator, the playing step on this page in red, and
    /// the page's bottom light bright.
    pub open spec fn led_frame_spec(self, leds: Leds<8>, shift: bool, clockn: usize) -> Seq<LedRequest> {
        if shift {
            shift_buttons(self, leds, 8) + shift_steps(self, leds, clockn, 16)
        } else {
            let page = self.page as int;
            let t = page / 2;
            let step = ((clockn as int / self.clockres[t] as int) % (self.seq_length[t] as int)) % 16;
            let offset = (page % 2) * 8;
            let mark = if clockn != 0 && step >= offset && step < offset + 8 {
                seq![lit8(leds, step - offset, Led::Button, Color::Red, Brightness::Mid)]
            } else {
                Seq::empty()
            };
            main_channels(self, leds, clockn, 8) + mark + seq![
                lit8(leds, page, Led::Bottom, TRACK_COLORS[t], Brightness::High),
            ]
        }
    }

    fn channel_leds(&self, leds: &Leds<8>, clockn: usize, n: usize) -> (r: Vec<LedRequest>)
        requires
            self.wf(),
            n < 8,
            leds.start_channel + 8 <= usize::MAX,
        ensures
            r@ == main_channel(*self, *leds, clockn, n as int),
    {
        let mut out: Vec<LedRequest> = Vec::new();
        let page = self.page;
        let t = page / 2;
        let color = TRACK_COLORS[t];
        let i = n + page * 8;
        let v = self.stored.seq.at(i);
        out.push(leds.set(n, Led::Top, color, Brightness::Custom((v / 16) as u8 / 2)));
        let button_bright = if self.stored.legato_seq.at(i) {
            Brightness::High
        } else if self.stored.gateseq.at(i) {
            Brightness::Mid
        } else {
            Brightness::Low
        };
        out.push(leds.set(n, Led::Button, color, button_bright));
        let slen = self.seq_length[t] as usize;
        let off = page % 2 * 8;
        if slen < off || n >= slen - off || slen - off > 16 {
            out.push(leds.unset(n, Led::Button));
        }
        let track = n / 2;
        let tcr = self.clockres[track];
        proof {
            lemma_resolution_bounds((self.stored.res_fader[track as int] / 512) as int);
        }
        let step = clockn / tcr % (self.seq_length[track] as usize);
        let active = if n % 2 == 0 {
            step < 8
        } else {
            step >= 8
        };
        if active {
            out.push(leds.set(n, Led::Bottom, Color::Red, Brightness::Mid));
        } else {
            out.push(leds.unset(n, Led::Bottom));
        }
        assert(out@ =~= main_channel(*self, *leds, clockn, n as int));
        out
    }

    /// The LED requests of one frame.
    pub fn led_frame(&self, leds: &Leds<8>, shift: bool, clockn: usize) -> (r: Vec<LedRequest>)
        requires
            self.wf(),
            leds.start_channel + 8 <= usize::MAX,
        ensures
            r@ == self.led_frame_spec(*leds, shift, clockn),
    {
        let mut out: Vec<LedRequest> = Vec::new();
        let page = self.page;
        let t = page / 2;
        let cr = self.clockres[t];
        proof {
            lemma_resolution_bounds((self.stored.res_fader[t as int] / 512) as int);
        }
        let len = self.seq_length[t];
        if shift {
            let mut n: usize = 0;
            while n < 8
                invariant
                    n <= 8,
                    self.wf(),
                    page == self.page,
                    leds.start_channel + 8 <= usize::MAX,
                    out@ == shift_buttons(*self, *leds, n as int),
                decreases 8 - n,
            {
                let bright = if n == page {
                    Brightness::High
                } else {
                    Brightness::Mid
                };
                out.push(leds.set(n, Led::Button, TRACK_COLORS[n / 2], bright));
                n += 1;
            }
            let ghost head = out@;
            let playing = ((clockn / cr) % 256) as u8 % len;
            let mut k: u8 = 0;
            while k <= 15
                invariant
                    k <= 16,
                    self.wf(),
                    page == self.page,
                    t == page / 2,
                    len == self.seq_length[t as int],
                    1 <= len <= 16,
                    cr == self.clockres[t as int],
                    cr >= 2,
                    playing == ((clockn as int / cr as int) % 256) % len as int,
                    leds.start_channel + 8 <= usize::MAX,
                    out@ == head + shift_steps(*self, *leds, clockn, k as int),
                decreases 16 - k,
            {
                let mut bright = Brightness::Off;
                if k < len {
                    bright = Brightness::Mid;
                }
                if k == playing {
                    bright = Brightness::High;
                }
                if k >= len {
                    bright = Brightness::Off;
                }
                if k < 8 {
                    out.push(leds.set(k as usize, Led::Top, Color::Red, bright));
                } else {
                    out.push(leds.set(k as usize - 8, Led::Bottom, Color::Red, bright));
                }
                proof {
                    assert(head + shift_steps(*self, *leds, clockn, k as int + 1) =~= (head + shift_steps(
                        *self,
                        *leds,
                        clockn,
                        k as int,
                    )).push(out@.last()));
                }
                k += 1;
            }
        } else {
            let color = TRACK_COLORS[t];
            let mut n: usize = 0;
            while n < 8
                invariant
                    n <= 8,
                    self.wf(),
                    page == self.page,
                    t == page / 2,
                    color == TRACK_COLORS[t as int],
                    leds.start_channel + 8 <= usize::MAX,
                    out@ == main_channels(*self, *leds, clockn, n as int),
                decreases 8 - n,
            {
                let mut chunk = self.channel_leds(leds, clockn, n);
                out.append(&mut chunk);
                n += 1;
            }
            let step_in_seq = (clockn / cr % (len as usize)) % 16;
            let page_offset = (page % 2) * 8;
            if clockn != 0 && step_in_seq >= page_offset && step_in_seq < page_offset + 8 {
                out.push(leds.set(step_in_seq - page_offset, Led::Button, Color::Red, Brightness::Mid));
            }
            out.push(leds.set(page, Led::Bottom, color, Brightness::High));
        }
        assert(out@ =~= self.led_frame_spec(*leds, shift, clockn));
        out
    }
}

/// Pressing a step button twice (without shift) leaves its gate as it was
/// and its legato off.
pub proof fn law_gate_toggle_twice(s: Seq8, i: int)
    requires
        0 <= i < 64,
    ensures
        ({
            let once = vstd::array::spec_array_update(s.stored.gateseq.0, i, !s.stored.gateseq.0[i]);
            let twice = vstd::array::spec_array_update(once, i, !once[i]);
            twice == s.stored.gateseq.0
        }),
{
    let once = vstd::array::spec_array_update(s.stored.gateseq.0, i, !s.stored.gateseq.0[i]);
    let twice = vstd::array::spec_array_update(once, i, !once[i]);
    assert(twice =~= s.stored.gateseq.0);
}

} // verus!
