//! Shared configuration types: the channel layout, global settings, curves,
//! waveforms, app parameters and their values, and the per-app `Config`.

use vstd::prelude::*;

use crate::tables::{waveform_saw, waveform_square, waveform_sine, waveform_triangle};

verus! {

/// Number of channels of the device.
pub const GLOBAL_CHANNELS: usize = 16;

/// Maximum number of params per app.
pub const APP_MAX_PARAMS: usize = 4;

/// Slot contents of a layout: `(app_id, channels)` at the app's start channel.
pub type InnerLayout = [Option<(u8, usize)>; 16];

/// Metadata of an app's configuration: `(param count, name, description, params)`.
pub type ConfigMeta<'a> = (usize, &'a str, &'a str, &'a [Param]);

/// The layout with all the apps in their spots, indexed by start channel.
#[derive(Clone, Copy)]
pub struct Layout(pub [Option<(u8, usize)>; 16]);

/// Channel count registered for `app_id` in a table indexed by app id.
pub open spec fn channels_for(table: Seq<Option<usize>>, app_id: u8) -> Option<usize> {
    if (app_id as int) < table.len() {
        table[app_id as int]
    } else {
        None
    }
}

/// The empty layout.
pub open spec fn empty_slots() -> Seq<Option<(u8, usize)>> {
    Seq::new(16, |i: int| None)
}

/// The validation walk over the first `k` slots of `slots`: the slots placed
/// so far, the next free channel, and whether the walk has stopped because an
/// app did not fit.
pub open spec fn pack_walk(
    slots: Seq<Option<(u8, usize)>>,
    table: Seq<Option<usize>>,
    k: nat,
) -> (Seq<Option<(u8, usize)>>, nat, bool)
    decreases k,
{
    if k == 0 {
        (empty_slots(), 0, false)
    } else {
        let prev = pack_walk(slots, table, (k - 1) as nat);
        let (acc, start, stopped) = prev;
        if stopped {
            prev
        } else {
            match slots[k - 1] {
                None => prev,
                Some(entry) => match channels_for(table, entry.0) {
                    None => prev,
                    Some(c) => if start + c > 16 {
                        (acc, start, true)
                    } else {
                        (acc.update(start as int, Some((entry.0, c))), (start + c) as nat, false)
                    },
                },
            }
        }
    }
}

/// Whether step `k` of the walk would place an app with no channels past the
/// last channel, or add past the largest `usize`.
pub open spec fn walk_step_faults(
    slots: Seq<Option<(u8, usize)>>,
    table: Seq<Option<usize>>,
    k: nat,
) -> bool {
    let (acc, start, stopped) = pack_walk(slots, table, k);
    &&& !stopped
    &&& slots[k as int] is Some
    &&& channels_for(table, slot_app(slots[k as int])) is Some
    &&& {
        let c = channels_for(table, slot_app(slots[k as int]))->0;
        start + c > usize::MAX || (start + c <= 16 && start >= 16)
    }
}

/// App id of an occupied slot.
pub open spec fn slot_app(slot: Option<(u8, usize)>) -> u8 {
    match slot {
        Some(entry) => entry.0,
        None => 0,
    }
}

/// Whether validating `slots` against `table` stays within the layout.
pub open spec fn validate_in_bounds(slots: Seq<Option<(u8, usize)>>, table: Seq<Option<usize>>) -> bool {
    forall|k: nat| k < 16 ==> !#[trigger] walk_step_faults(slots, table, k)
}

/// Whether slot `i` is the last occupied slot of `slots`.
pub open spec fn is_last_occupied(slots: Seq<Option<(u8, usize)>>, i: int) -> bool {
    &&& 0 <= i < slots.len()
    &&& slots[i] is Some
    &&& forall|j: int| i < j < slots.len() ==> slots[j] is None
}

/// The first channel after the last app of `slots`, `Some(0)` when no app is
/// placed, `None` when the last channel itself holds an app.
pub open spec fn first_free_spec(slots: Seq<Option<(u8, usize)>>) -> Option<usize> {
    if forall|j: int| 0 <= j < slots.len() ==> slots[j] is None {
        Some(0)
    } else {
        let i = choose|i: int| is_last_occupied(slots, i);
        if i + 1 < slots.len() {
            Some((i + 1) as usize)
        } else {
            None
        }
    }
}

impl Layout {
    /// The layout with no app in it.
    pub fn new() -> (r: Self)
        ensures
            r.0@ == empty_slots(),
    {
        let r = Layout([None; 16]);
        assert(r.0@ =~= empty_slots());
        r
    }

    /// Re-places the apps of the layout one after the other from channel 0,
    /// with the channel counts that `channel_counts` (indexed by app id)
    /// registers; apps with no registered count are dropped, and the walk
    /// stops at the first app that does not fit.
    pub fn validate(&mut self, channel_counts: &[Option<usize>])
        requires
            validate_in_bounds(old(self).0@, channel_counts@),
        ensures
            final(self).0@ == pack_walk(old(self).0@, channel_counts@, 16).0,
    {
        let ghost slots = self.0@;
        let ghost table = channel_counts@;
        let mut validated: [Option<(u8, usize)>; 16] = [None; 16];
        let mut start_channel: usize = 0;
        let mut i: usize = 0;
        assert(validated@ =~= empty_slots());
        while i < 16
            invariant_except_break
                0 <= i <= 16,
                slots == self.0@,
                table == channel_counts@,
                validate_in_bounds(slots, table),
                pack_walk(slots, table, i as nat) == (validated@, start_channel as nat, false),
            ensures
                validated@ == pack_walk(slots, table, 16).0,
            decreases 16 - i,
        {
            assert(!walk_step_faults(slots, table, i as nat));
            match self.0[i] {
                None => {},
                Some(entry) => {
                    let app_id = entry.0;
                    let found: Option<usize> = if (app_id as usize) < channel_counts.len() {
                        channel_counts[app_id as usize]
                    } else {
                        None
                    };
                    match found {
                        None => {},
                        Some(channels) => {
                            let last = start_channel + channels;
                            if last > 16 {
                                proof {
                                    lemma_stopped_walk_stays(slots, table, (i + 1) as nat, 16);
                                }
                                break;
                            }
                            validated[start_channel] = Some((app_id, channels));
                            start_channel = last;
                        },
                    }
                },
            }
            i = i + 1;
        }
        self.0 = validated;
    }

    /// Iterator over the placed apps.
    pub fn iter(&self) -> (r: LayoutIter)
        ensures
            r.slots@ == self.0@,
            r.index == 0,
    {
        LayoutIter { slots: self.0, index: 0 }
    }

    /// The first channel after the last placed app; `Some(0)` for an empty
    /// layout and `None` when the last channel holds an app.
    pub fn first_free(&self) -> (r: Option<usize>)
        ensures
            r == first_free_spec(self.0@),
    {
        let mut i: usize = 16;
        while i > 0
            invariant
                0 <= i <= 16,
                forall|j: int| i <= j < 16 ==> self.0@[j] is None,
            decreases i,
        {
            if self.0[i - 1].is_some() {
                let idx = i - 1;
                assert(is_last_occupied(self.0@, idx as int));
                let ghost c = choose|c: int| is_last_occupied(self.0@, c);
                assert(c == idx) by {
                    if c < idx {
                        assert(self.0@[idx as int] is None);
                    }
                    if c > idx {
                        assert(self.0@[c] is None);
                    }
                }
                let next_index = idx + 1;
                return if next_index < 16 {
                    Some(next_index)
                } else {
                    None
                };
            }
            i = i - 1;
        }
        Some(0)
    }
}

/// Once the walk has stopped it stays where it is.
pub proof fn lemma_stopped_walk_stays(
    slots: Seq<Option<(u8, usize)>>,
    table: Seq<Option<usize>>,
    k: nat,
    m: nat,
)
    requires
        k <= m,
        pack_walk(slots, table, k).2,
    ensures
        pack_walk(slots, table, m) == pack_walk(slots, table, k),
    decreases m - k,
{
    if k < m {
        lemma_stopped_walk_stays(slots, table, k, (m - 1) as nat);
    }
}

/// Walks the placed apps of a layout in channel order, yielding
/// `(app_id, start_channel, channels)`.
pub struct LayoutIter {
    pub slots: [Option<(u8, usize)>; 16],
    pub index: usize,
}

/// Whether no app is placed in `slots` from `from` (inclusive) to `to` (exclusive).
pub open spec fn none_between(slots: Seq<Option<(u8, usize)>>, from: int, to: int) -> bool {
    forall|j: int| from <= j < to ==> slots[j] is None
}

impl LayoutIter {
    /// The next placed app at or after the current position.
    pub fn next(&mut self) -> (r: Option<(u8, usize, usize)>)
        requires
            old(self).index <= 16,
        ensures
            final(self).slots == old(self).slots,
            final(self).index <= 16,
            match r {
                None => {
                    &&& none_between(old(self).slots@, old(self).index as int, 16)
                    &&& final(self).index == 16
                },
                Some((app_id, start, channels)) => {
                    &&& old(self).index <= start < 16
                    &&& none_between(old(self).slots@, old(self).index as int, start as int)
                    &&& old(self).slots@[start as int] == Some((app_id, channels))
                    &&& final(self).index == start + 1
                },
            },
    {
        let ghost first = self.index;
        while self.index < 16
            invariant
                first <= self.index <= 16,
                self.slots == old(self).slots,
                first == old(self).index,
                none_between(self.slots@, first as int, self.index as int),
            decreases 16 - self.index,
        {
            if let Some(value) = self.slots[self.index] {
                let idx = self.index;
                self.index = self.index + 1;
                return Some((value.0, idx, value.1));
            }
            self.index = self.index + 1;
        }
        None
    }
}

/// Clock (and reset) sources.
#[derive(Clone, Copy, PartialEq, Eq, Structural)]
pub enum ClockSrc {
    Disabled,
    Atom,
    Meteor,
    Cube,
    Internal,
    MidiIn,
    MidiUsb,
}

/// The device-wide settings.
#[derive(Clone, Copy)]
pub struct GlobalConfig {
    pub clock_src: ClockSrc,
    pub reset_src: ClockSrc,
    pub layout: Layout,
}

impl GlobalConfig {
    /// Internal clock, no reset source, empty layout.
    pub fn new() -> (r: Self)
        ensures
            r.clock_src == ClockSrc::Internal,
            r.reset_src == ClockSrc::Disabled,
            r.layout.0@ == empty_slots(),
    {
        GlobalConfig { clock_src: ClockSrc::Internal, reset_src: ClockSrc::Disabled, layout: Layout::new() }
    }
}

/// Response curves of a fader.
#[derive(Clone, Copy, Debug, PartialEq, Eq, Structural)]
pub enum Curve {
    Linear,
    Exponential,
    Logarithmic,
}

/// Periodic waveforms of the oscillators.
#[derive(Clone, Copy, Debug, PartialEq, Eq, Structural)]
pub enum Waveform {
    Triangle,
    Saw,
    Rect,
    Sine,
}

/// The waveform that follows `w` in the selection cycle.
pub open spec fn waveform_next(w: Waveform) -> Waveform {
    match w {
        Waveform::Sine => Waveform::Triangle,
        Waveform::Triangle => Waveform::Saw,
        Waveform::Saw => Waveform::Rect,
        Waveform::Rect => Waveform::Sine,
    }
}

impl Waveform {
    /// Sample `index` (modulo 4096) of one period of the waveform.
    pub fn at(&self, index: usize) -> (r: u16)
        ensures
            r == (match *self {
                Waveform::Sine => crate::tables::sine_sample((index % 4096) as usize),
                Waveform::Triangle => crate::tables::triangle_sample((index % 4096) as usize),
                Waveform::Saw => crate::tables::saw_sample((index % 4096) as usize),
                Waveform::Rect => crate::tables::square_sample((index % 4096) as usize),
            }),
    {
        let i = index % 4096;
        match self {
            Waveform::Sine => waveform_sine(i),
            Waveform::Triangle => waveform_triangle(i),
            Waveform::Saw => waveform_saw(i),
            Waveform::Rect => waveform_square(i),
        }
    }

    /// The next waveform in the selection cycle.
    pub fn cycle(&self) -> (r: Waveform)
        ensures
            r == waveform_next(*self),
    {
        match self {
            Waveform::Sine => Waveform::Triangle,
            Waveform::Triangle => Waveform::Saw,
            Waveform::Saw => Waveform::Rect,
            Waveform::Rect => Waveform::Sine,
        }
    }
}

/// Cycling through the waveforms returns to the start after four steps, and
/// visits four different waveforms on the way.
pub proof fn law_waveform_cycle_period(w: Waveform)
    ensures
        waveform_next(waveform_next(waveform_next(waveform_next(w)))) == w,
        waveform_next(w) != w,
        waveform_next(waveform_next(w)) != w,
        waveform_next(waveform_next(waveform_next(w))) != w,
{
}

/// Description of one configurable app parameter.
#[allow(non_camel_case_types)]
#[allow(inconsistent_fields)]
#[derive(Clone, Copy)]
pub enum Param {
    Empty,
    i32 { name: &'static str, min: i32, max: i32 },
    Float { name: &'static str },
    Bool { name: &'static str },
    Enum { name: &'static str, variants: &'static [&'static str] },
    Curve { name: &'static str, variants: &'static [Curve] },
    Waveform { name: &'static str, variants: &'static [Waveform] },
}

/// A parameter value. A float value is held by its IEEE-754 bit pattern.
#[allow(non_camel_case_types)]
#[derive(Clone, Copy, Debug, PartialEq, Eq, Structural)]
pub enum Value {
    Empty,
    i32(i32),
    Float(u32),
    bool(bool),
    Enum(usize),
    Curve(Curve),
    Waveform(Waveform),
}

/// Reads a typed parameter out of a `Value`, falling back to the type's
/// default when the value holds another kind.
pub trait FromValue: Sized + Copy {
    fn from_value(value: Value) -> Self;
}

impl FromValue for bool {
    fn from_value(value: Value) -> (r: bool)
        ensures
            r == (match value {
                Value::bool(b) => b,
                _ => false,
            }),
    {
        match value {
            Value::bool(b) => b,
            _ => false,
        }
    }
}

impl FromValue for i32 {
    fn from_value(value: Value) -> (r: i32)
        ensures
            r == (match value {
                Value::i32(i) => i,
                _ => 0,
            }),
    {
        match value {
            Value::i32(i) => i,
            _ => 0,
        }
    }
}

impl FromValue for Curve {
    fn from_value(value: Value) -> (r: Curve)
        ensures
            r == (match value {
                Value::Curve(c) => c,
                _ => Curve::Linear,
            }),
    {
        match value {
            Value::Curve(c) => c,
            _ => Curve::Linear,
        }
    }
}

/// The configuration an app declares: name, description and up to `N` params.
pub struct Config<const N: usize> {
    len: usize,
    name: &'static str,
    description: &'static str,
    params: [Param; N],
}

impl<const N: usize> Config<N> {
    /// Number of params added so far.
    pub closed spec fn param_count(&self) -> nat {
        self.len as nat
    }

    /// The param slots, unused ones holding `Param::Empty`.
    pub closed spec fn param_slots(&self) -> Seq<Param> {
        self.params@
    }

    /// The app's name.
    pub closed spec fn name_spec(&self) -> &'static str {
        self.name
    }

    /// The app's description.
    pub closed spec fn description_spec(&self) -> &'static str {
        self.description
    }

    /// `N` slots, and no more params than slots.
    pub open spec fn wf(&self) -> bool {
        &&& self.param_slots().len() == N
        &&& self.param_count() <= N
    }

    /// Every configuration has exactly `N` slots.
    pub proof fn law_slot_count(&self)
        ensures
            self.param_slots().len() == N,
    {
    }

    /// An empty configuration; at most `APP_MAX_PARAMS` params are allowed.
    pub fn new(name: &'static str, description: &'static str) -> (r: Self)
        requires
            N <= APP_MAX_PARAMS,
        ensures
            r.wf(),
            r.param_count() == 0,
            r.name_spec() == name,
            r.description_spec() == description,
            r.param_slots().len() == N,
            forall|i: int| 0 <= i < N ==> r.param_slots()[i] is Empty,
    {
        let r = Config { description, len: 0, name, params: [Param::Empty; N] };
        r
    }

    /// Adds `param` in the next free slot.
    pub fn add_param(self, param: Param) -> (r: Self)
        requires
            self.wf(),
            self.param_count() < N,
        ensures
            r.wf(),
            r.param_count() == self.param_count() + 1,
            r.param_slots() == self.param_slots().update(self.param_count() as int, param),
            r.name_spec() == self.name_spec(),
            r.description_spec() == self.description_spec(),
    {
        let mut params = self.params;
        params[self.len] = param;
        let new_len = self.len + 1;
        Config { description: self.description, len: new_len, name: self.name, params }
    }

    /// `(N, name, description, params)`.
    pub fn get_meta(&self) -> (r: ConfigMeta<'_>)
        ensures
            r.0 == N,
            r.1 == self.name_spec(),
            r.2 == self.description_spec(),
            r.3@ == self.param_slots(),
            r.3@.len() == N,
    {
        (N, self.name, self.description, self.params.as_slice())
    }
}

} // verus!
