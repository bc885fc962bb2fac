//! Which app runs on which channel: reconciling the running apps with a
//! desired layout, temporary evictions, and the task-arena budget check.

use vstd::prelude::*;

verus! {

/// A running (or desired) app on a start channel: `(app_id, channels, layout_id)`.
pub type SlotApp = Option<(u8, usize, u8)>;

/// A scoped, non-persisting request to evict or restore a single channel's app.
#[derive(Clone, Copy, PartialEq, Eq, Structural)]
pub enum EvictionCmd {
    /// Exit whatever app is running on this start channel, if any.
    Evict(usize),
    /// Respawn (app_id, channels, layout_id) on this start channel.
    Restore(usize, u8, usize, u8),
}

/// What the layout manager does to reach a desired layout: which start
/// channels to exit (all exits happen first), which to spawn the desired app
/// on (in channel order), and whether anything changed.
#[derive(Clone, Copy)]
pub struct SpawnPlan {
    pub exits: [bool; 16],
    pub spawns: [bool; 16],
    pub changed: bool,
}

/// The apps running per start channel, and the channels on loan for calibration.
pub struct LayoutManager {
    pub layout: [SlotApp; 16],
    pub held: [bool; 16],
}

/// Whether channel `c` must exit: something runs there that is not what is desired.
pub open spec fn must_exit(current: Seq<SlotApp>, desired: Seq<SlotApp>, c: int) -> bool {
    current[c] is Some && current[c] != desired[c]
}

/// Whether channel `c` must spawn: an app is desired there, it is not already
/// running, and the channel is not held.
pub open spec fn must_spawn(
    current: Seq<SlotApp>,
    desired: Seq<SlotApp>,
    held: Seq<bool>,
    c: int,
) -> bool {
    desired[c] is Some && current[c] != desired[c] && !held[c]
}

/// Whether some channel exits or spawns.
pub open spec fn some_action(exits: Seq<bool>, spawns: Seq<bool>) -> bool {
    exists|c: int| 0 <= c < 16 && (#[trigger] exits[c] || spawns[c])
}

/// Whether one of the first `k` entries of `s` is true.
pub open spec fn any_true(s: Seq<bool>, k: int) -> bool
    decreases k,
{
    if k <= 0 {
        false
    } else {
        any_true(s, k - 1) || s[k - 1]
    }
}

proof fn lemma_any_true(s: Seq<bool>, k: int)
    requires
        0 <= k <= s.len(),
    ensures
        any_true(s, k) == exists|c: int| 0 <= c < k && #[trigger] s[c],
    decreases k,
{
    if k > 0 {
        lemma_any_true(s, k - 1);
        if exists|c: int| 0 <= c < k && #[trigger] s[c] {
            let w = choose|c: int| 0 <= c < k && #[trigger] s[c];
            if w < k - 1 {
                assert(exists|c: int| 0 <= c < k - 1 && #[trigger] s[c]);
            }
        }
        if any_true(s, k - 1) {
            let w = choose|c: int| 0 <= c < k - 1 && #[trigger] s[c];
            assert(0 <= w < k && s[w]);
        }
    }
}

/// What runs on channel `c` after reconciliation.
pub open spec fn reconciled(
    current: Seq<SlotApp>,
    desired: Seq<SlotApp>,
    held: Seq<bool>,
    c: int,
) -> SlotApp {
    if current[c] == desired[c] {
        current[c]
    } else if held[c] {
        None
    } else {
        desired[c]
    }
}

impl LayoutManager {
    /// Nothing running, nothing held.
    pub fn new() -> (r: Self)
        ensures
            forall|c: int| 0 <= c < 16 ==> r.layout@[c] is None && !r.held@[c],
    {
        LayoutManager { layout: [None; 16], held: [false; 16] }
    }

    /// Marks `start_channel` as held (or releases it).
    pub fn set_held(&mut self, start_channel: usize, held: bool)
        requires
            start_channel < 16,
        ensures
            final(self).held@ == old(self).held@.update(start_channel as int, held),
            final(self).layout == old(self).layout,
    {
        self.held[start_channel] = held;
    }

    /// Forgets the app on `start_channel`; returns whether one was running
    /// there (and must be told to exit).
    pub fn exit_app(&mut self, start_channel: usize) -> (signal: bool)
        requires
            start_channel < 16,
        ensures
            signal == (old(self).layout@[start_channel as int] is Some),
            final(self).layout@ == old(self).layout@.update(start_channel as int, None),
            final(self).held == old(self).held,
    {
        if self.layout[start_channel].is_some() {
            self.layout[start_channel] = None;
            true
        } else {
            false
        }
    }

    /// Restores `(app_id, channels, layout_id)` on `start_channel` when
    /// nothing runs there. `spawned` is the outcome of the spawn the caller
    /// attempted because the channel was free: only a spawn that started is
    /// recorded, so a layout never claims an app that is not running.
    /// Returns whether the app was recorded.
    pub fn spawn_one(&mut self, start_channel: usize, app_id: u8, channels: usize, layout_id: u8, spawned: bool) -> (recorded: bool)
        requires
            start_channel < 16,
        ensures
            recorded == (old(self).layout@[start_channel as int] is None && spawned),
            recorded ==> final(self).layout@ == old(self).layout@.update(
                start_channel as int,
                Some((app_id, channels, layout_id)),
            ),
            !recorded ==> final(self).layout == old(self).layout,
            final(self).held == old(self).held,
    {
        if self.layout[start_channel].is_none() && spawned {
            self.layout[start_channel] = Some((app_id, channels, layout_id));
            true
        } else {
            false
        }
    }

    /// What reconciling with `desired` (indexed by start channel) will do,
    /// without doing it: which channels exit, on which the desired app must
    /// be spawned, and whether anything is to be done. The caller attempts
    /// the spawns and hands their outcomes to `spawn_layout`.
    pub fn plan_layout(&self, desired: &[SlotApp; 16]) -> (plan: SpawnPlan)
        ensures
            forall|c: int|
                0 <= c < 16 ==> #[trigger] plan.exits@[c] == must_exit(self.layout@, desired@, c),
            forall|c: int|
                0 <= c < 16 ==> #[trigger] plan.spawns@[c] == must_spawn(
                    self.layout@,
                    desired@,
                    self.held@,
                    c,
                ),
            plan.changed == some_action(plan.exits@, plan.spawns@),
    {
        let mut exits = [false; 16];
        let mut spawns = [false; 16];
        let mut sc: usize = 0;
        while sc < 16
            invariant
                sc <= 16,
                forall|c: int| 0 <= c < 16 ==> #[trigger] exits@[c] == (c < sc && must_exit(self.layout@, desired@, c)),
                forall|c: int|
                    0 <= c < 16 ==> #[trigger] spawns@[c] == (c < sc && must_spawn(
                        self.layout@,
                        desired@,
                        self.held@,
                        c,
                    )),
            decreases 16 - sc,
        {
            let current_app = self.layout[sc];
            if current_app.is_some() && current_app != desired[sc] {
                exits[sc] = true;
            }
            if desired[sc].is_some() && current_app != desired[sc] && !self.held[sc] {
                spawns[sc] = true;
            }
            sc = sc + 1;
        }
        let all: [bool; 16] = [true; 16];
        let changed = any_action(&exits, &spawns, &all);
        proof {
            assert forall|c: int| 0 <= c < 16 implies all@[c] by {}
            if some_action(exits@, spawns@) {
                let w = choose|c: int| 0 <= c < 16 && (#[trigger] exits@[c] || spawns@[c]);
                assert(exits@[w] || (spawns@[w] && all@[w]));
            }
            if some_effect(exits@, spawns@, all@) {
                let w = choose|c: int| 0 <= c < 16 && (#[trigger] exits@[c] || (spawns@[c] && all@[c]));
                assert(exits@[w] || spawns@[w]);
            }
        }
        SpawnPlan { exits, spawns, changed }
    }

    /// Reconciles the running apps with `desired` (indexed by start channel):
    /// first every app that is not the desired one exits, then every desired
    /// app that is not running is recorded, except on held channels. The
    /// spawns were attempted by the caller (as `plan_layout` gave them);
    /// `spawned[c]` is the outcome on channel `c`. A spawn that failed leaves
    /// its channel empty, so the next reconciliation tries it again. The plan
    /// returned lists the exits and attempted spawns, and `changed` says
    /// whether an app exited or a spawn started.
    pub fn spawn_layout(&mut self, desired: &[SlotApp; 16], spawned: &[bool; 16]) -> (plan: SpawnPlan)
        ensures
            forall|c: int|
                0 <= c < 16 ==> #[trigger] plan.exits@[c] == must_exit(
                    old(self).layout@,
                    desired@,
                    c,
                ),
            forall|c: int|
                0 <= c < 16 ==> #[trigger] plan.spawns@[c] == must_spawn(
                    old(self).layout@,
                    desired@,
                    old(self).held@,
                    c,
                ),
            forall|c: int|
                0 <= c < 16 ==> #[trigger] final(self).layout@[c] == committed(
                    old(self).layout@,
                    desired@,
                    old(self).held@,
                    spawned@,
                    c,
                ),
            plan.changed == some_effect(plan.exits@, plan.spawns@, spawned@),
            final(self).held == old(self).held,
    {
        let ghost cur0 = self.layout@;
        let mut exits = [false; 16];
        let mut spawns = [false; 16];
        let mut sc: usize = 0;
        while sc < 16
            invariant
                sc <= 16,
                self.held == old(self).held,
                cur0 == old(self).layout@,
                forall|c: int|
                    0 <= c < 16 ==> #[trigger] self.layout@[c] == (if c < sc && must_exit(
                        cur0,
                        desired@,
                        c,
                    ) {
                        None
                    } else {
                        cur0[c]
                    }),
                forall|c: int| 0 <= c < 16 ==> #[trigger] exits@[c] == (c < sc && must_exit(cur0, desired@, c)),
                forall|c: int| 0 <= c < 16 ==> !#[trigger] spawns@[c],
            decreases 16 - sc,
        {
            let current_app = self.layout[sc];
            if current_app.is_some() && current_app != desired[sc] {
                let _ = self.exit_app(sc);
                exits[sc] = true;
            }
            sc = sc + 1;
        }
        let ghost held0 = old(self).held@;
        let mut sc: usize = 0;
        while sc < 16
            invariant
                sc <= 16,
                self.held == old(self).held,
                cur0 == old(self).layout@,
                held0 == old(self).held@,
                forall|c: int|
                    0 <= c < 16 ==> #[trigger] self.layout@[c] == (if c < sc {
                        committed(cur0, desired@, held0, spawned@, c)
                    } else if must_exit(cur0, desired@, c) {
                        None
                    } else {
                        cur0[c]
                    }),
                forall|c: int| 0 <= c < 16 ==> #[trigger] exits@[c] == must_exit(cur0, desired@, c),
                forall|c: int|
                    0 <= c < 16 ==> #[trigger] spawns@[c] == (c < sc && must_spawn(
                        cur0,
                        desired@,
                        held0,
                        c,
                    )),
            decreases 16 - sc,
        {
            if let Some((app_id, channels, layout_id)) = desired[sc] {
                let should_spawn = self.layout[sc].is_none();
                let held = self.held[sc];
                if should_spawn && !held {
                    spawns[sc] = true;
                    if spawned[sc] {
                        self.layout[sc] = Some((app_id, channels, layout_id));
                    }
                }
            }
            sc = sc + 1;
        }
        let changed = any_action(&exits, &spawns, spawned);
        SpawnPlan { exits, spawns, changed }
    }

    /// Exits every running app, then reconciles with `desired`; the spawns
    /// (every desired app on a channel that is not held) were attempted by
    /// the caller, `spawned[c]` giving the outcome on channel `c`. Returns
    /// the channels that were told to exit and the plan.
    pub fn respawn_all(&mut self, desired: &[SlotApp; 16], spawned: &[bool; 16]) -> (r: ([bool; 16], SpawnPlan))
        ensures
            forall|c: int| 0 <= c < 16 ==> #[trigger] r.0@[c] == (old(self).layout@[c] is Some),
            forall|c: int|
                0 <= c < 16 ==> #[trigger] r.1.spawns@[c] == (desired@[c] is Some
                    && !old(self).held@[c]),
            forall|c: int|
                0 <= c < 16 ==> #[trigger] final(self).layout@[c] == (if old(self).held@[c] || !spawned@[c] {
                    None
                } else {
                    desired@[c]
                }),
            final(self).held == old(self).held,
    {
        let mut exited = [false; 16];
        let mut sc: usize = 0;
        while sc < 16
            invariant
                sc <= 16,
                self.held == old(self).held,
                forall|c: int|
                    0 <= c < 16 ==> #[trigger] self.layout@[c] == (if c < sc {
                        None
                    } else {
                        old(self).layout@[c]
                    }),
                forall|c: int|
                    0 <= c < 16 ==> #[trigger] exited@[c] == (c < sc && old(self).layout@[c] is Some),
            decreases 16 - sc,
        {
            let signal = self.exit_app(sc);
            exited[sc] = signal;
            sc = sc + 1;
        }
        let plan = self.spawn_layout(desired, spawned);
        (exited, plan)
    }
}

/// Whether some channel exits or starts an app: an exit, or an attempted
/// spawn that started.
pub open spec fn some_effect(exits: Seq<bool>, spawns: Seq<bool>, spawned: Seq<bool>) -> bool {
    exists|c: int| 0 <= c < 16 && (#[trigger] exits[c] || (spawns[c] && spawned[c]))
}

/// Whether some channel exits or has an attempted spawn that started (with
/// every spawn counted as started: whether some channel has work at all).
fn any_action(exits: &[bool; 16], spawns: &[bool; 16], spawned: &[bool; 16]) -> (r: bool)
    ensures
        r == some_effect(exits@, spawns@, spawned@),
{
    let mut changed = false;
    let mut k: usize = 0;
    while k < 16
        invariant
            k <= 16,
            changed == any_true(Seq::new(16, |c: int| exits@[c] || (spawns@[c] && spawned@[c])), k as int),
        decreases 16 - k,
    {
        changed = changed || exits[k] || (spawns[k] && spawned[k]);
        k = k + 1;
    }
    proof {
        let acts = Seq::new(16, |c: int| exits@[c] || (spawns@[c] && spawned@[c]));
        lemma_any_true(acts, 16);
        if changed {
            let w = choose|c: int| 0 <= c < 16 && #[trigger] acts[c];
            assert(exits@[w] || (spawns@[w] && spawned@[w]));
        }
        if some_effect(exits@, spawns@, spawned@) {
            let w = choose|c: int| 0 <= c < 16 && (#[trigger] exits@[c] || (spawns@[c] && spawned@[c]));
            assert(acts[w]);
        }
    }
    changed
}

/// What runs on channel `c` once a reconciliation is committed with the
/// spawn outcomes `spawned`: a planned spawn leaves the desired app if it
/// started and nothing if it failed; elsewhere as `reconciled` says.
pub open spec fn committed(
    current: Seq<SlotApp>,
    desired: Seq<SlotApp>,
    held: Seq<bool>,
    spawned: Seq<bool>,
    c: int,
) -> SlotApp {
    if must_spawn(current, desired, held, c) {
        if spawned[c] {
            desired[c]
        } else {
            None
        }
    } else {
        reconciled(current, desired, held, c)
    }
}

/// After reconciling, every channel that is not held runs exactly the
/// desired app, unless its spawn failed; a failed spawn leaves the channel
/// empty, never recorded as running.
pub proof fn law_reconciled_matches_desired(
    current: Seq<SlotApp>,
    desired: Seq<SlotApp>,
    held: Seq<bool>,
    spawned: Seq<bool>,
    c: int,
)
    requires
        !held[c],
    ensures
        spawned[c] ==> committed(current, desired, held, spawned, c) == desired[c],
        must_spawn(current, desired, held, c) && !spawned[c] ==> committed(current, desired, held, spawned, c)
            is None,
{
}

/// Reconciling a second time with the same desired layout exits nothing and
/// spawns only where the first spawn failed: with every spawn started it
/// does nothing at all.
pub proof fn law_reconcile_twice_is_quiet(
    current: Seq<SlotApp>,
    desired: Seq<SlotApp>,
    held: Seq<bool>,
    spawned: Seq<bool>,
    c: int,
)
    requires
        0 <= c < 16,
    ensures
        !must_exit(Seq::new(16, |i: int| committed(current, desired, held, spawned, i)), desired, c),
        must_spawn(Seq::new(16, |i: int| committed(current, desired, held, spawned, i)), desired, held, c)
            == (must_spawn(current, desired, held, c) && !spawned[c]),
{
}

/// Task-arena bytes of the fixed system tasks.
pub const SYSTEM_TASK_BYTES: u32 = 30_456;
/// Bytes of the task pool shared by all installable apps.
pub const FPAPP_POOL_BYTES: u32 = 206_720;
/// Total task-arena bytes.
pub const TASK_ARENA_SIZE: u32 = 393_216;
/// Reserve for alignment padding.
pub const SAFETY_MARGIN_BYTES: u32 = 512;

/// Task-pool bytes of each built-in app: `(app_id, bytes)`.
pub const BUILTIN_POOL_BYTES: [(u8, u32); 27] = [
    (1, 22528),
    (2, 27264),
    (3, 13504),
    (4, 26368),
    (5, 7792),
    (6, 29312),
    (7, 13504),
    (8, 12416),
    (9, 24064),
    (10, 27392),
    (11, 9728),
    (12, 9920),
    (13, 10304),
    (14, 10304),
    (15, 25088),
    (16, 20992),
    (17, 11008),
    (18, 25472),
    (19, 12672),
    (20, 14016),
    (21, 14400),
    (22, 14080),
    (23, 11072),
    (24, 9840),
    (25, 38656),
    (26, 8280),
    (27, 12352),
];

/// Whether bit `id` of `mask` is set.
pub open spec fn bit_set(mask: u32, id: u8) -> bool {
    (mask >> id) & 1 == 1
}

/// App id of an occupied slot.
pub open spec fn slot_id(slot: SlotApp) -> u8 {
    match slot {
        Some(a) => a.0,
        None => 0,
    }
}

/// Whether `layout` places an app with id `id`.
pub open spec fn layout_has_app(layout: Seq<SlotApp>, id: u8) -> bool {
    exists|c: int| 0 <= c < layout.len() && #[trigger] layout[c] is Some && slot_id(layout[c]) == id
}

/// Whether `layout` places an installable app (ids from 100 up).
pub open spec fn layout_has_installable(layout: Seq<SlotApp>) -> bool {
    exists|c: int| 0 <= c < layout.len() && #[trigger] layout[c] is Some && slot_id(layout[c]) >= 100
}

/// Bytes of the pools in `table` already carved out (bit set in `spawned`).
pub open spec fn spawned_bytes(table: Seq<(u8, u32)>, spawned: u32) -> int
    decreases table.len(),
{
    if table.len() == 0 {
        0
    } else {
        spawned_bytes(table.drop_last(), spawned) + if bit_set(spawned, table.last().0) {
            table.last().1 as int
        } else {
            0
        }
    }
}

/// Bytes of the pools in `table` that `layout` would newly carve out.
pub open spec fn needed_bytes(table: Seq<(u8, u32)>, spawned: u32, layout: Seq<SlotApp>) -> int
    decreases table.len(),
{
    if table.len() == 0 {
        0
    } else {
        needed_bytes(table.drop_last(), spawned, layout) + if layout_has_app(layout, table.last().0)
            && !bit_set(spawned, table.last().0) {
            table.last().1 as int
        } else {
            0
        }
    }
}

/// Whether spawning `layout` could exhaust the task arena.
pub open spec fn exceeds_budget(spawned: u32, fpapp_spawned: bool, layout: Seq<SlotApp>) -> bool {
    let table = BUILTIN_POOL_BYTES@;
    let used = SYSTEM_TASK_BYTES + spawned_bytes(table, spawned) + if fpapp_spawned {
        FPAPP_POOL_BYTES as int
    } else {
        0
    };
    let needed = needed_bytes(table, spawned, layout) + if !fpapp_spawned && layout_has_installable(
        layout,
    ) {
        FPAPP_POOL_BYTES as int
    } else {
        0
    };
    used + needed > TASK_ARENA_SIZE - SAFETY_MARGIN_BYTES
}

proof fn lemma_table_bytes_bounded(table: Seq<(u8, u32)>, spawned: u32, layout: Seq<SlotApp>)
    requires
        forall|i: int| 0 <= i < table.len() ==> #[trigger] table[i].1 <= 40000,
    ensures
        0 <= spawned_bytes(table, spawned) <= 40000 * table.len(),
        0 <= needed_bytes(table, spawned, layout) <= 40000 * table.len(),
    decreases table.len(),
{
    if table.len() > 0 {
        assert forall|i: int| 0 <= i < table.drop_last().len() implies #[trigger] table.drop_last()[i].1
            <= 40000 by {
            assert(table.drop_last()[i] == table[i]);
        }
        lemma_table_bytes_bounded(table.drop_last(), spawned, layout);
        assert(table.last() == table[table.len() - 1]);
    }
}

/// Whether `layout` places an app with id `id`.
fn layout_contains_app(layout: &[SlotApp; 16], id: u8) -> (r: bool)
    ensures
        r == layout_has_app(layout@, id),
{
    let mut c: usize = 0;
    while c < 16
        invariant
            c <= 16,
            forall|j: int| 0 <= j < c ==> !(#[trigger] layout@[j] is Some && slot_id(layout@[j]) == id),
        decreases 16 - c,
    {
        if let Some((app_id, _, _)) = layout[c] {
            if app_id == id {
                return true;
            }
        }
        c = c + 1;
    }
    false
}

/// True if spawning `layout` could exhaust the task arena: the pools of the
/// app types spawned since boot (`spawned` bit per built-in app id,
/// `fpapp_spawned` for installable apps) plus the pools `layout` would newly
/// need exceed the arena less the safety margin.
pub fn layout_exceeds_arena_budget(layout: &[SlotApp; 16], spawned: u32, fpapp_spawned: bool) -> (r: bool)
    ensures
        r == exceeds_budget(spawned, fpapp_spawned, layout@),
{
    let ghost table = BUILTIN_POOL_BYTES@;
    let pools = BUILTIN_POOL_BYTES;
    assert(pools@ == table);
    proof {
        assert forall|i: int| 0 <= i < table.len() implies #[trigger] table[i].1 <= 40000 by {}
        lemma_table_bytes_bounded(table, spawned, layout@);
    }
    let mut used_pools: u32 = 0;
    let mut needed_pools: u32 = 0;
    let mut i: usize = 0;
    while i < 27
        invariant
            i <= 27,
            pools@ == table,
            table == BUILTIN_POOL_BYTES@,
            forall|k: int| 0 <= k < table.len() ==> #[trigger] table[k].1 <= 40000,
            used_pools == spawned_bytes(table.take(i as int), spawned),
            needed_pools == needed_bytes(table.take(i as int), spawned, layout@),
        decreases 27 - i,
    {
        let (id, bytes) = pools[i];
        assert(table.take(i + 1).drop_last() =~= table.take(i as int));
        assert(table.take(i + 1).last() == table[i as int]);
        proof {
            lemma_table_bytes_bounded(table.take(i as int), spawned, layout@);
            assert forall|k: int| 0 <= k < table.take(i as int).len() implies #[trigger] table.take(
                i as int,
            )[k].1 <= 40000 by {}
        }
        let set = (spawned >> id) & 1 == 1;
        if set {
            used_pools = used_pools + bytes;
        } else if layout_contains_app(layout, id) {
            needed_pools = needed_pools + bytes;
        }
        i = i + 1;
    }
    assert(table.take(27) =~= table);
    let mut has_installable = false;
    let mut c: usize = 0;
    while c < 16
        invariant
            c <= 16,
            has_installable == exists|j: int|
                0 <= j < c && #[trigger] layout@[j] is Some && slot_id(layout@[j]) >= 100,
        decreases 16 - c,
    {
        if let Some((app_id, _, _)) = layout[c] {
            if app_id >= 100 {
                has_installable = true;
            }
        }
        c = c + 1;
    }
    let used = SYSTEM_TASK_BYTES + used_pools + if fpapp_spawned {
        FPAPP_POOL_BYTES
    } else {
        0
    };
    let needs_fpapp_pool = !fpapp_spawned && has_installable;
    let needed = needed_pools + if needs_fpapp_pool {
        FPAPP_POOL_BYTES
    } else {
        0
    };
    used + needed > TASK_ARENA_SIZE - SAFETY_MARGIN_BYTES
}

} // verus!
