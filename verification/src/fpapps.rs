//! The catalog of installable apps: one cached runtime descriptor per flash
//! slot, published only for slots that are not quarantined.

use vstd::prelude::*;

verus! {

/// Number of installable-app slots.
pub const FPAPP_SLOTS: usize = 4;

/// What the runtime needs to start an installed app.
#[derive(Clone, Copy, PartialEq, Eq, Structural)]
pub struct RuntimeDescriptor {
    /// Which slot this came from.
    pub slot: u8,
    pub app_id: u8,
    pub channels: u8,
    pub code_base: u32,
    pub required_bytes: u32,
    pub init: u32,
    pub poll: u32,
    pub drop: u32,
}

/// The published descriptor of one slot; an app id of 0 marks it empty.
#[derive(Clone, Copy, PartialEq, Eq, Structural)]
pub struct CachedDescriptor {
    pub app_id: u8,
    pub channels: u8,
    pub code_base: u32,
    pub required_bytes: u32,
    pub init: u32,
    pub poll: u32,
    pub drop: u32,
}

/// The descriptor a cache entry of `slot` yields for `app_id`: none from a
/// cleared (empty) entry, whatever id is asked for, nor from an entry
/// published for another app.
pub open spec fn cached_get(c: CachedDescriptor, slot: int, app_id: u8) -> Option<RuntimeDescriptor> {
    if c.app_id == 0 || c.app_id != app_id {
        None
    } else {
        Some(
            RuntimeDescriptor {
                slot: slot as u8,
                app_id,
                channels: c.channels,
                code_base: c.code_base,
                required_bytes: c.required_bytes,
                init: c.init,
                poll: c.poll,
                drop: c.drop,
            },
        )
    }
}

impl CachedDescriptor {
    /// An empty entry.
    pub fn new() -> (r: Self)
        ensures
            r.app_id == 0 && r.channels == 0 && r.code_base == 0 && r.required_bytes == 0
                && r.init == 0 && r.poll == 0 && r.drop == 0,
    {
        Self { app_id: 0, channels: 0, code_base: 0, required_bytes: 0, init: 0, poll: 0, drop: 0 }
    }

    /// Marks the entry empty.
    pub fn clear(&mut self)
        ensures
            final(self).app_id == 0,
            final(self).channels == old(self).channels,
            final(self).code_base == old(self).code_base,
            final(self).required_bytes == old(self).required_bytes,
            final(self).init == old(self).init,
            final(self).poll == old(self).poll,
            final(self).drop == old(self).drop,
    {
        self.app_id = 0;
    }

    /// Publishes `descriptor` (everything but its slot).
    pub fn publish(&mut self, descriptor: RuntimeDescriptor)
        ensures
            final(self).app_id == descriptor.app_id,
            final(self).channels == descriptor.channels,
            final(self).code_base == descriptor.code_base,
            final(self).required_bytes == descriptor.required_bytes,
            final(self).init == descriptor.init,
            final(self).poll == descriptor.poll,
            final(self).drop == descriptor.drop,
    {
        self.clear();
        self.channels = descriptor.channels;
        self.code_base = descriptor.code_base;
        self.required_bytes = descriptor.required_bytes;
        self.init = descriptor.init;
        self.poll = descriptor.poll;
        self.drop = descriptor.drop;
        self.app_id = descriptor.app_id;
    }

    /// The descriptor of `slot` if the entry is published for `app_id`; a
    /// cleared entry yields nothing.
    pub fn get(&self, slot: usize, app_id: u8) -> (r: Option<RuntimeDescriptor>)
        ensures
            r == cached_get(*self, slot as int, app_id),
    {
        if self.app_id == 0 || self.app_id != app_id {
            return None;
        }
        Some(
            RuntimeDescriptor {
                slot: slot as u8,
                app_id,
                channels: self.channels,
                code_base: self.code_base,
                required_bytes: self.required_bytes,
                init: self.init,
                poll: self.poll,
                drop: self.drop,
            },
        )
    }
}

/// Publishing a descriptor and reading it back by its app id gives it back,
/// with the slot it was read from.
pub proof fn law_publish_then_get(c: CachedDescriptor, d: RuntimeDescriptor, slot: int)
    requires
        d.app_id != 0,
        c.app_id == d.app_id,
        c.channels == d.channels,
        c.code_base == d.code_base,
        c.required_bytes == d.required_bytes,
        c.init == d.init,
        c.poll == d.poll,
        c.drop == d.drop,
        slot == d.slot as int,
    ensures
        cached_get(c, slot, d.app_id) == Some(d),
{
}

/// The cached descriptors of all slots and the quarantine mask (bit `i` set:
/// slot `i` hung the device and may not run).
pub struct FpAppCatalog {
    pub descriptors: [CachedDescriptor; 4],
    pub quarantined: u8,
}

/// The first slot's descriptor for `app_id`, in slot order.
pub open spec fn find_descriptor(entries: Seq<CachedDescriptor>, app_id: u8, from: int) -> Option<
    RuntimeDescriptor,
>
    decreases entries.len() - from,
{
    if from >= entries.len() || from < 0 {
        None
    } else {
        match cached_get(entries[from], from, app_id) {
            Some(d) => Some(d),
            None => find_descriptor(entries, app_id, from + 1),
        }
    }
}

/// Whether bit `slot` of `mask` is set.
pub open spec fn quarantined_bit(mask: u8, slot: int) -> bool {
    (mask >> (slot as u8)) & 1 == 1
}

/// The entry of slot `slot` after a refresh: cleared when quarantined or
/// when the slot holds no runnable app, otherwise the found descriptor.
pub open spec fn refreshed_entry(
    old_entry: CachedDescriptor,
    found: Option<RuntimeDescriptor>,
    quarantined: bool,
) -> CachedDescriptor {
    if quarantined || found is None {
        CachedDescriptor { app_id: 0, ..old_entry }
    } else {
        let d = found->0;
        CachedDescriptor {
            app_id: d.app_id,
            channels: d.channels,
            code_base: d.code_base,
            required_bytes: d.required_bytes,
            init: d.init,
            poll: d.poll,
            drop: d.drop,
        }
    }
}

impl FpAppCatalog {
    /// Every slot empty, nothing quarantined.
    pub fn new() -> (r: Self)
        ensures
            forall|i: int| 0 <= i < 4 ==> (#[trigger] r.descriptors@[i]).app_id == 0,
            r.quarantined == 0,
    {
        FpAppCatalog { descriptors: [CachedDescriptor::new(); 4], quarantined: 0 }
    }

    /// True if some slot holds an app that may run.
    pub fn has_runnable_app(&self) -> (r: bool)
        ensures
            r == exists|i: int| 0 <= i < 4 && (#[trigger] self.descriptors@[i]).app_id != 0,
    {
        let mut i: usize = 0;
        while i < 4
            invariant
                i <= 4,
                forall|j: int| 0 <= j < i ==> (#[trigger] self.descriptors@[j]).app_id == 0,
            decreases 4 - i,
        {
            if self.descriptors[i].app_id != 0 {
                return true;
            }
            i = i + 1;
        }
        false
    }

    /// The quarantine mask.
    pub fn quarantined_slots(&self) -> (r: u8)
        ensures
            r == self.quarantined,
    {
        self.quarantined
    }

    /// Rebuilds every entry from what the slots hold (`found`, per slot),
    /// leaving quarantined slots cleared.
    pub fn refresh_catalog(&mut self, found: &[Option<RuntimeDescriptor>; 4])
        ensures
            final(self).quarantined == old(self).quarantined,
            forall|i: int|
                0 <= i < 4 ==> #[trigger] final(self).descriptors@[i] == refreshed_entry(
                    old(self).descriptors@[i],
                    found@[i],
                    quarantined_bit(old(self).quarantined, i),
                ),
    {
        let quarantined = self.quarantined;
        let mut slot: usize = 0;
        while slot < 4
            invariant
                slot <= 4,
                quarantined == old(self).quarantined,
                self.quarantined == old(self).quarantined,
                forall|i: int|
                    0 <= i < 4 ==> #[trigger] self.descriptors@[i] == (if i < slot {
                        refreshed_entry(
                            old(self).descriptors@[i],
                            found@[i],
                            quarantined_bit(old(self).quarantined, i),
                        )
                    } else {
                        old(self).descriptors@[i]
                    }),
            decreases 4 - slot,
        {
            let bit = (quarantined >> (slot as u8)) & 1;
            let mut entry = self.descriptors[slot];
            if bit != 0 {
                entry.clear();
            } else {
                match found[slot] {
                    Some(d) => entry.publish(d),
                    None => entry.clear(),
                }
            }
            assert(bit != 0 <==> quarantined_bit(quarantined, slot as int)) by (bit_vector)
                requires
                    bit == (quarantined >> (slot as u8)) & 1,
            ;
            self.descriptors[slot] = entry;
            slot = slot + 1;
        }
    }

    /// Installs the quarantine mask and rebuilds the catalog under it.
    pub fn apply_quarantine(&mut self, mask: u8, found: &[Option<RuntimeDescriptor>; 4])
        ensures
            final(self).quarantined == mask,
            forall|i: int|
                0 <= i < 4 ==> #[trigger] final(self).descriptors@[i] == refreshed_entry(
                    old(self).descriptors@[i],
                    found@[i],
                    quarantined_bit(mask, i),
                ),
    {
        self.quarantined = mask;
        self.refresh_catalog(found);
    }

    /// Lifts the quarantine of `slot`. Returns the new mask to persist, or
    /// `None` when the slot was not quarantined (nothing changes then).
    pub fn clear_quarantine(&mut self, slot: usize) -> (r: Option<u8>)
        requires
            slot < 8,
        ensures
            final(self).descriptors == old(self).descriptors,
            final(self).quarantined == old(self).quarantined & !(1u8 << (slot as u8)),
            r == (if old(self).quarantined & !(1u8 << (slot as u8)) == old(self).quarantined {
                None
            } else {
                Some(final(self).quarantined)
            }),
    {
        let previous = self.quarantined;
        let mask = previous & !(1u8 << (slot as u8));
        if mask == previous {
            return None;
        }
        self.quarantined = mask;
        Some(mask)
    }

    /// The descriptor of the first slot that publishes `app_id`.
    pub fn runtime_descriptor(&self, app_id: u8) -> (r: Option<RuntimeDescriptor>)
        ensures
            r == find_descriptor(self.descriptors@, app_id, 0),
    {
        let mut slot: usize = 4;
        let mut result: Option<RuntimeDescriptor> = None;
        while slot > 0
            invariant
                slot <= 4,
                result == find_descriptor(self.descriptors@, app_id, slot as int),
            decreases slot,
        {
            slot = slot - 1;
            let got = self.descriptors[slot].get(slot, app_id);
            if got.is_some() {
                result = got;
            }
        }
        result
    }

    /// Channel count of the installed app `app_id`, if one is published.
    pub fn get_channels(&self, app_id: u8) -> (r: Option<usize>)
        ensures
            r == (match find_descriptor(self.descriptors@, app_id, 0) {
                Some(d) => Some(d.channels as usize),
                None => None,
            }),
    {
        match self.runtime_descriptor(app_id) {
            Some(d) => Some(d.channels as usize),
            None => None,
        }
    }
}

/// A quarantined slot's entry is cleared by every refresh, so its app is
/// never found, whatever the slot holds.
pub proof fn law_quarantined_slot_never_published(
    old_entry: CachedDescriptor,
    found: Option<RuntimeDescriptor>,
    app_id: u8,
    slot: int,
)
    ensures
        cached_get(refreshed_entry(old_entry, found, true), slot, app_id) is None,
{
}

/// Whether an entry is published (not cleared) for `app_id`.
pub open spec fn published_for(c: CachedDescriptor, app_id: u8) -> bool {
    c.app_id != 0 && c.app_id == app_id
}

proof fn lemma_find_descriptor(entries: Seq<CachedDescriptor>, app_id: u8, from: int)
    requires
        0 <= from <= entries.len() <= 256,
    ensures
        find_descriptor(entries, app_id, from) is Some <==> exists|i: int|
            from <= i < entries.len() && #[trigger] published_for(entries[i], app_id),
        find_descriptor(entries, app_id, from) is Some ==> {
            let d = find_descriptor(entries, app_id, from)->0;
            &&& from <= d.slot < entries.len()
            &&& published_for(entries[d.slot as int], app_id)
            &&& forall|k: int| from <= k < d.slot ==> !#[trigger] published_for(entries[k], app_id)
            &&& Some(d) == cached_get(entries[d.slot as int], d.slot as int, app_id)
        },
    decreases entries.len() - from,
{
    if from < entries.len() {
        lemma_find_descriptor(entries, app_id, from + 1);
        if published_for(entries[from], app_id) {
            assert((from as u8) as int == from);
        } else {
            if exists|i: int| from <= i < entries.len() && #[trigger] published_for(entries[i], app_id) {
                let w = choose|i: int| from <= i < entries.len() && #[trigger] published_for(entries[i], app_id);
                assert(w != from);
                assert(from + 1 <= w);
            }
        }
    }
}

/// The catalog lookup finds an app exactly when some slot is published
/// (not cleared) for it, and then gives the lowest such slot's descriptor:
/// a cleared or quarantined slot never matches, whatever id is asked for,
/// app id 0 included.
pub proof fn law_lookup_first_published(entries: Seq<CachedDescriptor>, app_id: u8)
    requires
        entries.len() == FPAPP_SLOTS,
    ensures
        find_descriptor(entries, app_id, 0) is Some <==> exists|i: int|
            0 <= i < FPAPP_SLOTS && #[trigger] published_for(entries[i], app_id),
        find_descriptor(entries, app_id, 0) is Some ==> {
            let d = find_descriptor(entries, app_id, 0)->0;
            &&& d.slot < FPAPP_SLOTS
            &&& d.app_id == app_id && app_id != 0
            &&& published_for(entries[d.slot as int], app_id)
            &&& forall|k: int| 0 <= k < d.slot ==> !#[trigger] published_for(entries[k], app_id)
            &&& d.channels == entries[d.slot as int].channels
            &&& d.code_base == entries[d.slot as int].code_base
            &&& d.required_bytes == entries[d.slot as int].required_bytes
            &&& d.init == entries[d.slot as int].init
            &&& d.poll == entries[d.slot as int].poll
            &&& d.drop == entries[d.slot as int].drop
        },
        find_descriptor(entries, 0, 0) is None,
{
    lemma_find_descriptor(entries, app_id, 0);
    lemma_find_descriptor(entries, 0, 0);
}

} // verus!
