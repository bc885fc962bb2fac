//! Persistent storage of the device: the FRAM address map, the records apps
//! store their state and parameters in, and the in-memory stores behind them.

use vstd::prelude::*;

use crate::config::{FromValue, Value};

verus! {

/// Start of the global configuration area.
pub const GLOBAL_CONFIG_START: u32 = 0;
/// Start of the layout area.
pub const LAYOUT_START: u32 = 384;
/// Start of the calibration area.
pub const CALIBRATION_START: u32 = 512;
/// Start of the app storage area.
pub const APP_STORAGE_START: u32 = 1024;
/// End of the app storage area, start of the app parameter area.
pub const APP_PARAM_START: u32 = 122_880;
/// End of the app parameter area.
pub const APP_PARAM_END: u32 = 131_072;
/// Bytes reserved per stored app state.
pub const APP_STORAGE_MAX_BYTES: u32 = 400;
/// Bytes reserved per app's parameters.
pub const APP_PARAMS_MAX_BYTES: u32 = 128;
/// Scenes each app can store besides its live state.
pub const SCENES_PER_APP: u32 = 16;

/// Bytes of one app's block: its live state plus one slot per scene.
pub open spec fn app_block_bytes() -> int {
    (SCENES_PER_APP + 1) * APP_STORAGE_MAX_BYTES
}

/// Where an app's state lives: the app's start channel, and the scene, or
/// `None` for the live state.
#[derive(Clone, Copy, PartialEq, Eq, Structural)]
pub struct AppStorageAddress {
    pub start_channel: usize,
    pub scene: Option<u8>,
}

/// Slot of a scene within an app's block: 0 for the live state, `s + 1` for scene `s`.
pub open spec fn scene_slot(scene: Option<u8>) -> int {
    match scene {
        None => 0,
        Some(s) => s + 1,
    }
}

/// The FRAM address of a storage key (start channel taken as `u32`).
pub open spec fn storage_address(key: AppStorageAddress) -> int {
    APP_STORAGE_START + (key.start_channel as u32) * app_block_bytes() + scene_slot(key.scene)
        * APP_STORAGE_MAX_BYTES
}

/// The storage key whose slot contains `address`.
pub open spec fn storage_key(address: u32) -> AppStorageAddress {
    let offset = address - APP_STORAGE_START;
    let slot = (offset % app_block_bytes()) / (APP_STORAGE_MAX_BYTES as int);
    AppStorageAddress {
        start_channel: (offset / app_block_bytes()) as usize,
        scene: if slot == 0 {
            None
        } else {
            Some((slot - 1) as u8)
        },
    }
}

impl AppStorageAddress {
    /// The key of `scene` (or the live state) of the app starting at `start_channel`.
    pub fn new(start_channel: usize, scene: Option<u8>) -> (r: Self)
        ensures
            r.start_channel == start_channel,
            r.scene == scene,
    {
        Self { start_channel, scene }
    }

    /// The FRAM address of the key.
    pub fn to_address(self) -> (r: u32)
        requires
            storage_address(self) <= u32::MAX,
        ensures
            r == storage_address(self),
    {
        let scene_index: u32 = match self.scene {
            None => 0,
            Some(s) => (s as u32) + 1,
        };
        let ch = #[verifier::truncate] (self.start_channel as u32);
        assert(ch * 17 <= ch * 6800 && ch * 17 * 400 == ch * 6800 && ch * 6800 <= storage_address(
            self,
        )) by (nonlinear_arith)
            requires
                storage_address(self) == 1024 + ch * 6800 + scene_index * 400,
                scene_index >= 0,
                ch >= 0,
        ;
        let app_base_offset = ch * (SCENES_PER_APP + 1) * APP_STORAGE_MAX_BYTES;
        let scene_offset_in_app = scene_index * APP_STORAGE_MAX_BYTES;
        APP_STORAGE_START + app_base_offset + scene_offset_in_app
    }

    /// The key whose slot contains the FRAM address `address`.
    pub fn from_address(address: u32) -> (r: Self)
        requires
            address >= APP_STORAGE_START,
        ensures
            r == storage_key(address),
    {
        let bytes_per_app_block: u32 = (SCENES_PER_APP + 1) * APP_STORAGE_MAX_BYTES;
        let app_storage_address = address - APP_STORAGE_START;
        let start_channel_raw = app_storage_address / bytes_per_app_block;
        let start_channel = start_channel_raw as usize;
        let offset_within_app_block = app_storage_address % bytes_per_app_block;
        let scene_index_raw = offset_within_app_block / APP_STORAGE_MAX_BYTES;
        let scene = if scene_index_raw == 0 {
            None
        } else {
            Some((scene_index_raw - 1) as u8)
        };
        Self { start_channel, scene }
    }
}

/// Decoding the address of a key gives the key back, for keys of the device's
/// scenes (the scene slots of one app never reach into the next app's block).
pub proof fn law_storage_key_roundtrip(key: AppStorageAddress)
    requires
        storage_address(key) <= u32::MAX,
        key.start_channel <= u32::MAX,
        key.scene matches Some(s) ==> s < SCENES_PER_APP,
    ensures
        storage_key(storage_address(key) as u32) == key,
{
    let ch = key.start_channel as u32;
    assert(ch as int == key.start_channel);
    let si = scene_slot(key.scene);
    assert(0 <= si < 17);
    let q = ch * 6800 + si * 400;
    assert(q / 6800 == ch as int && q % 6800 == si * 400) by (nonlinear_arith)
        requires
            q == ch * 6800 + si * 400,
            0 <= si < 17,
            ch >= 0,
    ;
    assert((si * 400) / 400 == si) by (nonlinear_arith)
        requires
            si >= 0,
    ;
}

/// Encoding the key decoded from any address of the app storage area gives
/// the start of the 400-byte slot that holds the address.
pub proof fn law_storage_address_of_key_is_slot_start(address: u32)
    requires
        address >= APP_STORAGE_START,
    ensures
        storage_address(storage_key(address)) == address - (address - APP_STORAGE_START)
            % (APP_STORAGE_MAX_BYTES as int),
{
    let q = address - 1024;
    let ch = q / 6800;
    let r = q % 6800;
    assert(ch <= 631612 && q == ch * 6800 + r && 0 <= r < 6800) by (nonlinear_arith)
        requires
            0 <= q <= u32::MAX,
            ch == q / 6800,
            r == q % 6800,
    ;
    assert((ch as usize) as u32 == ch);
    let si = r / 400;
    assert(si * 400 + q % 400 == r) by (nonlinear_arith)
        requires
            si == r / 400,
            r == q % 6800,
            q >= 0,
    ;
    assert(q % 400 == r % 400) by (nonlinear_arith)
        requires
            r == q % 6800,
            q >= 0,
    ;
}

/// Where an app's parameters live: the app's start channel.
#[derive(Clone, Copy, PartialEq, Eq, Structural)]
pub struct AppParamsAddress {
    pub start_channel: usize,
}

/// The FRAM address of an app's parameters (start channel taken as `u32`).
pub open spec fn params_address(key: AppParamsAddress) -> int {
    APP_PARAM_START + (key.start_channel as u32) * APP_PARAMS_MAX_BYTES
}

impl AppParamsAddress {
    /// The key of the parameters of the app starting at `start_channel`.
    pub fn new(start_channel: usize) -> (r: Self)
        ensures
            r.start_channel == start_channel,
    {
        Self { start_channel }
    }

    /// The FRAM address of the key.
    pub fn to_address(self) -> (r: u32)
        requires
            params_address(self) <= u32::MAX,
        ensures
            r == params_address(self),
    {
        let ch = #[verifier::truncate] (self.start_channel as u32);
        APP_PARAM_START + ch * APP_PARAMS_MAX_BYTES
    }

    /// The key whose parameter block contains `address`.
    pub fn from_address(address: u32) -> (r: Self)
        requires
            address >= APP_PARAM_START,
        ensures
            r.start_channel == (address - APP_PARAM_START) / (APP_PARAMS_MAX_BYTES as int),
    {
        let app_storage_address = address - APP_PARAM_START;
        let start_channel = (app_storage_address / APP_PARAMS_MAX_BYTES) as usize;
        Self { start_channel }
    }
}

/// Decoding the parameter address of a key gives the key back.
pub proof fn law_params_key_roundtrip(key: AppParamsAddress)
    requires
        params_address(key) <= u32::MAX,
        key.start_channel <= u32::MAX,
    ensures
        (params_address(key) - APP_PARAM_START) / (APP_PARAMS_MAX_BYTES as int)
            == key.start_channel,
{
    let ch = key.start_channel as u32;
    assert((ch * 128) / 128 == ch) by (nonlinear_arith)
        requires
            ch >= 0,
    ;
}

/// A stored record: the owning app's id followed by the payload.
pub open spec fn record_bytes(app_id: u8, payload: Seq<u8>) -> Seq<u8> {
    seq![app_id] + payload
}

/// The payload of a record, when the record is non-empty and belongs to `app_id`.
pub open spec fn record_payload_spec(app_id: u8, data: Seq<u8>) -> Option<Seq<u8>> {
    if data.len() > 0 && data[0] == app_id {
        Some(data.drop_first())
    } else {
        None
    }
}

/// Frames `payload` as a record of `app_id`.
pub fn frame_record(app_id: u8, payload: &[u8]) -> (r: Vec<u8>)
    ensures
        r@ == record_bytes(app_id, payload@),
{
    let mut out: Vec<u8> = Vec::new();
    out.push(app_id);
    let mut i: usize = 0;
    while i < payload.len()
        invariant
            i <= payload@.len(),
            out@ == seq![app_id] + payload@.take(i as int),
        decreases payload@.len() - i,
    {
        out.push(payload[i]);
        i = i + 1;
        assert(out@ =~= seq![app_id] + payload@.take(i as int));
    }
    assert(payload@.take(payload@.len() as int) =~= payload@);
    out
}

/// The payload of `data` when it is a record of `app_id`; `None` for an empty
/// record or one of another app.
pub fn record_payload(app_id: u8, data: &[u8]) -> (r: Option<Vec<u8>>)
    ensures
        match r {
            Some(p) => record_payload_spec(app_id, data@) == Some(p@),
            None => record_payload_spec(app_id, data@) is None,
        },
{
    if data.len() == 0 || data[0] != app_id {
        return None;
    }
    let mut out: Vec<u8> = Vec::new();
    let mut i: usize = 1;
    while i < data.len()
        invariant
            1 <= i <= data@.len(),
            out@ == data@.subrange(1, i as int),
        decreases data@.len() - i,
    {
        out.push(data[i]);
        i = i + 1;
        assert(out@ =~= data@.subrange(1, i as int));
    }
    assert(data@.drop_first() =~= data@.subrange(1, data@.len() as int));
    Some(out)
}

/// Reading back a record gives the payload it was framed from, and no other
/// app accepts it.
pub proof fn law_record_roundtrip(app_id: u8, other: u8, payload: Seq<u8>)
    ensures
        record_payload_spec(app_id, record_bytes(app_id, payload)) == Some(payload),
        other != app_id ==> record_payload_spec(other, record_bytes(app_id, payload)) is None,
{
    assert(record_bytes(app_id, payload).drop_first() =~= payload);
}

/// A fixed-size array of values that an app keeps in its stored state.
#[derive(Clone, Copy)]
pub struct Arr<T: Copy, const N: usize>(pub [T; N]);

impl<T: Copy, const N: usize> Arr<T, N> {
    /// The array holding `initial`.
    pub fn new(initial: [T; N]) -> (r: Self)
        ensures
            r.0@ == initial@,
    {
        Self(initial)
    }

    /// Element `idx`.
    pub fn at(&self, idx: usize) -> (r: T)
        requires
            idx < N,
        ensures
            r == self.0@[idx as int],
    {
        self.0[idx]
    }

    /// Replaces element `idx` by `value`.
    pub fn set_at(&mut self, idx: usize, value: T)
        requires
            idx < N,
        ensures
            final(self).0@ == old(self).0@.update(idx as int, value),
    {
        self.0[idx] = value;
    }

    /// A copy of all elements.
    pub fn get(&self) -> (r: [T; N])
        ensures
            r@ == self.0@,
    {
        self.0
    }

    /// Replaces all elements.
    pub fn set(&mut self, value: [T; N])
        ensures
            final(self).0@ == value@,
    {
        self.0 = value;
    }
}

/// State an app keeps per scene.
pub trait AppStorage: Sized + Default {

}

/// An app's state together with where it is stored.
pub struct ManagedStorage<S: AppStorage> {
    pub app_id: u8,
    pub inner: S,
    pub start_channel: usize,
}

impl<S: AppStorage> ManagedStorage<S> {
    /// The storage of the app `app_id` starting at `start_channel`, holding
    /// the app's default state.
    pub fn new(app_id: u8, start_channel: usize) -> (r: Self)
        ensures
            r.app_id == app_id,
            r.start_channel == start_channel,
            call_ensures(S::default, (), r.inner),
    {
        Self { app_id, inner: S::default(), start_channel }
    }

    /// The address of the live state or of `scene`.
    pub fn address(&self, scene: Option<u8>) -> (r: AppStorageAddress)
        ensures
            r.start_channel == self.start_channel,
            r.scene == scene,
    {
        AppStorageAddress::new(self.start_channel, scene)
    }

    /// Replaces the state by one loaded from a record, when the record is
    /// the app's own; returns whether it was.
    pub fn load_checked(&mut self, record_app_id: u8, loaded: S) -> (accepted: bool)
        ensures
            accepted == (record_app_id == old(self).app_id),
            accepted ==> final(self).inner == loaded,
            !accepted ==> final(self).inner == old(self).inner,
            final(self).app_id == old(self).app_id,
            final(self).start_channel == old(self).start_channel,
    {
        if record_app_id == self.app_id {
            self.inner = loaded;
            true
        } else {
            false
        }
    }
}

impl<S: AppStorage + Copy> ManagedStorage<S> {
    /// Reads the state through `accessor`.
    pub fn query<R, F: FnOnce(&S) -> R>(&self, accessor: F) -> (r: R)
        requires
            accessor.requires((&self.inner,)),
        ensures
            accessor.ensures((&self.inner,), r),
    {
        accessor(&self.inner)
    }

    /// Replaces the state by what `modifier` makes of it; returns its other result.
    pub fn modify<R, F: FnOnce(S) -> (S, R)>(&mut self, modifier: F) -> (r: R)
        requires
            modifier.requires((old(self).inner,)),
        ensures
            modifier.ensures((old(self).inner,), (final(self).inner, r)),
            final(self).app_id == old(self).app_id,
            final(self).start_channel == old(self).start_channel,
    {
        let (next, r) = modifier(self.inner);
        self.inner = next;
        r
    }
}

/// An app's parameter values together with where they are stored.
pub struct ParamStore<const N: usize> {
    pub app_id: u8,
    pub inner: [Value; N],
    pub start_channel: usize,
}

impl<const N: usize> ParamStore<N> {
    /// The store of app `app_id` starting at `start_channel`, holding `initial`.
    pub fn new(initial: [Value; N], app_id: u8, start_channel: usize) -> (r: Self)
        ensures
            r.inner@ == initial@,
            r.app_id == app_id,
            r.start_channel == start_channel,
    {
        Self { app_id, inner: initial, start_channel }
    }

    /// Whether a non-empty stored record belongs to this app (its first byte
    /// is the app id); the rest of the record is the encoded values.
    pub fn owns_record(&self, data: &[u8]) -> (r: bool)
        requires
            data@.len() > 0,
        ensures
            r == (data@[0] == self.app_id),
    {
        data[0] == self.app_id
    }

    /// Value `index`.
    pub fn get(&self, index: usize) -> (r: Value)
        requires
            index < N,
        ensures
            r == self.inner@[index as int],
    {
        self.inner[index]
    }

    /// All values.
    pub fn get_all(&self) -> (r: [Value; N])
        ensures
            r@ == self.inner@,
    {
        self.inner
    }

    /// Replaces value `index`; an index past the last value is ignored.
    pub fn set(&mut self, index: usize, value: Value)
        ensures
            index < N ==> final(self).inner@ == old(self).inner@.update(index as int, value),
            index >= N ==> final(self).inner@ == old(self).inner@,
            final(self).app_id == old(self).app_id,
            final(self).start_channel == old(self).start_channel,
    {
        if index >= N {
            return;
        }
        self.inner[index] = value;
    }

    /// Applies an update from the configurator: each given value replaces the
    /// value at its position; positions without a value, and positions past
    /// the last value, are left alone.
    pub fn apply_update(&mut self, values: &[Option<Value>])
        ensures
            final(self).inner@.len() == N,
            forall|i: int|
                0 <= i < N ==> #[trigger] final(self).inner@[i] == (if i < values@.len()
                    && values@[i] is Some {
                    values@[i]->0
                } else {
                    old(self).inner@[i]
                }),
            final(self).app_id == old(self).app_id,
            final(self).start_channel == old(self).start_channel,
    {
        let mut i: usize = 0;
        while i < values.len()
            invariant
                i <= values@.len(),
                self.app_id == old(self).app_id,
                self.start_channel == old(self).start_channel,
                forall|j: int|
                    0 <= j < N ==> #[trigger] self.inner@[j] == (if j < i && values@[j] is Some {
                        values@[j]->0
                    } else {
                        old(self).inner@[j]
                    }),
            decreases values@.len() - i,
        {
            if let Some(v) = values[i] {
                self.set(i, v);
            }
            i = i + 1;
        }
    }
}

/// A typed view on one slot of a parameter store.
pub struct ParamSlot {
    pub index: usize,
}

impl ParamSlot {
    /// The slot `index` of a store of `n` values.
    pub fn new(n: usize, index: usize) -> (r: Self)
        requires
            index < n,
        ensures
            r.index == index,
    {
        Self { index }
    }

    /// The slot's value in `values`, read as a `T`.
    pub fn get<T: FromValue, const N: usize>(&self, values: &ParamStore<N>) -> (r: T)
        requires
            self.index < N,
        ensures
            call_ensures(T::from_value, (values.inner@[self.index as int],), r),
    {
        T::from_value(values.get(self.index))
    }
}

} // verus!
