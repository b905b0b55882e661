//! The layout of the persistent memory, and what is kept in it for the apps.
use vstd::prelude::*;
use vstd::std_specs::cmp::{PartialEqSpec, PartialEqSpecImpl};

use crate::types::Value;

verus! {

/// Where the regions of the memory start and end. They follow each other without gaps.
pub const GLOBAL_CONFIG_START: u32 = 0;

pub const RUNTIME_STATE_START: u32 = 320;

pub const LAYOUT_START: u32 = 384;

pub const CALIBRATION_START: u32 = 512;

pub const APP_STORAGE_START: u32 = 1024;

pub const APP_PARAM_START: u32 = 122_880;

pub const MEMORY_END: u32 = 131_072;

/// The room of an app's storage, per scene.
pub const APP_STORAGE_MAX_BYTES: u32 = 400;

/// The room of an app's parameters.
pub const APP_PARAMS_MAX_BYTES: u32 = 128;

/// The number of scenes of an app.
pub const SCENES_PER_APP: u32 = 16;

/// The most bytes that are erased at once.
pub const ERASE_CHUNK_SIZE: usize = 64;

/// The version of the calibration file that is in use.
pub const CALIBRATION_VERSION: u8 = 2;

// ---------------------------------------------------------------------------
// Storing and loading
// ---------------------------------------------------------------------------

/// Bytes to be written to the memory, from an address on.
pub struct StoreWrite {
    pub addr: u32,
    pub data: Vec<u8>,
}

/// Where the encoded settings are written.
pub fn store_global_config(data: Vec<u8>) -> (r: StoreWrite)
    ensures
        r == (StoreWrite { addr: GLOBAL_CONFIG_START, data }),
{
    StoreWrite { addr: GLOBAL_CONFIG_START, data }
}

/// Where the encoded runtime state is written.
pub fn store_runtime_state(data: Vec<u8>) -> (r: StoreWrite)
    ensures
        r == (StoreWrite { addr: RUNTIME_STATE_START, data }),
{
    StoreWrite { addr: RUNTIME_STATE_START, data }
}

/// Where the encoded layout is written.
pub fn store_layout(data: Vec<u8>) -> (r: StoreWrite)
    ensures
        r == (StoreWrite { addr: LAYOUT_START, data }),
{
    StoreWrite { addr: LAYOUT_START, data }
}

/// Where the encoded calibration file is written.
pub fn store_calibration_data(data: Vec<u8>) -> (r: StoreWrite)
    ensures
        r == (StoreWrite { addr: CALIBRATION_START, data }),
{
    StoreWrite { addr: CALIBRATION_START, data }
}

/// Whether something was read at all.
pub open spec fn has_data(read: Option<Vec<u8>>) -> bool {
    read matches Some(data) && data@.len() > 0
}

fn was_read(read: &Option<Vec<u8>>) -> (r: bool)
    ensures
        r == has_data(*read),
{
    match read {
        Some(data) => data.len() > 0,
        None => false,
    }
}

/// The settings that are used at startup: those that were read and decoded, or the given ones.
/// `decoded` is what the bytes stand for after it was validated.
pub fn load_global_config<T>(read: &Option<Vec<u8>>, decoded: Option<T>, fallback: T) -> (r: T)
    ensures
        r == (if has_data(*read) && decoded is Some {
            decoded->Some_0
        } else {
            fallback
        }),
{
    if was_read(read) {
        if let Some(config) = decoded {
            return config;
        }
    }
    fallback
}

/// The runtime state that is used at startup: the one that was read and decoded, or the given one.
pub fn load_runtime_state<T>(read: &Option<Vec<u8>>, decoded: Option<T>, fallback: T) -> (r: T)
    ensures
        r == (if has_data(*read) && decoded is Some {
            decoded->Some_0
        } else {
            fallback
        }),
{
    if was_read(read) {
        if let Some(state) = decoded {
            return state;
        }
    }
    fallback
}

/// The layout that is used at startup, and whether it has to be stored. `decoded`
/// is the layout after its validation, and whether that changed it. Where there
/// is none, the given one is used, and stored to start fresh.
pub fn load_layout<T>(read: &Option<Vec<u8>>, decoded: Option<(T, bool)>, fallback: T) -> (r: (
    T,
    bool,
))
    ensures
        r == (if has_data(*read) && decoded is Some {
            decoded->Some_0
        } else {
            (fallback, true)
        }),
{
    if was_read(read) {
        if let Some(layout) = decoded {
            return layout;
        }
    }
    (fallback, true)
}

/// The formats of stored calibration data.
#[derive(Clone, Copy, Debug, PartialEq, Eq, Structural)]
pub enum CalibrationFormat {
    /// Not enough data to be anything.
    Missing,
    /// A file that starts with the magic bytes.
    File,
    /// Data from before there was a file format.
    Legacy,
}

/// The format of stored calibration data.
pub open spec fn calibration_kind(data: Seq<u8>, magic: Seq<u8>) -> CalibrationFormat {
    if data.len() < 4 {
        CalibrationFormat::Missing
    } else if data.take(4) == magic {
        CalibrationFormat::File
    } else {
        CalibrationFormat::Legacy
    }
}

/// The format of stored calibration data.
pub fn calibration_format(data: &Vec<u8>, magic: [u8; 4]) -> (r: CalibrationFormat)
    ensures
        r == calibration_kind(data@, magic@),
{
    if data.len() < 4 {
        return CalibrationFormat::Missing;
    }
    if data[0] == magic[0] && data[1] == magic[1] && data[2] == magic[2] && data[3] == magic[3] {
        assert(data@.take(4) =~= magic@);
        CalibrationFormat::File
    } else {
        assert(data@.take(4)[0] == data@[0] && data@.take(4)[1] == data@[1] && data@.take(4)[2]
            == data@[2] && data@.take(4)[3] == data@[3]);
        CalibrationFormat::Legacy
    }
}

/// The calibration that is used at startup.
pub enum Calibration<T> {
    Nothing,
    /// Read as it is.
    Loaded(T),
    /// Converted from the old format, to be stored in the new one.
    Converted(T),
}

/// The calibration that is used at startup. `file` is the decoded file with its
/// version, `legacy` the decoded and converted old data.
pub fn load_calibration_data<T>(
    read: &Option<Vec<u8>>,
    magic: [u8; 4],
    file: Option<(u8, T)>,
    legacy: Option<T>,
) -> (r: Calibration<T>)
    ensures
        r == (match *read {
            None => Calibration::Nothing,
            Some(data) => match calibration_kind(data@, magic@) {
                CalibrationFormat::Missing => Calibration::Nothing,
                CalibrationFormat::File => match file {
                    Some((version, data)) => if version == 2 {
                        Calibration::Loaded(data)
                    } else {
                        Calibration::Nothing
                    },
                    None => Calibration::Nothing,
                },
                CalibrationFormat::Legacy => match legacy {
                    Some(data) => Calibration::Converted(data),
                    None => Calibration::Nothing,
                },
            },
        }),
{
    let data = match read {
        Some(data) => data,
        None => {
            return Calibration::Nothing;
        },
    };
    match calibration_format(data, magic) {
        CalibrationFormat::Missing => Calibration::Nothing,
        CalibrationFormat::File => {
            if let Some((version, data)) = file {
                if version == CALIBRATION_VERSION {
                    return Calibration::Loaded(data);
                }
            }
            Calibration::Nothing
        },
        CalibrationFormat::Legacy => {
            if let Some(data) = legacy {
                return Calibration::Converted(data);
            }
            Calibration::Nothing
        },
    }
}

// ---------------------------------------------------------------------------
// Erasing
// ---------------------------------------------------------------------------

/// A write of zeros.
#[derive(Clone, Copy, Debug, PartialEq, Eq, Structural)]
pub struct Chunk {
    pub addr: u32,
    pub len: u32,
}

/// Whether a range meets the calibration data.
pub open spec fn meets_calibration(start: int, end: int) -> bool {
    start < 1024 && end > 512
}

/// The writes that erase a range, at most `step` bytes each.
pub open spec fn chunks(start: int, end: int, step: int) -> Seq<Chunk>
    decreases end - start,
{
    if start >= end || step <= 0 {
        Seq::empty()
    } else {
        let len = if end - start < step {
            end - start
        } else {
            step
        };
        seq![Chunk { addr: start as u32, len: len as u32 }] + chunks(start + len, end, step)
    }
}

/// The most bytes of one write, with a buffer of the given size.
pub open spec fn erase_step(buffer: int) -> int {
    if buffer < 64 {
        buffer
    } else {
        64
    }
}

/// The writes that erase a range: none where the range meets the calibration
/// data, which is never erased.
pub open spec fn erase_plan(start: int, end: int, buffer: int) -> Seq<Chunk> {
    if meets_calibration(start, end) {
        Seq::empty()
    } else {
        chunks(start, end, erase_step(buffer))
    }
}

/// The writes of zeros that erase the range from `start` to `end`, in order, with
/// a write buffer of `buffer` bytes. Calibration data is never erased, and
/// without a buffer nothing is.
pub fn erase_range(start: u32, end: u32, buffer: usize) -> (r: Vec<Chunk>)
    ensures
        r@ == erase_plan(start as int, end as int, buffer as int),
{
    let mut plan: Vec<Chunk> = Vec::new();
    if start < APP_STORAGE_START && end > CALIBRATION_START {
        return plan;
    }
    let step: u32 = if buffer < ERASE_CHUNK_SIZE {
        buffer as u32
    } else {
        64
    };
    let mut addr: u32 = start;
    if step == 0 {
        assert(chunks(start as int, end as int, 0) =~= Seq::<Chunk>::empty());
        return plan;
    }
    while addr < end
        invariant
            0 < step <= 64,
            step == erase_step(buffer as int),
            chunks(start as int, end as int, step as int) == plan@ + chunks(
                addr as int,
                end as int,
                step as int,
            ),
        decreases end - addr,
    {
        let remaining: u32 = end - addr;
        let len: u32 = if remaining < step {
            remaining
        } else {
            step
        };
        proof {
            let rest = chunks(addr + len, end as int, step as int);
            assert(plan@ + (seq![Chunk { addr, len }] + rest) =~= plan@.push(
                Chunk { addr, len },
            ) + rest);
        }
        plan.push(Chunk { addr, len });
        addr = addr + len;
    }
    assert(chunks(addr as int, end as int, step as int) =~= Seq::<Chunk>::empty());
    plan
}

/// The writes of a factory reset.
pub open spec fn reset_plan(buffer: int) -> Seq<Chunk> {
    erase_plan(0, 320, buffer) + erase_plan(320, 384, buffer) + erase_plan(384, 512, buffer)
        + erase_plan(1024, 122_880, buffer) + erase_plan(122_880, 131_072, buffer)
}

/// Erases all data except for the calibration data: the writes of zeros, in order.
pub fn factory_reset(buffer: usize) -> (r: Vec<Chunk>)
    ensures
        r@ == reset_plan(buffer as int),
{
    let mut plan = erase_range(GLOBAL_CONFIG_START, RUNTIME_STATE_START, buffer);
    let mut runtime = erase_range(RUNTIME_STATE_START, LAYOUT_START, buffer);
    let mut layout = erase_range(LAYOUT_START, CALIBRATION_START, buffer);
    let mut storage = erase_range(APP_STORAGE_START, APP_PARAM_START, buffer);
    let mut params = erase_range(APP_PARAM_START, MEMORY_END, buffer);
    plan.append(&mut runtime);
    plan.append(&mut layout);
    plan.append(&mut storage);
    plan.append(&mut params);
    plan
}

/// Whether one of the ranges that a factory reset erases starts at an address.
pub open spec fn starts_range(addr: u32) -> bool {
    addr == 0 || addr == 320 || addr == 384 || addr == 1024 || addr == 122_880
}

/// Where a factory reset goes on after a write that failed: the rest of the range
/// is left as it is, and the next range is erased.
pub fn resume_reset(plan: &Vec<Chunk>, failed: usize) -> (r: usize)
    requires
        failed < plan@.len(),
    ensures
        failed < r <= plan@.len(),
        forall|i: int| failed < i < r ==> !starts_range((#[trigger] plan@[i]).addr),
        r < plan@.len() ==> starts_range(plan@[r as int].addr),
{
    let total: usize = plan.len();
    let mut i: usize = failed + 1;
    while i < total
        invariant
            failed < i <= total == plan@.len(),
            forall|k: int| failed < k < i ==> !starts_range((#[trigger] plan@[k]).addr),
        decreases plan@.len() - i,
    {
        let addr: u32 = plan[i].addr;
        if addr == GLOBAL_CONFIG_START || addr == RUNTIME_STATE_START || addr == LAYOUT_START
            || addr == APP_STORAGE_START || addr == APP_PARAM_START {
            return i;
        }
        i = i + 1;
    }
    i
}

/// Whether one of the writes covers an address.
pub open spec fn covers(plan: Seq<Chunk>, at: int) -> bool {
    exists|i: int| 0 <= i < plan.len() && (#[trigger] plan[i]).addr <= at < plan[i].addr + plan[i].len
}

proof fn lemma_chunks_cover(start: int, end: int, step: int, at: int)
    requires
        0 <= start,
        end <= u32::MAX,
        0 < step <= 64,
    ensures
        covers(chunks(start, end, step), at) <==> start <= at < end,
    decreases end - start,
{
    let plan = chunks(start, end, step);
    if start < end {
        let len = if end - start < step {
            end - start
        } else {
            step
        };
        let rest = chunks(start + len, end, step);
        lemma_chunks_cover(start + len, end, step, at);
        assert(plan == seq![Chunk { addr: start as u32, len: len as u32 }] + rest);
        assert(plan[0] == (Chunk { addr: start as u32, len: len as u32 }));
        if covers(rest, at) {
            let i = choose|i: int|
                0 <= i < rest.len() && (#[trigger] rest[i]).addr <= at < rest[i].addr + rest[i].len;
            assert(plan[i + 1] == rest[i]);
        }
        if covers(plan, at) {
            let i = choose|i: int|
                0 <= i < plan.len() && (#[trigger] plan[i]).addr <= at < plan[i].addr + plan[i].len;
            if i > 0 {
                assert(rest[i - 1] == plan[i]);
            }
        }
    }
}

proof fn lemma_covers_concat(a: Seq<Chunk>, b: Seq<Chunk>, at: int)
    ensures
        covers(a + b, at) <==> covers(a, at) || covers(b, at),
{
    let all = a + b;
    if covers(a, at) {
        let i = choose|i: int|
            0 <= i < a.len() && (#[trigger] a[i]).addr <= at < a[i].addr + a[i].len;
        assert(all[i] == a[i]);
    }
    if covers(b, at) {
        let i = choose|i: int|
            0 <= i < b.len() && (#[trigger] b[i]).addr <= at < b[i].addr + b[i].len;
        assert(all[a.len() + i] == b[i]);
    }
    if covers(all, at) {
        let i = choose|i: int|
            0 <= i < all.len() && (#[trigger] all[i]).addr <= at < all[i].addr + all[i].len;
        if i < a.len() {
            assert(a[i] == all[i]);
        } else {
            assert(b[i - a.len()] == all[i]);
        }
    }
}

/// No erasure ever touches the calibration data; any other range is erased
/// exactly.
pub proof fn law_erase_spares_calibration(start: int, end: int, buffer: int, at: int)
    requires
        0 <= start <= end <= u32::MAX,
        buffer > 0,
    ensures
        covers(erase_plan(start, end, buffer), at) <==> !meets_calibration(start, end) && start
            <= at < end,
        512 <= at < 1024 ==> !covers(erase_plan(start, end, buffer), at),
{
    if !meets_calibration(start, end) {
        lemma_chunks_cover(start, end, erase_step(buffer), at);
    }
}

/// A factory reset erases all of the memory except for the calibration data.
pub proof fn law_factory_reset_keeps_calibration(buffer: int, at: int)
    requires
        buffer > 0,
    ensures
        covers(reset_plan(buffer), at) <==> 0 <= at < 131_072 && !(512 <= at < 1024),
{
    let a = erase_plan(0, 320, buffer);
    let b = erase_plan(320, 384, buffer);
    let c = erase_plan(384, 512, buffer);
    let d = erase_plan(1024, 122_880, buffer);
    let e = erase_plan(122_880, 131_072, buffer);
    law_erase_spares_calibration(0, 320, buffer, at);
    law_erase_spares_calibration(320, 384, buffer, at);
    law_erase_spares_calibration(384, 512, buffer, at);
    law_erase_spares_calibration(1024, 122_880, buffer, at);
    law_erase_spares_calibration(122_880, 131_072, buffer, at);
    lemma_covers_concat(a, b, at);
    lemma_covers_concat(a + b, c, at);
    lemma_covers_concat(a + b + c, d, at);
    lemma_covers_concat(a + b + c + d, e, at);
}

// ---------------------------------------------------------------------------
// Arrays
// ---------------------------------------------------------------------------

/// An array that is stored as a whole.
pub struct Arr<T: Sized + Copy + Default, const N: usize>(pub [T; N]);

impl<T: Sized + Copy + Default, const N: usize> Clone for Arr<T, N> {
    fn clone(&self) -> (r: Self)
        ensures
            r == *self,
    {
        *self
    }
}

impl<T: Sized + Copy + Default, const N: usize> Copy for Arr<T, N> {

}

impl<T: Sized + Copy + Default, const N: usize> Default for Arr<T, N> {
    /// Every entry is the same default value.
    fn default() -> (r: Self)
        ensures
            exists|value: T|
                #[trigger] call_ensures(T::default, (), value) && r.0@ == Seq::new(
                    N as nat,
                    |i: int| value,
                ),
    {
        let value = T::default();
        let r = Arr([value; N]);
        assert(r.0@ =~= Seq::new(N as nat, |i: int| value));
        r
    }
}

impl<T: Sized + Copy + Default, const N: usize> Arr<T, N> {
    pub fn new(initial: [T; N]) -> (r: Self)
        ensures
            r.0 == initial,
    {
        Arr(initial)
    }

    pub fn at(&self, idx: usize) -> (r: T)
        requires
            idx < N,
        ensures
            r == self.0@[idx as int],
    {
        self.0[idx]
    }

    pub fn set_at(&mut self, idx: usize, value: T)
        requires
            idx < N,
        ensures
            final(self).0@ == old(self).0@.update(idx as int, value),
    {
        self.0[idx] = value;
    }

    pub fn get(&self) -> (r: [T; N])
        ensures
            r == self.0,
    {
        self.0
    }

    pub fn set(&mut self, value: [T; N])
        ensures
            final(self).0 == value,
    {
        self.0 = value;
    }

    /// The array that a sequence of stored entries stands for: none where their
    /// number is not that of the array.
    pub fn from_entries(entries: &[T]) -> (r: Option<Self>)
        ensures
            entries@.len() == N ==> r is Some && r->Some_0.0@ == entries@,
            entries@.len() != N ==> r is None,
    {
        if entries.len() != N {
            return None;
        }
        let mut array: [T; N] = [T::default(); N];
        let mut i: usize = 0;
        while i < N
            invariant
                i <= N,
                entries@.len() == N,
                forall|k: int| 0 <= k < i ==> array@[k] == entries@[k],
            decreases N - i,
        {
            array[i] = entries[i];
            i = i + 1;
        }
        assert(array@ =~= entries@);
        Some(Arr(array))
    }
}

impl<T: Sized + Copy + PartialEq + Default, const N: usize> PartialEq for Arr<T, N> {
    fn eq(&self, other: &Self) -> (r: bool) {
        let mut i: usize = 0;
        while i < N
            invariant
                i <= N,
                T::obeys_eq_spec() ==> forall|k: int|
                    0 <= k < i ==> (#[trigger] self.0@[k]).eq_spec(&other.0@[k]),
            decreases N - i,
        {
            if self.0[i] != other.0[i] {
                return false;
            }
            i = i + 1;
        }
        true
    }
}

impl<T: Sized + Copy + PartialEq + Default, const N: usize> PartialEqSpecImpl for Arr<T, N> {
    open spec fn obeys_eq_spec() -> bool {
        T::obeys_eq_spec()
    }

    /// Two arrays are equal where all their entries are.
    open spec fn eq_spec(&self, other: &Self) -> bool {
        forall|i: int| 0 <= i < N ==> (#[trigger] self.0@[i]).eq_spec(&other.0@[i])
    }
}

// ---------------------------------------------------------------------------
// Addresses
// ---------------------------------------------------------------------------

/// Where the storage of an app lies, for a scene or for none.
#[derive(Clone, Copy, Debug, PartialEq, Eq, Structural)]
pub struct AppStorageAddress {
    pub layout_id: u8,
    pub scene: Option<u8>,
}

impl AppStorageAddress {
    /// The place of the scene among the 17 blocks of an app, the first of which
    /// belongs to no scene.
    pub open spec fn block(self) -> int {
        match self.scene {
            None => 0,
            Some(scene) => scene + 1,
        }
    }

    /// The first byte of the block.
    pub open spec fn address(self) -> int {
        1024 + (self.layout_id * 17 + self.block()) * 400
    }

    pub fn new(layout_id: u8, scene: Option<u8>) -> (r: Self)
        ensures
            r == (AppStorageAddress { layout_id, scene }),
    {
        AppStorageAddress { layout_id, scene }
    }

    /// The layout id and the scene whose block holds an address of the app storage.
    pub open spec fn holding(address: int) -> AppStorageAddress {
        let offset = address - 1024;
        let block = offset % 6800 / 400;
        AppStorageAddress {
            layout_id: (offset / 6800 % 256) as u8,
            scene: if block == 0 {
                None
            } else {
                Some((block - 1) as u8)
            },
        }
    }

    /// The layout id and the scene whose block holds an address of the app storage.
    pub fn from_address(address: u32) -> (r: Self)
        requires
            address >= APP_STORAGE_START,
        ensures
            r == AppStorageAddress::holding(address as int),
    {
        let bytes_per_app_block: u32 = (SCENES_PER_APP + 1) * APP_STORAGE_MAX_BYTES;
        let offset: u32 = address - APP_STORAGE_START;
        let layout_id: u8 = (offset / bytes_per_app_block % 256) as u8;
        let scene_index: u32 = offset % bytes_per_app_block / APP_STORAGE_MAX_BYTES;
        let scene = if scene_index == 0 {
            None
        } else {
            Some((scene_index - 1) as u8)
        };
        AppStorageAddress { layout_id, scene }
    }
}

impl From<AppStorageAddress> for u32 {
    fn from(key: AppStorageAddress) -> (r: u32) {
        let scene_index: u32 = match key.scene {
            None => 0,
            Some(scene) => scene as u32 + 1,
        };
        let blocks: u32 = SCENES_PER_APP + 1;
        let bytes_per_app_block: u32 = blocks * APP_STORAGE_MAX_BYTES;
        let layout_id: u32 = key.layout_id as u32;
        assert(layout_id * bytes_per_app_block == layout_id * 6800) by (nonlinear_arith)
            requires
                bytes_per_app_block == 6800,
        ;
        let app_base_offset: u32 = layout_id * bytes_per_app_block;
        let scene_offset_in_app: u32 = scene_index * APP_STORAGE_MAX_BYTES;
        APP_STORAGE_START + app_base_offset + scene_offset_in_app
    }
}

impl vstd::std_specs::convert::FromSpecImpl<AppStorageAddress> for u32 {
    open spec fn obeys_from_spec() -> bool {
        true
    }

    open spec fn from_spec(key: AppStorageAddress) -> u32 {
        key.address() as u32
    }
}

/// Where the parameters of an app lie.
#[derive(Clone, Copy, Debug, PartialEq, Eq, Structural)]
pub struct AppParamsAddress {
    pub layout_id: u8,
}

impl AppParamsAddress {
    /// The first byte of the parameters.
    pub open spec fn address(self) -> int {
        122_880 + self.layout_id * 128
    }

    pub fn new(layout_id: u8) -> (r: Self)
        ensures
            r == (AppParamsAddress { layout_id }),
    {
        AppParamsAddress { layout_id }
    }

    /// The layout id whose parameters hold an address.
    pub open spec fn holding(address: int) -> AppParamsAddress {
        AppParamsAddress { layout_id: ((address - 122_880) / 128 % 256) as u8 }
    }

    /// The layout id whose parameters hold an address.
    pub fn from_address(address: u32) -> (r: Self)
        requires
            address >= APP_PARAM_START,
        ensures
            r == AppParamsAddress::holding(address as int),
    {
        let offset: u32 = address - APP_PARAM_START;
        AppParamsAddress { layout_id: (offset / APP_PARAMS_MAX_BYTES % 256) as u8 }
    }
}

impl From<AppParamsAddress> for u32 {
    fn from(key: AppParamsAddress) -> (r: u32) {
        APP_PARAM_START + key.layout_id as u32 * APP_PARAMS_MAX_BYTES
    }
}

impl vstd::std_specs::convert::FromSpecImpl<AppParamsAddress> for u32 {
    open spec fn obeys_from_spec() -> bool {
        true
    }

    open spec fn from_spec(key: AppParamsAddress) -> u32 {
        key.address() as u32
    }
}

/// Every address in the block of one of the 16 scenes, or of no scene, leads back
/// to its layout id and scene.
pub proof fn law_storage_address_round_trip(key: AppStorageAddress, offset: int)
    requires
        key.scene matches Some(scene) ==> scene < 16,
        0 <= offset < 400,
    ensures
        AppStorageAddress::holding(key.address() + offset) == key,
        key.address() <= u32::MAX,
{
    let block = key.block();
    let within = block * 400 + offset;
    assert(key.address() + offset - 1024 == key.layout_id * 6800 + within);
    assert(0 <= within < 6800);
    assert((key.layout_id * 6800 + within) / 6800 == key.layout_id);
    assert((key.layout_id * 6800 + within) % 6800 == within);
    assert(within / 400 == block);
}

/// Every address in the room of an app's parameters leads back to its layout id.
pub proof fn law_params_address_round_trip(key: AppParamsAddress, offset: int)
    requires
        0 <= offset < 128,
    ensures
        AppParamsAddress::holding(key.address() + offset) == key,
{
}

/// The blocks of different apps and scenes do not overlap, and those of the first
/// 17 layout ids lie within the app storage.
pub proof fn law_storage_blocks_are_disjoint(a: AppStorageAddress, b: AppStorageAddress)
    requires
        a.scene matches Some(scene) ==> scene < 16,
        b.scene matches Some(scene) ==> scene < 16,
        a != b,
    ensures
        a.address() + 400 <= b.address() || b.address() + 400 <= a.address(),
        a.layout_id < 17 ==> 1024 <= a.address() && a.address() + 400 <= 122_880,
{
}

/// The parameters of different apps do not overlap, and those of the first 64
/// layout ids lie within their region.
pub proof fn law_param_blocks_are_disjoint(a: AppParamsAddress, b: AppParamsAddress)
    requires
        a != b,
    ensures
        a.address() + 128 <= b.address() || b.address() + 128 <= a.address(),
        a.layout_id < 64 ==> 122_880 <= a.address() && a.address() + 128 <= 131_072,
{
}

// ---------------------------------------------------------------------------
// Parameters
// ---------------------------------------------------------------------------

/// `heapless::Vec`, a vector of fixed capacity.
#[verifier::external_type_specification]
#[verifier::external_body]
#[verifier::reject_recursive_types(T)]
pub struct ExHeaplessVec<T, const N: usize>(heapless::Vec<T, N>);

/// The values in a list of parameters.
pub uninterp spec fn listed(values: heapless::Vec<Value, 16>) -> Seq<Value>;

/// `heapless::Vec::new` makes an empty list.
#[verifier::external_body]
pub(crate) fn values_new() -> (r: heapless::Vec<Value, 16>)
    ensures
        listed(r) == Seq::<Value>::empty(),
{
    heapless::Vec::new()
}

/// `heapless::Vec::push` appends a value, or hands it back and leaves the list
/// alone when there is no room.
#[verifier::external_body]
pub(crate) fn values_push(values: &mut heapless::Vec<Value, 16>, value: Value) -> (r: Result<
    (),
    Value,
>)
    ensures
        listed(*old(values)).len() < 16 ==> r is Ok && listed(*final(values)) == listed(
            *old(values),
        ).push(value),
        listed(*old(values)).len() >= 16 ==> r is Err && r->Err_0 == value && listed(*final(values))
            == listed(*old(values)),
{
    values.push(value)
}

/// `heapless::Vec::as_slice` shows the values of the list.
#[verifier::external_body]
pub(crate) fn values_slice(values: &heapless::Vec<Value, 16>) -> (r: &[Value])
    ensures
        r@ == listed(*values),
{
    values.as_slice()
}

/// Assignment through the index of a `heapless::Vec` replaces one value.
#[verifier::external_body]
pub(crate) fn values_set(values: &mut heapless::Vec<Value, 16>, index: usize, value: Value)
    requires
        index < listed(*old(values)).len(),
    ensures
        listed(*final(values)) == listed(*old(values)).update(index as int, value),
{
    values[index] = value;
}

/// The parameters of an app, which can be written down as a list of values.
pub trait AppParams: Sized {
    /// The parameters that a list of values stands for.
    spec fn read(values: Seq<Value>) -> Option<Self>;

    /// The values of the parameters.
    spec fn listing(self) -> Seq<Value>;

    fn from_values(values: &[Value]) -> (r: Option<Self>)
        ensures
            r == Self::read(values@),
    ;

    fn to_values(&self) -> (r: heapless::Vec<Value, 16>)
        ensures
            listed(r) == self.listing(),
    ;

    /// Parameters read back as they were written down.
    proof fn law_params_round_trip(self)
        ensures
            Self::read(self.listing()) == Some(self),
    ;
}

/// A body, headed by the id of the app that it belongs to.
pub open spec fn framed(app_id: u8, body: Seq<u8>) -> Seq<u8> {
    seq![app_id] + body
}

/// The body of stored bytes, where they belong to the app.
pub open spec fn unframed(app_id: u8, data: Seq<u8>) -> Option<Seq<u8>> {
    if data.len() > 0 && data[0] == app_id {
        Some(data.skip(1))
    } else {
        None
    }
}

/// Heads a body by the id of its app.
pub fn frame(app_id: u8, body: &Vec<u8>) -> (r: Vec<u8>)
    ensures
        r@ == framed(app_id, body@),
{
    let mut data: Vec<u8> = vec![app_id];
    let mut i: usize = 0;
    while i < body.len()
        invariant
            i <= body@.len(),
            data@ =~= seq![app_id] + body@.take(i as int),
        decreases body@.len() - i,
    {
        data.push(body[i]);
        i = i + 1;
    }
    assert(body@.take(i as int) =~= body@);
    data
}

/// Takes the body from stored bytes, where they belong to the app.
pub fn unframe(app_id: u8, data: &Vec<u8>) -> (r: Option<Vec<u8>>)
    ensures
        match unframed(app_id, data@) {
            Some(body) => r is Some && r->Some_0@ == body,
            None => r is None,
        },
{
    if data.len() == 0 || data[0] != app_id {
        return None;
    }
    let mut body: Vec<u8> = Vec::new();
    let mut i: usize = 1;
    while i < data.len()
        invariant
            1 <= i <= data@.len(),
            body@ =~= data@.subrange(1, i as int),
        decreases data@.len() - i,
    {
        body.push(data[i]);
        i = i + 1;
    }
    assert(body@ =~= data@.skip(1));
    Some(body)
}

/// What one app has stored, that app reads back, and no other does.
pub proof fn law_frames_belong_to_one_app(app_id: u8, other: u8, body: Seq<u8>)
    ensures
        unframed(app_id, framed(app_id, body)) == Some(body),
        other != app_id ==> unframed(other, framed(app_id, body)) is None,
{
    assert(framed(app_id, body).skip(1) =~= body);
}

/// A list of values with some of them replaced.
pub open spec fn merged(current: Seq<Value>, changes: Seq<Option<Value>>) -> Seq<Value> {
    Seq::new(
        current.len(),
        |i: int|
            if i < changes.len() && changes[i] is Some {
                changes[i]->Some_0
            } else {
                current[i]
            },
    )
}

/// What the configuration asks of an app's parameters.
pub enum AppParamCmd {
    /// New values for some of the parameters.
    SetAppParams { values: Vec<Option<Value>> },
    /// The current values.
    RequestParamValues,
}

/// What follows from a command.
pub enum ParamOutcome {
    /// The values are reported, and the app goes on.
    Report,
    /// The new values are saved and reported, and the app starts anew.
    SaveAndRestart,
}

/// The parameters of an app in use.
pub struct ParamStore<P: AppParams> {
    pub app_id: u8,
    pub inner: P,
    pub layout_id: u8,
}

/// The parameters that a command leads to, where it changes them.
pub open spec fn commanded<P: AppParams>(params: P, cmd: AppParamCmd) -> Option<P> {
    match cmd {
        AppParamCmd::SetAppParams { values } => {
            let next = merged(params.listing(), values@);
            if next != params.listing() {
                P::read(next)
            } else {
                None
            }
        },
        AppParamCmd::RequestParamValues => None,
    }
}

impl<P: AppParams> ParamStore<P> {
    pub fn new(app_id: u8, layout_id: u8, initial: P) -> (r: Self)
        ensures
            r == (ParamStore { app_id, inner: initial, layout_id }),
    {
        ParamStore { app_id, inner: initial, layout_id }
    }

    /// Where the parameters are stored.
    pub fn address(&self) -> (r: u32)
        ensures
            r == (AppParamsAddress { layout_id: self.layout_id }).address(),
    {
        u32::from(AppParamsAddress::new(self.layout_id))
    }

    /// The encoded values in stored bytes that belong to the app.
    pub fn des(&self, data: &Vec<u8>) -> (r: Option<Vec<u8>>)
        ensures
            match unframed(self.app_id, data@) {
                Some(body) => r is Some && r->Some_0@ == body,
                None => r is None,
            },
    {
        unframe(self.app_id, data)
    }

    /// What is written for encoded values.
    pub fn save(&self, body: &Vec<u8>) -> (r: StoreWrite)
        ensures
            r.addr == (AppParamsAddress { layout_id: self.layout_id }).address(),
            r.data@ == framed(self.app_id, body@),
    {
        StoreWrite { addr: self.address(), data: frame(self.app_id, body) }
    }

    /// The values to report or to store.
    pub fn send_values(&self) -> (r: heapless::Vec<Value, 16>)
        ensures
            listed(r) == self.inner.listing(),
    {
        self.inner.to_values()
    }

    /// Takes over values that were read, where they stand for parameters of the app.
    pub fn load(&mut self, values: &[Value])
        ensures
            final(self).app_id == old(self).app_id,
            final(self).layout_id == old(self).layout_id,
            final(self).inner == (match P::read(values@) {
                Some(params) => params,
                None => old(self).inner,
            }),
    {
        if let Some(params) = P::from_values(values) {
            self.inner = params;
        }
    }

    pub fn query<F, R>(&self, accessor: F) -> (r: R) where F: FnOnce(&P) -> R
        requires
            call_requires(accessor, (&self.inner,)),
        ensures
            call_ensures(accessor, (&self.inner,), r),
    {
        accessor(&self.inner)
    }

    /// Handles a command: new values are taken over where they differ from the
    /// current ones and stand for parameters of the app. Then they are saved, and
    /// the app starts anew; in any case the values are reported.
    pub fn param_handler(&mut self, cmd: AppParamCmd) -> (r: ParamOutcome)
        ensures
            final(self).app_id == old(self).app_id,
            final(self).layout_id == old(self).layout_id,
            final(self).inner == (match commanded(old(self).inner, cmd) {
                Some(params) => params,
                None => old(self).inner,
            }),
            r == (match commanded(old(self).inner, cmd) {
                Some(_) => ParamOutcome::SaveAndRestart,
                None => ParamOutcome::Report,
            }),
    {
        match cmd {
            AppParamCmd::SetAppParams { values } => {
                let mut current = self.inner.to_values();
                let ghost before = listed(current);
                let ghost target = merged(before, values@);
                let count: usize = values_slice(&current).len();
                let mut changed = false;
                let mut index: usize = 0;
                while index < values.len()
                    invariant
                        index <= values@.len(),
                        count == before.len(),
                        listed(current).len() == count,
                        target == merged(before, values@),
                        forall|i: int|
                            0 <= i < index && i < count ==> #[trigger] listed(current)[i]
                                == target[i],
                        forall|i: int| index <= i < count ==> #[trigger] listed(current)[i] == before[i],
                        !changed ==> listed(current) == before,
                        changed ==> exists|i: int|
                            0 <= i < count && i < index && #[trigger] target[i] != before[i],
                    decreases values@.len() - index,
                {
                    if let Some(val) = values[index] {
                        if index < count && values_slice(&current)[index] != val {
                            values_set(&mut current, index, val);
                            changed = true;
                            assert(target[index as int] != before[index as int]);
                        }
                    }
                    index = index + 1;
                }
                assert(listed(current) =~= target);
                if changed {
                    assert(target != before);
                    if let Some(params) = P::from_values(values_slice(&current)) {
                        self.inner = params;
                        return ParamOutcome::SaveAndRestart;
                    }
                }
                ParamOutcome::Report
            },
            AppParamCmd::RequestParamValues => ParamOutcome::Report,
        }
    }
}

/// A command that names no value, or only the current ones, changes nothing.
pub proof fn law_unchanged_values_keep_params<P: AppParams>(params: P, values: Vec<Option<Value>>)
    requires
        forall|i: int|
            0 <= i < values@.len() && i < params.listing().len() ==> #[trigger] values@[i] is None
                || values@[i] == Some(params.listing()[i]),
    ensures
        commanded(params, AppParamCmd::SetAppParams { values }) is None,
{
    assert(merged(params.listing(), values@) =~= params.listing());
}

// ---------------------------------------------------------------------------
// Storage
// ---------------------------------------------------------------------------

/// The storage of an app: what it keeps from one start to the next, and per scene.
pub trait AppStorage: Default {

}

/// What the saver of a storage waits for.
#[derive(Clone, Copy, Debug, PartialEq, Eq, Structural)]
pub enum SaverState {
    /// A change.
    Idle,
    /// Another change, or the end of the quiet time.
    Pending,
}

/// What the saver reacts to.
#[derive(Clone, Copy, Debug, PartialEq, Eq, Structural)]
pub enum SaverEvent {
    /// The storage was changed.
    Signal,
    /// 500 ms have gone by since the last change.
    Timeout,
}

/// How long a storage has to be left alone before it is saved.
pub const SAVE_DELAY_MS: u64 = 500;

/// The state of the saver after an event.
pub open spec fn saver_next(event: SaverEvent) -> SaverState {
    match event {
        SaverEvent::Signal => SaverState::Pending,
        SaverEvent::Timeout => SaverState::Idle,
    }
}

/// The saver's part of the storage task: moves on by an event, and tells whether
/// to save. Changes restart the quiet time; at its end the storage is saved once.
pub fn saver_task(state: &mut SaverState, event: SaverEvent) -> (r: bool)
    ensures
        r == (*old(state) == SaverState::Pending && event == SaverEvent::Timeout),
        *final(state) == saver_next(event),
{
    match event {
        SaverEvent::Signal => {
            *state = SaverState::Pending;
            false
        },
        SaverEvent::Timeout => {
            let save = *state == SaverState::Pending;
            *state = SaverState::Idle;
            save
        },
    }
}

/// The number of saves over a sequence of events.
pub open spec fn saves(state: SaverState, events: Seq<SaverEvent>) -> nat
    decreases events.len(),
{
    if events.len() == 0 {
        0
    } else {
        (if state == SaverState::Pending && events[0] == SaverEvent::Timeout {
            1nat
        } else {
            0nat
        }) + saves(saver_next(events[0]), events.drop_first())
    }
}

/// However many changes come within the quiet time of each other, they are saved
/// once.
pub proof fn law_changes_are_saved_once(changes: nat)
    requires
        changes > 0,
    ensures
        saves(
            SaverState::Idle,
            Seq::new(changes, |i: int| SaverEvent::Signal) + seq![SaverEvent::Timeout],
        ) == 1,
{
    lemma_pending_saves(changes, SaverState::Idle);
}

proof fn lemma_pending_saves(changes: nat, state: SaverState)
    requires
        changes > 0 || state == SaverState::Pending,
    ensures
        saves(
            state,
            Seq::new(changes, |i: int| SaverEvent::Signal) + seq![SaverEvent::Timeout],
        ) == 1,
    decreases changes,
{
    let events = Seq::new(changes, |i: int| SaverEvent::Signal) + seq![SaverEvent::Timeout];
    if changes > 0 {
        let fewer = (changes - 1) as nat;
        assert(events.drop_first() =~= Seq::new(fewer, |i: int| SaverEvent::Signal) + seq![
            SaverEvent::Timeout,
        ]);
        lemma_pending_saves(fewer, SaverState::Pending);
    } else {
        assert(saves(saver_next(events[0]), events.drop_first()) == 0);
    }
}

/// The storage of an app in use.
pub struct ManagedStorage<S: AppStorage> {
    pub app_id: u8,
    pub inner: S,
    pub layout_id: u8,
    pub save_signal: bool,
}

impl<S: AppStorage> ManagedStorage<S> {
    pub fn new(app_id: u8, layout_id: u8) -> (r: Self)
        ensures
            r.app_id == app_id,
            r.layout_id == layout_id,
            !r.save_signal,
            call_ensures(S::default, (), r.inner),
    {
        ManagedStorage { app_id, inner: S::default(), layout_id, save_signal: false }
    }

    /// Where the storage of a scene, or of none, is kept.
    pub fn address(&self, scene: Option<u8>) -> (r: u32)
        ensures
            r == (AppStorageAddress { layout_id: self.layout_id, scene }).address(),
    {
        u32::from(AppStorageAddress::new(self.layout_id, scene))
    }

    /// The encoded storage in stored bytes that belong to the app.
    pub fn des(&self, data: &Vec<u8>) -> (r: Option<Vec<u8>>)
        ensures
            match unframed(self.app_id, data@) {
                Some(body) => r is Some && r->Some_0@ == body,
                None => r is None,
            },
    {
        unframe(self.app_id, data)
    }

    /// Takes over what was decoded, if anything was.
    pub fn load(&mut self, decoded: Option<S>)
        ensures
            final(self).inner == (match decoded {
                Some(inner) => inner,
                None => old(self).inner,
            }),
            final(self).app_id == old(self).app_id,
            final(self).layout_id == old(self).layout_id,
            final(self).save_signal == old(self).save_signal,
    {
        if let Some(inner) = decoded {
            self.inner = inner;
        }
    }

    /// Takes over what was decoded of a scene, if anything was.
    pub fn load_from_scene(&mut self, decoded: Option<S>)
        ensures
            final(self).inner == (match decoded {
                Some(inner) => inner,
                None => old(self).inner,
            }),
            final(self).app_id == old(self).app_id,
            final(self).layout_id == old(self).layout_id,
            final(self).save_signal == old(self).save_signal,
    {
        self.load(decoded);
    }

    fn save_inner(&self, scene: Option<u8>, body: &Vec<u8>) -> (r: StoreWrite)
        ensures
            r.addr == (AppStorageAddress { layout_id: self.layout_id, scene }).address(),
            r.data@ == framed(self.app_id, body@),
    {
        StoreWrite { addr: self.address(scene), data: frame(self.app_id, body) }
    }

    /// What is written for the encoded storage.
    pub fn save(&self, body: &Vec<u8>) -> (r: StoreWrite)
        ensures
            r.addr == (AppStorageAddress { layout_id: self.layout_id, scene: None }).address(),
            r.data@ == framed(self.app_id, body@),
    {
        self.save_inner(None, body)
    }

    /// What is written for the encoded storage of a scene.
    pub fn save_to_scene(&self, scene: u8, body: &Vec<u8>) -> (r: StoreWrite)
        ensures
            r.addr == (AppStorageAddress {
                layout_id: self.layout_id,
                scene: Some(scene),
            }).address(),
            r.data@ == framed(self.app_id, body@),
    {
        self.save_inner(Some(scene), body)
    }

    /// Back to the defaults.
    pub fn reset(&mut self)
        ensures
            call_ensures(S::default, (), final(self).inner),
            final(self).app_id == old(self).app_id,
            final(self).layout_id == old(self).layout_id,
            final(self).save_signal == old(self).save_signal,
    {
        self.inner = S::default();
    }

    pub fn query<F, R>(&self, accessor: F) -> (r: R) where F: FnOnce(&S) -> R
        requires
            call_requires(accessor, (&self.inner,)),
        ensures
            call_ensures(accessor, (&self.inner,), r),
    {
        accessor(&self.inner)
    }

    /// Changes the storage.
    pub fn modify<F, R>(&mut self, modifier: F) -> (r: R) where F: FnOnce(&mut S) -> R
        requires
            forall|inner: &mut S|
                *inner == old(self).inner ==> #[trigger] call_requires(modifier, (inner,)),
        ensures
            exists|inner: &mut S|
                *inner == old(self).inner && *final(inner) == final(self).inner
                    && #[trigger] call_ensures(modifier, (inner,), r),
            final(self).app_id == old(self).app_id,
            final(self).layout_id == old(self).layout_id,
            final(self).save_signal == old(self).save_signal,
    {
        modifier(&mut self.inner)
    }

    /// Changes the storage and asks for it to be saved.
    pub fn modify_and_save<F, R>(&mut self, modifier: F) -> (r: R) where F: FnOnce(&mut S) -> R
        requires
            forall|inner: &mut S|
                *inner == old(self).inner ==> #[trigger] call_requires(modifier, (inner,)),
        ensures
            exists|inner: &mut S|
                *inner == old(self).inner && *final(inner) == final(self).inner
                    && #[trigger] call_ensures(modifier, (inner,), r),
            final(self).app_id == old(self).app_id,
            final(self).layout_id == old(self).layout_id,
            final(self).save_signal,
    {
        let result = self.modify(modifier);
        self.save_signal = true;
        result
    }
}

/// The regions of the memory follow each other without a gap: the settings, the
/// runtime state, the layout, the calibration, the storage of the apps with room
/// for 17 of them, and their parameters up to the end.
pub proof fn law_regions_follow_each_other()
    ensures
        GLOBAL_CONFIG_START == 0,
        GLOBAL_CONFIG_START + 320 == RUNTIME_STATE_START,
        RUNTIME_STATE_START + 64 == LAYOUT_START,
        LAYOUT_START + 128 == CALIBRATION_START,
        CALIBRATION_START + 512 == APP_STORAGE_START,
        APP_STORAGE_START + 17 * (SCENES_PER_APP + 1) * APP_STORAGE_MAX_BYTES <= APP_PARAM_START
            == 122_880,
        APP_PARAM_START + 64 * APP_PARAMS_MAX_BYTES == MEMORY_END == 131_072,
{
}

/// The storage of an app is 17 blocks of 400 bytes, that of no scene first and those
/// of the scenes in order; the apps follow each other by their layout ids, and so
/// do their parameters of 128 bytes each.
pub proof fn law_blocks_follow_each_other(layout_id: u8, scene: u8)
    requires
        layout_id < 255,
        scene < 15,
    ensures
        (AppStorageAddress { layout_id: 0, scene: None }).address() == 1024,
        (AppStorageAddress { layout_id, scene: Some(0) }).address() == (AppStorageAddress {
            layout_id,
            scene: None,
        }).address() + 400,
        (AppStorageAddress { layout_id, scene: Some((scene + 1) as u8) }).address() == (
        AppStorageAddress { layout_id, scene: Some(scene) }).address() + 400,
        (AppStorageAddress { layout_id: (layout_id + 1) as u8, scene: None }).address() == (
        AppStorageAddress { layout_id, scene: Some(15) }).address() + 400,
        (AppParamsAddress { layout_id: 0 }).address() == 122_880,
        (AppParamsAddress { layout_id: (layout_id + 1) as u8 }).address() == (AppParamsAddress {
            layout_id,
        }).address() + 128,
{
}

/// The writes that erase a range go through it in order, each from where the last
/// one ended, and none is longer than the buffer or 64 bytes.
pub proof fn law_erasing_goes_in_order(start: int, end: int, buffer: int, i: int)
    requires
        0 <= start <= end <= u32::MAX,
        0 <= buffer,
        0 <= i < erase_plan(start, end, buffer).len(),
    ensures
        ({
            let plan = erase_plan(start, end, buffer);
            &&& 0 < plan[i].len <= 64 && plan[i].len <= buffer
            &&& i == 0 ==> plan[i].addr == start
            &&& i > 0 ==> plan[i].addr == plan[i - 1].addr + plan[i - 1].len
            &&& i == plan.len() - 1 ==> plan[i].addr + plan[i].len == end
        }),
{
    lemma_chunks_in_order(start, end, erase_step(buffer), i);
}

proof fn lemma_chunks_in_order(start: int, end: int, step: int, i: int)
    requires
        0 <= start <= end <= u32::MAX,
        0 <= step <= 64,
        0 <= i < chunks(start, end, step).len(),
    ensures
        ({
            let plan = chunks(start, end, step);
            &&& 0 < plan[i].len <= step
            &&& i == 0 ==> plan[i].addr == start
            &&& i > 0 ==> plan[i].addr == plan[i - 1].addr + plan[i - 1].len
            &&& i == plan.len() - 1 ==> plan[i].addr + plan[i].len == end
        }),
    decreases end - start,
{
    if start < end && step > 0 {
        let len = if end - start < step {
            end - start
        } else {
            step
        };
        let rest = chunks(start + len, end, step);
        if start + len >= end {
            assert(rest =~= Seq::<Chunk>::empty());
        }
        if i > 0 {
            lemma_chunks_in_order(start + len, end, step, i - 1);
            assert(chunks(start, end, step)[i] == rest[i - 1]);
            if i > 1 {
                assert(chunks(start, end, step)[i - 1] == rest[i - 2]);
            }
        }
    }
}

/// A stored body has the id of its app in front and is unchanged behind it.
pub proof fn law_frames_are_headed(app_id: u8, body: Seq<u8>, i: int)
    requires
        0 <= i < body.len(),
    ensures
        framed(app_id, body).len() == body.len() + 1,
        framed(app_id, body)[0] == app_id,
        framed(app_id, body)[i + 1] == body[i],
{
}

/// Stored calibration data is a file where its first four bytes are the magic ones,
/// older data where they are others, and missing where there are fewer. Nothing
/// read, or no bytes of it, count as no data.
pub proof fn law_calibration_is_told_by_magic(data: Vec<u8>, magic: Seq<u8>)
    requires
        magic.len() == 4,
    ensures
        data@.len() < 4 ==> calibration_kind(data@, magic) == CalibrationFormat::Missing,
        data@.len() >= 4 ==> (calibration_kind(data@, magic) == CalibrationFormat::File) == (
        data@[0] == magic[0] && data@[1] == magic[1] && data@[2] == magic[2] && data@[3]
            == magic[3]),
        data@.len() >= 4 ==> calibration_kind(data@, magic) != CalibrationFormat::Missing,
        !has_data(None),
        has_data(Some(data)) == (data@.len() > 0),
{
    if data@.len() >= 4 {
        let head = data@.take(4);
        assert(head[0] == data@[0] && head[1] == data@[1] && head[2] == data@[2] && head[3]
            == data@[3]);
        if data@[0] == magic[0] && data@[1] == magic[1] && data@[2] == magic[2] && data@[3]
            == magic[3] {
            assert(head =~= magic);
        }
    }
}

/// A command with values leads to the parameters that stand for the list with the
/// named values in their places and the others as they were, where the list has
/// changed and stands for any. One that asks for the values changes nothing.
pub proof fn law_named_values_are_taken_over<P: AppParams>(
    params: P,
    values: Vec<Option<Value>>,
    next: Seq<Value>,
)
    requires
        next.len() == params.listing().len(),
        forall|i: int|
            0 <= i < next.len() ==> #[trigger] next[i] == (if i < values@.len() {
                match values@[i] {
                    Some(value) => value,
                    None => params.listing()[i],
                }
            } else {
                params.listing()[i]
            }),
        next != params.listing(),
    ensures
        commanded(params, AppParamCmd::SetAppParams { values }) == P::read(next),
        commanded(params, AppParamCmd::RequestParamValues) is None,
{
    assert(merged(params.listing(), values@) =~= next);
}

/// Whatever came before, the end of the quiet time after a change saves once more,
/// and without a change since the last one saves nothing.
pub proof fn law_quiet_time_saves_changes(state: SaverState, events: Seq<SaverEvent>)
    ensures
        saves(state, events.push(SaverEvent::Signal).push(SaverEvent::Timeout)) == saves(
            state,
            events,
        ) + 1,
        saves(state, events.push(SaverEvent::Timeout).push(SaverEvent::Timeout)) == saves(
            state,
            events.push(SaverEvent::Timeout),
        ),
        saves(state, events.push(SaverEvent::Signal)) == saves(state, events),
    decreases events.len(),
{
    let changed = events.push(SaverEvent::Signal);
    let ended = changed.push(SaverEvent::Timeout);
    let once = events.push(SaverEvent::Timeout);
    let twice = once.push(SaverEvent::Timeout);
    if events.len() == 0 {
        reveal_with_fuel(saves, 3);
        assert(ended.drop_first() =~= seq![SaverEvent::Timeout]);
        assert(twice.drop_first() =~= seq![SaverEvent::Timeout]);
        assert(ended.drop_first().drop_first().len() == 0);
        assert(twice.drop_first().drop_first().len() == 0);
        assert(once.drop_first().len() == 0);
        assert(changed.drop_first().len() == 0);
    } else {
        let rest = events.drop_first();
        law_quiet_time_saves_changes(saver_next(events[0]), rest);
        assert(changed.drop_first() =~= rest.push(SaverEvent::Signal));
        assert(ended.drop_first() =~= rest.push(SaverEvent::Signal).push(SaverEvent::Timeout));
        assert(once.drop_first() =~= rest.push(SaverEvent::Timeout));
        assert(twice.drop_first() =~= rest.push(SaverEvent::Timeout).push(SaverEvent::Timeout));
    }
}

/// The settings, the runtime state, the layout and the calibration are written as
/// they are encoded, each to the start of its region.
pub proof fn law_settings_are_written_in_place(
    data: Vec<u8>,
    config: StoreWrite,
    state: StoreWrite,
    layout: StoreWrite,
    calibration: StoreWrite,
)
    requires
        call_ensures(store_global_config, (data,), config),
        call_ensures(store_runtime_state, (data,), state),
        call_ensures(store_layout, (data,), layout),
        call_ensures(store_calibration_data, (data,), calibration),
    ensures
        config.data == data && state.data == data && layout.data == data && calibration.data
            == data,
        config.addr == 0,
        state.addr == 320,
        layout.addr == 384,
        calibration.addr == 512,
{
}

/// What was read and decoded is used, and the given value where nothing was: no
/// bytes, or bytes that stand for nothing. A layout that was not there is stored.
pub proof fn law_stored_settings_are_used<T>(
    read: Option<Vec<u8>>,
    decoded: Option<T>,
    layout: Option<(T, bool)>,
    fallback: T,
    config: T,
    state: T,
    laid: (T, bool),
)
    requires
        call_ensures(load_global_config::<T>, (&read, decoded, fallback), config),
        call_ensures(load_runtime_state::<T>, (&read, decoded, fallback), state),
        call_ensures(load_layout::<T>, (&read, layout, fallback), laid),
    ensures
        ({
            let there = match read {
                Some(data) => data@.len() > 0,
                None => false,
            };
            &&& there ==> (decoded matches Some(value) ==> config == value && state == value)
            &&& !there || decoded is None ==> config == fallback && state == fallback
            &&& there ==> (layout matches Some(value) ==> laid == value)
            &&& !there || layout is None ==> laid == (fallback, true)
        }),
{
}

/// A calibration file of the version in use is loaded, older data is converted, and
/// anything else is no calibration.
pub proof fn law_calibration_is_loaded<T>(
    data: Vec<u8>,
    magic: [u8; 4],
    file: Option<(u8, T)>,
    legacy: Option<T>,
    loaded: Calibration<T>,
    missing: Calibration<T>,
)
    requires
        call_ensures(load_calibration_data::<T>, (&Some(data), magic, file, legacy), loaded),
        call_ensures(load_calibration_data::<T>, (&None, magic, file, legacy), missing),
    ensures
        ({
            let kind = calibration_kind(data@, magic@);
            &&& missing == Calibration::<T>::Nothing
            &&& kind == CalibrationFormat::Missing ==> loaded == Calibration::<T>::Nothing
            &&& kind == CalibrationFormat::File ==> match file {
                Some((2, value)) => loaded == Calibration::Loaded(value),
                _ => loaded == Calibration::<T>::Nothing,
            }
            &&& kind == CalibrationFormat::Legacy ==> match legacy {
                Some(value) => loaded == Calibration::Converted(value),
                None => loaded == Calibration::<T>::Nothing,
            }
        }),
{
}

/// An app's storage and parameters are written to their own blocks, headed by the
/// id of the app, and bytes that another app has written are not taken for them.
pub proof fn law_apps_write_their_blocks<S: AppStorage, P: AppParams>(
    store: ManagedStorage<S>,
    params: ParamStore<P>,
    scene: u8,
    body: Vec<u8>,
    plain: StoreWrite,
    saved: StoreWrite,
    set: StoreWrite,
    read: Option<Vec<u8>>,
    values: Option<Vec<u8>>,
)
    requires
        scene < 16,
        call_ensures(ManagedStorage::<S>::save, (&store, &body), plain),
        call_ensures(ManagedStorage::<S>::save_to_scene, (&store, scene, &body), saved),
        call_ensures(ParamStore::<P>::save, (&params, &body), set),
        call_ensures(ManagedStorage::<S>::des, (&store, &saved.data), read),
        call_ensures(ParamStore::<P>::des, (&params, &saved.data), values),
    ensures
        plain.addr == 1024 + 6800 * store.layout_id,
        saved.addr == plain.addr + 400 * (scene + 1),
        set.addr == 122_880 + 128 * params.layout_id,
        plain.data@ == saved.data@,
        saved.data@.len() == body@.len() + 1 && saved.data@[0] == store.app_id,
        set.data@[0] == params.app_id,
        set.data@.skip(1) == body@,
        read matches Some(found) && found@ == body@,
        store.app_id != params.app_id ==> values is None,
{
    assert(framed(store.app_id, body@).skip(1) =~= body@);
    assert(framed(params.app_id, body@).skip(1) =~= body@);
}

/// After a write that failed, a factory reset goes on at the first later write that
/// starts a region: that of the settings, the runtime state, the layout, the storage
/// of the apps or their parameters. What lies between is left as it is.
pub proof fn law_reset_goes_on_with_next_region(
    plan: Vec<Chunk>,
    failed: usize,
    next: usize,
    i: int,
)
    requires
        failed < plan@.len(),
        call_ensures(resume_reset, (&plan, failed), next),
        failed < i < plan@.len(),
    ensures
        ({
            let addr = plan@[i].addr;
            let starts = addr == GLOBAL_CONFIG_START || addr == RUNTIME_STATE_START || addr
                == LAYOUT_START || addr == APP_STORAGE_START || addr == APP_PARAM_START;
            &&& failed < next <= plan@.len()
            &&& i < next ==> !starts
            &&& i == next ==> starts
        }),
{
}

} // verus!
