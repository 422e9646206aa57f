//! The virtio-gpu transport: ring buffer sizes, host features, the device
//! capabilities that the host reports, and the commands that the guest
//! sends to create and close objects.
use vstd::prelude::*;

use crate::encoder::flagged_bytes_create_buffer;
use crate::encoder::flagged_bytes_create_sync_obj;
use crate::encoder::flagged_bytes_submit_command;
use crate::encoder::lemma_write_chain_end;
use crate::encoder::lemma_write_chain_step;
use crate::encoder::link_flag;
use crate::encoder::EncodeError;
use crate::encoder::EncoderView;
use crate::encoder::Encoder;
use crate::wire::zeroed;
use crate::ring::MagmaRingBuffer;
use crate::ring::MagmaRingControl;
use crate::ring::RING_STATUS_ACTIVE;
use crate::error::Error;
use crate::error::IoErrorKind;
use crate::error::PlatformError;
use crate::protocol::BufferClose;
use crate::protocol::CreateAddressSpace;
use crate::protocol::CreateBuffer;
use crate::protocol::CreateDevice;
use crate::protocol::CreateQueue;
use crate::protocol::CreateSyncObj;
use crate::protocol::MagmaCommandHeader;
use crate::protocol::MagmaCreateBufferInfo;
use crate::protocol::MagmaCreateQueueInfo;
use crate::protocol::MagmaCreateSyncObjInfo;
use crate::protocol::MagmaExtensibleStruct;
use crate::protocol::MagmaGpuMapFlags;
use crate::protocol::MagmaHeap;
use crate::protocol::MagmaHeapBudget;
use crate::protocol::MagmaMemoryType;
use crate::protocol::MagmaPhysicalDeviceInfo;
use crate::protocol::MagmaQueueFamilyProperties;
use crate::protocol::MagmaStructureTypeHeader;
use crate::protocol::MagmaVirtCapabilities;
use crate::protocol::MapBufferGpu;
use crate::protocol::UnmapBufferGpu;
use crate::protocol::VirtioCreateRing;
use crate::protocol::VirtioGpuBlobPreference;
use crate::protocol::VirtioPing;
use crate::protocol::MAGMA_OPCODE_BUFFER_CLOSE;
use crate::protocol::MAGMA_STRUCTURE_TYPE_SUBMIT_SYNC_INFO;
use crate::protocol::MagmaWireSubmitSyncInfo;
use crate::protocol::MagmaWireSubmitInfo;
use crate::protocol::MagmaWireSubmitBufferInfo;
use crate::protocol::MagmaSubmitAddressSpaceInfo;
use crate::protocol::SubmitCommand;
use crate::protocol::MAGMA_OPCODE_SUBMIT_COMMAND;
use crate::protocol::MAGMA_STRUCTURE_TYPE_SUBMIT_INFO;
use crate::protocol::MAGMA_STRUCTURE_TYPE_SUBMIT_BUFFER_INFO;
use crate::protocol::MAGMA_STRUCTURE_TYPE_SUBMIT_ADDRESS_SPACE_INFO;
use crate::submit::MagmaSubmitBufferInfo;
use crate::tracker::SyncObjectState;
use crate::tracker::VirtioSyncOp;
use crate::protocol::SyncObjSignal;
use crate::protocol::SyncObjTimelineSignal;
use crate::protocol::VirtioCreateFence;
use crate::protocol::VirtioSyncObjClose;
use crate::protocol::MAGMA_OPCODE_SYNC_OBJ_SIGNAL;
use crate::protocol::MAGMA_OPCODE_SYNC_OBJ_TIMELINE_SIGNAL;
use crate::protocol::MAGMA_OPCODE_VIRTIO_CREATE_FENCE;
use crate::protocol::MAGMA_OPCODE_VIRTIO_SYNC_OBJ_CLOSE;
use crate::protocol::MAGMA_OPCODE_CREATE_ADDRESS_SPACE;
use crate::protocol::MAGMA_OPCODE_CREATE_BUFFER;
use crate::protocol::MAGMA_OPCODE_CREATE_DEVICE;
use crate::protocol::MAGMA_OPCODE_CREATE_QUEUE;
use crate::protocol::MAGMA_OPCODE_CREATE_SYNC_OBJ;
use crate::protocol::MAGMA_OPCODE_MAP_BUFFER_GPU;
use crate::protocol::MAGMA_OPCODE_UNMAP_BUFFER_GPU;
use crate::protocol::MAGMA_OPCODE_VIRTIO_CREATE_RING;
use crate::protocol::MAGMA_OPCODE_VIRTIO_PING;

verus! {

/// Smallest ring buffer the host may ask for.
pub const MIN_RING_BUFFER_LEN: u64 = 4096;
/// Largest ring buffer the host may ask for: 256 MiB.
pub const MAX_RING_BUFFER_LEN: u64 = 0x1000_0000;

/// A ring buffer length is between 4 KiB and 256 MiB and a whole number of
/// 4 KiB pages.
pub open spec fn ring_len_valid(len: u64) -> bool {
    MIN_RING_BUFFER_LEN <= len <= MAX_RING_BUFFER_LEN && len % 4096 == 0
}

/// The ring buffer length `len` as a size; `InvalidArgs` when it is not a
/// valid length.
pub fn validate_ring_buffer_len(len: u64) -> (r: Result<usize, Error>)
    ensures
        ring_len_valid(len) ==> r == Ok::<usize, Error>(len as usize),
        !ring_len_valid(len) ==> r == Err::<usize, Error>(Error::InvalidArgs),
{
    if !(MIN_RING_BUFFER_LEN <= len && len <= MAX_RING_BUFFER_LEN) || len % 4096 != 0 {
        return Err(Error::InvalidArgs);
    }
    Ok(len as usize)
}

/// A feature of the virtio-gpu host.
#[derive(Debug, Clone, Copy, PartialEq, Eq, Structural)]
pub enum VirtGpuFeature {
    GpuRendering,
    CapsetQueryFix,
    ResourceBlob,
    HostVisible,
    CrossDevice,
    ContextInit,
    SupportedCapsetIds,
    ExplicitDebugName,
    FencePassing,
    CreateGuestHandle,
}

impl VirtGpuFeature {
    /// The position of the feature among the host parameters.
    pub open spec fn spec_index(self) -> int {
        match self {
            VirtGpuFeature::GpuRendering => 0,
            VirtGpuFeature::CapsetQueryFix => 1,
            VirtGpuFeature::ResourceBlob => 2,
            VirtGpuFeature::HostVisible => 3,
            VirtGpuFeature::CrossDevice => 4,
            VirtGpuFeature::ContextInit => 5,
            VirtGpuFeature::SupportedCapsetIds => 6,
            VirtGpuFeature::ExplicitDebugName => 7,
            VirtGpuFeature::FencePassing => 8,
            VirtGpuFeature::CreateGuestHandle => 9,
        }
    }

    /// The position of the feature among the host parameters.
    pub fn index(&self) -> (r: usize)
        ensures
            r == self.spec_index(),
            r < 10,
    {
        match self {
            VirtGpuFeature::GpuRendering => 0,
            VirtGpuFeature::CapsetQueryFix => 1,
            VirtGpuFeature::ResourceBlob => 2,
            VirtGpuFeature::HostVisible => 3,
            VirtGpuFeature::CrossDevice => 4,
            VirtGpuFeature::ContextInit => 5,
            VirtGpuFeature::SupportedCapsetIds => 6,
            VirtGpuFeature::ExplicitDebugName => 7,
            VirtGpuFeature::FencePassing => 8,
            VirtGpuFeature::CreateGuestHandle => 9,
        }
    }
}

/// The values of the host parameters, one per feature, in feature order.
pub struct VirtGpuFeatures {
    values: [u64; 10],
}

impl View for VirtGpuFeatures {
    type V = Seq<u64>;

    closed spec fn view(&self) -> Seq<u64> {
        self.values@
    }
}

impl VirtGpuFeatures {
    /// The features whose parameters the host answered with `values`, in
    /// feature order.
    pub fn new(values: [u64; 10]) -> (r: VirtGpuFeatures)
        ensures
            r@ == values@,
    {
        VirtGpuFeatures { values }
    }

    /// The value the host gave for `feature`.
    pub fn value(&self, feature: VirtGpuFeature) -> (r: u64)
        ensures
            r == self@[feature.spec_index()],
    {
        self.values[feature.index()]
    }

    /// Whether the host supports `feature`: its value is not 0.
    pub fn support(&self, feature: VirtGpuFeature) -> (r: bool)
        ensures
            r == (self@[feature.spec_index()] != 0),
    {
        self.values[feature.index()] != 0
    }

    /// Whether the host supports capability set `capset_id`: its bit is set
    /// in the supported capability sets.
    pub fn support_capset(&self, capset_id: u32) -> (r: bool)
        requires
            capset_id < 64,
        ensures
            r == (self@[VirtGpuFeature::SupportedCapsetIds.spec_index()] & (1u64 << capset_id) != 0),
    {
        (self.values[VirtGpuFeature::SupportedCapsetIds.index()] & (1u64 << capset_id)) != 0
    }
}

/// A decoded physical device as the contracts see it: its record, its
/// memory types and its memory heaps.
pub type DeviceModel = (MagmaPhysicalDeviceInfo, Seq<MagmaMemoryType>, Seq<MagmaHeap>);

/// A physical device as the host describes it.
#[derive(Clone, Debug)]
pub struct DecodedPhysicalDevice {
    pub info: MagmaPhysicalDeviceInfo,
    pub memory_types: Vec<MagmaMemoryType>,
    pub memory_heaps: Vec<MagmaHeap>,
}

impl View for DecodedPhysicalDevice {
    type V = DeviceModel;

    open spec fn view(&self) -> DeviceModel {
        (self.info, self.memory_types@, self.memory_heaps@)
    }
}

/// The capabilities of the host and the physical devices it offers.
#[derive(Clone, Debug)]
pub struct DecodedCapabilities {
    pub caps: MagmaVirtCapabilities,
    pub devices: Vec<DecodedPhysicalDevice>,
}

/// The models of `devs`, in order.
pub open spec fn device_models(devs: Seq<DecodedPhysicalDevice>) -> Seq<DeviceModel> {
    devs.map_values(|d: DecodedPhysicalDevice| d@)
}

impl View for DecodedCapabilities {
    type V = (MagmaVirtCapabilities, Seq<DeviceModel>);

    open spec fn view(&self) -> (MagmaVirtCapabilities, Seq<DeviceModel>) {
        (self.caps, device_models(self.devices@))
    }
}

/// Capabilities with every field zero.
pub open spec fn caps_zero() -> MagmaVirtCapabilities {
    MagmaVirtCapabilities {
        header: MagmaStructureTypeHeader { stype: 0, size: 0, p_next: 0 },
        capset_version: 0,
        num_physical_devices: 0,
        blob_preference: VirtioGpuBlobPreference::Undefined,
        _pad0: 0,
        ring_buffer_len: 0,
    }
}

/// Where decoding stands: the capabilities so far, the devices that are
/// complete, and the device whose types and heaps are being read.
pub type DecodeState = (MagmaVirtCapabilities, Seq<DeviceModel>, Option<DeviceModel>);

/// The decoding state after structure `s`: capabilities replace the
/// capabilities so far (`InvalidArgs` when their ring length is not valid);
/// a device record completes the current device and starts a new one; a
/// memory type or heap joins the current device, if there is one; any other
/// structure changes nothing.
pub open spec fn decode_step(st: DecodeState, s: MagmaExtensibleStruct) -> Result<DecodeState, Error> {
    match s {
        MagmaExtensibleStruct::VirtCapabilities(caps) => if ring_len_valid(caps.ring_buffer_len) {
            Ok((caps, st.1, st.2))
        } else {
            Err(Error::InvalidArgs)
        },
        MagmaExtensibleStruct::PhysicalDeviceInfo(info) => Ok(
            (
                st.0,
                match st.2 {
                    Some(d) => st.1.push(d),
                    None => st.1,
                },
                Some((info, Seq::empty(), Seq::empty())),
            ),
        ),
        MagmaExtensibleStruct::PhysicalDeviceMemoryType(mt) => Ok(
            (
                st.0,
                st.1,
                match st.2 {
                    Some(d) => Some(
                        (d.0, d.1.push(MagmaMemoryType { property_flags: mt.property_flags, heap_idx: mt.heap_idx }), d.2),
                    ),
                    None => None,
                },
            ),
        ),
        MagmaExtensibleStruct::PhysicalDeviceMemoryHeap(mh) => Ok(
            (
                st.0,
                st.1,
                match st.2 {
                    Some(d) => Some((d.0, d.1, d.2.push(MagmaHeap { heap_size: mh.heap_size, heap_flags: mh.heap_flags }))),
                    None => None,
                },
            ),
        ),
        _ => Ok(st),
    }
}

/// The decoding state after the first `n` structures; the first error
/// stops decoding.
pub open spec fn decode_fold(structs: Seq<MagmaExtensibleStruct>, n: int) -> Result<DecodeState, Error>
    decreases n,
{
    if n <= 0 {
        Ok((caps_zero(), Seq::empty(), None))
    } else {
        match decode_fold(structs, n - 1) {
            Ok(st) => decode_step(st, structs[n - 1]),
            Err(e) => Err(e),
        }
    }
}

/// The capabilities and devices that `structs` describe, in order:
/// `InvalidArgs` when a ring length is not valid (also when no capabilities
/// came) or when the number of devices is not the one the capabilities
/// announce.
pub open spec fn spec_decode_capabilities(structs: Seq<MagmaExtensibleStruct>) -> Result<(MagmaVirtCapabilities, Seq<DeviceModel>), Error> {
    match decode_fold(structs, structs.len() as int) {
        Err(e) => Err(e),
        Ok(st) => {
            let devs = match st.2 {
                Some(d) => st.1.push(d),
                None => st.1,
            };
            if !ring_len_valid(st.0.ring_buffer_len) {
                Err(Error::InvalidArgs)
            } else if devs.len() != st.0.num_physical_devices {
                Err(Error::InvalidArgs)
            } else {
                Ok((st.0, devs))
            }
        },
    }
}

/// The model of an optional device.
pub open spec fn opt_model(d: Option<DecodedPhysicalDevice>) -> Option<DeviceModel> {
    match d {
        Some(x) => Some(x@),
        None => None,
    }
}

proof fn lemma_decode_error_stays(structs: Seq<MagmaExtensibleStruct>, m: int, n: int)
    requires
        0 <= m <= n,
        decode_fold(structs, m) is Err,
    ensures
        decode_fold(structs, n) == decode_fold(structs, m),
    decreases n - m,
{
    if m < n {
        lemma_decode_error_stays(structs, m, n - 1);
    }
}

/// How many device records come among the first `n` structures.
#[verifier::opaque]
pub open spec fn device_records_before(structs: Seq<MagmaExtensibleStruct>, n: int) -> int
    decreases n,
{
    if n <= 0 {
        0
    } else {
        device_records_before(structs, n - 1) + if structs[n - 1] is PhysicalDeviceInfo { 1int } else { 0int }
    }
}

/// How many memory type records come among the first `n` structures since
/// the last device record before them.
#[verifier::opaque]
pub open spec fn types_since_device(structs: Seq<MagmaExtensibleStruct>, n: int) -> int
    decreases n,
{
    if n <= 0 {
        0
    } else if structs[n - 1] is PhysicalDeviceInfo {
        0
    } else if structs[n - 1] is PhysicalDeviceMemoryType {
        types_since_device(structs, n - 1) + 1
    } else {
        types_since_device(structs, n - 1)
    }
}

/// How many memory heap records come among the first `n` structures since
/// the last device record before them.
#[verifier::opaque]
pub open spec fn heaps_since_device(structs: Seq<MagmaExtensibleStruct>, n: int) -> int
    decreases n,
{
    if n <= 0 {
        0
    } else if structs[n - 1] is PhysicalDeviceInfo {
        0
    } else if structs[n - 1] is PhysicalDeviceMemoryHeap {
        heaps_since_device(structs, n - 1) + 1
    } else {
        heaps_since_device(structs, n - 1)
    }
}

/// The devices of a decoding state: the complete ones, then the current one.
pub open spec fn devices_so_far(st: DecodeState) -> Seq<DeviceModel> {
    match st.2 {
        Some(d) => st.1.push(d),
        None => st.1,
    }
}

proof fn lemma_record_counts_nonneg(structs: Seq<MagmaExtensibleStruct>, n: int)
    ensures
        device_records_before(structs, n) >= 0,
        types_since_device(structs, n) >= 0,
        heaps_since_device(structs, n) >= 0,
    decreases n,
{
    reveal(device_records_before);
    reveal(types_since_device);
    reveal(heaps_since_device);
    if n > 0 {
        lemma_record_counts_nonneg(structs, n - 1);
    }
}

/// How the record counts grow by one structure: a device record adds a
/// device and starts its types and heaps from none; a memory type or heap
/// record adds one of its kind to the current device.
pub proof fn lemma_record_counts_step(structs: Seq<MagmaExtensibleStruct>, n: int)
    requires
        0 <= n,
    ensures
        device_records_before(structs, n) >= 0,
        types_since_device(structs, n) >= 0,
        heaps_since_device(structs, n) >= 0,
        device_records_before(structs, 0) == 0,
        types_since_device(structs, 0) == 0,
        heaps_since_device(structs, 0) == 0,
        device_records_before(structs, n + 1) == device_records_before(structs, n)
            + if structs[n] is PhysicalDeviceInfo { 1int } else { 0int },
        types_since_device(structs, n + 1) == if structs[n] is PhysicalDeviceInfo {
            0
        } else if structs[n] is PhysicalDeviceMemoryType {
            types_since_device(structs, n) + 1
        } else {
            types_since_device(structs, n)
        },
        heaps_since_device(structs, n + 1) == if structs[n] is PhysicalDeviceInfo {
            0
        } else if structs[n] is PhysicalDeviceMemoryHeap {
            heaps_since_device(structs, n) + 1
        } else {
            heaps_since_device(structs, n)
        },
{
    reveal(device_records_before);
    reveal(types_since_device);
    reveal(heaps_since_device);
    lemma_record_counts_nonneg(structs, n);
}

proof fn lemma_device_records_monotone(structs: Seq<MagmaExtensibleStruct>, a: int, b: int)
    requires
        0 <= a <= b,
    ensures
        device_records_before(structs, a) <= device_records_before(structs, b),
    decreases b - a,
{
    if a < b {
        lemma_device_records_monotone(structs, a, b - 1);
        lemma_record_counts_step(structs, b - 1);
    }
}

proof fn lemma_same_device_counts_grow(structs: Seq<MagmaExtensibleStruct>, a: int, b: int)
    requires
        0 <= a <= b,
        device_records_before(structs, a) == device_records_before(structs, b),
    ensures
        types_since_device(structs, a) <= types_since_device(structs, b),
        heaps_since_device(structs, a) <= heaps_since_device(structs, b),
    decreases b - a,
{
    if a < b {
        lemma_record_counts_step(structs, b - 1);
        lemma_device_records_monotone(structs, a, b - 1);
        lemma_same_device_counts_grow(structs, a, b - 1);
    }
}

/// What the first `n` structures have decoded into so far, record by record.
spec fn decoded_prefix(structs: Seq<MagmaExtensibleStruct>, n: int, st: DecodeState) -> bool {
    let all = devices_so_far(st);
    &&& all.len() == device_records_before(structs, n)
    &&& (st.2 is None ==> device_records_before(structs, n) == 0)
    &&& (st.2 matches Some(d) ==> d.1.len() == types_since_device(structs, n)
        && d.2.len() == heaps_since_device(structs, n))
    &&& forall|p: int| #![trigger structs[p]]
        0 <= p < n && structs[p] is PhysicalDeviceInfo
            ==> all[device_records_before(structs, p)].0 == structs[p]->PhysicalDeviceInfo_0
    &&& forall|q: int| #![trigger structs[q]]
        0 <= q < n && structs[q] is PhysicalDeviceInfo && device_records_before(structs, q) > 0
            ==> all[device_records_before(structs, q) - 1].1.len() == types_since_device(structs, q)
            && all[device_records_before(structs, q) - 1].2.len() == heaps_since_device(structs, q)
    &&& forall|j: int| #![trigger structs[j]]
        0 <= j < n && structs[j] is PhysicalDeviceMemoryType && device_records_before(structs, j) > 0
            ==> types_since_device(structs, j) < all[device_records_before(structs, j) - 1].1.len()
            && all[device_records_before(structs, j) - 1].1[types_since_device(structs, j)]
                == (MagmaMemoryType {
                property_flags: structs[j]->PhysicalDeviceMemoryType_0.property_flags,
                heap_idx: structs[j]->PhysicalDeviceMemoryType_0.heap_idx,
            })
    &&& forall|j: int| #![trigger structs[j]]
        0 <= j < n && structs[j] is PhysicalDeviceMemoryHeap && device_records_before(structs, j) > 0
            ==> heaps_since_device(structs, j) < all[device_records_before(structs, j) - 1].2.len()
            && all[device_records_before(structs, j) - 1].2[heaps_since_device(structs, j)]
                == (MagmaHeap {
                heap_size: structs[j]->PhysicalDeviceMemoryHeap_0.heap_size,
                heap_flags: structs[j]->PhysicalDeviceMemoryHeap_0.heap_flags,
            })
}

proof fn lemma_earlier_records(structs: Seq<MagmaExtensibleStruct>, m: int)
    requires
        0 <= m,
    ensures
        forall|p: int| #![trigger structs[p]]
            0 <= p < m && structs[p] is PhysicalDeviceInfo
                ==> device_records_before(structs, p) < device_records_before(structs, m),
        forall|j: int| #![trigger device_records_before(structs, j)]
            0 <= j < m ==> device_records_before(structs, j) <= device_records_before(structs, m),
{
    assert forall|p: int| #![trigger structs[p]]
        0 <= p < m && structs[p] is PhysicalDeviceInfo implies
        device_records_before(structs, p) < device_records_before(structs, m) by {
        lemma_record_counts_step(structs, p);
        lemma_device_records_monotone(structs, p + 1, m);
    }
    assert forall|j: int| #![trigger device_records_before(structs, j)]
        0 <= j < m implies device_records_before(structs, j) <= device_records_before(structs, m) by {
        lemma_device_records_monotone(structs, j, m);
    }
}

proof fn lemma_step_device_record(structs: Seq<MagmaExtensibleStruct>, m: int, st: DecodeState)
    requires
        0 <= m < structs.len(),
        structs[m] is PhysicalDeviceInfo,
        decoded_prefix(structs, m, st),
    ensures
        decoded_prefix(structs, m + 1, decode_step(st, structs[m])->Ok_0),
{
    let st2 = decode_step(st, structs[m])->Ok_0;
    lemma_record_counts_step(structs, m);
    let all = devices_so_far(st);
    let all2 = devices_so_far(st2);
    assert(all2 =~= all.push(st2.2->0));
    lemma_earlier_records(structs, m);
    assert forall|p: int| #![trigger structs[p]]
        0 <= p < m + 1 && structs[p] is PhysicalDeviceInfo implies
        all2[device_records_before(structs, p)].0 == structs[p]->PhysicalDeviceInfo_0 by {
        lemma_record_counts_nonneg(structs, p);
        if p < m {
            assert(device_records_before(structs, p) < device_records_before(structs, m));
            assert(device_records_before(structs, p) < all.len());
            assert(all[device_records_before(structs, p)].0 == structs[p]->PhysicalDeviceInfo_0);
            assert(all2[device_records_before(structs, p)] == all[device_records_before(structs, p)]);
        } else {
            assert(device_records_before(structs, p) == all.len());
            assert(all2[device_records_before(structs, p)] == st2.2->0);
        }
    }
    assert forall|q: int| #![trigger structs[q]]
        0 <= q < m + 1 && structs[q] is PhysicalDeviceInfo && device_records_before(structs, q) > 0 implies
        all2[device_records_before(structs, q) - 1].1.len() == types_since_device(structs, q)
        && all2[device_records_before(structs, q) - 1].2.len() == heaps_since_device(structs, q) by {
        lemma_record_counts_nonneg(structs, q);
        if q < m {
            assert(all2[device_records_before(structs, q) - 1] == all[device_records_before(structs, q) - 1]);
        } else {
            assert(all[all.len() - 1] == st.2->0);
            assert(all2[device_records_before(structs, q) - 1] == all[all.len() - 1]);
        }
    }
}

proof fn lemma_step_memory_record(structs: Seq<MagmaExtensibleStruct>, m: int, st: DecodeState)
    requires
        0 <= m < structs.len(),
        structs[m] is PhysicalDeviceMemoryType || structs[m] is PhysicalDeviceMemoryHeap,
        decoded_prefix(structs, m, st),
    ensures
        decoded_prefix(structs, m + 1, decode_step(st, structs[m])->Ok_0),
{
    let st2 = decode_step(st, structs[m])->Ok_0;
    lemma_record_counts_step(structs, m);
    let all = devices_so_far(st);
    let all2 = devices_so_far(st2);
    lemma_earlier_records(structs, m);
    if st.2 is Some {
        let last = all.len() - 1;
        assert(all2 =~= all.update(last, st2.2->0));
        assert forall|j: int| #![trigger structs[j]]
            0 <= j < m && device_records_before(structs, j) > 0
            && device_records_before(structs, j) - 1 == last implies
            (structs[j] is PhysicalDeviceMemoryType ==> types_since_device(structs, j) < types_since_device(structs, m))
            && (structs[j] is PhysicalDeviceMemoryHeap ==> heaps_since_device(structs, j) < heaps_since_device(structs, m)) by {
            lemma_record_counts_step(structs, j);
            lemma_record_counts_nonneg(structs, j);
            lemma_device_records_monotone(structs, j + 1, m);
            lemma_same_device_counts_grow(structs, j + 1, m);
        }
        assert forall|p: int| #![trigger structs[p]]
            0 <= p < m + 1 && structs[p] is PhysicalDeviceInfo implies
            all2[device_records_before(structs, p)].0 == structs[p]->PhysicalDeviceInfo_0 by {
            lemma_record_counts_nonneg(structs, p);
            assert(all[device_records_before(structs, p)].0 == structs[p]->PhysicalDeviceInfo_0);
        }
        assert forall|q: int| #![trigger structs[q]]
            0 <= q < m + 1 && structs[q] is PhysicalDeviceInfo && device_records_before(structs, q) > 0 implies
            all2[device_records_before(structs, q) - 1].1.len() == types_since_device(structs, q)
            && all2[device_records_before(structs, q) - 1].2.len() == heaps_since_device(structs, q) by {
            lemma_record_counts_nonneg(structs, q);
            assert(all2[device_records_before(structs, q) - 1] == all[device_records_before(structs, q) - 1]);
        }
        let d = st.2->0;
        let d2 = st2.2->0;
        assert(all[last] == d);
        assert forall|j: int| #![trigger structs[j]]
            0 <= j < m + 1 && structs[j] is PhysicalDeviceMemoryType && device_records_before(structs, j) > 0 implies
            types_since_device(structs, j) < all2[device_records_before(structs, j) - 1].1.len()
            && all2[device_records_before(structs, j) - 1].1[types_since_device(structs, j)]
                == (MagmaMemoryType {
                property_flags: structs[j]->PhysicalDeviceMemoryType_0.property_flags,
                heap_idx: structs[j]->PhysicalDeviceMemoryType_0.heap_idx,
            }) by {
            lemma_record_counts_nonneg(structs, j);
            if j < m {
                let idx = device_records_before(structs, j) - 1;
                assert(types_since_device(structs, j) < all[idx].1.len());
                if idx == last {
                    assert(d2.1[types_since_device(structs, j)] == d.1[types_since_device(structs, j)]);
                }
            } else {
                assert(d2.1 == d.1.push(MagmaMemoryType {
                    property_flags: structs[j]->PhysicalDeviceMemoryType_0.property_flags,
                    heap_idx: structs[j]->PhysicalDeviceMemoryType_0.heap_idx,
                }));
            }
        }
        assert forall|j: int| #![trigger structs[j]]
            0 <= j < m + 1 && structs[j] is PhysicalDeviceMemoryHeap && device_records_before(structs, j) > 0 implies
            heaps_since_device(structs, j) < all2[device_records_before(structs, j) - 1].2.len()
            && all2[device_records_before(structs, j) - 1].2[heaps_since_device(structs, j)]
                == (MagmaHeap {
                heap_size: structs[j]->PhysicalDeviceMemoryHeap_0.heap_size,
                heap_flags: structs[j]->PhysicalDeviceMemoryHeap_0.heap_flags,
            }) by {
            lemma_record_counts_nonneg(structs, j);
            if j < m {
                let idx = device_records_before(structs, j) - 1;
                assert(heaps_since_device(structs, j) < all[idx].2.len());
                if idx == last {
                    assert(d2.2[heaps_since_device(structs, j)] == d.2[heaps_since_device(structs, j)]);
                }
            } else {
                assert(d2.2 == d.2.push(MagmaHeap {
                    heap_size: structs[j]->PhysicalDeviceMemoryHeap_0.heap_size,
                    heap_flags: structs[j]->PhysicalDeviceMemoryHeap_0.heap_flags,
                }));
            }
        }
    } else {
        assert(all2 =~= all);
    }
}

proof fn lemma_step_other_record(structs: Seq<MagmaExtensibleStruct>, m: int, st: DecodeState)
    requires
        0 <= m < structs.len(),
        !(structs[m] is PhysicalDeviceInfo),
        !(structs[m] is PhysicalDeviceMemoryType),
        !(structs[m] is PhysicalDeviceMemoryHeap),
        decode_step(st, structs[m]) is Ok,
        decoded_prefix(structs, m, st),
    ensures
        decoded_prefix(structs, m + 1, decode_step(st, structs[m])->Ok_0),
{
    let st2 = decode_step(st, structs[m])->Ok_0;
    lemma_record_counts_step(structs, m);
    assert(devices_so_far(st2) =~= devices_so_far(st));
}

proof fn lemma_decoded_prefix(structs: Seq<MagmaExtensibleStruct>, n: int)
    requires
        0 <= n <= structs.len(),
        decode_fold(structs, n) is Ok,
    ensures
        decoded_prefix(structs, n, decode_fold(structs, n)->Ok_0),
    decreases n,
{
    lemma_record_counts_step(structs, 0);
    if n > 0 {
        let m = n - 1;
        lemma_decoded_prefix(structs, m);
        let st = decode_fold(structs, m)->Ok_0;
        if structs[m] is PhysicalDeviceInfo {
            lemma_step_device_record(structs, m, st);
        } else if structs[m] is PhysicalDeviceMemoryType || structs[m] is PhysicalDeviceMemoryHeap {
            lemma_step_memory_record(structs, m, st);
        } else {
            lemma_step_other_record(structs, m, st);
        }
    }
}

/// Decoding copies each device, memory type and memory heap record field for
/// field from what the host sent: the device record at position `p` becomes
/// the device numbered by the device records before it; the memory types and
/// heaps that follow a device record join that device in the order they
/// came, each with the record's own flags, heap index and size; and a device
/// holds no other types or heaps than those that follow its record up to the
/// next device record.
pub proof fn lemma_decoded_devices_copy_host_records(structs: Seq<MagmaExtensibleStruct>)
    requires
        spec_decode_capabilities(structs) is Ok,
    ensures
        ({
            let devs = spec_decode_capabilities(structs)->Ok_0.1;
            &&& devs.len() == device_records_before(structs, structs.len() as int)
            &&& forall|p: int| #![trigger structs[p]]
                0 <= p < structs.len() && structs[p] is PhysicalDeviceInfo
                    ==> device_records_before(structs, p) < devs.len()
                    && devs[device_records_before(structs, p)].0 == structs[p]->PhysicalDeviceInfo_0
            &&& forall|q: int| #![trigger structs[q]]
                0 <= q < structs.len() && structs[q] is PhysicalDeviceInfo && device_records_before(structs, q) > 0
                    ==> devs[device_records_before(structs, q) - 1].1.len() == types_since_device(structs, q)
                    && devs[device_records_before(structs, q) - 1].2.len() == heaps_since_device(structs, q)
            &&& devs.len() > 0 ==> devs.last().1.len() == types_since_device(structs, structs.len() as int)
                && devs.last().2.len() == heaps_since_device(structs, structs.len() as int)
            &&& forall|j: int| #![trigger structs[j]]
                0 <= j < structs.len() && structs[j] is PhysicalDeviceMemoryType && device_records_before(structs, j) > 0
                    ==> types_since_device(structs, j) < devs[device_records_before(structs, j) - 1].1.len()
                    && devs[device_records_before(structs, j) - 1].1[types_since_device(structs, j)].property_flags
                        == structs[j]->PhysicalDeviceMemoryType_0.property_flags
                    && devs[device_records_before(structs, j) - 1].1[types_since_device(structs, j)].heap_idx
                        == structs[j]->PhysicalDeviceMemoryType_0.heap_idx
            &&& forall|j: int| #![trigger structs[j]]
                0 <= j < structs.len() && structs[j] is PhysicalDeviceMemoryHeap && device_records_before(structs, j) > 0
                    ==> heaps_since_device(structs, j) < devs[device_records_before(structs, j) - 1].2.len()
                    && devs[device_records_before(structs, j) - 1].2[heaps_since_device(structs, j)].heap_size
                        == structs[j]->PhysicalDeviceMemoryHeap_0.heap_size
                    && devs[device_records_before(structs, j) - 1].2[heaps_since_device(structs, j)].heap_flags
                        == structs[j]->PhysicalDeviceMemoryHeap_0.heap_flags
        }),
{
    lemma_decoded_prefix(structs, structs.len() as int);
    assert forall|p: int| 0 <= p < structs.len() && structs[p] is PhysicalDeviceInfo implies
        device_records_before(structs, p) < device_records_before(structs, structs.len() as int) by {
        lemma_record_counts_step(structs, p);
        lemma_device_records_monotone(structs, p + 1, structs.len() as int);
    }
}

/// Reads the capabilities and the physical devices from the structures
/// that the host sent, in the order it sent them.
pub fn decode_capabilities(structs: &[MagmaExtensibleStruct]) -> (r: Result<DecodedCapabilities, Error>)
    ensures
        match spec_decode_capabilities(structs@) {
            Ok(v) => r is Ok && r->Ok_0@ == v,
            Err(e) => r == Err::<DecodedCapabilities, Error>(e),
        },
{
    let mut caps = MagmaVirtCapabilities {
        header: MagmaStructureTypeHeader { stype: 0, size: 0, p_next: 0 },
        capset_version: 0,
        num_physical_devices: 0,
        blob_preference: VirtioGpuBlobPreference::Undefined,
        _pad0: 0,
        ring_buffer_len: 0,
    };
    let mut devices: Vec<DecodedPhysicalDevice> = Vec::new();
    let mut current_device: Option<DecodedPhysicalDevice> = None;
    let mut i: usize = 0;
    assert(device_models(devices@) =~= Seq::<DeviceModel>::empty());
    while i < structs.len()
        invariant
            i <= structs@.len(),
            decode_fold(structs@, i as int) == Ok::<DecodeState, Error>(
                (caps, device_models(devices@), opt_model(current_device)),
            ),
        decreases structs.len() - i,
    {
        match structs[i] {
            MagmaExtensibleStruct::VirtCapabilities(c) => {
                if validate_ring_buffer_len(c.ring_buffer_len).is_err() {
                    proof {
                        lemma_decode_error_stays(structs@, i as int + 1, structs@.len() as int);
                    }
                    return Err(Error::InvalidArgs);
                }
                caps = c;
            },
            MagmaExtensibleStruct::PhysicalDeviceInfo(info) => {
                let ghost before = devices@;
                match current_device {
                    Some(dev) => {
                        devices.push(dev);
                        proof {
                            assert(device_models(devices@) =~= device_models(before).push(dev@));
                        }
                    },
                    None => {},
                }
                current_device = Some(DecodedPhysicalDevice { info, memory_types: Vec::new(), memory_heaps: Vec::new() });
                proof {
                    let d = current_device.unwrap();
                    assert(d.memory_types@ =~= Seq::<MagmaMemoryType>::empty());
                    assert(d.memory_heaps@ =~= Seq::<MagmaHeap>::empty());
                }
            },
            MagmaExtensibleStruct::PhysicalDeviceMemoryType(mt) => {
                current_device = match current_device {
                    Some(mut dev) => {
                        dev.memory_types.push(MagmaMemoryType { property_flags: mt.property_flags, heap_idx: mt.heap_idx });
                        Some(dev)
                    },
                    None => None,
                };
            },
            MagmaExtensibleStruct::PhysicalDeviceMemoryHeap(mh) => {
                current_device = match current_device {
                    Some(mut dev) => {
                        dev.memory_heaps.push(MagmaHeap { heap_size: mh.heap_size, heap_flags: mh.heap_flags });
                        Some(dev)
                    },
                    None => None,
                };
            },
            _ => {},
        }
        i = i + 1;
    }
    let ghost before = devices@;
    match current_device {
        Some(dev) => {
            devices.push(dev);
            proof {
                assert(device_models(devices@) =~= device_models(before).push(dev@));
            }
        },
        None => {},
    }
    if validate_ring_buffer_len(caps.ring_buffer_len).is_err() {
        return Err(Error::InvalidArgs);
    }
    if devices.len() != caps.num_physical_devices as usize {
        return Err(Error::InvalidArgs);
    }
    Ok(DecodedCapabilities { caps, devices })
}

/// The queue families of a device as its record lists them: the first
/// `queue_family_count` entries, or all of them when the count is larger.
pub fn queue_family_properties(info: &MagmaPhysicalDeviceInfo) -> (r: Vec<MagmaQueueFamilyProperties>)
    ensures
        r@ == info.queue_families@.take(
            if info.queue_family_count < info.queue_families@.len() {
                info.queue_family_count as int
            } else {
                info.queue_families@.len() as int
            },
        ),
{
    let count: usize = if (info.queue_family_count as usize) < info.queue_families.len() {
        info.queue_family_count as usize
    } else {
        info.queue_families.len()
    };
    let mut out: Vec<MagmaQueueFamilyProperties> = Vec::new();
    let mut i: usize = 0;
    while i < count
        invariant
            i <= count,
            count <= info.queue_families@.len(),
            out@ == info.queue_families@.take(i as int),
        decreases count - i,
    {
        out.push(info.queue_families[i]);
        i = i + 1;
        assert(out@ =~= info.queue_families@.take(i as int));
    }
    out
}

/// Budget of heap `heap_idx` among `mem_heaps`: its whole size, with no
/// usage counted; `InvalidArgs` for an index past the heaps.
pub fn get_memory_budget(mem_heaps: &[MagmaHeap], heap_idx: u32) -> (r: Result<MagmaHeapBudget, Error>)
    ensures
        heap_idx >= mem_heaps@.len() ==> r == Err::<MagmaHeapBudget, Error>(Error::InvalidArgs),
        heap_idx < mem_heaps@.len() ==> r == Ok::<MagmaHeapBudget, Error>(
            MagmaHeapBudget { budget: mem_heaps@[heap_idx as int].heap_size, usage: 0 },
        ),
{
    if (heap_idx as usize) < mem_heaps.len() {
        Ok(MagmaHeapBudget { budget: mem_heaps[heap_idx as usize].heap_size, usage: 0 })
    } else {
        Err(Error::InvalidArgs)
    }
}

/// The ring that the `counter`-th queue of a device uses: rings 1 to 63 in
/// turn (ring 0 carries the device's own commands).
pub fn queue_ring_idx(counter: u32) -> (r: u32)
    ensures
        r == counter % 63 + 1,
        1 <= r <= 63,
{
    counter % 63 + 1
}

/// The mapping mode of a buffer of memory type `memory_type_idx` among
/// `mem_types`: none for an index past the types.
pub fn buffer_map_info(mem_types: &[MagmaMemoryType], memory_type_idx: u32) -> (r: Option<u32>)
    ensures
        memory_type_idx >= mem_types@.len() ==> r is None,
        memory_type_idx < mem_types@.len() ==> r == crate::defines::spec_map_info(
            mem_types@[memory_type_idx as int].property_flags,
        ),
{
    if (memory_type_idx as usize) < mem_types.len() {
        mem_types[memory_type_idx as usize].get_map_info()
    } else {
        None
    }
}

/// The command that creates the device for physical device `physical_device`.
pub fn create_device_cmd(physical_device: u32) -> (r: CreateDevice)
    ensures
        r == (CreateDevice {
            header: MagmaCommandHeader { opcode: MAGMA_OPCODE_CREATE_DEVICE, size: CreateDevice::wire_size() as u32 },
            physical_device,
            device: 1,
        }),
{
    CreateDevice { header: MagmaCommandHeader { opcode: MAGMA_OPCODE_CREATE_DEVICE, size: 16 }, physical_device, device: 1 }
}

/// The command that creates ring `channel_id` on blob `ring_blob_id`.
pub fn create_ring_cmd(channel_id: u32, ring_blob_id: u32) -> (r: VirtioCreateRing)
    ensures
        r == (VirtioCreateRing {
            header: MagmaCommandHeader {
                opcode: MAGMA_OPCODE_VIRTIO_CREATE_RING,
                size: VirtioCreateRing::wire_size() as u32,
            },
            channel_id,
            ring_blob_id,
        }),
{
    VirtioCreateRing { header: MagmaCommandHeader { opcode: MAGMA_OPCODE_VIRTIO_CREATE_RING, size: 16 }, channel_id, ring_blob_id }
}

/// The command that tells the host to look at ring `channel_id`.
pub fn ping_cmd(channel_id: u32) -> (r: VirtioPing)
    ensures
        r == (VirtioPing {
            header: MagmaCommandHeader { opcode: MAGMA_OPCODE_VIRTIO_PING, size: VirtioPing::wire_size() as u32 },
            channel_id,
            _padding: 0,
        }),
{
    VirtioPing { header: MagmaCommandHeader { opcode: MAGMA_OPCODE_VIRTIO_PING, size: 16 }, channel_id, _padding: 0 }
}

/// The command that creates address space `object_id` on the device.
pub fn create_address_space_cmd(object_id: u32) -> (r: CreateAddressSpace)
    ensures
        r == (CreateAddressSpace {
            header: MagmaCommandHeader {
                opcode: MAGMA_OPCODE_CREATE_ADDRESS_SPACE,
                size: CreateAddressSpace::wire_size() as u32,
            },
            device: 0,
            address_space: object_id,
        }),
{
    CreateAddressSpace {
        header: MagmaCommandHeader { opcode: MAGMA_OPCODE_CREATE_ADDRESS_SPACE, size: 16 },
        device: 0,
        address_space: object_id,
    }
}

/// The command that creates queue `object_id` as `info` asks, in the
/// address space with host id `as_id` (1 when it has none).
pub fn create_queue_cmd(as_id: Option<u32>, info: &MagmaCreateQueueInfo, object_id: u32) -> (r: CreateQueue)
    ensures
        r == (CreateQueue {
            header: MagmaCommandHeader { opcode: MAGMA_OPCODE_CREATE_QUEUE, size: CreateQueue::wire_size() as u32 },
            device: 0,
            address_space: match as_id {
                Some(a) => a,
                None => 1,
            },
            info: *info,
            queue: object_id,
            _padding: 0,
        }),
{
    let address_space = match as_id {
        Some(a) => a,
        None => 1,
    };
    CreateQueue {
        header: MagmaCommandHeader { opcode: MAGMA_OPCODE_CREATE_QUEUE, size: 40 },
        device: 0,
        address_space,
        info: *info,
        queue: object_id,
        _padding: 0,
    }
}

/// The command that creates buffer `object_id` as `create_info` asks.
pub fn create_buffer_cmd(create_info: &MagmaCreateBufferInfo, object_id: u32) -> (r: CreateBuffer)
    ensures
        r == (CreateBuffer {
            header: MagmaCommandHeader { opcode: MAGMA_OPCODE_CREATE_BUFFER, size: CreateBuffer::wire_size() as u32 },
            device: 0,
            _pad0: 0,
            info: *create_info,
            buffer_out: object_id,
            _padding: 0,
        }),
{
    CreateBuffer {
        header: MagmaCommandHeader { opcode: MAGMA_OPCODE_CREATE_BUFFER, size: 64 },
        device: 0,
        _pad0: 0,
        info: *create_info,
        buffer_out: object_id,
        _padding: 0,
    }
}

/// The command that creates sync object `object_id` as `info` asks.
pub fn create_sync_obj_cmd(info: &MagmaCreateSyncObjInfo, object_id: u32) -> (r: CreateSyncObj)
    ensures
        r == (CreateSyncObj {
            header: MagmaCommandHeader { opcode: MAGMA_OPCODE_CREATE_SYNC_OBJ, size: CreateSyncObj::wire_size() as u32 },
            device: 0,
            _pad0: 0,
            info: *info,
            sync_obj: object_id,
            _padding: 0,
        }),
{
    CreateSyncObj {
        header: MagmaCommandHeader { opcode: MAGMA_OPCODE_CREATE_SYNC_OBJ, size: 56 },
        device: 0,
        _pad0: 0,
        info: *info,
        sync_obj: object_id,
        _padding: 0,
    }
}

/// The command that maps `size` bytes of the buffer with host id `buf_id`
/// (1 when it has none), from `buffer_offset` on, at `gpu_va` in address
/// space `address_space`.
pub fn map_buffer_gpu_cmd(
    address_space: u32,
    buf_id: Option<u32>,
    buffer_offset: u64,
    gpu_va: u64,
    size: u64,
    flags: MagmaGpuMapFlags,
) -> (r: MapBufferGpu)
    ensures
        r == (MapBufferGpu {
            header: MagmaCommandHeader { opcode: MAGMA_OPCODE_MAP_BUFFER_GPU, size: MapBufferGpu::wire_size() as u32 },
            address_space,
            buffer: match buf_id {
                Some(b) => b,
                None => 1,
            },
            buffer_offset,
            gpu_va,
            size,
            flags,
        }),
{
    let buffer = match buf_id {
        Some(b) => b,
        None => 1,
    };
    MapBufferGpu {
        header: MagmaCommandHeader { opcode: MAGMA_OPCODE_MAP_BUFFER_GPU, size: 48 },
        address_space,
        buffer,
        buffer_offset,
        gpu_va,
        size,
        flags,
    }
}

/// The command that unmaps `size` bytes at `gpu_va` in address space
/// `address_space`.
pub fn unmap_buffer_gpu_cmd(address_space: u32, gpu_va: u64, size: u64) -> (r: UnmapBufferGpu)
    ensures
        r == (UnmapBufferGpu {
            header: MagmaCommandHeader {
                opcode: MAGMA_OPCODE_UNMAP_BUFFER_GPU,
                size: UnmapBufferGpu::wire_size() as u32,
            },
            address_space,
            _pad0: 0,
            gpu_va,
            size,
        }),
{
    UnmapBufferGpu {
        header: MagmaCommandHeader { opcode: MAGMA_OPCODE_UNMAP_BUFFER_GPU, size: 32 },
        address_space,
        _pad0: 0,
        gpu_va,
        size,
    }
}

/// The command that closes buffer `buffer`.
pub fn buffer_close_cmd(buffer: u32) -> (r: BufferClose)
    ensures
        r == (BufferClose {
            header: MagmaCommandHeader { opcode: MAGMA_OPCODE_BUFFER_CLOSE, size: BufferClose::wire_size() as u32 },
            buffer,
            _padding: 0,
        }),
{
    BufferClose { header: MagmaCommandHeader { opcode: MAGMA_OPCODE_BUFFER_CLOSE, size: 16 }, buffer, _padding: 0 }
}

/// The wire bytes of `cmd`, encoded into a buffer of its own size with no
/// extension chain followed.
pub fn encode_create_buffer_cmd(cmd: &CreateBuffer) -> (r: Result<Vec<u8>, Error>)
    ensures
        r is Ok,
        r->Ok_0@ == flagged_bytes_create_buffer(*cmd),
{
    let mut encoder = Encoder::from_slice(zeroed(64));
    let chain: Vec<MagmaExtensibleStruct> = Vec::new();
    let ghost e0 = encoder@;
    let ghost root = flagged_bytes_create_buffer(*cmd);
    proof {
        let flagged = CreateBuffer {
            info: MagmaCreateBufferInfo {
                header: MagmaStructureTypeHeader { p_next: crate::encoder::link_flag(cmd.info.header.p_next), ..cmd.info.header },
                ..cmd.info
            },
            ..*cmd
        };
        flagged.lemma_bytes_len();
        crate::encoder::lemma_write_chain_end(e0.write(root).0, cmd.info.header.p_next, chain@);
    }
    let r = encoder.encode_create_buffer(cmd, chain.as_slice());
    match r {
        Err(e) => {
            return Err(Error::from(e));
        },
        Ok(()) => {},
    }
    let v = encoder.into_inner();
    proof {
        assert(v@ =~= root);
    }
    Ok(v)
}

/// The wire bytes of `cmd`, encoded into a buffer of its own size with no
/// extension chain followed.
pub fn encode_create_sync_obj_cmd(cmd: &CreateSyncObj) -> (r: Result<Vec<u8>, Error>)
    ensures
        r is Ok,
        r->Ok_0@ == flagged_bytes_create_sync_obj(*cmd),
{
    let mut encoder = Encoder::from_slice(zeroed(56));
    let chain: Vec<MagmaExtensibleStruct> = Vec::new();
    let ghost e0 = encoder@;
    let ghost root = flagged_bytes_create_sync_obj(*cmd);
    proof {
        let flagged = CreateSyncObj {
            info: MagmaCreateSyncObjInfo {
                header: MagmaStructureTypeHeader { p_next: crate::encoder::link_flag(cmd.info.header.p_next), ..cmd.info.header },
                ..cmd.info
            },
            ..*cmd
        };
        flagged.lemma_bytes_len();
        crate::encoder::lemma_write_chain_end(e0.write(root).0, cmd.info.header.p_next, chain@);
    }
    let r = encoder.encode_create_sync_obj(cmd, chain.as_slice());
    match r {
        Err(e) => {
            return Err(Error::from(e));
        },
        Ok(()) => {},
    }
    let v = encoder.into_inner();
    proof {
        assert(v@ =~= root);
    }
    Ok(v)
}

/// A virtio sync object of a submission: its id on the host and whether an
/// imported fence backs it.
#[derive(Debug, Clone, Copy, PartialEq, Eq, Structural)]
pub struct VirtioSyncRef {
    pub host_object_id: u32,
    pub has_imported_fence: bool,
}

/// A sync object of a submission with its point: `virtio` is `None` for an
/// object of another transport.
#[derive(Debug, Clone, Copy, PartialEq, Eq, Structural)]
pub struct VirtioSubmitSync {
    pub virtio: Option<VirtioSyncRef>,
    pub point: u64,
}

/// The waits that the host carries out, as (host id, point): the virtio
/// objects without an imported fence, in order.
pub open spec fn host_waits(waits: Seq<VirtioSubmitSync>) -> Seq<(u32, u64)>
    decreases waits.len(),
{
    if waits.len() == 0 {
        Seq::empty()
    } else {
        let prev = host_waits(waits.drop_last());
        let w = waits.last();
        match w.virtio {
            Some(v) => if !v.has_imported_fence {
                prev.push((v.host_object_id, w.point))
            } else {
                prev
            },
            None => prev,
        }
    }
}

/// The signals that the host carries out, as (host id, point): the virtio
/// objects, in order.
pub open spec fn host_signals(signals: Seq<VirtioSubmitSync>) -> Seq<(u32, u64)>
    decreases signals.len(),
{
    if signals.len() == 0 {
        Seq::empty()
    } else {
        let prev = host_signals(signals.drop_last());
        let s = signals.last();
        match s.virtio {
            Some(v) => prev.push((v.host_object_id, s.point)),
            None => prev,
        }
    }
}

/// The waits that the guest carries out on the CPU before submitting: the
/// positions of the virtio objects with an imported fence, in order.
pub open spec fn cpu_waits(waits: Seq<VirtioSubmitSync>) -> Seq<usize>
    decreases waits.len(),
{
    if waits.len() == 0 {
        Seq::empty()
    } else {
        let prev = cpu_waits(waits.drop_last());
        match waits.last().virtio {
            Some(v) => if v.has_imported_fence {
                prev.push((waits.len() - 1) as usize)
            } else {
                prev
            },
            None => prev,
        }
    }
}

/// Each wait on a virtio object is carried out exactly once: by the host,
/// in order and with its host id and point, when no imported fence backs the
/// object; on the CPU, by its position, when one does. Waits on objects of
/// another transport are left out. The host carries out every signal of a
/// virtio object, in order, with its host id and point.
pub proof fn lemma_waits_split_between_host_and_cpu(waits: Seq<VirtioSubmitSync>, signals: Seq<VirtioSubmitSync>)
    requires
        waits.len() <= usize::MAX,
    ensures
        host_waits(waits) == waits.filter(|w: VirtioSubmitSync| w.virtio is Some && !w.virtio->0.has_imported_fence)
            .map_values(|w: VirtioSubmitSync| (w.virtio->0.host_object_id, w.point)),
        host_signals(signals) == signals.filter(|s: VirtioSubmitSync| s.virtio is Some)
            .map_values(|s: VirtioSubmitSync| (s.virtio->0.host_object_id, s.point)),
        forall|k: int| #![trigger cpu_waits(waits)[k]]
            0 <= k < cpu_waits(waits).len() ==> cpu_waits(waits)[k] < waits.len()
                && waits[cpu_waits(waits)[k] as int].virtio is Some
                && waits[cpu_waits(waits)[k] as int].virtio->0.has_imported_fence,
        forall|i: int| #![trigger waits[i]]
            0 <= i < waits.len() && waits[i].virtio is Some && waits[i].virtio->0.has_imported_fence
                ==> exists|k: int| 0 <= k < cpu_waits(waits).len() && cpu_waits(waits)[k] == i,
    decreases waits.len() + signals.len(),
{
    reveal_with_fuel(Seq::filter, 1);
    lemma_host_waits_len(waits);
    if waits.len() > 0 {
        lemma_waits_split_between_host_and_cpu(waits.drop_last(), signals);
        let prev = waits.drop_last().filter(|w: VirtioSubmitSync| w.virtio is Some && !w.virtio->0.has_imported_fence);
        let f = waits.filter(|w: VirtioSubmitSync| w.virtio is Some && !w.virtio->0.has_imported_fence);
        let m = |w: VirtioSubmitSync| (w.virtio->0.host_object_id, w.point);
        if waits.last().virtio is Some && !waits.last().virtio->0.has_imported_fence {
            assert(f == prev.push(waits.last()));
            assert(f.map_values(m) =~= prev.map_values(m).push(m(waits.last())));
        } else {
            assert(f == prev);
        }
        let c = cpu_waits(waits);
        let c0 = cpu_waits(waits.drop_last());
        assert forall|i: int| #![trigger waits[i]]
            0 <= i < waits.len() && waits[i].virtio is Some && waits[i].virtio->0.has_imported_fence implies
            exists|k: int| 0 <= k < c.len() && c[k] == i by {
            if i < waits.len() - 1 {
                assert(waits.drop_last()[i] == waits[i]);
                let k = choose|k: int| 0 <= k < c0.len() && c0[k] == i;
                assert(c[k] == c0[k]);
            } else {
                assert(c == c0.push((waits.len() - 1) as usize));
                assert(c[c.len() - 1] == i);
            }
        }
        assert forall|k: int| #![trigger c[k]]
            0 <= k < c.len() implies c[k] < waits.len() && waits[c[k] as int].virtio is Some
                && waits[c[k] as int].virtio->0.has_imported_fence by {
            if k < c0.len() {
                assert(c[k] == c0[k]);
                assert(waits.drop_last()[c0[k] as int] == waits[c0[k] as int]);
            }
        }
    } else if signals.len() > 0 {
        lemma_waits_split_between_host_and_cpu(waits, signals.drop_last());
        let prev = signals.drop_last().filter(|s: VirtioSubmitSync| s.virtio is Some);
        let f = signals.filter(|s: VirtioSubmitSync| s.virtio is Some);
        let m = |s: VirtioSubmitSync| (s.virtio->0.host_object_id, s.point);
        if signals.last().virtio is Some {
            assert(f == prev.push(signals.last()));
            assert(f.map_values(m) =~= prev.map_values(m).push(m(signals.last())));
        } else {
            assert(f == prev);
        }
    } else {
        assert(host_waits(waits) =~= waits.filter(|w: VirtioSubmitSync| w.virtio is Some && !w.virtio->0.has_imported_fence)
            .map_values(|w: VirtioSubmitSync| (w.virtio->0.host_object_id, w.point)));
        assert(host_signals(signals) =~= signals.filter(|s: VirtioSubmitSync| s.virtio is Some)
            .map_values(|s: VirtioSubmitSync| (s.virtio->0.host_object_id, s.point)));
    }
}

/// Number of entries of `n` that fit the fixed slots of a submission.
pub open spec fn slots_used(n: nat) -> nat {
    if n < 16 {
        n
    } else {
        16
    }
}

/// The host ids of `entries` in the fixed slots, zero past the entries.
pub open spec fn slot_ids(entries: Seq<(u32, u64)>) -> Seq<u32> {
    Seq::new(16, |i: int| if i < entries.len() { entries[i].0 } else { 0u32 })
}

/// The points of `entries` in the fixed slots, zero past the entries.
pub open spec fn slot_points(entries: Seq<(u32, u64)>) -> Seq<u64> {
    Seq::new(16, |i: int| if i < entries.len() { entries[i].1 } else { 0u64 })
}

proof fn lemma_host_waits_len(waits: Seq<VirtioSubmitSync>)
    ensures
        host_waits(waits).len() <= waits.len(),
        cpu_waits(waits).len() <= waits.len(),
        forall|k: int| 0 <= k < cpu_waits(waits).len() ==> cpu_waits(waits)[k] < waits.len(),
    decreases waits.len(),
{
    if waits.len() > 0 {
        lemma_host_waits_len(waits.drop_last());
    }
}

/// The sync information that the host gets for a submission that waits on
/// `waits` and signals `signals`, and the positions among `waits` of the
/// objects that the guest waits on itself: the host entries go into the
/// fixed slots in order, as many as fit.
pub fn wire_sync_info(waits: &[VirtioSubmitSync], signals: &[VirtioSubmitSync]) -> (r: (MagmaWireSubmitSyncInfo, Vec<usize>))
    ensures
        r.0.header == (MagmaStructureTypeHeader {
            stype: MAGMA_STRUCTURE_TYPE_SUBMIT_SYNC_INFO,
            size: MagmaWireSubmitSyncInfo::wire_size() as u32,
            p_next: 0,
        }),
        r.0.num_wait_sync_objs == slots_used(host_waits(waits@).len()),
        r.0.wait_sync_objs@ == slot_ids(host_waits(waits@).take(slots_used(host_waits(waits@).len()) as int)),
        r.0.wait_points@ == slot_points(host_waits(waits@).take(slots_used(host_waits(waits@).len()) as int)),
        r.0.num_signal_sync_objs == slots_used(host_signals(signals@).len()),
        r.0.signal_sync_objs@ == slot_ids(host_signals(signals@).take(slots_used(host_signals(signals@).len()) as int)),
        r.0.signal_points@ == slot_points(host_signals(signals@).take(slots_used(host_signals(signals@).len()) as int)),
        r.1@ == cpu_waits(waits@),
{
    let mut wait_ids: [u32; 16] = [0u32; 16];
    let mut wait_points: [u64; 16] = [0u64; 16];
    let mut num_waits: usize = 0;
    let mut cpu: Vec<usize> = Vec::new();
    let mut i: usize = 0;
    assert(wait_ids@ =~= slot_ids(Seq::<(u32, u64)>::empty()));
    assert(wait_points@ =~= slot_points(Seq::<(u32, u64)>::empty()));
    while i < waits.len()
        invariant
            i <= waits@.len(),
            num_waits == slots_used(host_waits(waits@.take(i as int)).len()),
            wait_ids@ == slot_ids(host_waits(waits@.take(i as int)).take(num_waits as int)),
            wait_points@ == slot_points(host_waits(waits@.take(i as int)).take(num_waits as int)),
            cpu@ == cpu_waits(waits@.take(i as int)),
        decreases waits.len() - i,
    {
        let w = waits[i];
        let ghost prefix = waits@.take(i as int);
        assert(waits@.take(i as int + 1).drop_last() =~= prefix);
        assert(waits@.take(i as int + 1).last() == w);
        proof {
            lemma_host_waits_len(prefix);
        }
        match w.virtio {
            Some(v) => {
                if v.has_imported_fence {
                    cpu.push(i);
                } else if num_waits < 16 {
                    let ghost old_ids = wait_ids@;
                    let ghost old_points = wait_points@;
                    wait_ids[num_waits] = v.host_object_id;
                    wait_points[num_waits] = w.point;
                    num_waits = num_waits + 1;
                    proof {
                        let hw = host_waits(waits@.take(i as int + 1));
                        assert(hw == host_waits(prefix).push((v.host_object_id, w.point)));
                        assert(wait_ids@ =~= slot_ids(hw.take(num_waits as int)));
                        assert(wait_points@ =~= slot_points(hw.take(num_waits as int)));
                    }
                } else {
                    proof {
                        let hw = host_waits(waits@.take(i as int + 1));
                        assert(hw.take(16) =~= host_waits(prefix).take(16));
                    }
                }
            },
            None => {},
        }
        i = i + 1;
    }
    assert(waits@.take(i as int) =~= waits@);

    let mut signal_ids: [u32; 16] = [0u32; 16];
    let mut signal_points: [u64; 16] = [0u64; 16];
    let mut num_signals: usize = 0;
    let mut j: usize = 0;
    assert(signal_ids@ =~= slot_ids(Seq::<(u32, u64)>::empty()));
    assert(signal_points@ =~= slot_points(Seq::<(u32, u64)>::empty()));
    while j < signals.len()
        invariant
            j <= signals@.len(),
            num_signals == slots_used(host_signals(signals@.take(j as int)).len()),
            signal_ids@ == slot_ids(host_signals(signals@.take(j as int)).take(num_signals as int)),
            signal_points@ == slot_points(host_signals(signals@.take(j as int)).take(num_signals as int)),
        decreases signals.len() - j,
    {
        let s = signals[j];
        let ghost prefix = signals@.take(j as int);
        assert(signals@.take(j as int + 1).drop_last() =~= prefix);
        assert(signals@.take(j as int + 1).last() == s);
        match s.virtio {
            Some(v) => {
                if num_signals < 16 {
                    signal_ids[num_signals] = v.host_object_id;
                    signal_points[num_signals] = s.point;
                    num_signals = num_signals + 1;
                    proof {
                        let hs = host_signals(signals@.take(j as int + 1));
                        assert(hs == host_signals(prefix).push((v.host_object_id, s.point)));
                        assert(signal_ids@ =~= slot_ids(hs.take(num_signals as int)));
                        assert(signal_points@ =~= slot_points(hs.take(num_signals as int)));
                    }
                } else {
                    proof {
                        let hs = host_signals(signals@.take(j as int + 1));
                        assert(hs.take(16) =~= host_signals(prefix).take(16));
                    }
                }
            },
            None => {},
        }
        j = j + 1;
    }
    assert(signals@.take(j as int) =~= signals@);
    let info = MagmaWireSubmitSyncInfo {
        header: MagmaStructureTypeHeader { stype: MAGMA_STRUCTURE_TYPE_SUBMIT_SYNC_INFO, size: 408, p_next: 0 },
        num_wait_sync_objs: num_waits as u32,
        num_signal_sync_objs: num_signals as u32,
        wait_sync_objs: wait_ids,
        signal_sync_objs: signal_ids,
        wait_points,
        signal_points,
    };
    (info, cpu)
}

/// Room for a submission command and its larger extension, a command-buffer
/// extension.
pub const MAX_SUBMIT_SIZE: usize = 488;

/// The extension chain of a submission: its address-space extension,
/// unlinked; else its command-buffer extension in wire form; else nothing.
pub open spec fn submit_chain(as_info: Option<MagmaSubmitAddressSpaceInfo>, buf_info: Option<MagmaSubmitBufferInfo>) -> Seq<MagmaExtensibleStruct> {
    match as_info {
        Some(a) => seq![
            MagmaExtensibleStruct::SubmitAddressSpaceInfo(
                MagmaSubmitAddressSpaceInfo { header: MagmaStructureTypeHeader { p_next: 0, ..a.header }, ..a },
            ),
        ],
        None => match buf_info {
            Some(b) => seq![
                MagmaExtensibleStruct::WireSubmitBufferInfo(
                    MagmaWireSubmitBufferInfo {
                        header: MagmaStructureTypeHeader {
                            stype: MAGMA_STRUCTURE_TYPE_SUBMIT_BUFFER_INFO,
                            size: MagmaWireSubmitBufferInfo::wire_size() as u32,
                            p_next: 0,
                        },
                        command_buffer: b.command_buffer,
                        _pad0: 0,
                        start_offset: b.start_offset,
                        length: b.length,
                    },
                ),
            ],
            None => Seq::empty(),
        },
    }
}

/// The command that submits to queue `queue`, after the device's own
/// commands up to `wait_seqno`, with `flags` and `sync_info`, linked to the
/// extension chain (returned beside it) when the submission has an
/// address-space or command-buffer extension.
pub fn submit_command_msg(
    queue: u32,
    wait_seqno: u32,
    flags: u32,
    sync_info: MagmaWireSubmitSyncInfo,
    as_info: Option<MagmaSubmitAddressSpaceInfo>,
    buf_info: Option<MagmaSubmitBufferInfo>,
) -> (r: (SubmitCommand, Vec<MagmaExtensibleStruct>))
    ensures
        r.0 == (SubmitCommand {
            header: MagmaCommandHeader { opcode: MAGMA_OPCODE_SUBMIT_COMMAND, size: SubmitCommand::wire_size() as u32 },
            queue,
            _pad0: wait_seqno,
            submit_info: MagmaWireSubmitInfo {
                header: MagmaStructureTypeHeader {
                    stype: MAGMA_STRUCTURE_TYPE_SUBMIT_INFO,
                    size: MagmaWireSubmitInfo::wire_size() as u32,
                    p_next: if as_info is Some || buf_info is Some {
                        1
                    } else {
                        0
                    },
                },
                flags,
                _pad0: 0,
                sync_info,
            },
        }),
        r.1@ == submit_chain(as_info, buf_info),
{
    let mut chain: Vec<MagmaExtensibleStruct> = Vec::new();
    let mut p_next: u64 = 0;
    if let Some(a) = as_info {
        let mut wire_as_info = a;
        wire_as_info.header.p_next = 0;
        chain.push(MagmaExtensibleStruct::SubmitAddressSpaceInfo(wire_as_info));
        p_next = 1;
    } else if let Some(b) = buf_info {
        chain.push(
            MagmaExtensibleStruct::WireSubmitBufferInfo(
                MagmaWireSubmitBufferInfo {
                    header: MagmaStructureTypeHeader { stype: MAGMA_STRUCTURE_TYPE_SUBMIT_BUFFER_INFO, size: 40, p_next: 0 },
                    command_buffer: b.command_buffer,
                    _pad0: 0,
                    start_offset: b.start_offset,
                    length: b.length,
                },
            ),
        );
        p_next = 1;
    }
    assert(chain@ =~= submit_chain(as_info, buf_info));
    let cmd = SubmitCommand {
        header: MagmaCommandHeader { opcode: MAGMA_OPCODE_SUBMIT_COMMAND, size: 448 },
        queue,
        _pad0: wait_seqno,
        submit_info: MagmaWireSubmitInfo {
            header: MagmaStructureTypeHeader { stype: MAGMA_STRUCTURE_TYPE_SUBMIT_INFO, size: 432, p_next },
            flags,
            _pad0: 0,
            sync_info,
        },
    };
    (cmd, chain)
}

/// An encoder state over a fresh fixed buffer of `n` zero bytes.
pub open spec fn fresh_fixed(n: nat) -> EncoderView {
    EncoderView { buf: Seq::new(n, |i: int| 0u8), fixed: true, pos: 0, bytes_written: 0 }
}

/// The encoder state and result after encoding `cmd` with `chain` into a
/// fresh buffer of `MAX_SUBMIT_SIZE` bytes.
pub open spec fn submit_encoding(cmd: SubmitCommand, chain: Seq<MagmaExtensibleStruct>) -> (EncoderView, Result<(), EncodeError>) {
    fresh_fixed(MAX_SUBMIT_SIZE as nat).write_rooted(
        flagged_bytes_submit_command(cmd),
        cmd.submit_info.header.p_next,
        chain,
    )
}

/// The wire bytes of a submission `cmd` with its chain, encoded into a
/// buffer of `MAX_SUBMIT_SIZE` bytes: what the encoder wrote, or the error
/// that stopped it.
pub fn encode_submit(cmd: &SubmitCommand, chain: &[MagmaExtensibleStruct]) -> (r: Result<Vec<u8>, Error>)
    ensures
        match submit_encoding(*cmd, chain@).1 {
            Ok(()) => r is Ok && r->Ok_0@ == submit_encoding(*cmd, chain@).0.buf.take(
                submit_encoding(*cmd, chain@).0.bytes_written as int,
            ),
            Err(e) => r == Err::<Vec<u8>, Error>(crate::error::encode_error(e)),
        },
{
    let mut encoder = Encoder::from_slice(zeroed(MAX_SUBMIT_SIZE));
    proof {
        assert(encoder@ == fresh_fixed(MAX_SUBMIT_SIZE as nat));
    }
    let r = encoder.encode_submit_command(cmd, chain);
    match r {
        Err(e) => {
            return Err(Error::from(e));
        },
        Ok(()) => {},
    }
    let written = encoder.bytes_written();
    let mut v = encoder.into_inner();
    v.truncate(written);
    Ok(v)
}

/// A submission whose commands are at a GPU address encodes, whole, as the
/// command followed by its unlinked address-space extension.
pub proof fn lemma_submit_with_address_space(cmd: SubmitCommand, a: MagmaSubmitAddressSpaceInfo)
    requires
        cmd.submit_info.header.p_next != 0,
        a.header.stype == MAGMA_STRUCTURE_TYPE_SUBMIT_ADDRESS_SPACE_INFO,
        a.header.p_next == 0,
    ensures
        submit_encoding(cmd, seq![MagmaExtensibleStruct::SubmitAddressSpaceInfo(a)]).1 is Ok,
        submit_encoding(cmd, seq![MagmaExtensibleStruct::SubmitAddressSpaceInfo(a)]).0.buf.take(
            submit_encoding(cmd, seq![MagmaExtensibleStruct::SubmitAddressSpaceInfo(a)]).0.bytes_written as int,
        ) == flagged_bytes_submit_command(cmd) + a.spec_bytes(),
{
    let chain = seq![MagmaExtensibleStruct::SubmitAddressSpaceInfo(a)];
    let root = flagged_bytes_submit_command(cmd);
    let flagged = SubmitCommand {
        submit_info: MagmaWireSubmitInfo {
            header: MagmaStructureTypeHeader { p_next: link_flag(cmd.submit_info.header.p_next), ..cmd.submit_info.header },
            ..cmd.submit_info
        },
        ..cmd
    };
    flagged.lemma_bytes_len();
    a.lemma_bytes_len();
    let e0 = fresh_fixed(MAX_SUBMIT_SIZE as nat);
    let e1 = e0.write(root).0;
    assert(e0.write(root).1 is Ok);
    lemma_write_chain_step(e1, cmd.submit_info.header.p_next, chain);
    assert(chain[0].spec_with_next(link_flag(0)) == chain[0]);
    let b0 = chain[0].spec_bytes();
    assert(b0 == a.spec_bytes());
    let e2 = e1.write(b0).0;
    assert(e1.write(b0).1 is Ok);
    lemma_write_chain_end(e2, 0, chain.drop_first());
    assert(e1.buf.take(e1.bytes_written as int) =~= root);
    assert(e2.buf.take(e2.bytes_written as int) =~= root + a.spec_bytes());
}

/// A submission whose commands are in a command buffer encodes, whole, as
/// the command followed by its unlinked command-buffer extension.
pub proof fn lemma_submit_with_buffer(cmd: SubmitCommand, b: MagmaWireSubmitBufferInfo)
    requires
        cmd.submit_info.header.p_next != 0,
        b.header.stype == MAGMA_STRUCTURE_TYPE_SUBMIT_BUFFER_INFO,
        b.header.p_next == 0,
    ensures
        submit_encoding(cmd, seq![MagmaExtensibleStruct::WireSubmitBufferInfo(b)]).1 is Ok,
        submit_encoding(cmd, seq![MagmaExtensibleStruct::WireSubmitBufferInfo(b)]).0.buf.take(
            submit_encoding(cmd, seq![MagmaExtensibleStruct::WireSubmitBufferInfo(b)]).0.bytes_written as int,
        ) == flagged_bytes_submit_command(cmd) + b.spec_bytes(),
{
    let chain = seq![MagmaExtensibleStruct::WireSubmitBufferInfo(b)];
    let root = flagged_bytes_submit_command(cmd);
    let flagged = SubmitCommand {
        submit_info: MagmaWireSubmitInfo {
            header: MagmaStructureTypeHeader { p_next: link_flag(cmd.submit_info.header.p_next), ..cmd.submit_info.header },
            ..cmd.submit_info
        },
        ..cmd
    };
    flagged.lemma_bytes_len();
    b.lemma_bytes_len();
    let e0 = fresh_fixed(MAX_SUBMIT_SIZE as nat);
    let e1 = e0.write(root).0;
    assert(e0.write(root).1 is Ok);
    lemma_write_chain_step(e1, cmd.submit_info.header.p_next, chain);
    assert(chain[0].spec_with_next(link_flag(0)) == chain[0]);
    let b0 = chain[0].spec_bytes();
    assert(b0 == b.spec_bytes());
    let e2 = e1.write(b0).0;
    assert(e1.write(b0).1 is Ok);
    lemma_write_chain_end(e2, 0, chain.drop_first());
    assert(e1.buf.take(e1.bytes_written as int) =~= root);
    assert(e2.buf.take(e2.bytes_written as int) =~= root + b.spec_bytes());
}

/// What a submission records on each sync object once the ring holds it:
/// a wait on every virtio object without an imported fence, a signal at its
/// point on every virtio object signaled; nothing on the others.
pub fn submission_ops(waits: &[VirtioSubmitSync], signals: &[VirtioSubmitSync], ring_idx: u32, seqno: u32) -> (r: (
    Vec<Option<VirtioSyncOp>>,
    Vec<Option<VirtioSyncOp>>,
))
    ensures
        r.0@.len() == waits@.len(),
        forall|i: int|
            0 <= i < waits@.len() ==> #[trigger] r.0@[i] == (match waits@[i].virtio {
                Some(v) => if !v.has_imported_fence {
                    Some(VirtioSyncOp::Wait { ring_idx, seqno })
                } else {
                    None
                },
                None => None,
            }),
        r.1@.len() == signals@.len(),
        forall|i: int|
            0 <= i < signals@.len() ==> #[trigger] r.1@[i] == (match signals@[i].virtio {
                Some(v) => Some(VirtioSyncOp::Signal { ring_idx, seqno, point: signals@[i].point }),
                None => None,
            }),
        (r.0@, r.1@) == submission_ops_of(waits@, signals@, ring_idx, seqno),
{
    let mut wait_ops: Vec<Option<VirtioSyncOp>> = Vec::new();
    let mut i: usize = 0;
    while i < waits.len()
        invariant
            i <= waits@.len(),
            wait_ops@.len() == i,
            forall|k: int|
                0 <= k < i ==> #[trigger] wait_ops@[k] == (match waits@[k].virtio {
                    Some(v) => if !v.has_imported_fence {
                        Some(VirtioSyncOp::Wait { ring_idx, seqno })
                    } else {
                        None
                    },
                    None => None,
                }),
        decreases waits.len() - i,
    {
        let op = match waits[i].virtio {
            Some(v) => if !v.has_imported_fence {
                Some(VirtioSyncOp::Wait { ring_idx, seqno })
            } else {
                None
            },
            None => None,
        };
        wait_ops.push(op);
        i = i + 1;
    }
    let mut signal_ops: Vec<Option<VirtioSyncOp>> = Vec::new();
    let mut j: usize = 0;
    while j < signals.len()
        invariant
            j <= signals@.len(),
            signal_ops@.len() == j,
            forall|k: int|
                0 <= k < j ==> #[trigger] signal_ops@[k] == (match signals@[k].virtio {
                    Some(v) => Some(VirtioSyncOp::Signal { ring_idx, seqno, point: signals@[k].point }),
                    None => None,
                }),
        decreases signals.len() - j,
    {
        let op = match signals[j].virtio {
            Some(v) => Some(VirtioSyncOp::Signal { ring_idx, seqno, point: signals[j].point }),
            None => None,
        };
        signal_ops.push(op);
        j = j + 1;
    }
    proof {
        let (ew, es) = submission_ops_of(waits@, signals@, ring_idx, seqno);
        assert(wait_ops@ =~= ew);
        assert(signal_ops@ =~= es);
    }
    (wait_ops, signal_ops)
}

/// What a submission records on the sync object it waits on: a wait on a
/// virtio object without an imported fence, else nothing.
pub open spec fn wait_op(w: VirtioSubmitSync, ring_idx: u32, seqno: u32) -> Option<VirtioSyncOp> {
    match w.virtio {
        Some(v) => if !v.has_imported_fence {
            Some(VirtioSyncOp::Wait { ring_idx, seqno })
        } else {
            None
        },
        None => None,
    }
}

/// What a submission records on the sync object it signals: a signal at
/// its point on a virtio object, else nothing.
pub open spec fn signal_op(s: VirtioSubmitSync, ring_idx: u32, seqno: u32) -> Option<VirtioSyncOp> {
    match s.virtio {
        Some(v) => Some(VirtioSyncOp::Signal { ring_idx, seqno, point: s.point }),
        None => None,
    }
}

/// What a submission records on each of its waits and signals.
pub open spec fn submission_ops_of(waits: Seq<VirtioSubmitSync>, signals: Seq<VirtioSubmitSync>, ring_idx: u32, seqno: u32) -> (
    Seq<Option<VirtioSyncOp>>,
    Seq<Option<VirtioSyncOp>>,
) {
    (waits.map_values(|w: VirtioSubmitSync| wait_op(w, ring_idx, seqno)), signals.map_values(|x: VirtioSubmitSync| signal_op(x, ring_idx, seqno)))
}

/// Whether `info` is the sync information that the host gets for a
/// submission that waits on `waits` and signals `signals`.
pub open spec fn is_wire_sync_info(info: MagmaWireSubmitSyncInfo, waits: Seq<VirtioSubmitSync>, signals: Seq<VirtioSubmitSync>) -> bool {
    &&& info.header == (MagmaStructureTypeHeader {
        stype: MAGMA_STRUCTURE_TYPE_SUBMIT_SYNC_INFO,
        size: MagmaWireSubmitSyncInfo::wire_size() as u32,
        p_next: 0,
    })
    &&& info.num_wait_sync_objs == slots_used(host_waits(waits).len())
    &&& info.wait_sync_objs@ == slot_ids(host_waits(waits).take(slots_used(host_waits(waits).len()) as int))
    &&& info.wait_points@ == slot_points(host_waits(waits).take(slots_used(host_waits(waits).len()) as int))
    &&& info.num_signal_sync_objs == slots_used(host_signals(signals).len())
    &&& info.signal_sync_objs@ == slot_ids(host_signals(signals).take(slots_used(host_signals(signals).len()) as int))
    &&& info.signal_points@ == slot_points(host_signals(signals).take(slots_used(host_signals(signals).len()) as int))
}

/// The submission command for queue `queue`, which waits for CPU commands
/// up to `wait_seqno`, with `flags` and sync information `sync_info`,
/// linked to an extension when the commands are at a GPU address or in a
/// command buffer.
pub open spec fn submit_command_of(
    queue: u32,
    wait_seqno: u32,
    flags: u32,
    sync_info: MagmaWireSubmitSyncInfo,
    as_info: Option<MagmaSubmitAddressSpaceInfo>,
    buf_info: Option<MagmaSubmitBufferInfo>,
) -> SubmitCommand {
    SubmitCommand {
        header: MagmaCommandHeader { opcode: MAGMA_OPCODE_SUBMIT_COMMAND, size: SubmitCommand::wire_size() as u32 },
        queue,
        _pad0: wait_seqno,
        submit_info: MagmaWireSubmitInfo {
            header: MagmaStructureTypeHeader {
                stype: MAGMA_STRUCTURE_TYPE_SUBMIT_INFO,
                size: MagmaWireSubmitInfo::wire_size() as u32,
                p_next: if as_info is Some || buf_info is Some {
                    1
                } else {
                    0
                },
            },
            flags,
            _pad0: 0,
            sync_info,
        },
    }
}

/// The sequence number after `s`, wrapping round.
pub open spec fn next_seqno(s: u32) -> u32 {
    if s == u32::MAX {
        0
    } else {
        (s + 1) as u32
    }
}

/// Submits to the ring of queue `queue` (ring `ring_idx`): builds the
/// submission command, which waits for the CPU commands submitted so far,
/// encodes it, writes it to `ring` and pings the host unless it is active.
/// When that worked, returns what to record on each sync object, at the new
/// sequence number. Waits on imported fences, which the guest performs
/// itself, are left to the caller (`wire_sync_info` names them).
pub fn ring_submit<F: FnOnce() -> Result<(), Error>>(
    ring: &mut MagmaRingBuffer,
    queue: u32,
    ring_idx: u32,
    flags: u32,
    waits: &[VirtioSubmitSync],
    signals: &[VirtioSubmitSync],
    as_info: Option<MagmaSubmitAddressSpaceInfo>,
    buf_info: Option<MagmaSubmitBufferInfo>,
    ping: F,
) -> (r: Result<(Vec<Option<VirtioSyncOp>>, Vec<Option<VirtioSyncOp>>), Error>)
    requires
        old(ring).wf(),
        call_requires(ping, ()),
    ensures
        final(ring).wf(),
        exists|info: MagmaWireSubmitSyncInfo|
            #![trigger is_wire_sync_info(info, waits@, signals@)]
            {
                let cmd = submit_command_of(queue, old(ring).spec_control().submitted_seqno, flags, info, as_info, buf_info);
                let enc = submit_encoding(cmd, submit_chain(as_info, buf_info));
                let bytes = enc.0.buf.take(enc.0.bytes_written as int);
                let seqno = next_seqno(old(ring).spec_control().submitted_seqno);
                &&& is_wire_sync_info(info, waits@, signals@)
                &&& enc.1 is Err ==> r == Err::<(Vec<Option<VirtioSyncOp>>, Vec<Option<VirtioSyncOp>>), Error>(
                    crate::error::encode_error(enc.1->Err_0),
                ) && final(ring).spec_data() == old(ring).spec_data() && final(ring).spec_control() == old(ring).spec_control()
                &&& enc.1 is Ok && old(ring).write_result(bytes) is Err ==> r == Err::<
                    (Vec<Option<VirtioSyncOp>>, Vec<Option<VirtioSyncOp>>),
                    Error,
                >(old(ring).write_result(bytes)->Err_0) && final(ring).spec_data() == old(ring).spec_data()
                    && final(ring).spec_control() == old(ring).spec_control()
                &&& enc.1 is Ok && old(ring).write_result(bytes) is Ok ==> {
                    &&& final(ring).contents() == old(ring).contents() + bytes
                    &&& final(ring).spec_data() == old(ring).data_after_write(bytes)
                    &&& final(ring).spec_control() == (MagmaRingControl {
                        write_offset: old(ring).write_offset_after_write(bytes),
                        submitted_seqno: seqno,
                        ..old(ring).spec_control()
                    })
                    &&& old(ring).spec_control().status == RING_STATUS_ACTIVE ==> r is Ok && (r->Ok_0.0@, r->Ok_0.1@)
                        == submission_ops_of(waits@, signals@, ring_idx, seqno)
                    &&& old(ring).spec_control().status != RING_STATUS_ACTIVE ==> exists|pr: Result<(), Error>|
                        #![trigger call_ensures(ping, (), pr)]
                        {
                            &&& call_ensures(ping, (), pr)
                            &&& pr is Err ==> r == Err::<(Vec<Option<VirtioSyncOp>>, Vec<Option<VirtioSyncOp>>), Error>(
                                pr->Err_0,
                            )
                            &&& pr is Ok ==> r is Ok && (r->Ok_0.0@, r->Ok_0.1@) == submission_ops_of(
                                waits@,
                                signals@,
                                ring_idx,
                                seqno,
                            )
                        }
                }
            },
{
    let wait_seqno = ring.submitted_seqno();
    let (sync_info, _cpu) = wire_sync_info(waits, signals);
    let (cmd, chain) = submit_command_msg(queue, wait_seqno, flags, sync_info, as_info, buf_info);
    assert(cmd == submit_command_of(queue, wait_seqno, flags, sync_info, as_info, buf_info));
    assert(is_wire_sync_info(sync_info, waits@, signals@));
    let bytes = match encode_submit(&cmd, chain.as_slice()) {
        Ok(b) => b,
        Err(e) => {
            return Err(e);
        },
    };
    let pr = ring.write_and_ping(bytes.as_slice(), ping);
    match pr {
        Err(e) => {
            return Err(e);
        },
        Ok(()) => {},
    }
    let seqno = ring.submitted_seqno();
    Ok(submission_ops(waits, signals, ring_idx, seqno))
}

/// The capability set of the magma protocol on a kumquat host.
pub const VIRTGPU_KUMQUAT_CAPSET_MAGMA: u32 = 7;

/// Whether a host with `features` can carry the protocol: it offers blob
/// resources, context initialization and the magma capability set.
pub open spec fn host_usable(features: Seq<u64>) -> bool {
    &&& features[VirtGpuFeature::ResourceBlob.spec_index()] != 0
    &&& features[VirtGpuFeature::ContextInit.spec_index()] != 0
    &&& features[VirtGpuFeature::SupportedCapsetIds.spec_index()] & (1u64 << VIRTGPU_KUMQUAT_CAPSET_MAGMA) != 0
}

/// `Unimplemented` unless a host with `features` can carry the protocol.
pub fn check_host_features(features: &VirtGpuFeatures) -> (r: Result<(), Error>)
    ensures
        host_usable(features@) ==> r == Ok::<(), Error>(()),
        !host_usable(features@) ==> r == Err::<(), Error>(Error::Unimplemented),
{
    if !features.support(VirtGpuFeature::ResourceBlob) || !features.support(VirtGpuFeature::ContextInit)
        || !features.support_capset(VIRTGPU_KUMQUAT_CAPSET_MAGMA) {
        return Err(Error::Unimplemented);
    }
    Ok(())
}

/// Execution flag of a kumquat host: the command goes to a given ring;
/// `VIRTGPU_KUMQUAT_EXECBUF_RING_IDX` of magma-gpu.
#[verifier::external_body]
fn execbuf_ring_idx() -> (v: u32)
    ensures
        v == 0x04,
{
    magma_gpu::virtgpu_kumquat::defines::VIRTGPU_KUMQUAT_EXECBUF_RING_IDX
}

/// Execution flag of a kumquat host: the submission's fences are
/// shareable; `VIRTGPU_KUMQUAT_EXECBUF_SHAREABLE_OUT` of magma-gpu.
#[verifier::external_body]
fn execbuf_shareable_out() -> (v: u32)
    ensures
        v == 0x10,
{
    magma_gpu::virtgpu_kumquat::defines::VIRTGPU_KUMQUAT_EXECBUF_SHAREABLE_OUT
}

/// The execution flags of a command for a kumquat host: to a given ring,
/// with shareable fences when it carries sync objects.
pub fn kumquat_exec_flags(num_syncobjs: usize) -> (r: u32)
    ensures
        num_syncobjs == 0 ==> r == 0x04u32,
        num_syncobjs != 0 ==> r == 0x04u32 | 0x10u32,
{
    let mut flags = execbuf_ring_idx();
    if num_syncobjs != 0 {
        flags = flags | execbuf_shareable_out();
    }
    flags
}

/// Handle type of a sync file.
pub const MAGMA_HANDLE_TYPE_SIGNAL_SYNC_FD: u32 = 32;
/// Handle type of an event file.
pub const MAGMA_HANDLE_TYPE_SIGNAL_EVENT_FD: u32 = 80;

/// `InvalidArgs` unless a handle of type `handle_type` can be imported
/// into a sync object: a sync file or an event file.
pub fn check_import_handle_type(handle_type: u32) -> (r: Result<(), Error>)
    ensures
        handle_type == MAGMA_HANDLE_TYPE_SIGNAL_SYNC_FD || handle_type == MAGMA_HANDLE_TYPE_SIGNAL_EVENT_FD
            ==> r == Ok::<(), Error>(()),
        handle_type != MAGMA_HANDLE_TYPE_SIGNAL_SYNC_FD && handle_type != MAGMA_HANDLE_TYPE_SIGNAL_EVENT_FD
            ==> r == Err::<(), Error>(Error::InvalidArgs),
{
    if handle_type != MAGMA_HANDLE_TYPE_SIGNAL_SYNC_FD && handle_type != MAGMA_HANDLE_TYPE_SIGNAL_EVENT_FD {
        return Err(Error::InvalidArgs);
    }
    Ok(())
}

/// The command that asks the host to create a guest fence for sync object
/// `guest_sync_id` on ring `ring_idx`; `Unimplemented` for ring 0, where no
/// queue runs.
pub fn create_fence_cmd(ring_idx: u32, guest_sync_id: u32) -> (r: Result<VirtioCreateFence, Error>)
    ensures
        ring_idx == 0 ==> r == Err::<VirtioCreateFence, Error>(Error::Unimplemented),
        ring_idx != 0 ==> r == Ok::<VirtioCreateFence, Error>(
            VirtioCreateFence {
                header: MagmaCommandHeader {
                    opcode: MAGMA_OPCODE_VIRTIO_CREATE_FENCE,
                    size: VirtioCreateFence::wire_size() as u32,
                },
                ring_idx,
                guest_sync_id,
            },
        ),
{
    if ring_idx == 0 {
        return Err(Error::Unimplemented);
    }
    Ok(VirtioCreateFence { header: MagmaCommandHeader { opcode: MAGMA_OPCODE_VIRTIO_CREATE_FENCE, size: 16 }, ring_idx, guest_sync_id })
}

/// The command that signals sync object `sync_obj` from the CPU.
pub fn sync_obj_signal_cmd(sync_obj: u32) -> (r: SyncObjSignal)
    ensures
        r == (SyncObjSignal {
            header: MagmaCommandHeader { opcode: MAGMA_OPCODE_SYNC_OBJ_SIGNAL, size: SyncObjSignal::wire_size() as u32 },
            sync_obj,
            _padding: 0,
        }),
{
    SyncObjSignal { header: MagmaCommandHeader { opcode: MAGMA_OPCODE_SYNC_OBJ_SIGNAL, size: 16 }, sync_obj, _padding: 0 }
}

/// The command that signals timeline `point` of sync object `sync_obj`
/// from the CPU.
pub fn sync_obj_timeline_signal_cmd(sync_obj: u32, point: u64) -> (r: SyncObjTimelineSignal)
    ensures
        r == (SyncObjTimelineSignal {
            header: MagmaCommandHeader {
                opcode: MAGMA_OPCODE_SYNC_OBJ_TIMELINE_SIGNAL,
                size: SyncObjTimelineSignal::wire_size() as u32,
            },
            sync_obj,
            _pad0: 0,
            point,
        }),
{
    SyncObjTimelineSignal {
        header: MagmaCommandHeader { opcode: MAGMA_OPCODE_SYNC_OBJ_TIMELINE_SIGNAL, size: 24 },
        sync_obj,
        _pad0: 0,
        point,
    }
}

/// The command that closes sync object `sync_obj` once ring `ring_idx` has
/// gone past `wait_seqno`.
pub fn virtio_sync_obj_close_cmd(sync_obj: u32, ring_idx: u32, wait_seqno: u32) -> (r: VirtioSyncObjClose)
    ensures
        r == (VirtioSyncObjClose {
            header: MagmaCommandHeader {
                opcode: MAGMA_OPCODE_VIRTIO_SYNC_OBJ_CLOSE,
                size: VirtioSyncObjClose::wire_size() as u32,
            },
            sync_obj,
            ring_idx,
            wait_seqno,
            _padding: 0,
        }),
{
    VirtioSyncObjClose {
        header: MagmaCommandHeader { opcode: MAGMA_OPCODE_VIRTIO_SYNC_OBJ_CLOSE, size: 24 },
        sync_obj,
        ring_idx,
        wait_seqno,
        _padding: 0,
    }
}

/// What a wait on a sync object does once its signal is submitted, in
/// state `state`: nothing more for an object signaled from the CPU
/// (`Ok(false)`); otherwise a wait on its guest sync object (`Ok(true)`),
/// `InvalidArgs` when it has none.
pub fn wait_needs_guest_syncobj(state: SyncObjectState, guest_syncobj_handle: u32) -> (r: Result<bool, Error>)
    ensures
        state == SyncObjectState::CpuSignaled ==> r == Ok::<bool, Error>(false),
        state != SyncObjectState::CpuSignaled && guest_syncobj_handle == 0 ==> r == Err::<bool, Error>(Error::InvalidArgs),
        state != SyncObjectState::CpuSignaled && guest_syncobj_handle != 0 ==> r == Ok::<bool, Error>(true),
{
    if let SyncObjectState::CpuSignaled = state {
        return Ok(false);
    }
    if guest_syncobj_handle == 0 {
        return Err(Error::InvalidArgs);
    }
    Ok(true)
}

} // verus!
