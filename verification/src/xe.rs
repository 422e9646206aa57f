//! Intel Xe devices: graphics version from the PCI id, memory layout from
//! the memory regions that the kernel reports, buffer placement, queue
//! engines and the sync entries of a submission.
use std::sync::Arc;

use vstd::prelude::*;

use crate::amdgpu::objs_with_handles;
use crate::amdgpu::SubmitSyncObj;
use crate::defines::lemma_visibility_bits;
use crate::defines::map_access_rw;
use crate::defines::map_cache_wc;
use crate::defines::spec_map_info;
use crate::defines::types_on_matching_heaps;
use crate::defines::MAGMA_BUFFER_FLAG_SCANOUT;
use crate::defines::MAGMA_HEAP_CPU_VISIBLE_BIT;
use crate::defines::MAGMA_HEAP_DEVICE_LOCAL_BIT;
use crate::defines::MAGMA_MEMORY_PROPERTY_DEVICE_LOCAL_BIT;
use crate::defines::MAGMA_MEMORY_PROPERTY_HOST_CACHED_BIT;
use crate::defines::MAGMA_MEMORY_PROPERTY_HOST_COHERENT_BIT;
use crate::defines::MAGMA_MEMORY_PROPERTY_HOST_VISIBLE_BIT;
use crate::defines::MAGMA_MEMORY_PROPERTY_PROTECTED_BIT;
use crate::error::Error;
use crate::error::PlatformError;
use crate::traits::BackendAddressSpace;
use crate::traits::BackendBuffer;
use crate::traits::GenericAddressSpace;
use crate::traits::BackendPhysicalDevice;
use crate::traits::GemBufferView;
use crate::traits::GenericBuffer;
use crate::wire::usize_from_u64;
use crate::protocol::MagmaCreateBufferInfo;
use crate::protocol::MagmaCreateQueueInfo;
use crate::protocol::MagmaHeap;
use crate::protocol::MagmaHeapBudget;
use crate::protocol::MagmaMemoryType;
use crate::protocol::MagmaQueueFamilyProperties;
use crate::protocol::MagmaQueueFlags;
use crate::protocol::MagmaSubmitAddressSpaceInfo;

verus! {

/// PCI device ids of the GEN12 family.
pub open spec fn spec_gen12_ids() -> Seq<u16> {
    seq![
        0x4c8au16, 0x4c8bu16, 0x4c8cu16, 0x4c90u16, 0x4c9au16, 0x4680u16, 0x4681u16, 0x4682u16, 0x4683u16, 0x4688u16,
        0x4689u16, 0x4690u16, 0x4691u16, 0x4692u16, 0x4693u16, 0x4698u16, 0x4699u16, 0x4626u16, 0x4628u16, 0x462au16,
        0x46a0u16, 0x46a1u16, 0x46a2u16, 0x46a3u16, 0x46a6u16, 0x46a8u16, 0x46aau16, 0x46b0u16, 0x46b1u16, 0x46b2u16,
        0x46b3u16, 0x46c0u16, 0x46c1u16, 0x46c2u16, 0x46c3u16, 0x9A40u16, 0x9A49u16, 0x9A59u16, 0x9A60u16, 0x9A68u16,
        0x9A70u16, 0x9A78u16, 0x9AC0u16, 0x9AC9u16, 0x9AD9u16, 0x9AF8u16, 0x4905u16, 0x4906u16, 0x4907u16, 0x4908u16,
    ]
}

fn gen12_ids() -> (r: [u16; 50])
    ensures
        r@ == spec_gen12_ids(),
{
    let r = [
        0x4c8au16, 0x4c8bu16, 0x4c8cu16, 0x4c90u16, 0x4c9au16, 0x4680u16, 0x4681u16, 0x4682u16, 0x4683u16, 0x4688u16,
        0x4689u16, 0x4690u16, 0x4691u16, 0x4692u16, 0x4693u16, 0x4698u16, 0x4699u16, 0x4626u16, 0x4628u16, 0x462au16,
        0x46a0u16, 0x46a1u16, 0x46a2u16, 0x46a3u16, 0x46a6u16, 0x46a8u16, 0x46aau16, 0x46b0u16, 0x46b1u16, 0x46b2u16,
        0x46b3u16, 0x46c0u16, 0x46c1u16, 0x46c2u16, 0x46c3u16, 0x9A40u16, 0x9A49u16, 0x9A59u16, 0x9A60u16, 0x9A68u16,
        0x9A70u16, 0x9A78u16, 0x9AC0u16, 0x9AC9u16, 0x9AD9u16, 0x9AF8u16, 0x4905u16, 0x4906u16, 0x4907u16, 0x4908u16,
    ];
    assert(r@ =~= spec_gen12_ids());
    r
}

/// PCI device ids of the ADLP family.
pub open spec fn spec_adlp_ids() -> Seq<u16> {
    seq![
        0x46A0u16, 0x46A1u16, 0x46A2u16, 0x46A3u16, 0x46A6u16, 0x46A8u16, 0x46AAu16, 0x462Au16, 0x4626u16, 0x4628u16,
        0x46B0u16, 0x46B1u16, 0x46B2u16, 0x46B3u16, 0x46C0u16, 0x46C1u16, 0x46C2u16, 0x46C3u16, 0x46D0u16, 0x46D1u16,
        0x46D2u16, 0x46D3u16, 0x46D4u16,
    ]
}

fn adlp_ids() -> (r: [u16; 23])
    ensures
        r@ == spec_adlp_ids(),
{
    let r = [
        0x46A0u16, 0x46A1u16, 0x46A2u16, 0x46A3u16, 0x46A6u16, 0x46A8u16, 0x46AAu16, 0x462Au16, 0x4626u16, 0x4628u16,
        0x46B0u16, 0x46B1u16, 0x46B2u16, 0x46B3u16, 0x46C0u16, 0x46C1u16, 0x46C2u16, 0x46C3u16, 0x46D0u16, 0x46D1u16,
        0x46D2u16, 0x46D3u16, 0x46D4u16,
    ];
    assert(r@ =~= spec_adlp_ids());
    r
}

/// PCI device ids of the RPLP family.
pub open spec fn spec_rplp_ids() -> Seq<u16> {
    seq![
        0xA720u16, 0xA721u16, 0xA7A0u16, 0xA7A1u16, 0xA7A8u16, 0xA7A9u16, 0xA7AAu16, 0xA7ABu16, 0xA7ACu16, 0xA7ADu16,
    ]
}

fn rplp_ids() -> (r: [u16; 10])
    ensures
        r@ == spec_rplp_ids(),
{
    let r = [
        0xA720u16, 0xA721u16, 0xA7A0u16, 0xA7A1u16, 0xA7A8u16, 0xA7A9u16, 0xA7AAu16, 0xA7ABu16, 0xA7ACu16, 0xA7ADu16,
    ];
    assert(r@ =~= spec_rplp_ids());
    r
}

/// PCI device ids of the MTL family.
pub open spec fn spec_mtl_ids() -> Seq<u16> {
    seq![
        0x7D40u16, 0x7D60u16, 0x7D45u16, 0x7D55u16, 0x7DD5u16,
    ]
}

fn mtl_ids() -> (r: [u16; 5])
    ensures
        r@ == spec_mtl_ids(),
{
    let r = [
        0x7D40u16, 0x7D60u16, 0x7D45u16, 0x7D55u16, 0x7DD5u16,
    ];
    assert(r@ =~= spec_mtl_ids());
    r
}

/// PCI device ids of the LNL family.
pub open spec fn spec_lnl_ids() -> Seq<u16> {
    seq![
        0x6420u16, 0x64A0u16, 0x64B0u16,
    ]
}

fn lnl_ids() -> (r: [u16; 3])
    ensures
        r@ == spec_lnl_ids(),
{
    let r = [
        0x6420u16, 0x64A0u16, 0x64B0u16,
    ];
    assert(r@ =~= spec_lnl_ids());
    r
}

/// PCI device ids of the PTL family.
pub open spec fn spec_ptl_ids() -> Seq<u16> {
    seq![
        0xB080u16, 0xB081u16, 0xB082u16, 0xB083u16, 0xB08Fu16, 0xB090u16, 0xB0A0u16, 0xB0B0u16,
    ]
}

fn ptl_ids() -> (r: [u16; 8])
    ensures
        r@ == spec_ptl_ids(),
{
    let r = [
        0xB080u16, 0xB081u16, 0xB082u16, 0xB083u16, 0xB08Fu16, 0xB090u16, 0xB0A0u16, 0xB0B0u16,
    ];
    assert(r@ =~= spec_ptl_ids());
    r
}

/// PCI device ids of the DG2 family.
pub open spec fn spec_dg2_ids() -> Seq<u16> {
    seq![
        0x5690u16, 0x5691u16, 0x5692u16, 0x5693u16, 0x5694u16, 0x5695u16, 0x5696u16, 0x5697u16, 0x56a0u16, 0x56a1u16,
        0x56a2u16, 0x56a3u16, 0x56a4u16, 0x56a5u16, 0x56a6u16, 0x56b0u16, 0x56b1u16, 0x56b2u16, 0x56b3u16, 0x56bau16,
        0x56bbu16, 0x56bcu16, 0x56bdu16, 0x56beu16, 0x56bfu16, 0x56c0u16,
    ]
}

fn dg2_ids() -> (r: [u16; 26])
    ensures
        r@ == spec_dg2_ids(),
{
    let r = [
        0x5690u16, 0x5691u16, 0x5692u16, 0x5693u16, 0x5694u16, 0x5695u16, 0x5696u16, 0x5697u16, 0x56a0u16, 0x56a1u16,
        0x56a2u16, 0x56a3u16, 0x56a4u16, 0x56a5u16, 0x56a6u16, 0x56b0u16, 0x56b1u16, 0x56b2u16, 0x56b3u16, 0x56bau16,
        0x56bbu16, 0x56bcu16, 0x56bdu16, 0x56beu16, 0x56bfu16, 0x56c0u16,
    ];
    assert(r@ =~= spec_dg2_ids());
    r
}

/// Whether `id` occurs in `ids`.
fn contains_id(ids: &[u16], id: u16) -> (r: bool)
    ensures
        r == ids@.contains(id),
{
    let mut i: usize = 0;
    while i < ids.len()
        invariant
            i <= ids@.len(),
            forall|j: int| 0 <= j < i ==> ids@[j] != id,
        decreases ids.len() - i,
    {
        if ids[i] == id {
            assert(ids@[i as int] == id);
            return true;
        }
        i = i + 1;
    }
    false
}

/// The graphics version of a device with PCI id `pci_device_id`: 20 for
/// the Lunar Lake and Panther Lake families, 12 for every other id (the
/// Gen12, Alder Lake-P, Raptor Lake-P, Meteor Lake and DG2 families, and
/// ids that no table lists).
pub open spec fn spec_graphics_version(pci_device_id: u16) -> u32 {
    if spec_lnl_ids().contains(pci_device_id) || spec_ptl_ids().contains(pci_device_id) {
        20
    } else {
        12
    }
}

/// Determines the graphics version of the Intel device based on its PCI ID.
pub fn determine_graphics_version(pci_device_id: u16) -> (r: Result<u32, Error>)
    ensures
        r == Ok::<u32, Error>(spec_graphics_version(pci_device_id)),
{
    let mut graphics_version: u32 = 0;
    if contains_id(&adlp_ids(), pci_device_id) || contains_id(&rplp_ids(), pci_device_id)
        || contains_id(&mtl_ids(), pci_device_id) || contains_id(&gen12_ids(), pci_device_id)
        || contains_id(&dg2_ids(), pci_device_id) {
        graphics_version = 12;
    }
    if contains_id(&lnl_ids(), pci_device_id) || contains_id(&ptl_ids(), pci_device_id) {
        graphics_version = 20;
    }
    if graphics_version != 0 {
        Ok(graphics_version)
    } else {
        Ok(12)
    }
}

/// Whether `id` is the PCI id of a Lunar Lake or Panther Lake device.
pub open spec fn is_xe2_id(id: u16) -> bool {
    ||| id == 0x6420
    ||| id == 0x64A0
    ||| id == 0x64B0
    ||| id == 0xB080
    ||| id == 0xB081
    ||| id == 0xB082
    ||| id == 0xB083
    ||| id == 0xB08F
    ||| id == 0xB090
    ||| id == 0xB0A0
    ||| id == 0xB0B0
}

/// Lunar Lake (0x6420, 0x64A0, 0x64B0) and Panther Lake (0xB080 to 0xB083,
/// 0xB08F, 0xB090, 0xB0A0, 0xB0B0) devices are of graphics version 20, and
/// every other device of version 12.
pub proof fn lemma_graphics_version_by_id(id: u16)
    ensures
        is_xe2_id(id) ==> spec_graphics_version(id) == 20,
        !is_xe2_id(id) ==> spec_graphics_version(id) == 12,
{
    let l = spec_lnl_ids();
    let p = spec_ptl_ids();
    assert(l.len() == 3 && l[0] == 0x6420 && l[1] == 0x64A0 && l[2] == 0x64B0);
    assert(p.len() == 8 && p[0] == 0xB080 && p[1] == 0xB081 && p[2] == 0xB082 && p[3] == 0xB083 && p[4] == 0xB08F
        && p[5] == 0xB090 && p[6] == 0xB0A0 && p[7] == 0xB0B0);
    if is_xe2_id(id) {
        if id == 0x6420 {
            assert(l[0] == id);
        } else if id == 0x64A0 {
            assert(l[1] == id);
        } else if id == 0x64B0 {
            assert(l[2] == id);
        } else if id == 0xB080 {
            assert(p[0] == id);
        } else if id == 0xB081 {
            assert(p[1] == id);
        } else if id == 0xB082 {
            assert(p[2] == id);
        } else if id == 0xB083 {
            assert(p[3] == id);
        } else if id == 0xB08F {
            assert(p[4] == id);
        } else if id == 0xB090 {
            assert(p[5] == id);
        } else if id == 0xB0A0 {
            assert(p[6] == id);
        } else {
            assert(p[7] == id);
        }
    } else {
        assert(!l.contains(id));
        assert(!p.contains(id));
    }
}

/// Kernel memory class of system memory.
pub const DRM_XE_MEM_REGION_CLASS_SYSMEM: u16 = 0;
/// Kernel memory class of device memory.
pub const DRM_XE_MEM_REGION_CLASS_VRAM: u16 = 1;

/// Sizes and usage of system memory and of the CPU-visible and invisible
/// parts of device memory, with the kernel instances of both memories.
#[derive(Debug, Clone, Copy, PartialEq, Eq)]
pub struct XeMemoryInfo {
    pub sysmem_size: u64,
    pub vram_size: u64,
    pub sysmem_used: u64,
    pub vram_used: u64,
    pub vram_cpu_visible_size: u64,
    pub vram_cpu_visible_used: u64,
    pub sysmem_instance: u16,
    pub vram_instance: u16,
}

/// The memory information with every field zero.
pub open spec fn xe_info_zero() -> XeMemoryInfo {
    XeMemoryInfo {
        sysmem_size: 0,
        vram_size: 0,
        sysmem_used: 0,
        vram_used: 0,
        vram_cpu_visible_size: 0,
        vram_cpu_visible_used: 0,
        sysmem_instance: 0,
        vram_instance: 0,
    }
}

impl Default for XeMemoryInfo {
    fn default() -> (r: XeMemoryInfo)
        ensures
            r == xe_info_zero(),
    {
        XeMemoryInfo {
            sysmem_size: 0,
            vram_size: 0,
            sysmem_used: 0,
            vram_used: 0,
            vram_cpu_visible_size: 0,
            vram_cpu_visible_used: 0,
            sysmem_instance: 0,
            vram_instance: 0,
        }
    }
}

/// One memory region as the kernel reports it.
#[derive(Debug, Clone, Copy, PartialEq, Eq, Default)]
pub struct XeMemRegion {
    pub mem_class: u16,
    pub instance: u16,
    pub total_size: u64,
    pub used: u64,
    pub cpu_visible_size: u64,
    pub cpu_visible_used: u64,
}

/// A device region reports no CPU-visible part larger than the whole.
pub open spec fn xe_region_consistent(r: XeMemRegion) -> bool {
    r.mem_class == DRM_XE_MEM_REGION_CLASS_VRAM ==> {
        &&& r.cpu_visible_size <= r.total_size
        &&& r.cpu_visible_used <= r.used
    }
}

/// `info` after region `r`: a system region fills the system fields, a
/// device region the device fields, split at its CPU-visible part; a second
/// region of a class is `InternalError`, a region of another class
/// `Unimplemented`.
pub open spec fn xe_apply_region(info: XeMemoryInfo, r: XeMemRegion) -> Result<XeMemoryInfo, Error> {
    if r.mem_class == DRM_XE_MEM_REGION_CLASS_SYSMEM {
        if info.sysmem_size != 0 {
            Err(Error::InternalError)
        } else {
            Ok(XeMemoryInfo { sysmem_size: r.total_size, sysmem_used: r.used, sysmem_instance: r.instance, ..info })
        }
    } else if r.mem_class == DRM_XE_MEM_REGION_CLASS_VRAM {
        if info.vram_size != 0 || info.vram_cpu_visible_size != 0 {
            Err(Error::InternalError)
        } else {
            Ok(XeMemoryInfo {
                vram_cpu_visible_size: r.cpu_visible_size,
                vram_size: (r.total_size - r.cpu_visible_size) as u64,
                vram_cpu_visible_used: r.cpu_visible_used,
                vram_used: (r.used - r.cpu_visible_used) as u64,
                vram_instance: r.instance,
                ..info
            })
        }
    } else {
        Err(Error::Unimplemented)
    }
}

/// The memory information after the first `n` regions, from all zero; the
/// first error stops the walk.
pub open spec fn xe_fold_regions(regions: Seq<XeMemRegion>, n: int) -> Result<XeMemoryInfo, Error>
    decreases n,
{
    if n <= 0 {
        Ok(xe_info_zero())
    } else {
        match xe_fold_regions(regions, n - 1) {
            Ok(info) => xe_apply_region(info, regions[n - 1]),
            Err(e) => Err(e),
        }
    }
}

/// Gathers the sizes of the reported memory regions: at most one system
/// and one device region, of no other class.
pub fn xe_query_memory_regions(regions: &[XeMemRegion]) -> (r: Result<XeMemoryInfo, Error>)
    requires
        forall|i: int|
            0 <= i < regions@.len() && xe_fold_regions(regions@, i) is Ok ==> xe_region_consistent(
                #[trigger] regions@[i],
            ),
    ensures
        r == xe_fold_regions(regions@, regions@.len() as int),
{
    let mut memory_info = XeMemoryInfo::default();
    let mut i: usize = 0;
    while i < regions.len()
        invariant
            i <= regions@.len(),
            xe_fold_regions(regions@, i as int) == Ok::<XeMemoryInfo, Error>(memory_info),
            forall|j: int|
                0 <= j < regions@.len() && xe_fold_regions(regions@, j) is Ok ==> xe_region_consistent(
                    #[trigger] regions@[j],
                ),
        decreases regions.len() - i,
    {
        let region = regions[i];
        assert(xe_region_consistent(regions@[i as int]));
        if region.mem_class == DRM_XE_MEM_REGION_CLASS_SYSMEM {
            if memory_info.sysmem_size != 0 {
                proof {
                    lemma_fold_error_stays(regions@, i as int + 1, regions@.len() as int);
                }
                return Err(Error::InternalError);
            }
            memory_info.sysmem_size = region.total_size;
            memory_info.sysmem_used = region.used;
            memory_info.sysmem_instance = region.instance;
        } else if region.mem_class == DRM_XE_MEM_REGION_CLASS_VRAM {
            if memory_info.vram_size != 0 || memory_info.vram_cpu_visible_size != 0 {
                proof {
                    lemma_fold_error_stays(regions@, i as int + 1, regions@.len() as int);
                }
                return Err(Error::InternalError);
            }
            memory_info.vram_cpu_visible_size = region.cpu_visible_size;
            memory_info.vram_size = region.total_size - region.cpu_visible_size;
            memory_info.vram_cpu_visible_used = region.cpu_visible_used;
            memory_info.vram_used = region.used - region.cpu_visible_used;
            memory_info.vram_instance = region.instance;
        } else {
            proof {
                lemma_fold_error_stays(regions@, i as int + 1, regions@.len() as int);
            }
            return Err(Error::Unimplemented);
        }
        i = i + 1;
    }
    Ok(memory_info)
}

/// Once the walk has failed, further regions keep the same error.
proof fn lemma_fold_error_stays(regions: Seq<XeMemRegion>, m: int, n: int)
    requires
        0 <= m <= n,
        xe_fold_regions(regions, m) is Err,
    ensures
        xe_fold_regions(regions, n) == xe_fold_regions(regions, m),
    decreases n - m,
{
    if m < n {
        lemma_fold_error_stays(regions, m, n - 1);
    }
}

/// The memory types and heaps of a device with memory `info`: one heap
/// and one type per non-empty part, in the order system memory, CPU-visible
/// device memory, invisible device memory, each type on its own heap.
pub open spec fn spec_xe_memory(info: XeMemoryInfo) -> (Seq<MagmaMemoryType>, Seq<MagmaHeap>) {
    let h1: Seq<MagmaHeap> = if info.sysmem_size != 0 {
        seq![MagmaHeap { heap_size: info.sysmem_size, heap_flags: MAGMA_HEAP_CPU_VISIBLE_BIT }]
    } else {
        seq![]
    };
    let t1: Seq<MagmaMemoryType> = if info.sysmem_size != 0 {
        seq![
            MagmaMemoryType {
                property_flags: MAGMA_MEMORY_PROPERTY_DEVICE_LOCAL_BIT | MAGMA_MEMORY_PROPERTY_HOST_COHERENT_BIT
                    | MAGMA_MEMORY_PROPERTY_HOST_CACHED_BIT | MAGMA_MEMORY_PROPERTY_HOST_VISIBLE_BIT,
                heap_idx: 0,
            },
        ]
    } else {
        seq![]
    };
    let h2: Seq<MagmaHeap> = if info.vram_cpu_visible_size != 0 {
        h1.push(
            MagmaHeap {
                heap_size: info.vram_cpu_visible_size,
                heap_flags: MAGMA_HEAP_CPU_VISIBLE_BIT | MAGMA_HEAP_DEVICE_LOCAL_BIT,
            },
        )
    } else {
        h1
    };
    let t2: Seq<MagmaMemoryType> = if info.vram_cpu_visible_size != 0 {
        t1.push(
            MagmaMemoryType {
                property_flags: MAGMA_MEMORY_PROPERTY_DEVICE_LOCAL_BIT | MAGMA_MEMORY_PROPERTY_HOST_COHERENT_BIT
                    | MAGMA_MEMORY_PROPERTY_HOST_VISIBLE_BIT,
                heap_idx: h1.len() as u32,
            },
        )
    } else {
        t1
    };
    let h3: Seq<MagmaHeap> = if info.vram_size != 0 {
        h2.push(MagmaHeap { heap_size: info.vram_size, heap_flags: MAGMA_HEAP_DEVICE_LOCAL_BIT })
    } else {
        h2
    };
    let t3: Seq<MagmaMemoryType> = if info.vram_size != 0 {
        t2.push(MagmaMemoryType { property_flags: MAGMA_MEMORY_PROPERTY_DEVICE_LOCAL_BIT, heap_idx: h2.len() as u32 })
    } else {
        t2
    };
    (t3, h3)
}

proof fn lemma_xe_last_region_prefix(regions: Seq<XeMemRegion>, k: int, n: int)
    requires
        0 <= k < n <= regions.len(),
        xe_fold_regions(regions, n) is Ok,
        forall|j: int| k < j < n ==> #[trigger] regions[j].mem_class != regions[k].mem_class,
    ensures
        xe_fold_regions(regions, k + 1) is Ok,
        regions[k].mem_class == DRM_XE_MEM_REGION_CLASS_SYSMEM ==> {
            let a = xe_fold_regions(regions, n)->Ok_0;
            let b = xe_fold_regions(regions, k + 1)->Ok_0;
            a.sysmem_size == b.sysmem_size && a.sysmem_used == b.sysmem_used && a.sysmem_instance == b.sysmem_instance
        },
        regions[k].mem_class == DRM_XE_MEM_REGION_CLASS_VRAM ==> {
            let a = xe_fold_regions(regions, n)->Ok_0;
            let b = xe_fold_regions(regions, k + 1)->Ok_0;
            &&& a.vram_size == b.vram_size && a.vram_used == b.vram_used && a.vram_instance == b.vram_instance
            &&& a.vram_cpu_visible_size == b.vram_cpu_visible_size && a.vram_cpu_visible_used == b.vram_cpu_visible_used
        },
    decreases n - k,
{
    if n > k + 1 {
        assert(xe_fold_regions(regions, n - 1) is Ok);
        lemma_xe_last_region_prefix(regions, k, n - 1);
        assert(regions[n - 1].mem_class != regions[k].mem_class);
    }
}

/// When the regions are accepted, every region is a system or a device
/// region, and the last region of each class gives that memory: the system
/// region its size, usage and instance; the device region its CPU-visible
/// size and usage, the rest of its size and usage, and its instance.
pub proof fn lemma_xe_regions_give_memory(regions: Seq<XeMemRegion>, k: int)
    requires
        xe_fold_regions(regions, regions.len() as int) is Ok,
        0 <= k < regions.len(),
        xe_region_consistent(regions[k]),
        forall|j: int| k < j < regions.len() ==> #[trigger] regions[j].mem_class != regions[k].mem_class,
    ensures
        regions[k].mem_class == DRM_XE_MEM_REGION_CLASS_SYSMEM || regions[k].mem_class == DRM_XE_MEM_REGION_CLASS_VRAM,
        regions[k].mem_class == DRM_XE_MEM_REGION_CLASS_SYSMEM ==> {
            let info = xe_fold_regions(regions, regions.len() as int)->Ok_0;
            &&& info.sysmem_size == regions[k].total_size
            &&& info.sysmem_used == regions[k].used
            &&& info.sysmem_instance == regions[k].instance
        },
        regions[k].mem_class == DRM_XE_MEM_REGION_CLASS_VRAM ==> {
            let info = xe_fold_regions(regions, regions.len() as int)->Ok_0;
            &&& info.vram_cpu_visible_size == regions[k].cpu_visible_size
            &&& info.vram_cpu_visible_size + info.vram_size == regions[k].total_size
            &&& info.vram_cpu_visible_used == regions[k].cpu_visible_used
            &&& info.vram_cpu_visible_used + info.vram_used == regions[k].used
            &&& info.vram_instance == regions[k].instance
        },
{
    lemma_xe_last_region_prefix(regions, k, regions.len() as int);
}

/// The memory that an Xe device reports is consistent: each memory type
/// lies on one of the heaps, host-visible types exactly on the CPU-visible
/// heaps, and the heaps carry the sizes of system memory, CPU-visible device
/// memory and device memory in that order, leaving out the empty ones.
pub proof fn lemma_xe_types_on_matching_heaps(info: XeMemoryInfo)
    ensures
        types_on_matching_heaps(spec_xe_memory(info).0, spec_xe_memory(info).1),
        spec_xe_memory(info).1.map_values(|h: MagmaHeap| h.heap_size)
            == seq![info.sysmem_size, info.vram_cpu_visible_size, info.vram_size].filter(|x: u64| x != 0),
{
    lemma_visibility_bits();
    let m = spec_xe_memory(info);
    assert(types_on_matching_heaps(m.0, m.1));
    reveal_with_fuel(Seq::filter, 4);
    assert(m.1.map_values(|h: MagmaHeap| h.heap_size)
        =~= seq![info.sysmem_size, info.vram_cpu_visible_size, info.vram_size].filter(|x: u64| x != 0));
}

/// The memory types and heaps of a device with memory `memory_info`.
pub fn xe_query_memory(memory_info: &XeMemoryInfo) -> (r: Result<(Vec<MagmaMemoryType>, Vec<MagmaHeap>), Error>)
    ensures
        r is Ok,
        r->Ok_0.0@ == spec_xe_memory(*memory_info).0,
        r->Ok_0.1@ == spec_xe_memory(*memory_info).1,
{
    let mut heaps: Vec<MagmaHeap> = Vec::new();
    let mut types: Vec<MagmaMemoryType> = Vec::new();
    let mut heap_idx: u32 = 0;
    if memory_info.sysmem_size != 0 {
        heaps.push(MagmaHeap { heap_size: memory_info.sysmem_size, heap_flags: MAGMA_HEAP_CPU_VISIBLE_BIT });
        types.push(
            MagmaMemoryType {
                property_flags: MAGMA_MEMORY_PROPERTY_DEVICE_LOCAL_BIT | MAGMA_MEMORY_PROPERTY_HOST_COHERENT_BIT
                    | MAGMA_MEMORY_PROPERTY_HOST_CACHED_BIT | MAGMA_MEMORY_PROPERTY_HOST_VISIBLE_BIT,
                heap_idx,
            },
        );
        heap_idx += 1;
    }
    if memory_info.vram_cpu_visible_size != 0 {
        heaps.push(
            MagmaHeap {
                heap_size: memory_info.vram_cpu_visible_size,
                heap_flags: MAGMA_HEAP_CPU_VISIBLE_BIT | MAGMA_HEAP_DEVICE_LOCAL_BIT,
            },
        );
        types.push(
            MagmaMemoryType {
                property_flags: MAGMA_MEMORY_PROPERTY_DEVICE_LOCAL_BIT | MAGMA_MEMORY_PROPERTY_HOST_COHERENT_BIT
                    | MAGMA_MEMORY_PROPERTY_HOST_VISIBLE_BIT,
                heap_idx,
            },
        );
        heap_idx += 1;
    }
    if memory_info.vram_size != 0 {
        heaps.push(MagmaHeap { heap_size: memory_info.vram_size, heap_flags: MAGMA_HEAP_DEVICE_LOCAL_BIT });
        types.push(MagmaMemoryType { property_flags: MAGMA_MEMORY_PROPERTY_DEVICE_LOCAL_BIT, heap_idx });
    }
    proof {
        let s = spec_xe_memory(*memory_info);
        assert(types@ =~= s.0);
        assert(heaps@ =~= s.1);
    }
    Ok((types, heaps))
}

/// Budget and usage of `heap`: the CPU-visible part of device memory for a
/// heap both device local and CPU visible, the rest of device memory for a
/// device-local one, system memory for a CPU-visible one; `Unimplemented`
/// for a heap with neither property.
pub open spec fn spec_xe_heap_budget(heap: MagmaHeap, info: XeMemoryInfo) -> Result<MagmaHeapBudget, Error> {
    let dev = heap.heap_flags & MAGMA_HEAP_DEVICE_LOCAL_BIT != 0;
    let cpu = heap.heap_flags & MAGMA_HEAP_CPU_VISIBLE_BIT != 0;
    if dev && cpu {
        Ok(MagmaHeapBudget { budget: info.vram_cpu_visible_size, usage: info.vram_cpu_visible_used })
    } else if dev {
        Ok(MagmaHeapBudget { budget: info.vram_size, usage: info.vram_used })
    } else if cpu {
        Ok(MagmaHeapBudget { budget: info.sysmem_size, usage: info.sysmem_used })
    } else {
        Err(Error::Unimplemented)
    }
}

/// Budget and usage of heap `heap_idx` among `mem_heaps`, from memory
/// `memory_info`; `InvalidArgs` for an index past the heaps.
pub fn get_memory_budget(mem_heaps: &[MagmaHeap], heap_idx: u32, memory_info: &XeMemoryInfo) -> (r: Result<MagmaHeapBudget, Error>)
    ensures
        heap_idx >= mem_heaps@.len() ==> r == Err::<MagmaHeapBudget, Error>(Error::InvalidArgs),
        heap_idx < mem_heaps@.len() ==> r == spec_xe_heap_budget(mem_heaps@[heap_idx as int], *memory_info),
{
    if heap_idx as usize >= mem_heaps.len() {
        return Err(Error::InvalidArgs);
    }
    let heap = &mem_heaps[heap_idx as usize];
    let (budget, usage) = if heap.is_device_local() && heap.is_cpu_visible() {
        (memory_info.vram_cpu_visible_size, memory_info.vram_cpu_visible_used)
    } else if heap.is_device_local() {
        (memory_info.vram_size, memory_info.vram_used)
    } else if heap.is_cpu_visible() {
        (memory_info.sysmem_size, memory_info.sysmem_used)
    } else {
        return Err(Error::Unimplemented);
    };
    Ok(MagmaHeapBudget { budget, usage })
}

proof fn lemma_xe_heap_flag_bits()
    ensures
        MAGMA_HEAP_CPU_VISIBLE_BIT & MAGMA_HEAP_CPU_VISIBLE_BIT != 0,
        MAGMA_HEAP_CPU_VISIBLE_BIT & MAGMA_HEAP_DEVICE_LOCAL_BIT == 0,
        (MAGMA_HEAP_CPU_VISIBLE_BIT | MAGMA_HEAP_DEVICE_LOCAL_BIT) & MAGMA_HEAP_CPU_VISIBLE_BIT != 0,
        (MAGMA_HEAP_CPU_VISIBLE_BIT | MAGMA_HEAP_DEVICE_LOCAL_BIT) & MAGMA_HEAP_DEVICE_LOCAL_BIT != 0,
        MAGMA_HEAP_DEVICE_LOCAL_BIT & MAGMA_HEAP_CPU_VISIBLE_BIT == 0,
        MAGMA_HEAP_DEVICE_LOCAL_BIT & MAGMA_HEAP_DEVICE_LOCAL_BIT != 0,
        0u64 & MAGMA_HEAP_CPU_VISIBLE_BIT == 0,
        0u64 & MAGMA_HEAP_DEVICE_LOCAL_BIT == 0,
{
    assert(0x10u64 & 0x10u64 != 0 && 0x10u64 & 0x1u64 == 0 && (0x10u64 | 0x1u64) & 0x10u64 != 0
        && (0x10u64 | 0x1u64) & 0x1u64 != 0 && 0x1u64 & 0x10u64 == 0 && 0x1u64 & 0x1u64 != 0
        && 0u64 & 0x1u64 == 0 && 0u64 & 0x10u64 == 0) by (bit_vector);
}

/// The budget of an Xe heap depends on its kind: the CPU-visible part of
/// device memory for a heap both CPU visible and device local, all device
/// memory for a device-local heap, system memory for a CPU-visible heap, each
/// with the kernel's usage of that memory; a heap with neither property has
/// no budget.
pub proof fn lemma_xe_budget_by_heap_kind(size: u64, info: XeMemoryInfo)
    ensures
        spec_xe_heap_budget(MagmaHeap { heap_size: size, heap_flags: MAGMA_HEAP_CPU_VISIBLE_BIT | MAGMA_HEAP_DEVICE_LOCAL_BIT }, info)
            == Ok::<MagmaHeapBudget, Error>(MagmaHeapBudget { budget: info.vram_cpu_visible_size, usage: info.vram_cpu_visible_used }),
        spec_xe_heap_budget(MagmaHeap { heap_size: size, heap_flags: MAGMA_HEAP_DEVICE_LOCAL_BIT }, info)
            == Ok::<MagmaHeapBudget, Error>(MagmaHeapBudget { budget: info.vram_size, usage: info.vram_used }),
        spec_xe_heap_budget(MagmaHeap { heap_size: size, heap_flags: MAGMA_HEAP_CPU_VISIBLE_BIT }, info)
            == Ok::<MagmaHeapBudget, Error>(MagmaHeapBudget { budget: info.sysmem_size, usage: info.sysmem_used }),
        spec_xe_heap_budget(MagmaHeap { heap_size: size, heap_flags: 0 }, info) == Err::<MagmaHeapBudget, Error>(Error::Unimplemented),
{
    lemma_xe_heap_flag_bits();
}

/// Each heap that an Xe device reports has, as its budget, its own size:
/// the budget of heap `i` of the device's memory is the size of heap `i`.
pub proof fn lemma_xe_budget_is_heap_size(info: XeMemoryInfo, i: int)
    requires
        0 <= i < spec_xe_memory(info).1.len(),
    ensures
        spec_xe_heap_budget(spec_xe_memory(info).1[i], info) is Ok,
        spec_xe_heap_budget(spec_xe_memory(info).1[i], info)->Ok_0.budget == spec_xe_memory(info).1[i].heap_size,
{
    lemma_xe_heap_flag_bits();
    let h = spec_xe_memory(info).1[i];
    lemma_xe_budget_by_heap_kind(h.heap_size, info);
}

/// The queue families of an Xe device: a family with every capability, a
/// compute family without graphics and protection, and a protected
/// transfer family; one queue each.
pub fn get_queue_family_properties() -> (r: Result<Vec<MagmaQueueFamilyProperties>, Error>)
    ensures
        r is Ok,
        r->Ok_0@.len() == 3,
        r->Ok_0@[0].queue_flags.spec_bits() == 0x1f && r->Ok_0@[0].queue_count == 1,
        r->Ok_0@[1].queue_flags.spec_bits() == 0x0e && r->Ok_0@[1].queue_count == 1,
        r->Ok_0@[2].queue_flags.spec_bits() == 0x14 && r->Ok_0@[2].queue_count == 1,
{
    let mut families: Vec<MagmaQueueFamilyProperties> = Vec::new();
    // Graphics, compute, transfer, sparse binding and protected.
    families.push(MagmaQueueFamilyProperties::new(MagmaQueueFlags::from_bits_retain(0x1f), 1));
    // Compute, transfer and sparse binding.
    families.push(MagmaQueueFamilyProperties::new(MagmaQueueFlags::from_bits_retain(0x0e), 1));
    // Transfer and protected.
    families.push(MagmaQueueFamilyProperties::new(MagmaQueueFlags::from_bits_retain(0x14), 1));
    Ok(families)
}

/// GEM creation flag: the buffer may be scanned out.
pub const DRM_XE_GEM_CREATE_FLAG_SCANOUT: u32 = 0x2;
/// GEM creation flag: the buffer must live in CPU-visible device memory.
pub const DRM_XE_GEM_CREATE_FLAG_NEEDS_VISIBLE_VRAM: u32 = 0x4;
/// CPU caching mode write-back.
pub const DRM_XE_GEM_CPU_CACHING_WB: u16 = 1;
/// CPU caching mode write-combined.
pub const DRM_XE_GEM_CPU_CACHING_WC: u16 = 2;

/// What the kernel is asked for to create a buffer, with the CPU mapping
/// mode the buffer will be mapped with.
#[derive(Debug, Clone, Copy, PartialEq, Eq)]
pub struct XeGemCreate {
    pub size: u64,
    pub flags: u32,
    pub cpu_caching: u16,
    pub placement: u32,
    pub is_protected: bool,
    pub map_info: Option<u32>,
}

/// The kernel instances fit the placement mask for a buffer on `heap`.
pub open spec fn xe_instances_fit(heap: MagmaHeap, sysmem_instance: u16, vram_instance: u16) -> bool {
    &&& heap.heap_flags & MAGMA_HEAP_DEVICE_LOCAL_BIT != 0 ==> vram_instance < 32
    &&& heap.heap_flags & MAGMA_HEAP_CPU_VISIBLE_BIT != 0 ==> sysmem_instance < 32
}

/// The creation request for a buffer of `size` bytes with `common_flags`,
/// of memory type `mt` on `heap`: a scan-out buffer is write-combined and,
/// when the host can see it, mapped write-combined read-write; any other is
/// write-back when host cached, else write-combined, and mapped as its type
/// says. Its placement holds the device instance for device memory, the
/// system instance for CPU-visible memory, both (and needs visible device
/// memory) for a heap with both properties.
pub open spec fn spec_xe_gem_create(
    mt: MagmaMemoryType,
    heap: MagmaHeap,
    common_flags: u32,
    size: u64,
    sysmem_instance: u16,
    vram_instance: u16,
) -> XeGemCreate {
    let scanout = common_flags & MAGMA_BUFFER_FLAG_SCANOUT != 0;
    let dev = heap.heap_flags & MAGMA_HEAP_DEVICE_LOCAL_BIT != 0;
    let cpu = heap.heap_flags & MAGMA_HEAP_CPU_VISIBLE_BIT != 0;
    let f = if scanout {
        DRM_XE_GEM_CREATE_FLAG_SCANOUT
    } else {
        0
    };
    XeGemCreate {
        size,
        flags: if dev && cpu {
            f | DRM_XE_GEM_CREATE_FLAG_NEEDS_VISIBLE_VRAM
        } else {
            f
        },
        cpu_caching: if scanout {
            DRM_XE_GEM_CPU_CACHING_WC
        } else if mt.property_flags & MAGMA_MEMORY_PROPERTY_HOST_CACHED_BIT != 0 {
            DRM_XE_GEM_CPU_CACHING_WB
        } else {
            DRM_XE_GEM_CPU_CACHING_WC
        },
        placement: if dev && cpu {
            (1u32 << sysmem_instance) | (1u32 << vram_instance)
        } else if dev {
            1u32 << vram_instance
        } else if cpu {
            1u32 << sysmem_instance
        } else {
            0
        },
        is_protected: mt.property_flags & MAGMA_MEMORY_PROPERTY_PROTECTED_BIT != 0,
        map_info: if scanout {
            if mt.property_flags & MAGMA_MEMORY_PROPERTY_HOST_VISIBLE_BIT != 0 {
                Some(3u32 | 0x30u32)
            } else {
                None
            }
        } else {
            spec_map_info(mt.property_flags)
        },
    }
}

/// A buffer is placed in device memory exactly when its heap is device
/// local and in system memory exactly when its heap is CPU visible; it needs
/// visible device memory exactly when its heap is both; it is a scan-out
/// buffer exactly when asked; its CPU caching is write-back exactly for a
/// host-cached type that is not scan-out, else write-combined; it is
/// protected exactly when its type is.
pub proof fn lemma_xe_gem_create_follows_flags(
    mt: MagmaMemoryType,
    heap: MagmaHeap,
    common_flags: u32,
    size: u64,
    sysmem_instance: u16,
    vram_instance: u16,
)
    requires
        sysmem_instance < 32,
        vram_instance < 32,
        sysmem_instance != vram_instance,
    ensures
        ({
            let g = spec_xe_gem_create(mt, heap, common_flags, size, sysmem_instance, vram_instance);
            let scanout = common_flags & MAGMA_BUFFER_FLAG_SCANOUT != 0;
            let dev = heap.heap_flags & MAGMA_HEAP_DEVICE_LOCAL_BIT != 0;
            let cpu = heap.heap_flags & MAGMA_HEAP_CPU_VISIBLE_BIT != 0;
            &&& g.size == size
            &&& (g.placement & (1u32 << vram_instance) != 0) == dev
            &&& (g.placement & (1u32 << sysmem_instance) != 0) == cpu
            &&& g.placement & !((1u32 << sysmem_instance) | (1u32 << vram_instance)) == 0
            &&& (g.flags & DRM_XE_GEM_CREATE_FLAG_SCANOUT != 0) == scanout
            &&& (g.flags & DRM_XE_GEM_CREATE_FLAG_NEEDS_VISIBLE_VRAM != 0) == (dev && cpu)
            &&& g.flags & !(DRM_XE_GEM_CREATE_FLAG_SCANOUT | DRM_XE_GEM_CREATE_FLAG_NEEDS_VISIBLE_VRAM) == 0
            &&& (g.cpu_caching == DRM_XE_GEM_CPU_CACHING_WB) == (!scanout && mt.property_flags & MAGMA_MEMORY_PROPERTY_HOST_CACHED_BIT != 0)
            &&& (g.cpu_caching == DRM_XE_GEM_CPU_CACHING_WB || g.cpu_caching == DRM_XE_GEM_CPU_CACHING_WC)
            &&& g.is_protected == (mt.property_flags & MAGMA_MEMORY_PROPERTY_PROTECTED_BIT != 0)
        }),
{
    let g = spec_xe_gem_create(mt, heap, common_flags, size, sysmem_instance, vram_instance);
    let d = heap.heap_flags & 1u64 != 0;
    let c = heap.heap_flags & 0x10u64 != 0;
    let sc = common_flags & MAGMA_BUFFER_FLAG_SCANOUT != 0;
    let si = sysmem_instance;
    let vi = vram_instance;
    let pl: u32 = if d && c { (1u32 << si) | (1u32 << vi) } else if d { 1u32 << vi } else if c { 1u32 << si } else { 0u32 };
    let fl: u32 = if d && c { (if sc { 2u32 } else { 0u32 }) | 4u32 } else { if sc { 2u32 } else { 0u32 } };
    assert(g.placement == pl);
    assert(g.flags == fl);
    assert((pl & (1u32 << vi) != 0) == d && (pl & (1u32 << si) != 0) == c && pl & !((1u32 << si) | (1u32 << vi)) == 0)
        by (bit_vector)
        requires
            si < 32,
            vi < 32,
            si != vi,
            pl == (if d && c { (1u32 << si) | (1u32 << vi) } else if d { 1u32 << vi } else if c { 1u32 << si } else { 0u32 }),
    ;
    assert((fl & 2u32 != 0) == sc && (fl & 4u32 != 0) == (d && c) && fl & !(2u32 | 4u32) == 0) by (bit_vector)
        requires
            fl == (if d && c { (if sc { 2u32 } else { 0u32 }) | 4u32 } else { if sc { 2u32 } else { 0u32 } }),
    ;
}

/// The creation request for a buffer as `create_info` asks, on the memory
/// types `mem_types` and heaps `mem_heaps` of the device; `InvalidArgs`
/// for a memory type index past the types or a type whose heap index is
/// past the heaps.
pub fn xe_buffer_create_params(
    create_info: &MagmaCreateBufferInfo,
    mem_types: &[MagmaMemoryType],
    mem_heaps: &[MagmaHeap],
    sysmem_instance: u16,
    vram_instance: u16,
) -> (r: Result<XeGemCreate, Error>)
    requires
        create_info.memory_type_idx < mem_types@.len()
            && mem_types@[create_info.memory_type_idx as int].heap_idx < mem_heaps@.len() ==> xe_instances_fit(
            mem_heaps@[mem_types@[create_info.memory_type_idx as int].heap_idx as int],
            sysmem_instance,
            vram_instance,
        ),
    ensures
        create_info.memory_type_idx >= mem_types@.len() ==> r == Err::<XeGemCreate, Error>(Error::InvalidArgs),
        create_info.memory_type_idx < mem_types@.len() ==> ({
            let mt = mem_types@[create_info.memory_type_idx as int];
            &&& mt.heap_idx >= mem_heaps@.len() ==> r == Err::<XeGemCreate, Error>(Error::InvalidArgs)
            &&& mt.heap_idx < mem_heaps@.len() ==> r == Ok::<XeGemCreate, Error>(
                spec_xe_gem_create(
                    mt,
                    mem_heaps@[mt.heap_idx as int],
                    create_info.common_flags,
                    create_info.size,
                    sysmem_instance,
                    vram_instance,
                ),
            )
        }),
{
    if create_info.memory_type_idx as usize >= mem_types.len() {
        return Err(Error::InvalidArgs);
    }
    let memory_type = mem_types[create_info.memory_type_idx as usize];
    if memory_type.heap_idx as usize >= mem_heaps.len() {
        return Err(Error::InvalidArgs);
    }
    let memory_heap = mem_heaps[memory_type.heap_idx as usize];
    let is_scanout = (create_info.common_flags & MAGMA_BUFFER_FLAG_SCANOUT) != 0;
    let mut flags: u32 = if is_scanout {
        DRM_XE_GEM_CREATE_FLAG_SCANOUT
    } else {
        0
    };
    let (cpu_caching, map_info) = if is_scanout {
        let map_info = if memory_type.is_host_visible() {
            Some(map_cache_wc() | map_access_rw())
        } else {
            None
        };
        (DRM_XE_GEM_CPU_CACHING_WC, map_info)
    } else if memory_type.is_cached() {
        (DRM_XE_GEM_CPU_CACHING_WB, memory_type.get_map_info())
    } else {
        (DRM_XE_GEM_CPU_CACHING_WC, memory_type.get_map_info())
    };
    let mut placement: u32 = 0;
    if memory_heap.is_cpu_visible() && memory_heap.is_device_local() {
        flags = flags | DRM_XE_GEM_CREATE_FLAG_NEEDS_VISIBLE_VRAM;
        placement = (1u32 << sysmem_instance) | (1u32 << vram_instance);
    } else if memory_heap.is_device_local() {
        placement = 1u32 << vram_instance;
    } else if memory_heap.is_cpu_visible() {
        placement = 1u32 << sysmem_instance;
    }
    Ok(XeGemCreate {
        size: create_info.size,
        flags,
        cpu_caching,
        placement,
        is_protected: memory_type.is_protected(),
        map_info,
    })
}

/// Engine class of render queues.
pub const DRM_XE_ENGINE_CLASS_RENDER: u16 = 0;
/// Engine class of copy queues.
pub const DRM_XE_ENGINE_CLASS_COPY: u16 = 1;
/// Engine class of compute queues.
pub const DRM_XE_ENGINE_CLASS_COMPUTE: u16 = 4;
/// Engine class of queues that bind memory.
pub const DRM_XE_ENGINE_CLASS_VM_BIND: u16 = 5;

/// How a queue is created: in which address space, on which engine, and
/// whether it only binds memory.
#[derive(Debug, Clone, Copy, PartialEq, Eq)]
pub struct XeQueueParams {
    pub vm_id: u32,
    pub engine_class: u16,
    pub is_bind_queue: bool,
}

/// The engine of a queue created with `info`: the binding engine when the
/// flags ask for sparse binding, else compute for family 1, copy for
/// family 2 and render for any other family.
pub open spec fn spec_xe_engine_class(info: MagmaCreateQueueInfo) -> u16 {
    if info.flags & 8 != 0 {
        DRM_XE_ENGINE_CLASS_VM_BIND
    } else if info.queue_family_idx == 1 {
        DRM_XE_ENGINE_CLASS_COMPUTE
    } else if info.queue_family_idx == 2 {
        DRM_XE_ENGINE_CLASS_COPY
    } else {
        DRM_XE_ENGINE_CLASS_RENDER
    }
}

/// A queue that asks for sparse binding runs on the binding engine whatever
/// its family; otherwise family 1 runs on the compute engine, family 2 on the
/// copy engine and every other family on the render engine.
pub proof fn lemma_xe_engine_by_family(info: MagmaCreateQueueInfo)
    ensures
        info.flags & 8 != 0 ==> spec_xe_engine_class(info) == 5,
        info.flags & 8 == 0 && info.queue_family_idx == 1 ==> spec_xe_engine_class(info) == 4,
        info.flags & 8 == 0 && info.queue_family_idx == 2 ==> spec_xe_engine_class(info) == 1,
        info.flags & 8 == 0 && info.queue_family_idx != 1 && info.queue_family_idx != 2
            ==> spec_xe_engine_class(info) == 0,
{
}

/// How to create a queue as `info` asks in the address space with kernel
/// id `vm_id`; `Unimplemented` for an address space without one.
pub fn xe_queue_params(vm_id: Option<u32>, info: &MagmaCreateQueueInfo) -> (r: Result<XeQueueParams, Error>)
    ensures
        vm_id is None ==> r == Err::<XeQueueParams, Error>(Error::Unimplemented),
        vm_id is Some ==> r == Ok::<XeQueueParams, Error>(
            XeQueueParams {
                vm_id: vm_id->0,
                engine_class: spec_xe_engine_class(*info),
                is_bind_queue: info.flags & 8 != 0,
            },
        ),
{
    let vm_id = match vm_id {
        Some(id) => id,
        None => {
            return Err(Error::Unimplemented);
        },
    };
    let sparse_binding = MagmaQueueFlags::from_bits_retain(8);
    let is_bind_queue = (info.flags & sparse_binding.bits()) != 0;
    let engine_class = if is_bind_queue {
        DRM_XE_ENGINE_CLASS_VM_BIND
    } else if info.queue_family_idx == 1 {
        DRM_XE_ENGINE_CLASS_COMPUTE
    } else if info.queue_family_idx == 2 {
        DRM_XE_ENGINE_CLASS_COPY
    } else {
        DRM_XE_ENGINE_CLASS_RENDER
    };
    Ok(XeQueueParams { vm_id, engine_class, is_bind_queue })
}

/// Sync entry type of a binary sync object.
pub const DRM_XE_SYNC_TYPE_SYNCOBJ: u32 = 0;
/// Sync entry type of a timeline sync object.
pub const DRM_XE_SYNC_TYPE_TIMELINE_SYNCOBJ: u32 = 1;
/// Sync entry flag: the submission signals the object.
pub const DRM_XE_SYNC_FLAG_SIGNAL: u32 = 1;

/// A sync entry of a submission.
#[derive(Debug, Clone, Copy, PartialEq, Eq)]
pub struct XeSync {
    pub type_: u32,
    pub flags: u32,
    pub handle: u32,
    pub timeline_value: u64,
}

/// The entries for `objs`: one per object with a kernel handle, in order,
/// flagged as signals when `signal`; a timeline object with a point above 0
/// is a timeline entry at that point, any other a binary entry at 0.
pub open spec fn xe_sync_entries(objs: Seq<SubmitSyncObj>, signal: bool) -> Seq<XeSync>
    decreases objs.len(),
{
    if objs.len() == 0 {
        Seq::empty()
    } else {
        let prev = xe_sync_entries(objs.drop_last(), signal);
        let o = objs.last();
        match o.handle {
            Some(h) => {
                let tl = o.is_timeline && o.point > 0;
                prev.push(
                    XeSync {
                        type_: if tl {
                            DRM_XE_SYNC_TYPE_TIMELINE_SYNCOBJ
                        } else {
                            DRM_XE_SYNC_TYPE_SYNCOBJ
                        },
                        flags: if signal {
                            DRM_XE_SYNC_FLAG_SIGNAL
                        } else {
                            0
                        },
                        handle: h,
                        timeline_value: if tl {
                            o.point
                        } else {
                            0
                        },
                    },
                )
            },
            None => prev,
        }
    }
}

/// One entry per object that has a handle, in order: the entry has the
/// object's handle and is a signal exactly when `signal`; a timeline object at
/// a point above 0 is a timeline entry at that point, any other a binary entry
/// at 0.
pub proof fn lemma_xe_sync_entries_follow_objects(objs: Seq<SubmitSyncObj>, signal: bool)
    ensures
        xe_sync_entries(objs, signal).len() == objs_with_handles(objs).len(),
        forall|i: int| #![trigger xe_sync_entries(objs, signal)[i]]
            0 <= i < xe_sync_entries(objs, signal).len() ==> {
                let o = objs_with_handles(objs)[i];
                let e = xe_sync_entries(objs, signal)[i];
                let tl = o.is_timeline && o.point > 0;
                &&& o.handle == Some(e.handle)
                &&& e.type_ == (if tl { DRM_XE_SYNC_TYPE_TIMELINE_SYNCOBJ } else { DRM_XE_SYNC_TYPE_SYNCOBJ })
                &&& e.flags == (if signal { DRM_XE_SYNC_FLAG_SIGNAL } else { 0 })
                &&& e.timeline_value == (if tl { o.point } else { 0 })
            },
    decreases objs.len(),
{
    reveal_with_fuel(Seq::filter, 1);
    if objs.len() > 0 {
        lemma_xe_sync_entries_follow_objects(objs.drop_last(), signal);
        assert(objs_with_handles(objs) == if objs.last().handle is Some {
            objs_with_handles(objs.drop_last()).push(objs.last())
        } else {
            objs_with_handles(objs.drop_last())
        });
    }
}

/// Appends the entries for `objs` to `out`.
fn push_xe_syncs(out: &mut Vec<XeSync>, objs: &[SubmitSyncObj], signal: bool)
    ensures
        final(out)@ == old(out)@ + xe_sync_entries(objs@, signal),
{
    let ghost start = out@;
    let mut i: usize = 0;
    while i < objs.len()
        invariant
            i <= objs@.len(),
            out@ == start + xe_sync_entries(objs@.take(i as int), signal),
        decreases objs.len() - i,
    {
        let o = objs[i];
        assert(objs@.take(i as int + 1).drop_last() =~= objs@.take(i as int));
        if let Some(handle) = o.handle {
            let is_timeline = o.is_timeline && o.point > 0;
            out.push(
                XeSync {
                    type_: if is_timeline {
                        DRM_XE_SYNC_TYPE_TIMELINE_SYNCOBJ
                    } else {
                        DRM_XE_SYNC_TYPE_SYNCOBJ
                    },
                    flags: if signal {
                        DRM_XE_SYNC_FLAG_SIGNAL
                    } else {
                        0
                    },
                    handle,
                    timeline_value: if is_timeline {
                        o.point
                    } else {
                        0
                    },
                },
            );
        }
        proof {
            assert(out@ =~= start + xe_sync_entries(objs@.take(i as int + 1), signal));
        }
        i = i + 1;
    }
    assert(objs@.take(i as int) =~= objs@);
}

/// What a submission hands to the kernel: for a binding queue only the
/// sync entries; for any other the batch buffer count and address too.
#[derive(Debug, Clone, PartialEq, Eq)]
pub struct XeSubmission {
    pub bind: bool,
    pub num_batch_buffer: u16,
    pub address: u64,
    pub syncs: Vec<XeSync>,
}

/// The submission for a queue that binds memory when `is_bind_queue`, of
/// commands at `as_info`, that waits on `waits` and signals `signals`: the
/// wait entries, then the signal entries; a binding queue runs no batch; any
/// other queue runs one batch at the commands' address when both address
/// and length are non-zero, none else, and is `Unimplemented` without an
/// address-space extension.
pub fn xe_submit_command(
    is_bind_queue: bool,
    as_info: Option<MagmaSubmitAddressSpaceInfo>,
    waits: &[SubmitSyncObj],
    signals: &[SubmitSyncObj],
) -> (r: Result<XeSubmission, Error>)
    ensures
        !is_bind_queue && as_info is None ==> r == Err::<XeSubmission, Error>(Error::Unimplemented),
        is_bind_queue || as_info is Some ==> r is Ok && ({
            let s = r->Ok_0;
            &&& s.syncs@ == xe_sync_entries(waits@, false) + xe_sync_entries(signals@, true)
            &&& s.bind == is_bind_queue
            &&& is_bind_queue ==> s.num_batch_buffer == 0 && s.address == 0
            &&& !is_bind_queue ==> {
                let a = as_info->0;
                let run = a.command_va != 0 && a.length != 0;
                &&& s.num_batch_buffer == (if run {
                    1u16
                } else {
                    0u16
                })
                &&& s.address == (if run {
                    a.command_va
                } else {
                    0u64
                })
            }
        }),
{
    let mut syncs: Vec<XeSync> = Vec::new();
    push_xe_syncs(&mut syncs, waits, false);
    push_xe_syncs(&mut syncs, signals, true);
    if is_bind_queue {
        return Ok(XeSubmission { bind: true, num_batch_buffer: 0, address: 0, syncs });
    }
    let as_info = match as_info {
        Some(a) => a,
        None => {
            return Err(Error::Unimplemented);
        },
    };
    let num_batch_buffer: u16 = if as_info.command_va != 0 && as_info.length != 0 {
        1
    } else {
        0
    };
    let address = if num_batch_buffer > 0 {
        as_info.command_va
    } else {
        0
    };
    Ok(XeSubmission { bind: false, num_batch_buffer, address, syncs })
}

/// The status of a queue from its ban property: `InternalError` when the
/// property could not be read, `ContextKilled` when the queue is banned.
pub fn xe_queue_status(ban_value: Result<u64, Error>) -> (r: Result<(), Error>)
    ensures
        ban_value is Err ==> r == Err::<(), Error>(Error::InternalError),
        ban_value is Ok && ban_value->Ok_0 != 0 ==> r == Err::<(), Error>(Error::ContextKilled),
        ban_value is Ok && ban_value->Ok_0 == 0 ==> r == Ok::<(), Error>(()),
{
    match ban_value {
        Err(_) => Err(Error::InternalError),
        Ok(v) => if v != 0 {
            Err(Error::ContextKilled)
        } else {
            Ok(())
        },
    }
}

/// Index of the minimum buffer alignment among the configuration values.
pub const DRM_XE_QUERY_CONFIG_MIN_ALIGNMENT: usize = 2;
/// Index of the number of virtual address bits among the configuration values.
pub const DRM_XE_QUERY_CONFIG_VA_BITS: usize = 3;

/// The size of the GPU address space and the minimum buffer alignment, from
/// the first `num_params` configuration values `info` that the kernel
/// reports.
pub fn xe_device_config(num_params: u32, info: &[u64]) -> (r: (u64, u64))
    requires
        num_params > DRM_XE_QUERY_CONFIG_VA_BITS,
        info@.len() > DRM_XE_QUERY_CONFIG_VA_BITS,
        info@[DRM_XE_QUERY_CONFIG_VA_BITS as int] < 64,
    ensures
        r.0 == 1u64 << info@[DRM_XE_QUERY_CONFIG_VA_BITS as int],
        r.1 == info@[DRM_XE_QUERY_CONFIG_MIN_ALIGNMENT as int],
{
    let n: usize = if (num_params as usize) < info.len() {
        num_params as usize
    } else {
        info.len()
    };
    let config = slice_prefix(info, n);
    let gtt_size = 1u64 << config[DRM_XE_QUERY_CONFIG_VA_BITS];
    let mem_alignment = config[DRM_XE_QUERY_CONFIG_MIN_ALIGNMENT];
    (gtt_size, mem_alignment)
}

/// The first `n` values of `s`.
fn slice_prefix(s: &[u64], n: usize) -> (r: &[u64])
    requires
        n <= s@.len(),
    ensures
        r@ == s@.take(n as int),
{
    let r = vstd::slice::slice_subrange(s, 0, n);
    r
}

/// A buffer object of the Xe kernel driver on a physical device:
/// its handle, size and CPU mapping mode.
pub struct XeBuffer<P: BackendPhysicalDevice> {
    physical_device: Arc<P>,
    gem_handle: u32,
    size: usize,
    map_info: Option<u32>,
}

impl<P: BackendPhysicalDevice> View for XeBuffer<P> {
    type V = GemBufferView;

    closed spec fn view(&self) -> GemBufferView {
        GemBufferView { gem_handle: self.gem_handle, size: self.size, map_info: self.map_info }
    }
}

impl<P: BackendPhysicalDevice> XeBuffer<P> {
    /// The physical device the buffer lives on.
    pub closed spec fn spec_physical_device(&self) -> Arc<P> {
        self.physical_device
    }

    /// The buffer that the kernel created with handle `gem_handle` for a
    /// request of `size` bytes, mapped with `map_info`; `TryFromIntError`
    /// when the size does not fit a `usize`.
    pub fn new(physical_device: Arc<P>, gem_handle: u32, size: u64, map_info: Option<u32>) -> (r: Result<Self, Error>)
        ensures
            size <= usize::MAX ==> r is Ok && r->Ok_0@ == (GemBufferView { gem_handle, size: size as usize, map_info })
                && r->Ok_0.spec_physical_device() == physical_device,
            size > usize::MAX ==> r is Err && r->Err_0 == Error::PlatformError(PlatformError::TryFromIntError),
    {
        let size = match usize_from_u64(size) {
            Some(s) => s,
            None => {
                return Err(Error::PlatformError(PlatformError::TryFromIntError));
            },
        };
        Ok(XeBuffer { physical_device, gem_handle, size, map_info })
    }

    /// The buffer that handle `gem_handle` already names, of `size` bytes,
    /// mapped with `map_info`.
    pub fn from_existing(physical_device: Arc<P>, gem_handle: u32, size: usize, map_info: Option<u32>) -> (r: Result<Self, Error>)
        ensures
            r is Ok,
            r->Ok_0@ == (GemBufferView { gem_handle, size, map_info }),
            r->Ok_0.spec_physical_device() == physical_device,
    {
        Ok(XeBuffer { physical_device, gem_handle, size, map_info })
    }

    /// The physical device the buffer lives on.
    pub fn physical_device(&self) -> (r: &Arc<P>)
        ensures
            *r == self.spec_physical_device(),
    {
        &self.physical_device
    }

    /// Size of the buffer in bytes.
    pub fn size(&self) -> (r: usize)
        ensures
            r == self@.size,
    {
        self.size
    }
}

impl<P: BackendPhysicalDevice> GenericBuffer for XeBuffer<P> {
    fn get_map_info(&self) -> (r: Option<u32>)
        ensures
            r == self@.map_info,
    {
        self.map_info
    }

    fn as_gem_handle(&self) -> (r: Option<u32>)
        ensures
            r == Some(self@.gem_handle),
    {
        Some(self.gem_handle)
    }
}

impl<P: BackendPhysicalDevice> BackendBuffer for XeBuffer<P> {}
/// A GPU address space of the Xe kernel driver: the kernel VM it stands for.
pub struct XeAddressSpace<P: BackendPhysicalDevice> {
    physical_device: Arc<P>,
    vm_id: u32,
}

impl<P: BackendPhysicalDevice> XeAddressSpace<P> {
    /// The kernel VM id of the address space.
    pub closed spec fn spec_vm_id(&self) -> u32 {
        self.vm_id
    }

    /// The physical device of the address space.
    pub closed spec fn spec_physical_device(&self) -> Arc<P> {
        self.physical_device
    }

    /// The address space of the VM that the kernel created with id `vm_id`.
    pub fn new(physical_device: Arc<P>, vm_id: u32) -> (r: Result<Self, Error>)
        ensures
            r is Ok,
            r->Ok_0.spec_vm_id() == vm_id,
            r->Ok_0.spec_physical_device() == physical_device,
    {
        Ok(XeAddressSpace { physical_device, vm_id })
    }

    /// The physical device of the address space.
    pub fn physical_device(&self) -> (r: &Arc<P>)
        ensures
            *r == self.spec_physical_device(),
    {
        &self.physical_device
    }
}

impl<P: BackendPhysicalDevice> GenericAddressSpace for XeAddressSpace<P> {
    /// Unmapping a range is a request to the kernel, which the library
    /// does not make: the answer is always `Unimplemented`, and the holder
    /// of the device file unmaps.
    open spec fn unmaps(&self, gpu_va: u64, size: u64, r: Result<(), Error>) -> bool {
        r == Err::<(), Error>(Error::Unimplemented)
    }

    fn unmap_buffer_gpu(&self, gpu_va: u64, size: u64) -> (r: Result<(), Error>) {
        Err(Error::Unimplemented)
    }

    fn as_vm_id(&self) -> (r: Option<u32>)
        ensures
            r == Some(self.spec_vm_id()),
    {
        Some(self.vm_id)
    }
}

impl<P: BackendPhysicalDevice> BackendAddressSpace for XeAddressSpace<P> {}

/// A command queue of the Xe kernel driver: its kernel exec queue, the VM
/// it runs in, and whether it only binds memory.
pub struct XeQueue<P: BackendPhysicalDevice> {
    physical_device: Arc<P>,
    exec_queue_id: u32,
    vm_id: u32,
    is_bind_queue: bool,
}

impl<P: BackendPhysicalDevice> XeQueue<P> {
    /// The kernel exec queue id.
    pub closed spec fn spec_exec_queue_id(&self) -> u32 {
        self.exec_queue_id
    }

    /// The kernel VM id the queue runs in.
    pub closed spec fn spec_vm_id(&self) -> u32 {
        self.vm_id
    }

    /// Whether the queue only binds memory.
    pub closed spec fn spec_is_bind_queue(&self) -> bool {
        self.is_bind_queue
    }

    /// The queue that the kernel created with id `exec_queue_id` as
    /// `params` asked.
    pub fn new(physical_device: Arc<P>, exec_queue_id: u32, params: &XeQueueParams) -> (r: Result<Self, Error>)
        ensures
            r is Ok,
            r->Ok_0.spec_exec_queue_id() == exec_queue_id,
            r->Ok_0.spec_vm_id() == params.vm_id,
            r->Ok_0.spec_is_bind_queue() == params.is_bind_queue,
    {
        Ok(XeQueue { physical_device, exec_queue_id, vm_id: params.vm_id, is_bind_queue: params.is_bind_queue })
    }

    /// The kernel exec queue id.
    pub fn exec_queue_id(&self) -> (r: u32)
        ensures
            r == self.spec_exec_queue_id(),
    {
        self.exec_queue_id
    }

    /// The kernel VM id the queue runs in.
    pub fn vm_id(&self) -> (r: u32)
        ensures
            r == self.spec_vm_id(),
    {
        self.vm_id
    }

    /// The submission of commands at `as_info` that waits on `waits` and
    /// signals `signals` on this queue.
    pub fn submit_command(&self, as_info: Option<MagmaSubmitAddressSpaceInfo>, waits: &[SubmitSyncObj], signals: &[SubmitSyncObj]) -> (r: Result<XeSubmission, Error>)
        ensures
            !self.spec_is_bind_queue() && as_info is None ==> r == Err::<XeSubmission, Error>(Error::Unimplemented),
            self.spec_is_bind_queue() || as_info is Some ==> r is Ok && r->Ok_0.syncs@ == xe_sync_entries(waits@, false)
                + xe_sync_entries(signals@, true) && r->Ok_0.bind == self.spec_is_bind_queue(),
    {
        xe_submit_command(self.is_bind_queue, as_info, waits, signals)
    }
}

/// What an Xe device holds, as the contracts see it.
pub struct XeView {
    pub gtt_size: u64,
    pub mem_alignment: u64,
    pub mem_types: Seq<MagmaMemoryType>,
    pub mem_heaps: Seq<MagmaHeap>,
    pub sysmem_instance: u16,
    pub vram_instance: u16,
}

/// A logical device of the Xe kernel driver: the size of its GPU address
/// space, its buffer alignment, its memory types and heaps, and the kernel
/// instances of its memories.
pub struct Xe<P: BackendPhysicalDevice> {
    physical_device: Arc<P>,
    gtt_size: u64,
    mem_alignment: u64,
    mem_types: Vec<MagmaMemoryType>,
    mem_heaps: Vec<MagmaHeap>,
    sysmem_instance: u16,
    vram_instance: u16,
}

impl<P: BackendPhysicalDevice> View for Xe<P> {
    type V = XeView;

    closed spec fn view(&self) -> XeView {
        XeView {
            gtt_size: self.gtt_size,
            mem_alignment: self.mem_alignment,
            mem_types: self.mem_types@,
            mem_heaps: self.mem_heaps@,
            sysmem_instance: self.sysmem_instance,
            vram_instance: self.vram_instance,
        }
    }
}

impl<P: BackendPhysicalDevice> Xe<P> {
    /// The physical device of the device.
    pub closed spec fn spec_physical_device(&self) -> Arc<P> {
        self.physical_device
    }

    /// The device with PCI id `device_id`, GPU address space size
    /// `gtt_size` and buffer alignment `mem_alignment`, whose memory the
    /// kernel reports as `memory_info`.
    pub fn new(physical_device: Arc<P>, device_id: u16, gtt_size: u64, mem_alignment: u64, memory_info: &XeMemoryInfo) -> (r: Result<Self, Error>)
        ensures
            r is Ok,
            r->Ok_0.spec_physical_device() == physical_device,
            r->Ok_0@ == (XeView {
                gtt_size,
                mem_alignment,
                mem_types: spec_xe_memory(*memory_info).0,
                mem_heaps: spec_xe_memory(*memory_info).1,
                sysmem_instance: memory_info.sysmem_instance,
                vram_instance: memory_info.vram_instance,
            }),
    {
        let _graphics_version = determine_graphics_version(device_id)?;
        let (mem_types, mem_heaps) = xe_query_memory(memory_info)?;
        Ok(Xe {
            physical_device,
            gtt_size,
            mem_alignment,
            mem_types,
            mem_heaps,
            sysmem_instance: memory_info.sysmem_instance,
            vram_instance: memory_info.vram_instance,
        })
    }

    /// The physical device of the device.
    pub fn physical_device(&self) -> (r: &Arc<P>)
        ensures
            *r == self.spec_physical_device(),
    {
        &self.physical_device
    }

    /// The memory types of the device.
    pub fn mem_types(&self) -> (r: &Vec<MagmaMemoryType>)
        ensures
            r@ == self@.mem_types,
    {
        &self.mem_types
    }

    /// The memory heaps of the device.
    pub fn mem_heaps(&self) -> (r: &Vec<MagmaHeap>)
        ensures
            r@ == self@.mem_heaps,
    {
        &self.mem_heaps
    }

    /// Budget and usage of heap `heap_idx`, from memory `memory_info` that
    /// the kernel reports now.
    pub fn get_memory_budget(&self, heap_idx: u32, memory_info: &XeMemoryInfo) -> (r: Result<MagmaHeapBudget, Error>)
        ensures
            heap_idx >= self@.mem_heaps.len() ==> r == Err::<MagmaHeapBudget, Error>(Error::InvalidArgs),
            heap_idx < self@.mem_heaps.len() ==> r == spec_xe_heap_budget(self@.mem_heaps[heap_idx as int], *memory_info),
    {
        get_memory_budget(self.mem_heaps.as_slice(), heap_idx, memory_info)
    }

    /// The creation request for a buffer as `create_info` asks, on this
    /// device's memory.
    pub fn buffer_create_params(&self, create_info: &MagmaCreateBufferInfo) -> (r: Result<XeGemCreate, Error>)
        requires
            create_info.memory_type_idx < self@.mem_types.len()
                && self@.mem_types[create_info.memory_type_idx as int].heap_idx < self@.mem_heaps.len() ==> xe_instances_fit(
                self@.mem_heaps[self@.mem_types[create_info.memory_type_idx as int].heap_idx as int],
                self@.sysmem_instance,
                self@.vram_instance,
            ),
        ensures
            create_info.memory_type_idx >= self@.mem_types.len() ==> r == Err::<XeGemCreate, Error>(Error::InvalidArgs),
            create_info.memory_type_idx < self@.mem_types.len() ==> ({
                let mt = self@.mem_types[create_info.memory_type_idx as int];
                &&& mt.heap_idx >= self@.mem_heaps.len() ==> r == Err::<XeGemCreate, Error>(Error::InvalidArgs)
                &&& mt.heap_idx < self@.mem_heaps.len() ==> r == Ok::<XeGemCreate, Error>(
                    spec_xe_gem_create(
                        mt,
                        self@.mem_heaps[mt.heap_idx as int],
                        create_info.common_flags,
                        create_info.size,
                        self@.sysmem_instance,
                        self@.vram_instance,
                    ),
                )
            }),
    {
        xe_buffer_create_params(
            create_info,
            self.mem_types.as_slice(),
            self.mem_heaps.as_slice(),
            self.sysmem_instance,
            self.vram_instance,
        )
    }
}

} // verus!
