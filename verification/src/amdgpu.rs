//! AMD devices under the amdgpu driver: memory layout, queue families,
//! buffer placement, mappings, budgets and the chunks of a command
//! submission.
use std::sync::Arc;

use vstd::prelude::*;

use crate::defines::lemma_visibility_bits;
use crate::defines::types_on_matching_heaps;

use crate::defines::MAGMA_BUFFER_FLAG_AMD_GDS;
use crate::defines::MAGMA_BUFFER_FLAG_AMD_OA;
use crate::defines::MAGMA_HEAP_CPU_VISIBLE_BIT;
use crate::defines::MAGMA_HEAP_DEVICE_LOCAL_BIT;
use crate::defines::MAGMA_MEMORY_PROPERTY_DEVICE_LOCAL_BIT;
use crate::defines::MAGMA_MEMORY_PROPERTY_HOST_CACHED_BIT;
use crate::defines::MAGMA_MEMORY_PROPERTY_HOST_COHERENT_BIT;
use crate::defines::MAGMA_MEMORY_PROPERTY_HOST_VISIBLE_BIT;
use crate::defines::MAGMA_MEMORY_PROPERTY_PROTECTED_BIT;
use crate::defines::spec_map_info;
use crate::error::Error;
use crate::error::PlatformError;
use crate::protocol::MagmaCreateBufferInfo;
use crate::protocol::MagmaGpuMapFlags;
use crate::protocol::MagmaHeap;
use crate::protocol::MagmaHeapBudget;
use crate::protocol::MagmaMemoryType;
use crate::protocol::MagmaQueueFamilyProperties;
use crate::protocol::MagmaQueueFlags;
use crate::protocol::MagmaSubmitAddressSpaceInfo;
use crate::submit::MagmaSubmitSyncInfo;
use crate::submit::present_with_points;
use crate::submit::slot_count;
use crate::traits::BackendAddressSpace;
use crate::traits::BackendBuffer;
use crate::traits::BackendPhysicalDevice;
use crate::traits::BackendSyncObject;
use crate::traits::GenericSyncObject;
use crate::traits::GemBufferView;
use crate::traits::GenericAddressSpace;
use crate::traits::GenericBuffer;
use crate::traits::GenericPhysicalDevice;
use crate::wire::usize_from_u64;

verus! {

pub const AMDGPU_GEM_DOMAIN_GTT: u64 = 0x2;
pub const AMDGPU_GEM_DOMAIN_VRAM: u64 = 0x4;
pub const AMDGPU_GEM_DOMAIN_GDS: u64 = 0x8;
pub const AMDGPU_GEM_DOMAIN_OA: u64 = 0x20;

pub const AMDGPU_GEM_CREATE_NO_CPU_ACCESS: u64 = 0x2;
pub const AMDGPU_GEM_CREATE_CPU_GTT_USWC: u64 = 0x4;
pub const AMDGPU_GEM_CREATE_EXPLICIT_SYNC: u64 = 0x80;
pub const AMDGPU_GEM_CREATE_ENCRYPTED: u64 = 0x400;
pub const AMDGPU_GEM_CREATE_DISCARDABLE: u64 = 0x1000;

pub const AMDGPU_HW_IP_GFX: u32 = 0;
pub const AMDGPU_CHUNK_ID_IB: u32 = 0x01;
pub const AMDGPU_CHUNK_ID_SYNCOBJ_TIMELINE_WAIT: u32 = 0x07;
pub const AMDGPU_CHUNK_ID_SYNCOBJ_TIMELINE_SIGNAL: u32 = 0x08;
pub const DRM_SYNCOBJ_WAIT_FLAGS_WAIT_FOR_SUBMIT: u32 = 0x2;

/// Size in bytes of an indirect-buffer chunk.
pub const AMDGPU_CS_CHUNK_IB_SIZE: usize = 32;
/// Size in bytes of a sync object chunk entry.
pub const AMDGPU_CS_CHUNK_SYNCOBJ_SIZE: usize = 16;

/// The memory types and heaps of a device with the given heap sizes: one
/// heap per non-empty one (GTT, VRAM, CPU-visible VRAM, in that order); two
/// host types on the GTT heap, coherent and coherent-cached; one device type
/// on the VRAM heap; one coherent device type on the CPU-visible VRAM heap.
pub open spec fn spec_memory(gtt: u64, vram: u64, visible_vram: u64) -> (Seq<MagmaMemoryType>, Seq<MagmaHeap>) {
    let h1: Seq<MagmaHeap> = if gtt > 0 {
        seq![MagmaHeap { heap_size: gtt, heap_flags: MAGMA_HEAP_CPU_VISIBLE_BIT }]
    } else {
        seq![]
    };
    let t1: Seq<MagmaMemoryType> = if gtt > 0 {
        seq![
            MagmaMemoryType {
                property_flags: MAGMA_MEMORY_PROPERTY_HOST_COHERENT_BIT | MAGMA_MEMORY_PROPERTY_HOST_VISIBLE_BIT,
                heap_idx: 0,
            },
            MagmaMemoryType {
                property_flags: MAGMA_MEMORY_PROPERTY_HOST_COHERENT_BIT | MAGMA_MEMORY_PROPERTY_HOST_VISIBLE_BIT
                    | MAGMA_MEMORY_PROPERTY_HOST_CACHED_BIT,
                heap_idx: 0,
            },
        ]
    } else {
        seq![]
    };
    let h2: Seq<MagmaHeap> = if vram > 0 {
        h1.push(MagmaHeap { heap_size: vram, heap_flags: MAGMA_HEAP_DEVICE_LOCAL_BIT })
    } else {
        h1
    };
    let t2: Seq<MagmaMemoryType> = if vram > 0 {
        t1.push(MagmaMemoryType { property_flags: MAGMA_MEMORY_PROPERTY_DEVICE_LOCAL_BIT, heap_idx: h1.len() as u32 })
    } else {
        t1
    };
    let h3: Seq<MagmaHeap> = if visible_vram > 0 {
        h2.push(
            MagmaHeap {
                heap_size: visible_vram,
                heap_flags: MAGMA_HEAP_DEVICE_LOCAL_BIT | MAGMA_HEAP_CPU_VISIBLE_BIT,
            },
        )
    } else {
        h2
    };
    let t3: Seq<MagmaMemoryType> = if visible_vram > 0 {
        t2.push(
            MagmaMemoryType {
                property_flags: MAGMA_MEMORY_PROPERTY_DEVICE_LOCAL_BIT | MAGMA_MEMORY_PROPERTY_HOST_COHERENT_BIT
                    | MAGMA_MEMORY_PROPERTY_HOST_VISIBLE_BIT,
                heap_idx: h2.len() as u32,
            },
        )
    } else {
        t2
    };
    (t3, h3)
}

/// The memory that a device reports is consistent: each memory type lies on
/// one of the heaps, host-visible types exactly on the CPU-visible heaps, and
/// the heaps carry the sizes of the GTT, VRAM and CPU-visible VRAM in that
/// order, leaving out the empty ones.
pub proof fn lemma_memory_types_on_matching_heaps(gtt: u64, vram: u64, visible_vram: u64)
    ensures
        types_on_matching_heaps(spec_memory(gtt, vram, visible_vram).0, spec_memory(gtt, vram, visible_vram).1),
        spec_memory(gtt, vram, visible_vram).1.map_values(|h: MagmaHeap| h.heap_size)
            == seq![gtt, vram, visible_vram].filter(|x: u64| x > 0),
{
    lemma_visibility_bits();
    let m = spec_memory(gtt, vram, visible_vram);
    assert(types_on_matching_heaps(m.0, m.1));
    reveal_with_fuel(Seq::filter, 4);
    assert(m.1.map_values(|h: MagmaHeap| h.heap_size) =~= seq![gtt, vram, visible_vram].filter(|x: u64| x > 0));
}

/// The memory types and heaps of a device whose GTT, VRAM and CPU-visible
/// VRAM heaps have the given total sizes.
pub fn query_memory(gtt_total_heap_size: u64, vram_total_heap_size: u64, cpu_accessible_vram_total_heap_size: u64) -> (r: (Vec<MagmaMemoryType>, Vec<MagmaHeap>))
    ensures
        r.0@ == spec_memory(gtt_total_heap_size, vram_total_heap_size, cpu_accessible_vram_total_heap_size).0,
        r.1@ == spec_memory(gtt_total_heap_size, vram_total_heap_size, cpu_accessible_vram_total_heap_size).1,
{
    let mut heaps: Vec<MagmaHeap> = Vec::new();
    let mut types: Vec<MagmaMemoryType> = Vec::new();
    let mut heap_idx: u32 = 0;
    if gtt_total_heap_size > 0 {
        heaps.push(MagmaHeap { heap_size: gtt_total_heap_size, heap_flags: MAGMA_HEAP_CPU_VISIBLE_BIT });
        types.push(
            MagmaMemoryType {
                property_flags: MAGMA_MEMORY_PROPERTY_HOST_COHERENT_BIT | MAGMA_MEMORY_PROPERTY_HOST_VISIBLE_BIT,
                heap_idx,
            },
        );
        types.push(
            MagmaMemoryType {
                property_flags: MAGMA_MEMORY_PROPERTY_HOST_COHERENT_BIT
                    | MAGMA_MEMORY_PROPERTY_HOST_VISIBLE_BIT | MAGMA_MEMORY_PROPERTY_HOST_CACHED_BIT,
                heap_idx,
            },
        );
        heap_idx += 1;
    }
    if vram_total_heap_size > 0 {
        heaps.push(MagmaHeap { heap_size: vram_total_heap_size, heap_flags: MAGMA_HEAP_DEVICE_LOCAL_BIT });
        types.push(MagmaMemoryType { property_flags: MAGMA_MEMORY_PROPERTY_DEVICE_LOCAL_BIT, heap_idx });
        heap_idx += 1;
    }
    if cpu_accessible_vram_total_heap_size > 0 {
        heaps.push(
            MagmaHeap {
                heap_size: cpu_accessible_vram_total_heap_size,
                heap_flags: MAGMA_HEAP_DEVICE_LOCAL_BIT | MAGMA_HEAP_CPU_VISIBLE_BIT,
            },
        );
        types.push(
            MagmaMemoryType {
                property_flags: MAGMA_MEMORY_PROPERTY_DEVICE_LOCAL_BIT
                    | MAGMA_MEMORY_PROPERTY_HOST_COHERENT_BIT | MAGMA_MEMORY_PROPERTY_HOST_VISIBLE_BIT,
                heap_idx,
            },
        );
    }
    proof {
        let s = spec_memory(gtt_total_heap_size, vram_total_heap_size, cpu_accessible_vram_total_heap_size);
        assert(types@ =~= s.0);
        assert(heaps@ =~= s.1);
    }
    (types, heaps)
}

/// Number of bits set in `x`.
pub open spec fn popcount(x: u32) -> nat
    decreases x,
{
    if x == 0 {
        0
    } else {
        (x % 2) as nat + popcount(x / 2)
    }
}

/// Number of bits set in `x`.
pub fn count_ones(x: u32) -> (n: u32)
    ensures
        n == popcount(x),
{
    let mut v = x;
    let mut n: u32 = 0;
    proof {
        lemma_popcount_bound(x);
    }
    while v != 0
        invariant
            n + popcount(v) == popcount(x),
            n <= 32 - popcount(v),
            popcount(v) <= 32,
        decreases v,
    {
        proof {
            lemma_popcount_bound(v);
        }
        n = n + v % 2;
        v = v / 2;
    }
    n
}

proof fn lemma_popcount_bound(x: u32)
    ensures
        popcount(x) <= 32,
        x != 0 ==> popcount(x / 2) + 1 <= 32,
{
    reveal_with_fuel(pow2_nat, 33);
    assert(pow2_nat(32) == 0x1_0000_0000);
    lemma_popcount_le_bits(x, 32);
}

proof fn lemma_popcount_le_bits(x: u32, bits: nat)
    requires
        x < pow2_nat(bits),
    ensures
        popcount(x) <= bits,
        x != 0 ==> popcount(x / 2) < bits,
    decreases bits,
{
    if x != 0 && bits > 0 {
        lemma_popcount_le_bits(x / 2, (bits - 1) as nat);
    }
}

/// `2` to the power `n`.
pub open spec fn pow2_nat(n: nat) -> nat
    decreases n,
{
    if n == 0 {
        1
    } else {
        2 * pow2_nat((n - 1) as nat)
    }
}

/// Flag bits and queue count of each family, in order.
pub open spec fn family_shape(s: Seq<MagmaQueueFamilyProperties>) -> Seq<(u32, u32)> {
    s.map_values(|f: MagmaQueueFamilyProperties| (f.queue_flags.spec_bits(), f.queue_count))
}

/// The queue families of a device whose graphics engine has
/// `gfx_available_rings` rings, and whose compute engine, when it could be
/// queried, has `compute_available_rings`: a graphics+compute family with one
/// queue when there is a graphics ring, a compute family with one queue per
/// compute ring when there is one; `InternalError` when neither.
pub fn get_queue_family_properties(gfx_available_rings: u32, compute_available_rings: Option<u32>) -> (r: Result<Vec<MagmaQueueFamilyProperties>, Error>)
    ensures
        ({
            let f1: Seq<(u32, u32)> = if gfx_available_rings > 0 {
                seq![(3u32, 1u32)]
            } else {
                seq![]
            };
            let f2: Seq<(u32, u32)> = match compute_available_rings {
                Some(c) => if c > 0 {
                    f1.push((2u32, popcount(c) as u32))
                } else {
                    f1
                },
                None => f1,
            };
            &&& f2.len() == 0 ==> r == Err::<Vec<MagmaQueueFamilyProperties>, Error>(Error::InternalError)
            &&& f2.len() > 0 ==> r is Ok && family_shape(r->Ok_0@) == f2
        }),
{
    let mut queue_families: Vec<MagmaQueueFamilyProperties> = Vec::new();
    if gfx_available_rings > 0 {
        queue_families.push(MagmaQueueFamilyProperties::new(MagmaQueueFlags::from_bits_retain(3), 1));
    }
    if let Some(c) = compute_available_rings {
        if c > 0 {
            let n = count_ones(c);
            queue_families.push(MagmaQueueFamilyProperties::new(MagmaQueueFlags::from_bits_retain(2), n));
        }
    }
    if queue_families.len() == 0 {
        return Err(Error::InternalError);
    }
    proof {
        let f1: Seq<(u32, u32)> = if gfx_available_rings > 0 {
            seq![(3u32, 1u32)]
        } else {
            seq![]
        };
        assert(family_shape(queue_families@) =~= (match compute_available_rings {
            Some(c) => if c > 0 {
                f1.push((2u32, popcount(c) as u32))
            } else {
                f1
            },
            None => f1,
        }));
    }
    Ok(queue_families)
}

/// The GEM domain and creation flags of a buffer of `memory_type` with
/// vendor flags `vendor_flags`: explicit sync and discardable always;
/// write-combined when coherent, else no CPU access; encrypted when
/// protected; domain OA, GDS, VRAM or GTT, the first that applies.
pub open spec fn spec_placement(memory_type: MagmaMemoryType, vendor_flags: u32) -> (u64, u64) {
    let f = memory_type.property_flags;
    let base = AMDGPU_GEM_CREATE_EXPLICIT_SYNC | AMDGPU_GEM_CREATE_DISCARDABLE;
    let with_cpu = if f & MAGMA_MEMORY_PROPERTY_HOST_COHERENT_BIT != 0 {
        base | AMDGPU_GEM_CREATE_CPU_GTT_USWC
    } else {
        base | AMDGPU_GEM_CREATE_NO_CPU_ACCESS
    };
    let flags = if f & MAGMA_MEMORY_PROPERTY_PROTECTED_BIT != 0 {
        with_cpu | AMDGPU_GEM_CREATE_ENCRYPTED
    } else {
        with_cpu
    };
    let domains = if vendor_flags & MAGMA_BUFFER_FLAG_AMD_OA != 0 {
        AMDGPU_GEM_DOMAIN_OA
    } else if vendor_flags & MAGMA_BUFFER_FLAG_AMD_GDS != 0 {
        AMDGPU_GEM_DOMAIN_GDS
    } else if f & MAGMA_MEMORY_PROPERTY_DEVICE_LOCAL_BIT != 0 {
        AMDGPU_GEM_DOMAIN_VRAM
    } else {
        AMDGPU_GEM_DOMAIN_GTT
    };
    (domains, flags)
}

/// Every buffer is created with explicit sync and discardable; it is
/// write-combined for the CPU exactly when its memory is host coherent and
/// has no CPU access otherwise; it is encrypted exactly when its memory is
/// protected; no other creation flag is set. Its domain is OA when the vendor
/// flags ask for OA, else GDS when they ask for GDS, else VRAM for device-local
/// memory, else GTT.
pub proof fn lemma_placement_follows_flags(memory_type: MagmaMemoryType, vendor_flags: u32)
    ensures
        ({
            let f = memory_type.property_flags;
            let flags = spec_placement(memory_type, vendor_flags).1;
            &&& flags & AMDGPU_GEM_CREATE_EXPLICIT_SYNC != 0
            &&& flags & AMDGPU_GEM_CREATE_DISCARDABLE != 0
            &&& (flags & AMDGPU_GEM_CREATE_CPU_GTT_USWC != 0) == (f & MAGMA_MEMORY_PROPERTY_HOST_COHERENT_BIT != 0)
            &&& (flags & AMDGPU_GEM_CREATE_NO_CPU_ACCESS != 0) == (f & MAGMA_MEMORY_PROPERTY_HOST_COHERENT_BIT == 0)
            &&& (flags & AMDGPU_GEM_CREATE_ENCRYPTED != 0) == (f & MAGMA_MEMORY_PROPERTY_PROTECTED_BIT != 0)
            &&& flags & !(AMDGPU_GEM_CREATE_EXPLICIT_SYNC | AMDGPU_GEM_CREATE_DISCARDABLE | AMDGPU_GEM_CREATE_CPU_GTT_USWC
                | AMDGPU_GEM_CREATE_NO_CPU_ACCESS | AMDGPU_GEM_CREATE_ENCRYPTED) == 0
        }),
        vendor_flags & MAGMA_BUFFER_FLAG_AMD_OA != 0 ==> spec_placement(memory_type, vendor_flags).0 == AMDGPU_GEM_DOMAIN_OA,
        vendor_flags & MAGMA_BUFFER_FLAG_AMD_OA == 0 && vendor_flags & MAGMA_BUFFER_FLAG_AMD_GDS != 0
            ==> spec_placement(memory_type, vendor_flags).0 == AMDGPU_GEM_DOMAIN_GDS,
        vendor_flags & (MAGMA_BUFFER_FLAG_AMD_OA | MAGMA_BUFFER_FLAG_AMD_GDS) == 0
            ==> spec_placement(memory_type, vendor_flags).0 == (if memory_type.property_flags
            & MAGMA_MEMORY_PROPERTY_DEVICE_LOCAL_BIT != 0 {
            AMDGPU_GEM_DOMAIN_VRAM
        } else {
            AMDGPU_GEM_DOMAIN_GTT
        }),
{
    let f = memory_type.property_flags;
    let base: u64 = 0x80u64 | 0x1000u64;
    let w: u64 = if f & 4u32 != 0 { base | 0x4u64 } else { base | 0x2u64 };
    let x: u64 = if f & 0x20u32 != 0 { w | 0x400u64 } else { w };
    assert(spec_placement(memory_type, vendor_flags).1 == x);
    assert(x & 0x80u64 != 0 && x & 0x1000u64 != 0 && (x & 0x4u64 != 0) == (f & 4u32 != 0)
        && (x & 0x2u64 != 0) == (f & 4u32 == 0) && (x & 0x400u64 != 0) == (f & 0x20u32 != 0)
        && x & !(0x80u64 | 0x1000u64 | 0x4u64 | 0x2u64 | 0x400u64) == 0) by (bit_vector)
        requires
            base == 0x80u64 | 0x1000u64,
            w == (if f & 4u32 != 0 { base | 0x4u64 } else { base | 0x2u64 }),
            x == (if f & 0x20u32 != 0 { w | 0x400u64 } else { w }),
    ;
    assert(vendor_flags & (1u32 | 2u32) == 0 ==> vendor_flags & 1u32 == 0 && vendor_flags & 2u32 == 0) by (bit_vector);
}

/// Where a new buffer goes: its memory type among `mem_types`, its GEM
/// domains and its creation flags; `InvalidArgs` for a memory type index
/// past the types.
pub fn buffer_placement(mem_types: &[MagmaMemoryType], memory_type_idx: u32, vendor_flags: u32) -> (r: Result<(MagmaMemoryType, u64, u64), Error>)
    ensures
        memory_type_idx >= mem_types@.len() ==> r == Err::<(MagmaMemoryType, u64, u64), Error>(Error::InvalidArgs),
        memory_type_idx < mem_types@.len() ==> ({
            let mt = mem_types@[memory_type_idx as int];
            r == Ok::<(MagmaMemoryType, u64, u64), Error>((mt, spec_placement(mt, vendor_flags).0, spec_placement(mt, vendor_flags).1))
        }),
{
    if memory_type_idx as usize >= mem_types.len() {
        return Err(Error::InvalidArgs);
    }
    let memory_type = mem_types[memory_type_idx as usize];
    let mut domain_flags = AMDGPU_GEM_CREATE_EXPLICIT_SYNC | AMDGPU_GEM_CREATE_DISCARDABLE;
    if memory_type.is_coherent() {
        domain_flags = domain_flags | AMDGPU_GEM_CREATE_CPU_GTT_USWC;
    } else {
        domain_flags = domain_flags | AMDGPU_GEM_CREATE_NO_CPU_ACCESS;
    }
    if memory_type.is_protected() {
        domain_flags = domain_flags | AMDGPU_GEM_CREATE_ENCRYPTED;
    }
    let domains = if vendor_flags & MAGMA_BUFFER_FLAG_AMD_OA != 0 {
        AMDGPU_GEM_DOMAIN_OA
    } else if vendor_flags & MAGMA_BUFFER_FLAG_AMD_GDS != 0 {
        AMDGPU_GEM_DOMAIN_GDS
    } else if memory_type.is_device_local() {
        AMDGPU_GEM_DOMAIN_VRAM
    } else {
        AMDGPU_GEM_DOMAIN_GTT
    };
    Ok((memory_type, domains, domain_flags))
}

/// Which kernel counters give the budget and usage of a heap.
#[derive(Debug, Clone, Copy, PartialEq, Eq, Structural)]
pub enum BudgetSource {
    /// CPU-visible VRAM size and its usage.
    VisibleVram,
    /// VRAM size and its usage.
    Vram,
    /// GTT size and its usage.
    Gtt,
}

/// The counters for heap `heap_idx` among `mem_heaps`: CPU-visible VRAM
/// for a heap both device local and CPU visible, VRAM for a device-local
/// one, GTT for a CPU-visible one; `InvalidArgs` for an index past the heaps,
/// `Unimplemented` for a heap with neither property.
pub fn budget_source(mem_heaps: &[MagmaHeap], heap_idx: u32) -> (r: Result<BudgetSource, Error>)
    ensures
        heap_idx >= mem_heaps@.len() ==> r == Err::<BudgetSource, Error>(Error::InvalidArgs),
        heap_idx < mem_heaps@.len() ==> ({
            let f = mem_heaps@[heap_idx as int].heap_flags;
            let dev = f & MAGMA_HEAP_DEVICE_LOCAL_BIT != 0;
            let cpu = f & MAGMA_HEAP_CPU_VISIBLE_BIT != 0;
            r == (if dev && cpu {
                Ok::<BudgetSource, Error>(BudgetSource::VisibleVram)
            } else if dev {
                Ok(BudgetSource::Vram)
            } else if cpu {
                Ok(BudgetSource::Gtt)
            } else {
                Err(Error::Unimplemented)
            })
        }),
{
    if heap_idx as usize >= mem_heaps.len() {
        return Err(Error::InvalidArgs);
    }
    let heap = &mem_heaps[heap_idx as usize];
    if heap.is_device_local() && heap.is_cpu_visible() {
        Ok(BudgetSource::VisibleVram)
    } else if heap.is_device_local() {
        Ok(BudgetSource::Vram)
    } else if heap.is_cpu_visible() {
        Ok(BudgetSource::Gtt)
    } else {
        Err(Error::Unimplemented)
    }
}

/// A sync object as a submission sees it: its kernel handle, if any,
/// whether it is a timeline, and its point in the submission.
#[derive(Debug, Clone, Copy, PartialEq, Eq)]
pub struct SubmitSyncObj {
    pub handle: Option<u32>,
    pub is_timeline: bool,
    pub point: u64,
}

/// An entry of a sync object chunk.
#[derive(Debug, Clone, Copy, PartialEq, Eq)]
pub struct CsChunkSyncobj {
    pub handle: u32,
    pub flags: u32,
    pub point: u64,
}

/// An indirect buffer to run.
#[derive(Debug, Clone, Copy, PartialEq, Eq)]
pub struct CsChunkIb {
    pub va_start: u64,
    pub ib_bytes: u32,
    pub ip_type: u32,
}

/// A chunk of a command submission, with its length in 32-bit words.
#[derive(Debug, Clone, Copy, PartialEq, Eq)]
pub struct CsChunk {
    pub chunk_id: u32,
    pub length_dw: u32,
}

/// Everything a command submission hands to the kernel.
pub struct CsSubmission {
    pub ib: CsChunkIb,
    pub in_syncs: Vec<CsChunkSyncobj>,
    pub out_syncs: Vec<CsChunkSyncobj>,
    pub chunks: Vec<CsChunk>,
}

/// The entries for `objs`: one per object with a kernel handle, in order;
/// a timeline object with a point above 0 keeps its point (and, for a wait,
/// waits for the signal to be submitted), any other gets point 0.
pub open spec fn sync_entries(objs: Seq<SubmitSyncObj>, wait: bool) -> Seq<CsChunkSyncobj>
    decreases objs.len(),
{
    if objs.len() == 0 {
        Seq::empty()
    } else {
        let prev = sync_entries(objs.drop_last(), wait);
        let o = objs.last();
        match o.handle {
            Some(h) => {
                let tl = o.is_timeline && o.point > 0;
                prev.push(
                    CsChunkSyncobj {
                        handle: h,
                        flags: if wait && tl {
                            DRM_SYNCOBJ_WAIT_FLAGS_WAIT_FOR_SUBMIT
                        } else {
                            0
                        },
                        point: if tl {
                            o.point
                        } else {
                            0
                        },
                    },
                )
            },
            None => prev,
        }
    }
}

/// The objects among `objs` that have a handle, in order.
pub open spec fn objs_with_handles(objs: Seq<SubmitSyncObj>) -> Seq<SubmitSyncObj> {
    objs.filter(|o: SubmitSyncObj| o.handle is Some)
}

/// The chunk holds one entry per object that has a handle, in order: the
/// entry has the object's handle; a timeline object at a point above 0 keeps
/// its point, and a wait on it waits for the submission of that point; any
/// other object is at point 0 with no flag.
pub proof fn lemma_sync_entries_follow_objects(objs: Seq<SubmitSyncObj>, wait: bool)
    ensures
        sync_entries(objs, wait).len() == objs_with_handles(objs).len(),
        forall|i: int| #![trigger sync_entries(objs, wait)[i]]
            0 <= i < sync_entries(objs, wait).len() ==> {
                let o = objs_with_handles(objs)[i];
                let e = sync_entries(objs, wait)[i];
                let tl = o.is_timeline && o.point > 0;
                &&& o.handle == Some(e.handle)
                &&& e.point == (if tl { o.point } else { 0 })
                &&& e.flags == (if wait && tl { DRM_SYNCOBJ_WAIT_FLAGS_WAIT_FOR_SUBMIT } else { 0 })
            },
    decreases objs.len(),
{
    reveal_with_fuel(Seq::filter, 1);
    if objs.len() > 0 {
        lemma_sync_entries_follow_objects(objs.drop_last(), wait);
        assert(objs_with_handles(objs) == if objs.last().handle is Some {
            objs_with_handles(objs.drop_last()).push(objs.last())
        } else {
            objs_with_handles(objs.drop_last())
        });
    }
}

proof fn lemma_sync_entries_len(objs: Seq<SubmitSyncObj>, wait: bool)
    ensures
        sync_entries(objs, wait).len() <= objs.len(),
    decreases objs.len(),
{
    if objs.len() > 0 {
        lemma_sync_entries_len(objs.drop_last(), wait);
    }
}

/// The sync entries for `objs`, waits when `wait` holds, else signals.
pub fn build_sync_entries(objs: &[SubmitSyncObj], wait: bool) -> (r: Vec<CsChunkSyncobj>)
    ensures
        r@ == sync_entries(objs@, wait),
{
    let mut out: Vec<CsChunkSyncobj> = Vec::new();
    let mut i: usize = 0;
    while i < objs.len()
        invariant
            i <= objs@.len(),
            out@ == sync_entries(objs@.take(i as int), wait),
        decreases objs.len() - i,
    {
        let o = objs[i];
        assert(objs@.take(i as int + 1).drop_last() =~= objs@.take(i as int));
        if let Some(handle) = o.handle {
            let is_timeline = o.is_timeline && o.point > 0;
            out.push(
                CsChunkSyncobj {
                    handle,
                    flags: if wait && is_timeline {
                        DRM_SYNCOBJ_WAIT_FLAGS_WAIT_FOR_SUBMIT
                    } else {
                        0
                    },
                    point: if is_timeline {
                        o.point
                    } else {
                        0
                    },
                },
            );
        }
        i = i + 1;
    }
    assert(objs@.take(i as int) =~= objs@);
    out
}

/// Whether `v` is how a submission sees the sync object `o.0` at point
/// `o.1`: the point given, and the kernel handle and timeline answer that the
/// object may report.
pub open spec fn sync_view_of<S: BackendSyncObject>(o: (Arc<S>, u64), v: SubmitSyncObj) -> bool {
    &&& v.point == o.1
    &&& o.0.reports_handle(v.handle)
    &&& o.0.reports_timeline(v.is_timeline)
}

/// Whether `vs` are, one by one, how a submission sees `objs`.
pub open spec fn sync_views_of<S: BackendSyncObject>(objs: Seq<(Arc<S>, u64)>, vs: Seq<SubmitSyncObj>) -> bool {
    &&& vs.len() == objs.len()
    &&& forall|i: int| 0 <= i < objs.len() ==> #[trigger] sync_view_of(objs[i], vs[i])
}

/// How a submission sees each of `objs`, an object with its point: the
/// object's kernel handle and whether it is a timeline, as it reports them.
pub fn submit_sync_objs<S: BackendSyncObject>(objs: &[(Arc<S>, u64)]) -> (r: Vec<SubmitSyncObj>)
    ensures
        sync_views_of(objs@, r@),
{
    let mut out: Vec<SubmitSyncObj> = Vec::new();
    let mut i: usize = 0;
    while i < objs.len()
        invariant
            i <= objs@.len(),
            out@.len() == i,
            forall|j: int| 0 <= j < i ==> #[trigger] sync_view_of(objs@[j], out@[j]),
        decreases objs.len() - i,
    {
        let (obj, point) = &objs[i];
        let handle = obj.as_raw_handle();
        let is_timeline = obj.is_timeline();
        out.push(SubmitSyncObj { handle, is_timeline, point: *point });
        proof {
            assert(sync_view_of(objs@[i as int], out@[i as int]));
        }
        i = i + 1;
    }
    out
}

/// The kernel's wait and signal entries for the sync objects of a
/// submission: the objects waited on and signaled, each with its point, in
/// slot order, seen as the objects report themselves.
pub fn submission_sync_entries<S: BackendSyncObject>(sync_info: &MagmaSubmitSyncInfo<S>) -> (r: (Vec<CsChunkSyncobj>, Vec<CsChunkSyncobj>))
    ensures
        exists|w: Seq<SubmitSyncObj>, s: Seq<SubmitSyncObj>|
            {
                &&& sync_views_of(present_with_points(sync_info.wait_sync_objs@, sync_info.wait_points@, slot_count(sync_info.num_wait_sync_objs)), w)
                &&& sync_views_of(present_with_points(sync_info.signal_sync_objs@, sync_info.signal_points@, slot_count(sync_info.num_signal_sync_objs)), s)
                &&& r.0@ == sync_entries(w, true)
                &&& r.1@ == sync_entries(s, false)
            },
{
    let waits = submit_sync_objs(sync_info.wait_sync_objs_with_points().as_slice());
    let signals = submit_sync_objs(sync_info.signal_sync_objs_with_points().as_slice());
    let in_syncs = build_sync_entries(waits.as_slice(), true);
    let out_syncs = build_sync_entries(signals.as_slice(), false);
    proof {
        assert(sync_views_of(present_with_points(sync_info.wait_sync_objs@, sync_info.wait_points@, slot_count(sync_info.num_wait_sync_objs)), waits@));
    }
    (in_syncs, out_syncs)
}

/// The chunks of a submission with `n_in` wait and `n_out` signal entries:
/// the indirect buffer, then a wait chunk when there are waits, then a
/// signal chunk when there are signals; a sync chunk is four words per entry.
pub open spec fn spec_chunks(n_in: nat, n_out: nat) -> Seq<CsChunk> {
    let c1 = seq![CsChunk { chunk_id: AMDGPU_CHUNK_ID_IB, length_dw: 8 }];
    let c2 = if n_in > 0 {
        c1.push(CsChunk { chunk_id: AMDGPU_CHUNK_ID_SYNCOBJ_TIMELINE_WAIT, length_dw: (4 * n_in) as u32 })
    } else {
        c1
    };
    if n_out > 0 {
        c2.push(CsChunk { chunk_id: AMDGPU_CHUNK_ID_SYNCOBJ_TIMELINE_SIGNAL, length_dw: (4 * n_out) as u32 })
    } else {
        c2
    }
}

/// The command submission for commands at `as_info` that waits on `waits`
/// and signals `signals`; `Unimplemented` without an address-space
/// extension.
pub fn submit_command(as_info: Option<MagmaSubmitAddressSpaceInfo>, waits: &[SubmitSyncObj], signals: &[SubmitSyncObj]) -> (r: Result<CsSubmission, Error>)
    requires
        waits@.len() <= 16,
        signals@.len() <= 16,
    ensures
        as_info is None ==> r is Err && r->Err_0 == Error::Unimplemented,
        as_info matches Some(a) ==> r is Ok && ({
            let s = r->Ok_0;
            &&& s.ib == (CsChunkIb { va_start: a.command_va, ib_bytes: #[verifier::truncate] (a.length as u32), ip_type: AMDGPU_HW_IP_GFX })
            &&& s.in_syncs@ == sync_entries(waits@, true)
            &&& s.out_syncs@ == sync_entries(signals@, false)
            &&& s.chunks@ == spec_chunks(s.in_syncs@.len(), s.out_syncs@.len())
        }),
{
    let a = match as_info {
        Some(a) => a,
        None => {
            return Err(Error::Unimplemented);
        },
    };
    let ib = CsChunkIb { va_start: a.command_va, ib_bytes: #[verifier::truncate] (a.length as u32), ip_type: AMDGPU_HW_IP_GFX };
    let mut chunks: Vec<CsChunk> = Vec::new();
    chunks.push(CsChunk { chunk_id: AMDGPU_CHUNK_ID_IB, length_dw: (AMDGPU_CS_CHUNK_IB_SIZE / 4) as u32 });
    let in_syncs = build_sync_entries(waits, true);
    let out_syncs = build_sync_entries(signals, false);
    proof {
        lemma_sync_entries_len(waits@, true);
        lemma_sync_entries_len(signals@, false);
    }
    if in_syncs.len() > 0 {
        chunks.push(
            CsChunk {
                chunk_id: AMDGPU_CHUNK_ID_SYNCOBJ_TIMELINE_WAIT,
                length_dw: (in_syncs.len() * AMDGPU_CS_CHUNK_SYNCOBJ_SIZE / 4) as u32,
            },
        );
    }
    if out_syncs.len() > 0 {
        chunks.push(
            CsChunk {
                chunk_id: AMDGPU_CHUNK_ID_SYNCOBJ_TIMELINE_SIGNAL,
                length_dw: (out_syncs.len() * AMDGPU_CS_CHUNK_SYNCOBJ_SIZE / 4) as u32,
            },
        );
    }
    proof {
        assert(chunks@ =~= spec_chunks(in_syncs@.len(), out_syncs@.len()));
    }
    Ok(CsSubmission { ib, in_syncs, out_syncs, chunks })
}

/// Page flag: the GPU may read.
pub const AMDGPU_VM_PAGE_READABLE: u32 = 0x2;
/// Page flag: the GPU may write.
pub const AMDGPU_VM_PAGE_WRITEABLE: u32 = 0x4;
/// Page flag: the GPU may execute.
pub const AMDGPU_VM_PAGE_EXECUTABLE: u32 = 0x8;
/// Virtual address operation: map.
pub const AMDGPU_VA_OP_MAP: u32 = 1;
/// Virtual address operation: clear a range.
pub const AMDGPU_VA_OP_CLEAR: u32 = 3;

/// The page flags of a mapping with `flags` (bits of `MagmaGpuMapFlags`):
/// readable, writeable, executable as its read, write and execute bits
/// say; all three when it sets none of them.
pub open spec fn spec_vm_map_flags(flags: u64) -> u32 {
    let r = if flags & 1 != 0 {
        AMDGPU_VM_PAGE_READABLE
    } else {
        0
    };
    let w = if flags & 2 != 0 {
        r | AMDGPU_VM_PAGE_WRITEABLE
    } else {
        r
    };
    let x = if flags & 4 != 0 {
        w | AMDGPU_VM_PAGE_EXECUTABLE
    } else {
        w
    };
    if x == 0 {
        AMDGPU_VM_PAGE_READABLE | AMDGPU_VM_PAGE_WRITEABLE | AMDGPU_VM_PAGE_EXECUTABLE
    } else {
        x
    }
}

/// A mapping is readable, writeable or executable exactly as its read,
/// write and execute bits say, and a mapping that sets none of them gets all
/// three; no other page flag is ever set.
pub proof fn lemma_vm_map_flags_follow_bits(flags: u64)
    ensures
        flags & 7 != 0 ==> (spec_vm_map_flags(flags) & AMDGPU_VM_PAGE_READABLE != 0) == (flags & 1 != 0),
        flags & 7 != 0 ==> (spec_vm_map_flags(flags) & AMDGPU_VM_PAGE_WRITEABLE != 0) == (flags & 2 != 0),
        flags & 7 != 0 ==> (spec_vm_map_flags(flags) & AMDGPU_VM_PAGE_EXECUTABLE != 0) == (flags & 4 != 0),
        flags & 7 == 0 ==> spec_vm_map_flags(flags) == AMDGPU_VM_PAGE_READABLE | AMDGPU_VM_PAGE_WRITEABLE
            | AMDGPU_VM_PAGE_EXECUTABLE,
        spec_vm_map_flags(flags) & !(AMDGPU_VM_PAGE_READABLE | AMDGPU_VM_PAGE_WRITEABLE | AMDGPU_VM_PAGE_EXECUTABLE) == 0,
{
    let r = spec_vm_map_flags(flags);
    let a: u32 = if flags & 1 != 0 { 2u32 } else { 0u32 };
    let b: u32 = if flags & 2 != 0 { a | 4u32 } else { a };
    let c: u32 = if flags & 4 != 0 { b | 8u32 } else { b };
    assert(r == if c == 0 { 2u32 | 4u32 | 8u32 } else { c });
    assert(
        (flags & 7 != 0 ==> ((if c == 0 { 2u32 | 4u32 | 8u32 } else { c }) & 2u32 != 0) == (flags & 1 != 0))
        && (flags & 7 != 0 ==> ((if c == 0 { 2u32 | 4u32 | 8u32 } else { c }) & 4u32 != 0) == (flags & 2 != 0))
        && (flags & 7 != 0 ==> ((if c == 0 { 2u32 | 4u32 | 8u32 } else { c }) & 8u32 != 0) == (flags & 4 != 0))
        && (flags & 7 == 0 ==> (if c == 0 { 2u32 | 4u32 | 8u32 } else { c }) == 2u32 | 4u32 | 8u32)
        && (if c == 0 { 2u32 | 4u32 | 8u32 } else { c }) & !(2u32 | 4u32 | 8u32) == 0
    ) by (bit_vector)
        requires
            a == (if flags & 1 != 0 { 2u32 } else { 0u32 }),
            b == (if flags & 2 != 0 { a | 4u32 } else { a }),
            c == (if flags & 4 != 0 { b | 8u32 } else { b }),
    ;
}

/// The page flags of a mapping with `flags`.
pub fn vm_map_flags(flags: MagmaGpuMapFlags) -> (r: u32)
    ensures
        r == spec_vm_map_flags(flags.spec_bits()),
{
    let mut map_flags: u32 = if flags.bits() & 1 != 0 {
        AMDGPU_VM_PAGE_READABLE
    } else {
        0
    };
    if flags.bits() & 2 != 0 {
        map_flags = map_flags | AMDGPU_VM_PAGE_WRITEABLE;
    }
    if flags.bits() & 4 != 0 {
        map_flags = map_flags | AMDGPU_VM_PAGE_EXECUTABLE;
    }
    if map_flags == 0 {
        map_flags = AMDGPU_VM_PAGE_READABLE | AMDGPU_VM_PAGE_WRITEABLE | AMDGPU_VM_PAGE_EXECUTABLE;
    }
    map_flags
}

/// Sizes of the memories as the kernel reports them.
#[derive(Debug, Clone, Copy, PartialEq, Eq, Structural)]
pub struct AmdGpuVramGtt {
    pub vram_size: u64,
    pub vram_cpu_accessible_size: u64,
    pub gtt_size: u64,
}

/// The budget of a heap whose counters are `source`, with the kernel
/// sizes `sizes` and the usage `usage` that the kernel reports for it.
pub fn heap_budget(source: BudgetSource, sizes: &AmdGpuVramGtt, usage: u64) -> (r: MagmaHeapBudget)
    ensures
        r.usage == usage,
        source == BudgetSource::VisibleVram ==> r.budget == sizes.vram_cpu_accessible_size,
        source == BudgetSource::Vram ==> r.budget == sizes.vram_size,
        source == BudgetSource::Gtt ==> r.budget == sizes.gtt_size,
{
    let budget = match source {
        BudgetSource::VisibleVram => sizes.vram_cpu_accessible_size,
        BudgetSource::Vram => sizes.vram_size,
        BudgetSource::Gtt => sizes.gtt_size,
    };
    MagmaHeapBudget { budget, usage }
}

/// An address space of the amdgpu driver: the VM of the device's file.
pub struct AmdGpuAddressSpace<P: BackendPhysicalDevice> {
    pub physical_device: Arc<P>,
}

impl<P: BackendPhysicalDevice> GenericAddressSpace for AmdGpuAddressSpace<P> {
    /// Unmapping a range is a request to the kernel, which the library
    /// does not make: the answer is always `Unimplemented`, and the holder
    /// of the device file unmaps.
    open spec fn unmaps(&self, gpu_va: u64, size: u64, r: Result<(), Error>) -> bool {
        r == Err::<(), Error>(Error::Unimplemented)
    }

    fn unmap_buffer_gpu(&self, gpu_va: u64, size: u64) -> (r: Result<(), Error>) {
        Err(Error::Unimplemented)
    }
}

impl<P: BackendPhysicalDevice> BackendAddressSpace for AmdGpuAddressSpace<P> {}

/// A command queue of the amdgpu driver: its kernel context.
pub struct AmdGpuQueue<P: BackendPhysicalDevice> {
    physical_device: Arc<P>,
    context_id: u32,
}

impl<P: BackendPhysicalDevice> AmdGpuQueue<P> {
    /// The kernel context id.
    pub closed spec fn spec_context_id(&self) -> u32 {
        self.context_id
    }

    /// The queue of the context that the kernel allocated with id
    /// `context_id`.
    pub fn new(physical_device: Arc<P>, context_id: u32) -> (r: Result<Self, Error>)
        ensures
            r is Ok,
            r->Ok_0.spec_context_id() == context_id,
    {
        Ok(AmdGpuQueue { physical_device, context_id })
    }

    /// The kernel context id.
    pub fn context_id(&self) -> (r: u32)
        ensures
            r == self.spec_context_id(),
    {
        self.context_id
    }
}

/// What an amdgpu device holds, as the contracts see it.
pub struct AmdGpuView {
    pub mem_types: Seq<MagmaMemoryType>,
    pub mem_heaps: Seq<MagmaHeap>,
}

/// A logical device of the amdgpu driver, with its memory types and heaps.
pub struct AmdGpu<P: BackendPhysicalDevice> {
    physical_device: Arc<P>,
    mem_types: Vec<MagmaMemoryType>,
    mem_heaps: Vec<MagmaHeap>,
}

impl<P: BackendPhysicalDevice> View for AmdGpu<P> {
    type V = AmdGpuView;

    closed spec fn view(&self) -> AmdGpuView {
        AmdGpuView { mem_types: self.mem_types@, mem_heaps: self.mem_heaps@ }
    }
}

impl<P: BackendPhysicalDevice> AmdGpu<P> {
    /// The physical device of the device.
    pub closed spec fn spec_physical_device(&self) -> Arc<P> {
        self.physical_device
    }

    /// The device with the memory types and heaps of its physical device;
    /// the first failure of the two queries is returned.
    pub fn new(physical_device: Arc<P>) -> (r: Result<Self, Error>)
        ensures
            r is Ok ==> {
                &&& r->Ok_0.spec_physical_device() == physical_device
                &&& physical_device.reports_memory_types(Ok(r->Ok_0@.mem_types))
                &&& physical_device.reports_memory_heaps(Ok(r->Ok_0@.mem_heaps))
            },
            r is Err ==> physical_device.reports_memory_types(Err(r->Err_0)) || {
                &&& exists|t: Seq<MagmaMemoryType>| #[trigger] physical_device.reports_memory_types(Ok(t))
                &&& physical_device.reports_memory_heaps(Err(r->Err_0))
            },
    {
        let mem_types = physical_device.get_memory_types()?;
        let mem_heaps = physical_device.get_memory_heaps()?;
        Ok(AmdGpu { physical_device, mem_types, mem_heaps })
    }

    /// The memory types of the device.
    pub fn mem_types(&self) -> (r: &Vec<MagmaMemoryType>)
        ensures
            r@ == self@.mem_types,
    {
        &self.mem_types
    }

    /// The memory heaps of the device.
    pub fn mem_heaps(&self) -> (r: &Vec<MagmaHeap>)
        ensures
            r@ == self@.mem_heaps,
    {
        &self.mem_heaps
    }

    /// The kernel counters of heap `heap_idx`.
    pub fn budget_source(&self, heap_idx: u32) -> (r: Result<BudgetSource, Error>)
        ensures
            heap_idx >= self@.mem_heaps.len() ==> r == Err::<BudgetSource, Error>(Error::InvalidArgs),
            heap_idx < self@.mem_heaps.len() ==> ({
                let f = self@.mem_heaps[heap_idx as int].heap_flags;
                let dev = f & MAGMA_HEAP_DEVICE_LOCAL_BIT != 0;
                let cpu = f & MAGMA_HEAP_CPU_VISIBLE_BIT != 0;
                r == (if dev && cpu {
                    Ok::<BudgetSource, Error>(BudgetSource::VisibleVram)
                } else if dev {
                    Ok(BudgetSource::Vram)
                } else if cpu {
                    Ok(BudgetSource::Gtt)
                } else {
                    Err(Error::Unimplemented)
                })
            }),
    {
        budget_source(self.mem_heaps.as_slice(), heap_idx)
    }

    /// Where a new buffer as `create_info` asks goes: its memory type, its
    /// GEM domains and its creation flags.
    pub fn buffer_placement(&self, create_info: &MagmaCreateBufferInfo) -> (r: Result<(MagmaMemoryType, u64, u64), Error>)
        ensures
            create_info.memory_type_idx >= self@.mem_types.len() ==> r == Err::<(MagmaMemoryType, u64, u64), Error>(
                Error::InvalidArgs,
            ),
            create_info.memory_type_idx < self@.mem_types.len() ==> ({
                let mt = self@.mem_types[create_info.memory_type_idx as int];
                r == Ok::<(MagmaMemoryType, u64, u64), Error>(
                    (
                        mt,
                        spec_placement(mt, create_info.vendor_flags).0,
                        spec_placement(mt, create_info.vendor_flags).1,
                    ),
                )
            }),
    {
        buffer_placement(self.mem_types.as_slice(), create_info.memory_type_idx, create_info.vendor_flags)
    }
}

/// A buffer object of the amdgpu kernel driver on a physical device:
/// its handle, size and CPU mapping mode.
pub struct AmdGpuBuffer<P: BackendPhysicalDevice> {
    physical_device: Arc<P>,
    gem_handle: u32,
    size: usize,
    map_info: Option<u32>,
}

impl<P: BackendPhysicalDevice> View for AmdGpuBuffer<P> {
    type V = GemBufferView;

    closed spec fn view(&self) -> GemBufferView {
        GemBufferView { gem_handle: self.gem_handle, size: self.size, map_info: self.map_info }
    }
}

impl<P: BackendPhysicalDevice> AmdGpuBuffer<P> {
    /// The physical device the buffer lives on.
    pub closed spec fn spec_physical_device(&self) -> Arc<P> {
        self.physical_device
    }

    /// The buffer that the kernel created with handle `gem_handle` for a
    /// request of `size` bytes, mapped with `map_info`; `TryFromIntError`
    /// when the size does not fit a `usize`.
    pub fn new(physical_device: Arc<P>, gem_handle: u32, size: u64, map_info: Option<u32>) -> (r: Result<Self, Error>)
        ensures
            size <= usize::MAX ==> r is Ok && r->Ok_0@ == (GemBufferView { gem_handle, size: size as usize, map_info })
                && r->Ok_0.spec_physical_device() == physical_device,
            size > usize::MAX ==> r is Err && r->Err_0 == Error::PlatformError(PlatformError::TryFromIntError),
    {
        let size = match usize_from_u64(size) {
            Some(s) => s,
            None => {
                return Err(Error::PlatformError(PlatformError::TryFromIntError));
            },
        };
        Ok(AmdGpuBuffer { physical_device, gem_handle, size, map_info })
    }

    /// The buffer that the kernel created with handle `gem_handle` for a
    /// request as `create_info` asks, on a device with memory types
    /// `mem_types`: `InvalidArgs` for a memory type index past the types;
    /// else the requested size, mapped as its memory type maps, and
    /// `TryFromIntError` when the size does not fit a `usize`. The kernel is
    /// asked for the buffer where `buffer_placement` says.
    pub fn buffer_from_created(
        mem_types: &[MagmaMemoryType],
        create_info: &MagmaCreateBufferInfo,
        physical_device: Arc<P>,
        gem_handle: u32,
    ) -> (r: Result<Self, Error>)
        ensures
            create_info.memory_type_idx >= mem_types@.len() ==> r == Err::<Self, Error>(Error::InvalidArgs),
            create_info.memory_type_idx < mem_types@.len() && create_info.size <= usize::MAX ==> r is Ok && r->Ok_0@ == (GemBufferView {
                gem_handle,
                size: create_info.size as usize,
                map_info: spec_map_info(mem_types@[create_info.memory_type_idx as int].property_flags),
            }) && r->Ok_0.spec_physical_device() == physical_device,
            create_info.memory_type_idx < mem_types@.len() && create_info.size > usize::MAX ==> r is Err && r->Err_0
                == Error::PlatformError(PlatformError::TryFromIntError),
    {
        let placement = buffer_placement(mem_types, create_info.memory_type_idx, create_info.vendor_flags);
        let memory_type = match placement {
            Ok((mt, _, _)) => mt,
            Err(e) => {
                return Err(e);
            },
        };
        AmdGpuBuffer::new(physical_device, gem_handle, create_info.size, memory_type.get_map_info())
    }

    /// The buffer that handle `gem_handle` already names, of `size` bytes,
    /// mapped with `map_info`.
    pub fn from_existing(physical_device: Arc<P>, gem_handle: u32, size: usize, map_info: Option<u32>) -> (r: Result<Self, Error>)
        ensures
            r is Ok,
            r->Ok_0@ == (GemBufferView { gem_handle, size, map_info }),
            r->Ok_0.spec_physical_device() == physical_device,
    {
        Ok(AmdGpuBuffer { physical_device, gem_handle, size, map_info })
    }

    /// The physical device the buffer lives on.
    pub fn physical_device(&self) -> (r: &Arc<P>)
        ensures
            *r == self.spec_physical_device(),
    {
        &self.physical_device
    }

    /// Size of the buffer in bytes.
    pub fn size(&self) -> (r: usize)
        ensures
            r == self@.size,
    {
        self.size
    }
}

impl<P: BackendPhysicalDevice> GenericBuffer for AmdGpuBuffer<P> {
    fn get_map_info(&self) -> (r: Option<u32>)
        ensures
            r == self@.map_info,
    {
        self.map_info
    }

    fn as_gem_handle(&self) -> (r: Option<u32>)
        ensures
            r == Some(self@.gem_handle),
    {
        Some(self.gem_handle)
    }
}

impl<P: BackendPhysicalDevice> BackendBuffer for AmdGpuBuffer<P> {}


} // verus!
