//! Intel devices under the i915 driver: memory layout from the memory
//! regions that the kernel reports, budgets, and batch submissions.
use std::sync::Arc;

use vstd::prelude::*;

use crate::defines::lemma_visibility_bits;
use crate::defines::types_on_matching_heaps;
use crate::defines::MAGMA_HEAP_CPU_VISIBLE_BIT;
use crate::defines::MAGMA_HEAP_DEVICE_LOCAL_BIT;
use crate::defines::MAGMA_MEMORY_PROPERTY_DEVICE_LOCAL_BIT;
use crate::defines::MAGMA_MEMORY_PROPERTY_HOST_CACHED_BIT;
use crate::defines::MAGMA_MEMORY_PROPERTY_HOST_COHERENT_BIT;
use crate::defines::MAGMA_MEMORY_PROPERTY_HOST_VISIBLE_BIT;
use crate::defines::spec_map_info;
use crate::error::Error;
use crate::error::PlatformError;
use crate::submit::MagmaSubmitBufferInfo;
use crate::traits::BackendAddressSpace;
use crate::traits::BackendBuffer;
use crate::traits::BackendPhysicalDevice;
use crate::traits::GemBufferView;
use crate::traits::GenericAddressSpace;
use crate::traits::GenericBuffer;
use crate::wire::usize_from_u64;
use crate::protocol::MagmaHeap;
use crate::protocol::MagmaHeapBudget;
use crate::protocol::MagmaMemoryType;

verus! {

/// Kernel memory class of system memory.
pub const I915_MEMORY_CLASS_SYSTEM: u16 = 0;
/// Kernel memory class of device memory.
pub const I915_MEMORY_CLASS_DEVICE: u16 = 1;

/// Heap size assumed when the kernel reports no region.
pub const I915_FALLBACK_HEAP_SIZE: u64 = 0x1_0000_0000;

/// Sizes of system memory and of the CPU-mappable and unmappable parts of
/// device memory.
#[derive(Debug, Clone, Copy, PartialEq, Eq, Default)]
pub struct I915MemoryInfo {
    pub sysmem_total: u64,
    pub sysmem_free: u64,
    pub vram_mappable_total: u64,
    pub vram_mappable_free: u64,
    pub vram_unmappable_total: u64,
    pub vram_unmappable_free: u64,
}

/// One memory region as the kernel reports it.
#[derive(Debug, Clone, Copy, PartialEq, Eq, Default)]
pub struct I915MemoryRegion {
    pub memory_class: u16,
    pub probed_size: u64,
    /// `u64::MAX` when the kernel does not tell.
    pub unallocated_size: u64,
    pub probed_cpu_visible_size: u64,
    pub unallocated_cpu_visible_size: u64,
}

/// The region reports nothing that would make a size negative.
pub open spec fn region_consistent(r: I915MemoryRegion) -> bool {
    r.memory_class == I915_MEMORY_CLASS_DEVICE && r.probed_cpu_visible_size > 0 ==> {
        &&& r.probed_cpu_visible_size <= r.probed_size
        &&& r.unallocated_size != u64::MAX ==> r.unallocated_cpu_visible_size <= r.unallocated_size
    }
}

/// `info` after taking region `r` into account: a system region sets the
/// system sizes; a device region sets the device sizes, split at the CPU
/// visible part when there is one; free sizes stay when the kernel does not
/// tell them; other regions change nothing.
pub open spec fn apply_region(info: I915MemoryInfo, r: I915MemoryRegion) -> I915MemoryInfo {
    if r.memory_class == I915_MEMORY_CLASS_SYSTEM {
        I915MemoryInfo { sysmem_total: r.probed_size, sysmem_free: r.unallocated_size, ..info }
    } else if r.memory_class == I915_MEMORY_CLASS_DEVICE {
        if r.probed_cpu_visible_size > 0 {
            let t = I915MemoryInfo {
                vram_mappable_total: r.probed_cpu_visible_size,
                vram_unmappable_total: (r.probed_size - r.probed_cpu_visible_size) as u64,
                ..info
            };
            if r.unallocated_size != u64::MAX {
                I915MemoryInfo {
                    vram_mappable_free: r.unallocated_cpu_visible_size,
                    vram_unmappable_free: (r.unallocated_size - r.unallocated_cpu_visible_size) as u64,
                    ..t
                }
            } else {
                t
            }
        } else {
            let t = I915MemoryInfo {
                vram_mappable_total: r.probed_size,
                vram_unmappable_total: 0,
                ..info
            };
            if r.unallocated_size != u64::MAX {
                I915MemoryInfo { vram_mappable_free: r.unallocated_size, vram_unmappable_free: 0, ..t }
            } else {
                t
            }
        }
    } else {
        info
    }
}

/// The memory information after the first `n` regions, from all zero.
pub open spec fn fold_regions(regions: Seq<I915MemoryRegion>, n: int) -> I915MemoryInfo
    decreases n,
{
    if n <= 0 {
        I915MemoryInfo {
            sysmem_total: 0,
            sysmem_free: 0,
            vram_mappable_total: 0,
            vram_mappable_free: 0,
            vram_unmappable_total: 0,
            vram_unmappable_free: 0,
        }
    } else {
        apply_region(fold_regions(regions, n - 1), regions[n - 1])
    }
}

proof fn lemma_last_region_prefix(regions: Seq<I915MemoryRegion>, k: int, n: int)
    requires
        0 <= k < n <= regions.len(),
        forall|j: int| k < j < n ==> #[trigger] regions[j].memory_class != regions[k].memory_class,
    ensures
        regions[k].memory_class == I915_MEMORY_CLASS_SYSTEM ==> {
            &&& fold_regions(regions, n).sysmem_total == regions[k].probed_size
            &&& fold_regions(regions, n).sysmem_free == regions[k].unallocated_size
        },
        regions[k].memory_class == I915_MEMORY_CLASS_DEVICE ==> {
            &&& fold_regions(regions, n).vram_mappable_total == fold_regions(regions, k + 1).vram_mappable_total
            &&& fold_regions(regions, n).vram_unmappable_total == fold_regions(regions, k + 1).vram_unmappable_total
        },
    decreases n - k,
{
    if n > k + 1 {
        lemma_last_region_prefix(regions, k, n - 1);
        assert(regions[n - 1].memory_class != regions[k].memory_class);
    }
}

/// A later region of a class overrides an earlier one: the last system
/// region gives the size of system memory and what of it is free; the last
/// device region gives the CPU-mappable part of device memory (its CPU-visible
/// size, or all of it when it reports none) and the rest, which together make
/// up its size.
pub proof fn lemma_last_region_of_class_wins(regions: Seq<I915MemoryRegion>, k: int)
    requires
        0 <= k < regions.len(),
        region_consistent(regions[k]),
        forall|j: int| k < j < regions.len() ==> #[trigger] regions[j].memory_class != regions[k].memory_class,
    ensures
        regions[k].memory_class == I915_MEMORY_CLASS_SYSTEM ==> {
            &&& fold_regions(regions, regions.len() as int).sysmem_total == regions[k].probed_size
            &&& fold_regions(regions, regions.len() as int).sysmem_free == regions[k].unallocated_size
        },
        regions[k].memory_class == I915_MEMORY_CLASS_DEVICE ==> {
            &&& fold_regions(regions, regions.len() as int).vram_mappable_total == if regions[k].probed_cpu_visible_size > 0 {
                regions[k].probed_cpu_visible_size
            } else {
                regions[k].probed_size
            }
            &&& fold_regions(regions, regions.len() as int).vram_mappable_total
                + fold_regions(regions, regions.len() as int).vram_unmappable_total == regions[k].probed_size
        },
{
    lemma_last_region_prefix(regions, k, regions.len() as int);
}

/// Gathers the sizes of the reported memory regions, in order; a later
/// region of a class overrides an earlier one.
pub fn query_memory_regions(regions: &[I915MemoryRegion]) -> (r: Result<I915MemoryInfo, Error>)
    requires
        forall|i: int| 0 <= i < regions@.len() ==> region_consistent(#[trigger] regions@[i]),
    ensures
        r == Ok::<I915MemoryInfo, Error>(fold_regions(regions@, regions@.len() as int)),
{
    let mut info = I915MemoryInfo {
        sysmem_total: 0,
        sysmem_free: 0,
        vram_mappable_total: 0,
        vram_mappable_free: 0,
        vram_unmappable_total: 0,
        vram_unmappable_free: 0,
    };
    let mut i: usize = 0;
    while i < regions.len()
        invariant
            i <= regions@.len(),
            info == fold_regions(regions@, i as int),
            forall|j: int| 0 <= j < regions@.len() ==> region_consistent(#[trigger] regions@[j]),
        decreases regions.len() - i,
    {
        let region = regions[i];
        assert(region_consistent(regions@[i as int]));
        if region.memory_class == I915_MEMORY_CLASS_SYSTEM {
            info.sysmem_total = region.probed_size;
            info.sysmem_free = region.unallocated_size;
        } else if region.memory_class == I915_MEMORY_CLASS_DEVICE {
            if region.probed_cpu_visible_size > 0 {
                info.vram_mappable_total = region.probed_cpu_visible_size;
                info.vram_unmappable_total = region.probed_size - region.probed_cpu_visible_size;
                if region.unallocated_size != u64::MAX {
                    info.vram_mappable_free = region.unallocated_cpu_visible_size;
                    info.vram_unmappable_free = region.unallocated_size
                        - region.unallocated_cpu_visible_size;
                }
            } else {
                info.vram_mappable_total = region.probed_size;
                info.vram_unmappable_total = 0;
                if region.unallocated_size != u64::MAX {
                    info.vram_mappable_free = region.unallocated_size;
                    info.vram_unmappable_free = 0;
                }
            }
        }
        i = i + 1;
    }
    Ok(info)
}

/// The memory types and heaps of a device with memory `info`: one heap
/// and type per non-empty part (system, mappable device, unmappable device,
/// in that order), each type on its heap; a single system heap of 4 GiB
/// when all parts are empty.
pub open spec fn spec_memory(info: I915MemoryInfo) -> (Seq<MagmaMemoryType>, Seq<MagmaHeap>) {
    let sys_t = MagmaMemoryType {
        property_flags: MAGMA_MEMORY_PROPERTY_HOST_COHERENT_BIT | MAGMA_MEMORY_PROPERTY_HOST_VISIBLE_BIT
            | MAGMA_MEMORY_PROPERTY_HOST_CACHED_BIT,
        heap_idx: 0,
    };
    let h1: Seq<MagmaHeap> = if info.sysmem_total > 0 {
        seq![MagmaHeap { heap_size: info.sysmem_total, heap_flags: MAGMA_HEAP_CPU_VISIBLE_BIT }]
    } else {
        seq![]
    };
    let t1: Seq<MagmaMemoryType> = if info.sysmem_total > 0 {
        seq![sys_t]
    } else {
        seq![]
    };
    let h2: Seq<MagmaHeap> = if info.vram_mappable_total > 0 {
        h1.push(
            MagmaHeap {
                heap_size: info.vram_mappable_total,
                heap_flags: MAGMA_HEAP_CPU_VISIBLE_BIT | MAGMA_HEAP_DEVICE_LOCAL_BIT,
            },
        )
    } else {
        h1
    };
    let t2: Seq<MagmaMemoryType> = if info.vram_mappable_total > 0 {
        t1.push(
            MagmaMemoryType {
                property_flags: MAGMA_MEMORY_PROPERTY_DEVICE_LOCAL_BIT | MAGMA_MEMORY_PROPERTY_HOST_VISIBLE_BIT,
                heap_idx: h1.len() as u32,
            },
        )
    } else {
        t1
    };
    let h3: Seq<MagmaHeap> = if info.vram_unmappable_total > 0 {
        h2.push(MagmaHeap { heap_size: info.vram_unmappable_total, heap_flags: MAGMA_HEAP_DEVICE_LOCAL_BIT })
    } else {
        h2
    };
    let t3: Seq<MagmaMemoryType> = if info.vram_unmappable_total > 0 {
        t2.push(
            MagmaMemoryType {
                property_flags: MAGMA_MEMORY_PROPERTY_DEVICE_LOCAL_BIT,
                heap_idx: h2.len() as u32,
            },
        )
    } else {
        t2
    };
    if h3.len() == 0 {
        (
            seq![sys_t],
            seq![MagmaHeap { heap_size: I915_FALLBACK_HEAP_SIZE, heap_flags: MAGMA_HEAP_CPU_VISIBLE_BIT }],
        )
    } else {
        (t3, h3)
    }
}

/// The memory that a device reports is consistent: each memory type lies on
/// one of the heaps, host-visible types exactly on the CPU-visible heaps, and
/// the heaps carry the sizes of system memory, CPU-mappable device memory
/// and the rest of device memory in that order, leaving out the empty ones;
/// with none of them, a single CPU-visible heap of the fallback size.
pub proof fn lemma_i915_types_on_matching_heaps(info: I915MemoryInfo)
    ensures
        types_on_matching_heaps(spec_memory(info).0, spec_memory(info).1),
        seq![info.sysmem_total, info.vram_mappable_total, info.vram_unmappable_total].filter(|x: u64| x > 0).len() > 0
            ==> spec_memory(info).1.map_values(|h: MagmaHeap| h.heap_size)
            == seq![info.sysmem_total, info.vram_mappable_total, info.vram_unmappable_total].filter(|x: u64| x > 0),
        seq![info.sysmem_total, info.vram_mappable_total, info.vram_unmappable_total].filter(|x: u64| x > 0).len() == 0
            ==> spec_memory(info).1 == seq![MagmaHeap { heap_size: I915_FALLBACK_HEAP_SIZE, heap_flags: MAGMA_HEAP_CPU_VISIBLE_BIT }],
{
    lemma_visibility_bits();
    let m = spec_memory(info);
    assert(types_on_matching_heaps(m.0, m.1));
    reveal_with_fuel(Seq::filter, 4);
    let sizes = seq![info.sysmem_total, info.vram_mappable_total, info.vram_unmappable_total].filter(|x: u64| x > 0);
    if sizes.len() > 0 {
        assert(m.1.map_values(|h: MagmaHeap| h.heap_size) =~= sizes);
    }
}

/// The memory types and heaps of a device with memory `mem_info`.
pub fn query_memory(mem_info: &I915MemoryInfo) -> (r: Result<(Vec<MagmaMemoryType>, Vec<MagmaHeap>), Error>)
    ensures
        r is Ok,
        r->Ok_0.0@ == spec_memory(*mem_info).0,
        r->Ok_0.1@ == spec_memory(*mem_info).1,
{
    let mut heaps: Vec<MagmaHeap> = Vec::new();
    let mut types: Vec<MagmaMemoryType> = Vec::new();
    let mut heap_idx: u32 = 0;
    if mem_info.sysmem_total > 0 {
        heaps.push(MagmaHeap { heap_size: mem_info.sysmem_total, heap_flags: MAGMA_HEAP_CPU_VISIBLE_BIT });
        types.push(
            MagmaMemoryType {
                property_flags: MAGMA_MEMORY_PROPERTY_HOST_COHERENT_BIT
                    | MAGMA_MEMORY_PROPERTY_HOST_VISIBLE_BIT | MAGMA_MEMORY_PROPERTY_HOST_CACHED_BIT,
                heap_idx,
            },
        );
        heap_idx += 1;
    }
    if mem_info.vram_mappable_total > 0 {
        heaps.push(
            MagmaHeap {
                heap_size: mem_info.vram_mappable_total,
                heap_flags: MAGMA_HEAP_CPU_VISIBLE_BIT | MAGMA_HEAP_DEVICE_LOCAL_BIT,
            },
        );
        types.push(
            MagmaMemoryType {
                property_flags: MAGMA_MEMORY_PROPERTY_DEVICE_LOCAL_BIT
                    | MAGMA_MEMORY_PROPERTY_HOST_VISIBLE_BIT,
                heap_idx,
            },
        );
        heap_idx += 1;
    }
    if mem_info.vram_unmappable_total > 0 {
        heaps.push(MagmaHeap { heap_size: mem_info.vram_unmappable_total, heap_flags: MAGMA_HEAP_DEVICE_LOCAL_BIT });
        types.push(MagmaMemoryType { property_flags: MAGMA_MEMORY_PROPERTY_DEVICE_LOCAL_BIT, heap_idx });
    }
    if heaps.len() == 0 {
        heaps.push(MagmaHeap { heap_size: I915_FALLBACK_HEAP_SIZE, heap_flags: MAGMA_HEAP_CPU_VISIBLE_BIT });
        types.push(
            MagmaMemoryType {
                property_flags: MAGMA_MEMORY_PROPERTY_HOST_COHERENT_BIT
                    | MAGMA_MEMORY_PROPERTY_HOST_VISIBLE_BIT | MAGMA_MEMORY_PROPERTY_HOST_CACHED_BIT,
                heap_idx: 0,
            },
        );
    }
    proof {
        let s = spec_memory(*mem_info);
        assert(types@ =~= s.0);
        assert(heaps@ =~= s.1);
    }
    Ok((types, heaps))
}

/// Budget and usage of `heap`: system memory for a CPU-visible heap that is
/// not device local, the mappable part of device memory for one that is
/// both, the unmappable part for a device-local heap that the CPU cannot
/// see; usage is total minus free.
pub open spec fn spec_heap_budget(heap: MagmaHeap, info: I915MemoryInfo) -> Result<MagmaHeapBudget, Error> {
    let cpu = heap.heap_flags & MAGMA_HEAP_CPU_VISIBLE_BIT != 0;
    let dev = heap.heap_flags & MAGMA_HEAP_DEVICE_LOCAL_BIT != 0;
    if cpu && !dev {
        Ok(MagmaHeapBudget { budget: info.sysmem_total, usage: (info.sysmem_total - info.sysmem_free) as u64 })
    } else if cpu && dev {
        Ok(MagmaHeapBudget {
            budget: info.vram_mappable_total,
            usage: (info.vram_mappable_total - info.vram_mappable_free) as u64,
        })
    } else if !cpu && dev {
        Ok(MagmaHeapBudget {
            budget: info.vram_unmappable_total,
            usage: (info.vram_unmappable_total - info.vram_unmappable_free) as u64,
        })
    } else {
        Err(Error::Unimplemented)
    }
}

/// No free size exceeds its total.
pub open spec fn info_consistent(info: I915MemoryInfo) -> bool {
    &&& info.sysmem_free <= info.sysmem_total
    &&& info.vram_mappable_free <= info.vram_mappable_total
    &&& info.vram_unmappable_free <= info.vram_unmappable_total
}

/// Budget and usage of heap `heap_idx` among `mem_heaps`, from memory
/// `mem_info`; `InvalidArgs` for an index past the heaps.
pub fn get_memory_budget(mem_heaps: &[MagmaHeap], heap_idx: u32, mem_info: &I915MemoryInfo) -> (r: Result<MagmaHeapBudget, Error>)
    requires
        info_consistent(*mem_info),
    ensures
        heap_idx >= mem_heaps@.len() ==> r == Err::<MagmaHeapBudget, Error>(Error::InvalidArgs),
        heap_idx < mem_heaps@.len() ==> r == spec_heap_budget(mem_heaps@[heap_idx as int], *mem_info),
{
    if heap_idx as usize >= mem_heaps.len() {
        return Err(Error::InvalidArgs);
    }
    let heap = &mem_heaps[heap_idx as usize];
    let cpu = heap.is_cpu_visible();
    let dev = heap.is_device_local();
    let (budget, free) = if cpu && !dev {
        (mem_info.sysmem_total, mem_info.sysmem_free)
    } else if cpu && dev {
        (mem_info.vram_mappable_total, mem_info.vram_mappable_free)
    } else if !cpu && dev {
        (mem_info.vram_unmappable_total, mem_info.vram_unmappable_free)
    } else {
        return Err(Error::Unimplemented);
    };
    Ok(MagmaHeapBudget { budget, usage: budget - free })
}

/// Heap flag bits of the three kinds of heap that a device reports.
proof fn lemma_heap_flag_bits()
    ensures
        MAGMA_HEAP_CPU_VISIBLE_BIT & MAGMA_HEAP_CPU_VISIBLE_BIT != 0,
        MAGMA_HEAP_CPU_VISIBLE_BIT & MAGMA_HEAP_DEVICE_LOCAL_BIT == 0,
        (MAGMA_HEAP_CPU_VISIBLE_BIT | MAGMA_HEAP_DEVICE_LOCAL_BIT) & MAGMA_HEAP_CPU_VISIBLE_BIT != 0,
        (MAGMA_HEAP_CPU_VISIBLE_BIT | MAGMA_HEAP_DEVICE_LOCAL_BIT) & MAGMA_HEAP_DEVICE_LOCAL_BIT != 0,
        MAGMA_HEAP_DEVICE_LOCAL_BIT & MAGMA_HEAP_CPU_VISIBLE_BIT == 0,
        MAGMA_HEAP_DEVICE_LOCAL_BIT & MAGMA_HEAP_DEVICE_LOCAL_BIT != 0,
{
    assert(0x10u64 & 0x10u64 != 0 && 0x10u64 & 0x1u64 == 0 && (0x10u64 | 0x1u64) & 0x10u64 != 0
        && (0x10u64 | 0x1u64) & 0x1u64 != 0 && 0x1u64 & 0x10u64 == 0 && 0x1u64 & 0x1u64 != 0) by (bit_vector);
}

/// The budget of a heap depends on its kind, read from the memory regions:
/// system memory for a CPU-visible heap, the CPU-mappable part of device
/// memory for a heap both CPU visible and device local, the rest of device
/// memory for a device-local heap; usage is the total minus what is free.
pub proof fn lemma_budget_by_heap_kind(size: u64, info: I915MemoryInfo)
    requires
        info_consistent(info),
    ensures
        spec_heap_budget(MagmaHeap { heap_size: size, heap_flags: MAGMA_HEAP_CPU_VISIBLE_BIT }, info)
            == Ok::<MagmaHeapBudget, Error>(MagmaHeapBudget { budget: info.sysmem_total, usage: (info.sysmem_total - info.sysmem_free) as u64 }),
        spec_heap_budget(MagmaHeap { heap_size: size, heap_flags: MAGMA_HEAP_CPU_VISIBLE_BIT | MAGMA_HEAP_DEVICE_LOCAL_BIT }, info)
            == Ok::<MagmaHeapBudget, Error>(MagmaHeapBudget {
                budget: info.vram_mappable_total,
                usage: (info.vram_mappable_total - info.vram_mappable_free) as u64,
            }),
        spec_heap_budget(MagmaHeap { heap_size: size, heap_flags: MAGMA_HEAP_DEVICE_LOCAL_BIT }, info)
            == Ok::<MagmaHeapBudget, Error>(MagmaHeapBudget {
                budget: info.vram_unmappable_total,
                usage: (info.vram_unmappable_total - info.vram_unmappable_free) as u64,
            }),
{
    lemma_heap_flag_bits();
}

/// Each heap that a device reports has, as its budget, its own size, as
/// long as some memory region is reported: the budget of heap `i` is the
/// size of heap `i`, and its usage never exceeds it.
pub proof fn lemma_budget_is_heap_size(info: I915MemoryInfo, i: int)
    requires
        info_consistent(info),
        info.sysmem_total > 0 || info.vram_mappable_total > 0 || info.vram_unmappable_total > 0,
        0 <= i < spec_memory(info).1.len(),
    ensures
        spec_heap_budget(spec_memory(info).1[i], info) is Ok,
        spec_heap_budget(spec_memory(info).1[i], info)->Ok_0.budget == spec_memory(info).1[i].heap_size,
        spec_heap_budget(spec_memory(info).1[i], info)->Ok_0.usage <= spec_memory(info).1[i].heap_size,
{
    lemma_heap_flag_bits();
    let h = spec_memory(info).1[i];
    lemma_budget_by_heap_kind(h.heap_size, info);
}

/// Execution flag: run on the render engine.
pub const I915_EXEC_RENDER: u64 = 1;

/// What a batch submission hands to the kernel.
#[derive(Debug, Clone, Copy, PartialEq, Eq, Structural)]
pub struct I915Execbuffer {
    pub handle: u32,
    pub batch_start_offset: u32,
    pub batch_len: u32,
    pub flags: u64,
    pub rsvd1: u64,
}

/// The batch submission on context `context_id` of the commands in the
/// command buffer of `buf_info` (offset and length cut to 32 bits), on the
/// render engine; `Unimplemented` without a command-buffer extension.
pub fn gem_execbuffer2(context_id: u32, buf_info: Option<MagmaSubmitBufferInfo>) -> (r: Result<I915Execbuffer, Error>)
    ensures
        buf_info is None ==> r == Err::<I915Execbuffer, Error>(Error::Unimplemented),
        buf_info is Some ==> r == Ok::<I915Execbuffer, Error>(
            I915Execbuffer {
                handle: buf_info->0.command_buffer,
                batch_start_offset: buf_info->0.start_offset as u32,
                batch_len: buf_info->0.length as u32,
                flags: I915_EXEC_RENDER,
                rsvd1: context_id as u64,
            },
        ),
{
    let b = match buf_info {
        Some(b) => b,
        None => {
            return Err(Error::Unimplemented);
        },
    };
    Ok(I915Execbuffer {
        handle: b.command_buffer,
        batch_start_offset: #[verifier::truncate] (b.start_offset as u32),
        batch_len: #[verifier::truncate] (b.length as u32),
        flags: I915_EXEC_RENDER,
        rsvd1: context_id as u64,
    })
}

/// An address space of the i915 driver; it holds nothing but its device.
pub struct I915AddressSpace<P: BackendPhysicalDevice> {
    physical_device: Arc<P>,
}

impl<P: BackendPhysicalDevice> I915AddressSpace<P> {
    /// The physical device of the address space.
    pub closed spec fn spec_physical_device(&self) -> Arc<P> {
        self.physical_device
    }

    /// The address space on `physical_device`.
    pub fn new(physical_device: Arc<P>) -> (r: I915AddressSpace<P>)
        ensures
            r.spec_physical_device() == physical_device,
    {
        I915AddressSpace { physical_device }
    }
}

impl<P: BackendPhysicalDevice> GenericAddressSpace for I915AddressSpace<P> {
    /// This driver offers no unmapping: the answer is always
    /// `Unimplemented`.
    open spec fn unmaps(&self, gpu_va: u64, size: u64, r: Result<(), Error>) -> bool {
        r == Err::<(), Error>(Error::Unimplemented)
    }

    fn unmap_buffer_gpu(&self, gpu_va: u64, size: u64) -> (r: Result<(), Error>) {
        Err(Error::Unimplemented)
    }
}

impl<P: BackendPhysicalDevice> BackendAddressSpace for I915AddressSpace<P> {}

/// A command queue of the i915 driver: its kernel context.
pub struct I915Queue<P: BackendPhysicalDevice> {
    physical_device: Arc<P>,
    context_id: u32,
}

impl<P: BackendPhysicalDevice> I915Queue<P> {
    /// The kernel context id.
    pub closed spec fn spec_context_id(&self) -> u32 {
        self.context_id
    }

    /// The queue of the context that the kernel created with id `context_id`.
    pub fn new(physical_device: Arc<P>, context_id: u32) -> (r: Result<Self, Error>)
        ensures
            r is Ok,
            r->Ok_0.spec_context_id() == context_id,
    {
        Ok(I915Queue { physical_device, context_id })
    }

    /// The batch submission of the commands in `buf_info` on this queue.
    pub fn submit_command(&self, buf_info: Option<MagmaSubmitBufferInfo>) -> (r: Result<I915Execbuffer, Error>)
        ensures
            buf_info is None ==> r == Err::<I915Execbuffer, Error>(Error::Unimplemented),
            buf_info is Some ==> r is Ok && r->Ok_0.rsvd1 == self.spec_context_id() as u64
                && r->Ok_0.handle == buf_info->0.command_buffer,
    {
        gem_execbuffer2(self.context_id, buf_info)
    }
}

/// What an i915 device holds, as the contracts see it.
pub struct I915View {
    pub mem_types: Seq<MagmaMemoryType>,
    pub mem_heaps: Seq<MagmaHeap>,
}

/// A logical device of the i915 driver, with its memory types and heaps.
pub struct I915<P: BackendPhysicalDevice> {
    physical_device: Arc<P>,
    mem_types: Vec<MagmaMemoryType>,
    mem_heaps: Vec<MagmaHeap>,
}

impl<P: BackendPhysicalDevice> View for I915<P> {
    type V = I915View;

    closed spec fn view(&self) -> I915View {
        I915View { mem_types: self.mem_types@, mem_heaps: self.mem_heaps@ }
    }
}

impl<P: BackendPhysicalDevice> I915<P> {
    /// The physical device of the device.
    pub closed spec fn spec_physical_device(&self) -> Arc<P> {
        self.physical_device
    }

    /// The device whose memory the kernel reports as `mem_info`.
    pub fn new(physical_device: Arc<P>, mem_info: &I915MemoryInfo) -> (r: Result<Self, Error>)
        ensures
            r is Ok,
            r->Ok_0.spec_physical_device() == physical_device,
            r->Ok_0@ == (I915View { mem_types: spec_memory(*mem_info).0, mem_heaps: spec_memory(*mem_info).1 }),
    {
        let (mem_types, mem_heaps) = query_memory(mem_info)?;
        Ok(I915 { physical_device, mem_types, mem_heaps })
    }

    /// The memory types of the device.
    pub fn mem_types(&self) -> (r: &Vec<MagmaMemoryType>)
        ensures
            r@ == self@.mem_types,
    {
        &self.mem_types
    }

    /// The memory heaps of the device.
    pub fn mem_heaps(&self) -> (r: &Vec<MagmaHeap>)
        ensures
            r@ == self@.mem_heaps,
    {
        &self.mem_heaps
    }

    /// Budget and usage of heap `heap_idx`, from memory `mem_info` that the
    /// kernel reports now.
    pub fn get_memory_budget(&self, heap_idx: u32, mem_info: &I915MemoryInfo) -> (r: Result<MagmaHeapBudget, Error>)
        requires
            info_consistent(*mem_info),
        ensures
            heap_idx >= self@.mem_heaps.len() ==> r == Err::<MagmaHeapBudget, Error>(Error::InvalidArgs),
            heap_idx < self@.mem_heaps.len() ==> r == spec_heap_budget(self@.mem_heaps[heap_idx as int], *mem_info),
    {
        get_memory_budget(self.mem_heaps.as_slice(), heap_idx, mem_info)
    }

    /// The mapping mode of a new buffer of memory type `memory_type_idx`;
    /// `InvalidArgs` for an index past the types.
    pub fn buffer_map_info(&self, memory_type_idx: u32) -> (r: Result<Option<u32>, Error>)
        ensures
            memory_type_idx >= self@.mem_types.len() ==> r == Err::<Option<u32>, Error>(Error::InvalidArgs),
            memory_type_idx < self@.mem_types.len() ==> r == Ok::<Option<u32>, Error>(
                spec_map_info(self@.mem_types[memory_type_idx as int].property_flags),
            ),
    {
        if memory_type_idx as usize >= self.mem_types.len() {
            return Err(Error::InvalidArgs);
        }
        Ok(self.mem_types[memory_type_idx as usize].get_map_info())
    }
}

/// A buffer object of the i915 kernel driver on a physical device:
/// its handle, size and CPU mapping mode.
pub struct I915Buffer<P: BackendPhysicalDevice> {
    physical_device: Arc<P>,
    gem_handle: u32,
    size: usize,
    map_info: Option<u32>,
}

impl<P: BackendPhysicalDevice> View for I915Buffer<P> {
    type V = GemBufferView;

    closed spec fn view(&self) -> GemBufferView {
        GemBufferView { gem_handle: self.gem_handle, size: self.size, map_info: self.map_info }
    }
}

impl<P: BackendPhysicalDevice> I915Buffer<P> {
    /// The physical device the buffer lives on.
    pub closed spec fn spec_physical_device(&self) -> Arc<P> {
        self.physical_device
    }

    /// The buffer that the kernel created with handle `gem_handle` for a
    /// request of `size` bytes, mapped with `map_info`; `TryFromIntError`
    /// when the size does not fit a `usize`.
    pub fn new(physical_device: Arc<P>, gem_handle: u32, size: u64, map_info: Option<u32>) -> (r: Result<Self, Error>)
        ensures
            size <= usize::MAX ==> r is Ok && r->Ok_0@ == (GemBufferView { gem_handle, size: size as usize, map_info })
                && r->Ok_0.spec_physical_device() == physical_device,
            size > usize::MAX ==> r is Err && r->Err_0 == Error::PlatformError(PlatformError::TryFromIntError),
    {
        let size = match usize_from_u64(size) {
            Some(s) => s,
            None => {
                return Err(Error::PlatformError(PlatformError::TryFromIntError));
            },
        };
        Ok(I915Buffer { physical_device, gem_handle, size, map_info })
    }

    /// The buffer that handle `gem_handle` already names, of `size` bytes,
    /// mapped with `map_info`.
    pub fn from_existing(physical_device: Arc<P>, gem_handle: u32, size: usize, map_info: Option<u32>) -> (r: Result<Self, Error>)
        ensures
            r is Ok,
            r->Ok_0@ == (GemBufferView { gem_handle, size, map_info }),
            r->Ok_0.spec_physical_device() == physical_device,
    {
        Ok(I915Buffer { physical_device, gem_handle, size, map_info })
    }

    /// The physical device the buffer lives on.
    pub fn physical_device(&self) -> (r: &Arc<P>)
        ensures
            *r == self.spec_physical_device(),
    {
        &self.physical_device
    }

    /// Size of the buffer in bytes.
    pub fn size(&self) -> (r: usize)
        ensures
            r == self@.size,
    {
        self.size
    }
}

impl<P: BackendPhysicalDevice> GenericBuffer for I915Buffer<P> {
    fn get_map_info(&self) -> (r: Option<u32>)
        ensures
            r == self@.map_info,
    {
        self.map_info
    }

    fn as_gem_handle(&self) -> (r: Option<u32>)
        ensures
            r == Some(self@.gem_handle),
    {
        Some(self.gem_handle)
    }
}

impl<P: BackendPhysicalDevice> BackendBuffer for I915Buffer<P> {}


/// Number of elements of `element_size` bytes that a query answer of
/// `length` bytes holds after its header of `header_size` bytes, rounded
/// up.
pub open spec fn query_elements(length: int, header_size: int, element_size: int) -> int {
    let rest = if length >= header_size { length - header_size } else { 0 };
    (rest + element_size - 1) / element_size
}

/// How many elements to make room for, after the kernel answered the size
/// probe of a query with `length`: a negative length is the kernel's
/// failure, given back as its error number.
pub fn query_element_count(length: i32, header_size: usize, element_size: usize) -> (r: Result<usize, i32>)
    requires
        element_size > 0,
        length > i32::MIN,
    ensures
        length < 0 ==> r == Err::<usize, i32>(-length as i32),
        length >= 0 ==> r == Ok::<usize, i32>(query_elements(length as int, header_size as int, element_size as int) as usize),
{
    if length < 0 {
        return Err(-length);
    }
    let total = length as usize;
    let rest = if total >= header_size { total - header_size } else { 0 };
    let count = rest / element_size + if rest % element_size != 0 { 1 } else { 0 };
    proof {
        assert(count == (rest + element_size - 1) / element_size as int) by (nonlinear_arith)
            requires
                element_size > 0,
                count == rest / element_size + if rest % element_size != 0 { 1int } else { 0int },
        {
        }
    }
    Ok(count)
}

} // verus!
