use magma::amdgpu::budget_source;
use magma::amdgpu::buffer_placement;
use magma::amdgpu::count_ones;
use magma::amdgpu::get_queue_family_properties;
use magma::amdgpu::heap_budget;
use magma::amdgpu::query_memory;
use magma::amdgpu::submit_command;
use magma::amdgpu::vm_map_flags;
use magma::amdgpu::AmdGpuVramGtt;
use magma::amdgpu::BudgetSource;
use magma::amdgpu::SubmitSyncObj;
use magma::amdgpu::AMDGPU_CHUNK_ID_IB;
use magma::amdgpu::AMDGPU_CHUNK_ID_SYNCOBJ_TIMELINE_SIGNAL;
use magma::amdgpu::AMDGPU_CHUNK_ID_SYNCOBJ_TIMELINE_WAIT;
use magma::amdgpu::AMDGPU_GEM_CREATE_CPU_GTT_USWC;
use magma::amdgpu::AMDGPU_GEM_CREATE_DISCARDABLE;
use magma::amdgpu::AMDGPU_GEM_CREATE_ENCRYPTED;
use magma::amdgpu::AMDGPU_GEM_CREATE_EXPLICIT_SYNC;
use magma::amdgpu::AMDGPU_GEM_CREATE_NO_CPU_ACCESS;
use magma::amdgpu::AMDGPU_GEM_DOMAIN_GDS;
use magma::amdgpu::AMDGPU_GEM_DOMAIN_GTT;
use magma::amdgpu::AMDGPU_GEM_DOMAIN_OA;
use magma::amdgpu::AMDGPU_GEM_DOMAIN_VRAM;
use magma::amdgpu::DRM_SYNCOBJ_WAIT_FLAGS_WAIT_FOR_SUBMIT;
use magma::defines::MAGMA_BUFFER_FLAG_AMD_GDS;
use magma::defines::MAGMA_BUFFER_FLAG_AMD_OA;
use magma::defines::MAGMA_HEAP_CPU_VISIBLE_BIT;
use magma::defines::MAGMA_HEAP_DEVICE_LOCAL_BIT;
use magma::defines::MAGMA_MEMORY_PROPERTY_DEVICE_LOCAL_BIT;
use magma::defines::MAGMA_MEMORY_PROPERTY_HOST_COHERENT_BIT;
use magma::defines::MAGMA_MEMORY_PROPERTY_PROTECTED_BIT;
use magma::error::Error;
use magma::protocol::MagmaGpuMapFlags;
use magma::protocol::MagmaHeap;
use magma::protocol::MagmaMemoryType;
use magma::protocol::MagmaSubmitAddressSpaceInfo;

#[test]
fn amd_memory_layout() {
    let (types, heaps) = query_memory(1 << 30, 4 << 30, 256 << 20);
    assert_eq!(heaps.len(), 3);
    assert_eq!((heaps[0].heap_size, heaps[0].heap_flags), (1 << 30, MAGMA_HEAP_CPU_VISIBLE_BIT));
    assert_eq!((heaps[1].heap_size, heaps[1].heap_flags), (4 << 30, MAGMA_HEAP_DEVICE_LOCAL_BIT));
    assert_eq!(heaps[2].heap_flags, MAGMA_HEAP_DEVICE_LOCAL_BIT | MAGMA_HEAP_CPU_VISIBLE_BIT);
    assert_eq!(types.len(), 4);
    assert_eq!(types.iter().map(|t| t.heap_idx).collect::<Vec<_>>(), vec![0, 0, 1, 2]);
    assert_eq!(types[0].property_flags, 0x6);
    assert_eq!(types[1].property_flags, 0xe);
    assert_eq!(types[2].property_flags, 0x1);
    assert_eq!(types[3].property_flags, 0x7);
    // Without GTT, the VRAM heap comes first.
    let (types, heaps) = query_memory(0, 4 << 30, 0);
    assert_eq!(heaps.len(), 1);
    assert_eq!(types.len(), 1);
    assert_eq!(types[0].heap_idx, 0);
    let (types, heaps) = query_memory(0, 0, 0);
    assert!(types.is_empty() && heaps.is_empty());
}

#[test]
fn amd_queue_families() {
    let f = get_queue_family_properties(1, Some(0b1011)).unwrap();
    assert_eq!(f.len(), 2);
    assert_eq!((f[0].queue_flags.bits(), f[0].queue_count), (3, 1));
    assert_eq!((f[1].queue_flags.bits(), f[1].queue_count), (2, 3));
    let f = get_queue_family_properties(0, Some(1)).unwrap();
    assert_eq!((f[0].queue_flags.bits(), f[0].queue_count), (2, 1));
    let f = get_queue_family_properties(2, None).unwrap();
    assert_eq!(f.len(), 1);
    assert_eq!(get_queue_family_properties(0, Some(0)).err(), Some(Error::InternalError));
    assert_eq!(get_queue_family_properties(0, None).err(), Some(Error::InternalError));
}

#[test]
fn amd_count_ones() {
    assert_eq!(count_ones(0), 0);
    assert_eq!(count_ones(u32::MAX), 32);
    assert_eq!(count_ones(0x8000_0001), 2);
}

#[test]
fn amd_buffer_placement() {
    let types = vec![
        MagmaMemoryType::new(MAGMA_MEMORY_PROPERTY_HOST_COHERENT_BIT, 0),
        MagmaMemoryType::new(MAGMA_MEMORY_PROPERTY_DEVICE_LOCAL_BIT | MAGMA_MEMORY_PROPERTY_PROTECTED_BIT, 1),
    ];
    let base = AMDGPU_GEM_CREATE_EXPLICIT_SYNC | AMDGPU_GEM_CREATE_DISCARDABLE;
    let (_, domains, flags) = buffer_placement(&types, 0, 0).unwrap();
    assert_eq!(domains, AMDGPU_GEM_DOMAIN_GTT);
    assert_eq!(flags, base | AMDGPU_GEM_CREATE_CPU_GTT_USWC);
    let (mt, domains, flags) = buffer_placement(&types, 1, 0).unwrap();
    assert_eq!(mt.heap_idx, 1);
    assert_eq!(domains, AMDGPU_GEM_DOMAIN_VRAM);
    assert_eq!(flags, base | AMDGPU_GEM_CREATE_NO_CPU_ACCESS | AMDGPU_GEM_CREATE_ENCRYPTED);
    assert_eq!(buffer_placement(&types, 1, MAGMA_BUFFER_FLAG_AMD_OA).unwrap().1, AMDGPU_GEM_DOMAIN_OA);
    assert_eq!(buffer_placement(&types, 1, MAGMA_BUFFER_FLAG_AMD_GDS).unwrap().1, AMDGPU_GEM_DOMAIN_GDS);
    assert_eq!(buffer_placement(&types, 2, 0).err(), Some(Error::InvalidArgs));
}

#[test]
fn amd_budget_sources() {
    let heaps = vec![
        MagmaHeap::new(1, MAGMA_HEAP_CPU_VISIBLE_BIT),
        MagmaHeap::new(2, MAGMA_HEAP_DEVICE_LOCAL_BIT),
        MagmaHeap::new(3, MAGMA_HEAP_DEVICE_LOCAL_BIT | MAGMA_HEAP_CPU_VISIBLE_BIT),
        MagmaHeap::new(4, 0),
    ];
    assert_eq!(budget_source(&heaps, 0), Ok(BudgetSource::Gtt));
    assert_eq!(budget_source(&heaps, 1), Ok(BudgetSource::Vram));
    assert_eq!(budget_source(&heaps, 2), Ok(BudgetSource::VisibleVram));
    assert_eq!(budget_source(&heaps, 3), Err(Error::Unimplemented));
    assert_eq!(budget_source(&heaps, 4), Err(Error::InvalidArgs));
    let sizes = AmdGpuVramGtt { vram_size: 100, vram_cpu_accessible_size: 10, gtt_size: 50 };
    let b = heap_budget(BudgetSource::VisibleVram, &sizes, 7);
    assert_eq!((b.budget, b.usage), (10, 7));
    assert_eq!(heap_budget(BudgetSource::Gtt, &sizes, 1).budget, 50);
    assert_eq!(heap_budget(BudgetSource::Vram, &sizes, 1).budget, 100);
}

#[test]
fn amd_map_flags() {
    assert_eq!(vm_map_flags(MagmaGpuMapFlags::from_bits_retain(1)), 0x2);
    assert_eq!(vm_map_flags(MagmaGpuMapFlags::from_bits_retain(3)), 0x6);
    assert_eq!(vm_map_flags(MagmaGpuMapFlags::from_bits_retain(4)), 0x8);
    // Without read, write and execute bits, everything is allowed.
    assert_eq!(vm_map_flags(MagmaGpuMapFlags::from_bits_retain(0)), 0xe);
    assert_eq!(vm_map_flags(MagmaGpuMapFlags::from_bits_retain(8)), 0xe);
}

#[test]
fn amd_submission_chunks() {
    let as_info = MagmaSubmitAddressSpaceInfo::new(0x1_0000, 256);
    let waits = vec![
        SubmitSyncObj { handle: Some(5), is_timeline: true, point: 7 },
        SubmitSyncObj { handle: None, is_timeline: false, point: 0 },
        SubmitSyncObj { handle: Some(6), is_timeline: true, point: 0 },
    ];
    let signals = vec![SubmitSyncObj { handle: Some(9), is_timeline: false, point: 3 }];
    let s = submit_command(Some(as_info), &waits, &signals).unwrap();
    assert_eq!(s.ib.va_start, 0x1_0000);
    assert_eq!(s.ib.ib_bytes, 256);
    assert_eq!(s.in_syncs.len(), 2);
    assert_eq!((s.in_syncs[0].handle, s.in_syncs[0].flags, s.in_syncs[0].point), (5, DRM_SYNCOBJ_WAIT_FLAGS_WAIT_FOR_SUBMIT, 7));
    assert_eq!((s.in_syncs[1].handle, s.in_syncs[1].flags, s.in_syncs[1].point), (6, 0, 0));
    assert_eq!((s.out_syncs[0].handle, s.out_syncs[0].flags, s.out_syncs[0].point), (9, 0, 0));
    let chunks: Vec<(u32, u32)> = s.chunks.iter().map(|c| (c.chunk_id, c.length_dw)).collect();
    assert_eq!(
        chunks,
        vec![(AMDGPU_CHUNK_ID_IB, 8), (AMDGPU_CHUNK_ID_SYNCOBJ_TIMELINE_WAIT, 8), (AMDGPU_CHUNK_ID_SYNCOBJ_TIMELINE_SIGNAL, 4)]
    );
    let s = submit_command(Some(as_info), &[], &[]).unwrap();
    assert_eq!(s.chunks.len(), 1);
    assert_eq!(submit_command(None, &[], &[]).err(), Some(Error::Unimplemented));
}
