use kernel::memory_management::bootstrap::SlabInfoTable;
use kernel::memory_management::general_purpose_allocator::{
    heap_zones, AllocError, DlmallocSystemAllocator, GeneralPurposeAllocator,
};
use kernel::memory_management::physical_memory_manager::{init, PhysicalMemoryManager};
use kernel::memory_management::slab_allocator::{
    alloc_slab, free_slab, has_slab_info_slot, slab_info_slot, slab_owned, slab_zones,
    valid_slab_size, DefaultMemoryBackend, SlabInfoCacheMemoryBackend,
};
use kernel::memory_management::zones::{MemoryRegion, MemoryRegionKind, MemoryZoneEnum};
use std::cell::RefCell;

const OFFSET: u64 = 0xFFFF_A000_0000_0000;

fn usable(start: u64, end: u64) -> MemoryRegion {
    MemoryRegion { start, end, kind: MemoryRegionKind::Usable }
}

fn pmm() -> PhysicalMemoryManager {
    let map = [
        usable(0x100000, 0x800000),
        usable(0x1000000, 0x8000_0000),
        usable(0x1_0000_0000, 0x2_0000_0000),
    ];
    init(&map, |size, page| Some(size / page / 4)).unwrap()
}

fn low_pmm() -> PhysicalMemoryManager {
    init(&[usable(0x100000, 0x800000), usable(0x1000000, 0x8000_0000)], |size, page| {
        Some(size / page / 4)
    })
    .unwrap()
}

#[test]
fn slabs_come_from_high_then_isa_dma_then_dma32() {
    assert_eq!(slab_zones(), [MemoryZoneEnum::High, MemoryZoneEnum::IsaDma, MemoryZoneEnum::Dma32]);
}

#[test]
fn heap_chunks_come_from_high_then_dma32_then_isa_dma() {
    assert_eq!(heap_zones(), [MemoryZoneEnum::High, MemoryZoneEnum::Dma32, MemoryZoneEnum::IsaDma]);
}

#[test]
fn slab_sizes() {
    assert!(valid_slab_size(4096, 4096));
    assert!(valid_slab_size(8192, 4096));
    assert!(valid_slab_size(1 << 21, 4096));
    assert!(!valid_slab_size(0, 4096));
    assert!(!valid_slab_size(2048, 4096));
    assert!(!valid_slab_size(2048, 1024));
    assert!(!valid_slab_size(12288, 4096));
    assert!(!valid_slab_size(4096, 0));
    assert!(!valid_slab_size(4096, 8192));
    assert!(!valid_slab_size(4096, 3000));
}

#[test]
fn slab_is_the_mirror_of_the_physical_frame() {
    let pmm = pmm();
    let asked = RefCell::new(Vec::new());
    let malloc = |zone: MemoryZoneEnum, size: usize| {
        asked.borrow_mut().push((zone, size));
        match zone {
            MemoryZoneEnum::High => 0,
            other => other.min_first_page() + 0x8000,
        }
    };
    assert_eq!(alloc_slab(&pmm, 8192, 4096, &malloc), OFFSET + 0x108000);
    assert_eq!(*asked.borrow(), vec![(MemoryZoneEnum::High, 8192), (MemoryZoneEnum::IsaDma, 8192)]);
    let mut backend = DefaultMemoryBackend;
    assert_eq!(backend.alloc_slab(&pmm, 4096, 4096, &malloc), OFFSET + 0x108000);
    let mut info_backend = SlabInfoCacheMemoryBackend;
    assert_eq!(
        info_backend.alloc_slab(&pmm, 4096, 4096, |zone: MemoryZoneEnum, _: usize| zone
            .max_last_page()),
        OFFSET + 0xFF_FFFF_F000
    );
}

#[test]
fn slab_is_null_without_memory() {
    let pmm = pmm();
    assert_eq!(alloc_slab(&pmm, 4096, 4096, |_, _| 0), 0);
    let mut backend = DefaultMemoryBackend;
    assert_eq!(backend.alloc_slab(&pmm, 4096, 4096, |_, _| 0), 0);
    let mut info_backend = SlabInfoCacheMemoryBackend;
    assert_eq!(info_backend.alloc_slab(&pmm, 4096, 4096, |_, _| 0), 0);
}

#[test]
fn slab_is_freed_at_its_physical_address() {
    let pmm = pmm();
    let freed = RefCell::new(Vec::new());
    let free_in_zone = |zone: MemoryZoneEnum, addr: u64| freed.borrow_mut().push((zone, addr));
    assert!(slab_owned(&pmm, OFFSET + 0x108000));
    assert!(!slab_owned(&pmm, 0x108000));
    assert!(!slab_owned(&pmm, OFFSET));
    assert!(!slab_owned(&pmm, OFFSET + 0x108800));
    assert!(!slab_owned(&low_pmm(), OFFSET + 0x1_0000_0000));
    assert_eq!(free_slab(&pmm, OFFSET + 0x108000, 8192, 4096, &free_in_zone), MemoryZoneEnum::IsaDma);
    let mut backend = DefaultMemoryBackend;
    assert_eq!(
        backend.free_slab(&pmm, OFFSET + 0x1_0000_0000, 4096, 4096, &free_in_zone),
        MemoryZoneEnum::High
    );
    let mut info_backend = SlabInfoCacheMemoryBackend;
    assert_eq!(
        info_backend.free_slab(&pmm, OFFSET + 0x2000000, 4096, 4096, &free_in_zone),
        MemoryZoneEnum::Dma32
    );
    assert_eq!(
        *freed.borrow(),
        vec![
            (MemoryZoneEnum::IsaDma, 0x108000),
            (MemoryZoneEnum::High, 0x1_0000_0000),
            (MemoryZoneEnum::Dma32, 0x2000000),
        ]
    );
}

#[test]
fn slab_info_slot_is_the_number_of_the_physical_page() {
    let table = SlabInfoTable { phys_addr: 0x1_0000_0000, entries: 0x200000, size: 0x1000000 };
    assert_eq!(slab_info_slot(&table, OFFSET), 0);
    assert_eq!(slab_info_slot(&table, OFFSET + 0x100000), 0x100);
    assert_eq!(slab_info_slot(&table, OFFSET + 0x100FFF), 0x100);
    assert_eq!(slab_info_slot(&table, OFFSET + 0x1_2345_6000), 0x123456);
    let mut backend = DefaultMemoryBackend;
    assert_eq!(backend.save_slab_info_ptr(&table, OFFSET + 0x7000), 7);
    assert_eq!(backend.get_slab_info_ptr(&table, OFFSET + 0x7000), 7);
    assert!(!backend.delete_slab_info_ptr(&table, OFFSET + 0x7000));
    assert_eq!(backend.get_slab_info_ptr(&table, OFFSET + 0x7000), 7);
}

#[test]
fn slab_info_slot_must_lie_in_the_table() {
    let table = SlabInfoTable { phys_addr: 0x100000, entries: 272, size: 0x1000 };
    assert!(has_slab_info_slot(&table, OFFSET));
    assert!(has_slab_info_slot(&table, OFFSET + 0x100000));
    assert!(has_slab_info_slot(&table, OFFSET + 0x10FFFF));
    assert!(!has_slab_info_slot(&table, OFFSET + 0x110000));
    assert!(!has_slab_info_slot(&table, 0x5000));
    assert!(!has_slab_info_slot(&table, OFFSET - 1));
}

#[test]
fn every_usable_page_has_a_slab_info_slot() {
    for manager in [pmm(), low_pmm()] {
        let table = manager.slab_info_table;
        for r in manager.regions.all.to_vec() {
            for page in [r.first_page, r.last_page] {
                assert!(has_slab_info_slot(&table, OFFSET + page));
                assert!(has_slab_info_slot(&table, OFFSET + page + 4095));
                assert_eq!(slab_info_slot(&table, OFFSET + page), page / 4096);
            }
        }
        let last_page = manager.regions.all.to_vec().last().unwrap().last_page;
        assert_eq!(slab_info_slot(&table, OFFSET + last_page), table.entries - 1);
        assert!(!has_slab_info_slot(&table, OFFSET + last_page + 4096));
    }
}

#[test]
fn heap_chunk_is_the_mirror_of_the_physical_frame() {
    let pmm = low_pmm();
    let system = DlmallocSystemAllocator;
    let asked = RefCell::new(Vec::new());
    let malloc = |zone: MemoryZoneEnum, size: usize| {
        asked.borrow_mut().push((zone, size));
        match zone {
            MemoryZoneEnum::Dma32 => 0,
            other => other.min_first_page() + 0x4000,
        }
    };
    assert_eq!(system.alloc_chunk(&pmm, 65536, &malloc), (OFFSET + 0x104000, 65536, 0));
    // HIGH was not initialized; DMA32 comes before ISA DMA
    assert_eq!(
        *asked.borrow(),
        vec![(MemoryZoneEnum::Dma32, 65536), (MemoryZoneEnum::IsaDma, 65536)]
    );
    assert_eq!(system.alloc_chunk(&pmm, 4096, |_, _| 0), (0, 0, 0));
}

#[test]
fn heap_chunk_moves_only_when_it_may() {
    let pmm = pmm();
    let system = DlmallocSystemAllocator;
    let asked = RefCell::new(Vec::new());
    let realloc_in_zone = |zone: MemoryZoneEnum, addr: u64, size: usize| {
        asked.borrow_mut().push((zone, addr, size));
        0x3000000
    };
    assert!(system.chunk_owned(&pmm, OFFSET + 0x2000000));
    assert!(!system.chunk_owned(&pmm, 0x2000000));
    assert!(!system.chunk_owned(&pmm, OFFSET + 0x2000001));
    assert_eq!(system.remap(&pmm, OFFSET + 0x2000000, 4096, 8192, false, &realloc_in_zone), 0);
    // a chunk that may not move is left alone, whatever the pointer
    assert_eq!(system.remap(&pmm, 0xFFFF_A000_0010_0000, 4096, 8192, false, &realloc_in_zone), 0);
    assert_eq!(system.remap(&pmm, 0, 4096, 8192, false, &realloc_in_zone), 0);
    assert_eq!(system.remap(&pmm, 0x1234, 4096, 8192, false, &realloc_in_zone), 0);
    assert_eq!(system.remap(&low_pmm(), OFFSET + 0x1_0000_0000, 4096, 8192, false, &realloc_in_zone), 0);
    assert!(asked.borrow().is_empty());
    assert_eq!(
        system.remap(&pmm, OFFSET + 0x2000000, 4096, 8192, true, &realloc_in_zone),
        OFFSET + 0x3000000
    );
    assert_eq!(*asked.borrow(), vec![(MemoryZoneEnum::Dma32, 0x2000000, 8192)]);
    assert_eq!(system.remap(&pmm, OFFSET + 0x2000000, 4096, 8192, true, |_, _, _| 0), 0);
}

#[test]
fn heap_chunk_is_freed_at_its_physical_address() {
    let pmm = pmm();
    let system = DlmallocSystemAllocator;
    let freed = RefCell::new(Vec::new());
    assert!(system.free(&pmm, OFFSET + 0x1_0000_4000, 16384, |zone: MemoryZoneEnum, addr: u64| {
        freed.borrow_mut().push((zone, addr))
    }));
    assert_eq!(*freed.borrow(), vec![(MemoryZoneEnum::High, 0x1_0000_4000)]);
}

#[test]
fn system_allocator_answers() {
    let system = DlmallocSystemAllocator;
    assert!(!system.can_release_part(0));
    assert!(!system.can_release_part(1));
    assert!(!system.allocates_zeros());
    assert_eq!(system.page_size(), 4096);
}

#[test]
fn zero_size_allocation_is_a_dangling_aligned_address() {
    let allocator = GeneralPurposeAllocator;
    let asked = RefCell::new(0);
    let heap_malloc = |_size: usize, _align: usize| {
        *asked.borrow_mut() += 1;
        0x5000u64
    };
    assert_eq!(allocator.allocate(0, 1, &heap_malloc), Ok((1, 0)));
    assert_eq!(allocator.allocate(0, 64, &heap_malloc), Ok((64, 0)));
    assert_eq!(allocator.allocate(0, 4096, &heap_malloc), Ok((4096, 0)));
    assert_eq!(*asked.borrow(), 0);
}

#[test]
fn allocation_is_what_the_heap_gives() {
    let allocator = GeneralPurposeAllocator;
    let asked = RefCell::new(Vec::new());
    let heap_malloc = |size: usize, align: usize| {
        asked.borrow_mut().push((size, align));
        if size > 1000 {
            0
        } else {
            0xFFFF_A000_0020_0040u64
        }
    };
    assert_eq!(allocator.allocate(24, 8, &heap_malloc), Ok((0xFFFF_A000_0020_0040, 24)));
    assert_eq!(allocator.allocate(1001, 16, &heap_malloc), Err(AllocError));
    assert_eq!(*asked.borrow(), vec![(24, 8), (1001, 16)]);
}

#[test]
fn deallocation_of_no_bytes_does_not_reach_the_heap() {
    let allocator = GeneralPurposeAllocator;
    let freed = RefCell::new(Vec::new());
    let heap_free = |addr: u64, size: usize, align: usize| freed.borrow_mut().push((addr, size, align));
    assert!(!allocator.deallocate(64, 0, 64, &heap_free));
    assert!(freed.borrow().is_empty());
    assert!(allocator.deallocate(0xFFFF_A000_0020_0040, 24, 8, &heap_free));
    assert_eq!(*freed.borrow(), vec![(0xFFFF_A000_0020_0040, 24, 8)]);
}

#[test]
fn pages_have_slots_of_their_own() {
    let table = SlabInfoTable { phys_addr: 0x1_0000_0000, entries: 0x200000, size: 0x1000000 };
    let pages = [OFFSET, OFFSET + 0x1000, OFFSET + 0x2000, OFFSET + 0x100000, OFFSET + 0x7FFF_F000];
    for (i, a) in pages.iter().enumerate() {
        for (j, b) in pages.iter().enumerate() {
            assert_eq!(slab_info_slot(&table, *a) == slab_info_slot(&table, *b), i == j);
        }
        assert_eq!(slab_info_slot(&table, *a), slab_info_slot(&table, *a + 0xFFF));
    }
}

#[test]
fn slab_round_trip() {
    let pmm = pmm();
    // a zone allocator that hands out pages in turn and keeps count of what is out
    let next = RefCell::new(0x1_0000_0000u64);
    let outstanding = RefCell::new(Vec::new());
    let malloc = |zone: MemoryZoneEnum, size: usize| {
        if zone != MemoryZoneEnum::High {
            return 0;
        }
        let addr = *next.borrow();
        *next.borrow_mut() += size as u64;
        outstanding.borrow_mut().push(addr);
        addr
    };
    let free_in_zone = |zone: MemoryZoneEnum, addr: u64| {
        assert_eq!(zone, MemoryZoneEnum::High);
        let mut out = outstanding.borrow_mut();
        let at = out.iter().position(|a| *a == addr).expect("freed what was not allocated");
        out.remove(at);
    };
    let mut backend = DefaultMemoryBackend;
    let slabs: Vec<u64> = (0..16).map(|_| backend.alloc_slab(&pmm, 4096, 4096, &malloc)).collect();
    assert_eq!(outstanding.borrow().len(), 16);
    for (i, slab) in slabs.iter().enumerate() {
        assert_eq!(*slab, OFFSET + 0x1_0000_0000 + i as u64 * 4096);
    }
    for slab in slabs.iter().rev() {
        assert!(slab_owned(&pmm, *slab));
        assert_eq!(backend.free_slab(&pmm, *slab, 4096, 4096, &free_in_zone), MemoryZoneEnum::High);
    }
    assert!(outstanding.borrow().is_empty());
}
