use kernel::memory_management::bootstrap::{
    carve_front, init_slab_info_ptrs_array, CarveError, SlabInfoTable, SLAB_INFO_PTR_SIZE,
};
use kernel::memory_management::region_collector::collect_usable_regions;
use kernel::memory_management::region_list::UsableRegion;
use kernel::memory_management::zone_setup::{
    find_donor, high_zone_setup, init_allocators, reserve_high_metadata, static_zone_setup,
    zone_arena, CarvedStorage, MetadataPlacement, SetupError, ZoneArena, ZoneSetup,
    DMA32_ALLOCATOR_METADATA_SIZE, ISA_DMA_ALLOCATOR_METADATA_SIZE,
};
use kernel::memory_management::zones::{
    MemoryRegion, MemoryRegionKind, MemoryZoneEnum, RegionLists,
};

fn usable(start: u64, end: u64) -> MemoryRegion {
    MemoryRegion { start, end, kind: MemoryRegionKind::Usable }
}

fn region(first_page: u64, last_page: u64) -> UsableRegion {
    UsableRegion { first_page, last_page }
}

fn collected(map: &[MemoryRegion]) -> RegionLists {
    match collect_usable_regions(map) {
        Ok(lists) => lists,
        Err(error) => panic!("refused: {:?}", error),
    }
}

fn three_zones() -> RegionLists {
    collected(&[
        usable(0x100000, 0x800000),
        usable(0x1000000, 0x8000_0000),
        usable(0x1_0000_0000, 0x2_0000_0000),
    ])
}

#[test]
fn carve_front_moves_the_first_page_in_both_lists() {
    let mut lists = three_zones();
    let addr = carve_front(&mut lists, 1, 0x3000);
    assert_eq!(addr, 0x1000000);
    assert_eq!(lists.all.get(1), region(0x1003000, 0x7FFF_F000));
    assert_eq!(lists.dma32.to_vec(), vec![region(0x1003000, 0x7FFF_F000)]);
    assert_eq!(lists.all.get(0), region(0x100000, 0x7FF000));
    assert_eq!(lists.isa_dma.to_vec(), vec![region(0x100000, 0x7FF000)]);
    assert_eq!(lists.high.to_vec(), vec![region(0x1_0000_0000, 0x1_FFFF_F000)]);
}

#[test]
fn carve_front_may_leave_a_single_page() {
    let mut lists = collected(&[usable(0x100000, 0x104000)]);
    assert_eq!(carve_front(&mut lists, 0, 0x3000), 0x100000);
    assert_eq!(lists.all.to_vec(), vec![region(0x103000, 0x103000)]);
    assert_eq!(lists.isa_dma.to_vec(), vec![region(0x103000, 0x103000)]);
}

#[test]
fn carve_front_across_a_zone_boundary_drops_the_lower_part() {
    let mut lists = collected(&[usable(0xFFE000, 0x1004000)]);
    assert_eq!(lists.isa_dma.to_vec(), vec![region(0xFFE000, 0xFFF000)]);
    assert_eq!(carve_front(&mut lists, 0, 0x3000), 0xFFE000);
    assert_eq!(lists.all.to_vec(), vec![region(0x1001000, 0x1003000)]);
    assert_eq!(lists.isa_dma.len(), 0);
    assert_eq!(lists.dma32.to_vec(), vec![region(0x1001000, 0x1003000)]);
}

#[test]
fn slab_info_table_has_a_pointer_for_each_page() {
    assert_eq!(SLAB_INFO_PTR_SIZE, 8);
    let mut lists = three_zones();
    let table = init_slab_info_ptrs_array(&mut lists);
    // pages up to 0x2_0000_0000: 0x200000; eight bytes each: 0x1000000
    assert_eq!(
        table,
        Ok(SlabInfoTable { phys_addr: 0x1_0000_0000, entries: 0x200000, size: 0x1000000 })
    );
    assert_eq!(
        lists.all.to_vec(),
        vec![
            region(0x100000, 0x7FF000),
            region(0x1000000, 0x7FFF_F000),
            region(0x1_0100_0000, 0x1_FFFF_F000),
        ]
    );
    assert_eq!(lists.high.to_vec(), vec![region(0x1_0100_0000, 0x1_FFFF_F000)]);
    assert_eq!(lists.dma32.to_vec(), vec![region(0x1000000, 0x7FFF_F000)]);
}

#[test]
fn slab_info_table_of_a_small_map() {
    let mut lists = collected(&[usable(0x100000, 0x110000)]);
    // pages up to 0x110000: 272; 2176 bytes, one page
    assert_eq!(
        init_slab_info_ptrs_array(&mut lists),
        Ok(SlabInfoTable { phys_addr: 0x100000, entries: 272, size: 0x1000 })
    );
    assert_eq!(lists.all.to_vec(), vec![region(0x101000, 0x10F000)]);
}

#[test]
fn slab_info_table_goes_to_the_last_region_that_fits() {
    // pages up to 0x4000_2000: 0x40002, table of 0x200010 bytes: 0x201000
    let mut lists = collected(&[
        usable(0x100000, 0x400000),
        usable(0x1000000, 0x2000000),
        usable(0x4000_0000, 0x4000_2000),
    ]);
    let table = init_slab_info_ptrs_array(&mut lists).unwrap();
    assert_eq!(table, SlabInfoTable { phys_addr: 0x1000000, entries: 0x40002, size: 0x201000 });
    assert_eq!(
        lists.all.to_vec(),
        vec![
            region(0x100000, 0x3FF000),
            region(0x1201000, 0x1FFF000),
            region(0x4000_0000, 0x4000_1000),
        ]
    );
}

#[test]
fn slab_info_table_needs_a_region_that_keeps_a_page() {
    // 258 pages need one page of table, and the region of two pages keeps its other page
    let mut lists = collected(&[usable(0x100000, 0x102000)]);
    assert_eq!(lists.all.to_vec(), vec![region(0x100000, 0x101000)]);
    let table = init_slab_info_ptrs_array(&mut lists).unwrap();
    assert_eq!(table, SlabInfoTable { phys_addr: 0x100000, entries: 258, size: 0x1000 });
    assert_eq!(lists.all.to_vec(), vec![region(0x101000, 0x101000)]);

    // two far regions of two pages each span so many pages that no region holds the table
    let mut far = collected(&[usable(0x100000, 0x102000), usable(0x8000_0000, 0x8000_2000)]);
    assert_eq!(init_slab_info_ptrs_array(&mut far), Err(CarveError::NoRegionFits));
    assert_eq!(
        far.all.to_vec(),
        vec![region(0x100000, 0x101000), region(0x8000_0000, 0x8000_1000)]
    );
}

#[test]
fn slab_info_table_has_a_slot_for_every_usable_page() {
    for map in [
        vec![usable(0x100000, 0x110000)],
        vec![usable(0x100000, 0x800000), usable(0x1000000, 0x8000_0000)],
        vec![usable(0xFFE000, 0x1004000), usable(0x1_0000_0000, 0x1_4000_0000)],
    ] {
        let mut lists = collected(&map);
        let before = lists.all.to_vec();
        let table = init_slab_info_ptrs_array(&mut lists).unwrap();
        let last_page = before.last().unwrap().last_page;
        assert_eq!(table.entries, last_page / 4096 + 1);
        assert!(table.size >= table.entries * 8);
        assert!(table.size < table.entries * 8 + 4096);
        for r in before.iter().chain(lists.all.to_vec().iter()) {
            assert!(r.first_page / 4096 < table.entries);
            assert!(r.last_page / 4096 < table.entries);
        }
    }
}

#[test]
fn arena_spans_from_the_first_page_to_the_end_of_the_last() {
    let lists = collected(&[
        usable(0x100000, 0x200000),
        usable(0x400000, 0x800000),
        usable(0x1000000, 0x2000000),
    ]);
    assert_eq!(zone_arena(&lists.isa_dma), Some(ZoneArena { first_page: 0x100000, size: 0x700000 }));
    assert_eq!(zone_arena(&lists.dma32), Some(ZoneArena { first_page: 0x1000000, size: 0x1000000 }));
    assert_eq!(zone_arena(&lists.high), None);
}

#[test]
fn donor_is_the_first_region_of_the_zone_that_fits() {
    let lists = collected(&[
        usable(0x100000, 0x800000),
        usable(0x1000000, 0x1004000),
        usable(0x2000000, 0x3000000),
        usable(0x4000000, 0x8000000),
    ]);
    assert_eq!(find_donor(&lists.all, MemoryZoneEnum::Dma32, 0x3000), Some(1));
    assert_eq!(find_donor(&lists.all, MemoryZoneEnum::Dma32, 0x4000), Some(2));
    assert_eq!(find_donor(&lists.all, MemoryZoneEnum::Dma32, 0xFFF000), Some(2));
    assert_eq!(find_donor(&lists.all, MemoryZoneEnum::Dma32, 0x1000000), Some(3));
    assert_eq!(find_donor(&lists.all, MemoryZoneEnum::Dma32, 0x4000000), None);
    assert_eq!(find_donor(&lists.all, MemoryZoneEnum::IsaDma, 0x3000), Some(0));
    assert_eq!(find_donor(&lists.all, MemoryZoneEnum::High, 0x1000), None);
}

#[test]
fn donor_starts_in_the_zone_and_gives_from_its_part_there() {
    // starts in ISA DMA and reaches into DMA32: no donor of DMA32, and in ISA DMA only its two pages count
    let lists = collected(&[usable(0xFFE000, 0x2000000)]);
    assert_eq!(find_donor(&lists.all, MemoryZoneEnum::Dma32, 0x1000), None);
    assert_eq!(find_donor(&lists.all, MemoryZoneEnum::IsaDma, 0x1000), Some(0));
    assert_eq!(find_donor(&lists.all, MemoryZoneEnum::IsaDma, 0x2000), None);
}

#[test]
fn high_metadata_is_taken_from_dma32() {
    let mut lists = three_zones();
    let storage = reserve_high_metadata(&mut lists, 0x3FC00);
    assert_eq!(storage, Some(CarvedStorage { phys_addr: 0x1000000, size: 0x40000 }));
    assert_eq!(lists.dma32.to_vec(), vec![region(0x1040000, 0x7FFF_F000)]);
    assert_eq!(lists.all.get(1), region(0x1040000, 0x7FFF_F000));
    assert_eq!(lists.all.get(0), region(0x100000, 0x7FF000));
    assert_eq!(lists.all.get(2), region(0x1_0000_0000, 0x1_FFFF_F000));
}

#[test]
fn high_metadata_falls_back_to_isa_dma() {
    let mut lists = collected(&[
        usable(0x100000, 0x800000),
        usable(0x1000000, 0x1004000),
        usable(0x1_0000_0000, 0x2_0000_0000),
    ]);
    let storage = reserve_high_metadata(&mut lists, 0x4000);
    assert_eq!(storage, Some(CarvedStorage { phys_addr: 0x100000, size: 0x4000 }));
    assert_eq!(lists.isa_dma.to_vec(), vec![region(0x104000, 0x7FF000)]);
    assert_eq!(lists.dma32.to_vec(), vec![region(0x1000000, 0x1003000)]);
}

#[test]
fn high_metadata_without_a_donor() {
    let mut lists = collected(&[usable(0x100000, 0x104000), usable(0x1_0000_0000, 0x2_0000_0000)]);
    assert_eq!(reserve_high_metadata(&mut lists, 0x3001), None);
    assert_eq!(reserve_high_metadata(&mut lists, u64::MAX), None);
    assert_eq!(lists.all.get(0), region(0x100000, 0x103000));
    assert_eq!(
        reserve_high_metadata(&mut lists, 0x3000),
        Some(CarvedStorage { phys_addr: 0x100000, size: 0x3000 })
    );
    assert_eq!(lists.all.get(0), region(0x103000, 0x103000));
}

#[test]
fn static_zone_takes_a_size_that_fits_its_buffer() {
    assert_eq!(ISA_DMA_ALLOCATOR_METADATA_SIZE, 3072);
    assert_eq!(DMA32_ALLOCATOR_METADATA_SIZE, 525312);
    let arena = ZoneArena { first_page: 0x100000, size: 0x700000 };
    assert_eq!(
        static_zone_setup(MemoryZoneEnum::IsaDma, arena, Some(3072)),
        Ok(ZoneSetup { arena, metadata_size: 3072, metadata: MetadataPlacement::Static })
    );
    assert_eq!(
        static_zone_setup(MemoryZoneEnum::IsaDma, arena, Some(3073)),
        Err(SetupError::MetadataBufferTooSmall(MemoryZoneEnum::IsaDma, 3073))
    );
    assert_eq!(
        static_zone_setup(MemoryZoneEnum::Dma32, arena, Some(525312)),
        Ok(ZoneSetup { arena, metadata_size: 525312, metadata: MetadataPlacement::Static })
    );
    assert_eq!(
        static_zone_setup(MemoryZoneEnum::Dma32, arena, Some(525313)),
        Err(SetupError::MetadataBufferTooSmall(MemoryZoneEnum::Dma32, 525313))
    );
    assert_eq!(
        static_zone_setup(MemoryZoneEnum::Dma32, arena, None),
        Err(SetupError::MetadataSizeUnknown(MemoryZoneEnum::Dma32))
    );
    assert_eq!(
        static_zone_setup(MemoryZoneEnum::High, arena, Some(1)),
        Err(SetupError::MetadataBufferTooSmall(MemoryZoneEnum::High, 1))
    );
}

#[test]
fn high_zone_places_its_metadata_or_fails() {
    let arena = ZoneArena { first_page: 0x1_0000_0000, size: 0x1_0000_0000 };
    let mut lists = three_zones();
    assert_eq!(
        high_zone_setup(&mut lists, arena, None),
        Err(SetupError::MetadataSizeUnknown(MemoryZoneEnum::High))
    );
    assert_eq!(
        high_zone_setup(&mut lists, arena, Some(0x8000_0000)),
        Err(SetupError::NoMemoryForHighMetadata(0x8000_0000))
    );
    assert_eq!(lists.dma32.to_vec(), vec![region(0x1000000, 0x7FFF_F000)]);
    assert_eq!(
        high_zone_setup(&mut lists, arena, Some(0x1001)),
        Ok(ZoneSetup {
            arena,
            metadata_size: 0x1001,
            metadata: MetadataPlacement::Carved(CarvedStorage { phys_addr: 0x1000000, size: 0x2000 }),
        })
    );
    assert_eq!(lists.dma32.to_vec(), vec![region(0x1002000, 0x7FFF_F000)]);
}

#[test]
fn metadata_self_hosting() {
    let mut lists = three_zones();
    let setups = init_allocators(&mut lists, |size, page| Some(size / page / 4)).unwrap();
    // the HIGH arena has 0x100000 pages: 0x40000 bytes of metadata
    let high = setups.high.unwrap();
    assert_eq!(high.arena, ZoneArena { first_page: 0x1_0000_0000, size: 0x1_0000_0000 });
    assert_eq!(high.metadata_size, 0x40000);
    assert_eq!(
        high.metadata,
        MetadataPlacement::Carved(CarvedStorage { phys_addr: 0x1000000, size: 0x40000 })
    );
    // the DMA32 region that gave the storage starts 0x40000 later, in both lists
    assert_eq!(lists.dma32.to_vec(), vec![region(0x1040000, 0x7FFF_F000)]);
    assert_eq!(
        lists.all.to_vec(),
        vec![
            region(0x100000, 0x7FF000),
            region(0x1040000, 0x7FFF_F000),
            region(0x1_0000_0000, 0x1_FFFF_F000),
        ]
    );
    // the arena of DMA32 starts behind the storage
    let dma32 = setups.dma32.unwrap();
    assert_eq!(dma32.arena, ZoneArena { first_page: 0x1040000, size: 0x7EFC_0000 });
    assert_eq!(dma32.metadata_size, 0x7EFC0 / 4);
    assert_eq!(dma32.metadata, MetadataPlacement::Static);
    let isa_dma = setups.isa_dma.unwrap();
    assert_eq!(isa_dma.arena, ZoneArena { first_page: 0x100000, size: 0x700000 });
    assert_eq!(isa_dma.metadata_size, 0x700 / 4);
    assert_eq!(isa_dma.metadata, MetadataPlacement::Static);
}

#[test]
fn metadata_size_is_rounded_to_whole_pages() {
    let mut lists = three_zones();
    let setups = init_allocators(&mut lists, |_, _| Some(0x801)).unwrap();
    let high = setups.high.unwrap();
    assert_eq!(high.metadata_size, 0x801);
    assert_eq!(
        high.metadata,
        MetadataPlacement::Carved(CarvedStorage { phys_addr: 0x1000000, size: 0x1000 })
    );
    assert_eq!(lists.dma32.get(0).first_page, 0x1001000);
    assert_eq!(lists.all.get(1).first_page, 0x1001000);
}

#[test]
fn zones_without_memory_are_not_set_up() {
    let mut lists = collected(&[usable(0x1000000, 0x2000000)]);
    let setups = init_allocators(&mut lists, |size, page| Some(size / page)).unwrap();
    assert_eq!(setups.isa_dma, None);
    assert_eq!(setups.high, None);
    assert_eq!(
        setups.dma32,
        Some(ZoneSetup {
            arena: ZoneArena { first_page: 0x1000000, size: 0x1000000 },
            metadata_size: 0x1000,
            metadata: MetadataPlacement::Static,
        })
    );
    assert_eq!(lists.all.to_vec(), vec![region(0x1000000, 0x1FFF000)]);
}

#[test]
fn setup_fails_with_the_first_zone_that_fails() {
    let mut lists = three_zones();
    assert_eq!(
        init_allocators(&mut lists, |_, _| None),
        Err(SetupError::MetadataSizeUnknown(MemoryZoneEnum::High))
    );
    let mut lists = three_zones();
    assert_eq!(
        init_allocators(&mut lists, |size, _| if size == 0x1_0000_0000 { Some(64) } else { None }),
        Err(SetupError::MetadataSizeUnknown(MemoryZoneEnum::IsaDma))
    );
    let mut lists = three_zones();
    assert_eq!(
        init_allocators(&mut lists, |_, _| Some(3073)),
        Err(SetupError::MetadataBufferTooSmall(MemoryZoneEnum::IsaDma, 3073))
    );
    let mut lists = three_zones();
    assert_eq!(
        init_allocators(&mut lists, |size, _| if size == 0x700000 { Some(64) } else { Some(525313) }),
        Err(SetupError::MetadataBufferTooSmall(MemoryZoneEnum::Dma32, 525313))
    );
    let mut lists = collected(&[usable(0x1_0000_0000, 0x2_0000_0000)]);
    assert_eq!(
        init_allocators(&mut lists, |_, _| Some(64)),
        Err(SetupError::NoMemoryForHighMetadata(64))
    );
}

#[test]
fn released_regions_account_for_every_byte() {
    let mut lists = collected(&[
        usable(0x100000, 0x200000),
        usable(0x400000, 0x800000),
        usable(0x1000000, 0x8000_0000),
        usable(0x1_0000_0000, 0x2_0000_0000),
    ]);
    let setups = init_allocators(&mut lists, |size, page| Some(size / page / 4)).unwrap();
    for (zone, setup, expected) in [
        (MemoryZoneEnum::IsaDma, setups.isa_dma.unwrap(), 0x100000 + 0x400000),
        (MemoryZoneEnum::Dma32, setups.dma32.unwrap(), 0x7F00_0000 - 0x40000),
        (MemoryZoneEnum::High, setups.high.unwrap(), 0x1_0000_0000u64),
    ] {
        let regions = lists.zone_list(zone).to_vec();
        let mut total = 0u64;
        for r in &regions {
            assert!(setup.arena.first_page <= r.first_page);
            assert!(r.last_page + 4096 <= setup.arena.first_page + setup.arena.size);
            total += r.size();
        }
        for pair in regions.windows(2) {
            assert!(pair[0].last_page < pair[1].first_page);
        }
        assert_eq!(total, expected);
    }
}
