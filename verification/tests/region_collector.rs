use kernel::memory_management::region_collector::{
    collect_usable_regions, usable_region_of, CollectError,
};
use kernel::memory_management::region_list::UsableRegion;
use kernel::memory_management::zones::{MemoryRegion, MemoryRegionKind, RegionLists};

fn usable(start: u64, end: u64) -> MemoryRegion {
    MemoryRegion { start, end, kind: MemoryRegionKind::Usable }
}

fn region(first_page: u64, last_page: u64) -> UsableRegion {
    UsableRegion { first_page, last_page }
}

fn collected(map: &[MemoryRegion]) -> RegionLists {
    match collect_usable_regions(map) {
        Ok(lists) => lists,
        Err(error) => panic!("refused: {:?}", error),
    }
}

#[test]
fn aligned_entry_is_kept_whole() {
    assert_eq!(usable_region_of(&usable(0x100000, 0x200000)), Some(region(0x100000, 0x1FF000)));
}

#[test]
fn unaligned_start_is_rounded_up() {
    assert_eq!(usable_region_of(&usable(0x100001, 0x200000)), Some(region(0x101000, 0x1FF000)));
    assert_eq!(usable_region_of(&usable(0x100FFF, 0x200000)), Some(region(0x101000, 0x1FF000)));
}

#[test]
fn last_page_is_the_page_of_the_last_byte() {
    assert_eq!(usable_region_of(&usable(0x100000, 0x200001)), Some(region(0x100000, 0x200000)));
    assert_eq!(usable_region_of(&usable(0x100000, 0x200FFF)), Some(region(0x100000, 0x200000)));
    assert_eq!(usable_region_of(&usable(0x100000, 0x201000)), Some(region(0x100000, 0x200000)));
}

#[test]
fn entries_of_other_kinds_are_dropped() {
    let mut entry = usable(0x100000, 0x200000);
    entry.kind = MemoryRegionKind::Bootloader;
    assert_eq!(usable_region_of(&entry), None);
    entry.kind = MemoryRegionKind::UnknownUefi(7);
    assert_eq!(usable_region_of(&entry), None);
    entry.kind = MemoryRegionKind::UnknownBios(2);
    assert_eq!(usable_region_of(&entry), None);
}

#[test]
fn entry_that_starts_below_the_first_zone_is_dropped() {
    assert_eq!(usable_region_of(&usable(0, 0x200000)), None);
    assert_eq!(usable_region_of(&usable(0xFFFFF, 0x200000)), None);
    assert_eq!(usable_region_of(&usable(0x1000, 0x9F000)), None);
}

#[test]
fn entry_that_ends_above_the_last_zone_is_dropped() {
    assert_eq!(usable_region_of(&usable(0x1_0000_0000, 0xFF_FFFF_F001)), None);
    assert_eq!(usable_region_of(&usable(0x1_0000_0000, 0x100_0000_0000)), None);
    assert_eq!(
        usable_region_of(&usable(0x1_0000_0000, 0xFF_FFFF_F000)),
        Some(region(0x1_0000_0000, 0xFF_FFFF_E000))
    );
}

#[test]
fn entry_of_one_page_is_dropped() {
    assert_eq!(usable_region_of(&usable(0x100000, 0x101000)), None);
    assert_eq!(usable_region_of(&usable(0x100000, 0x100001)), None);
    assert_eq!(usable_region_of(&usable(0x100001, 0x102000)), None);
    assert_eq!(usable_region_of(&usable(0x100000, 0x101001)), Some(region(0x100000, 0x101000)));
    assert_eq!(usable_region_of(&usable(0x100000, 0x102000)), Some(region(0x100000, 0x101000)));
}

#[test]
fn entry_that_ends_before_it_starts_is_dropped() {
    assert_eq!(usable_region_of(&usable(0x200000, 0x100000)), None);
    assert_eq!(usable_region_of(&usable(0x200000, 0)), None);
    assert_eq!(usable_region_of(&usable(0x200000, 0x200000)), None);
    assert_eq!(usable_region_of(&usable(u64::MAX, 0x200000)), None);
}

#[test]
fn empty_map_gives_empty_lists() {
    let lists = collected(&[]);
    assert_eq!(lists.all.len(), 0);
    assert_eq!(lists.isa_dma.len(), 0);
    assert_eq!(lists.dma32.len(), 0);
    assert_eq!(lists.high.len(), 0);
}

#[test]
fn map_without_usable_memory_gives_empty_lists() {
    let map = [
        MemoryRegion { start: 0x100000, end: 0x200000, kind: MemoryRegionKind::Bootloader },
        usable(0, 0x9F000),
        usable(0x100000, 0x100800),
    ];
    let lists = collected(&map);
    assert_eq!(lists.all.len(), 0);
    assert_eq!(lists.isa_dma.len(), 0);
    assert_eq!(lists.dma32.len(), 0);
    assert_eq!(lists.high.len(), 0);
}

#[test]
fn regions_are_sorted_and_filed_by_zone() {
    let map = [
        usable(0x1_0000_0000, 0x1_4000_0000),
        usable(0x2000000, 0x8000000),
        MemoryRegion { start: 0x8000000, end: 0x9000000, kind: MemoryRegionKind::Bootloader },
        usable(0x100000, 0x800000),
        usable(0x900000, 0xA00000),
    ];
    let lists = collected(&map);
    assert_eq!(
        lists.all.to_vec(),
        vec![
            region(0x100000, 0x7FF000),
            region(0x900000, 0x9FF000),
            region(0x2000000, 0x7FFF000),
            region(0x1_0000_0000, 0x1_3FFF_F000),
        ]
    );
    assert_eq!(
        lists.isa_dma.to_vec(),
        vec![region(0x100000, 0x7FF000), region(0x900000, 0x9FF000)]
    );
    assert_eq!(lists.dma32.to_vec(), vec![region(0x2000000, 0x7FFF000)]);
    assert_eq!(lists.high.to_vec(), vec![region(0x1_0000_0000, 0x1_3FFF_F000)]);
    assert_eq!(lists.zone_list(kernel::memory_management::zones::MemoryZoneEnum::Dma32).len(), 1);
}

#[test]
fn entry_spanning_two_zones_is_split_at_the_boundary() {
    let lists = collected(&[usable(0xFFE000, 0x1002000)]);
    assert_eq!(lists.all.to_vec(), vec![region(0xFFE000, 0x1001000)]);
    assert_eq!(lists.isa_dma.to_vec(), vec![region(0xFFE000, 0xFFF000)]);
    assert_eq!(lists.dma32.to_vec(), vec![region(0x1000000, 0x1001000)]);
    assert_eq!(lists.high.len(), 0);
}

#[test]
fn every_region_is_page_aligned_and_ordered() {
    let map = [
        usable(0x1_0000_0123, 0x1_4000_0FFF),
        usable(0x2000001, 0x8000000),
        usable(0x100800, 0x7FF801),
        usable(0xFFE000, 0x1002000),
    ];
    let lists = collected(&map);
    for list in [&lists.all, &lists.isa_dma, &lists.dma32, &lists.high] {
        let regions = list.to_vec();
        for r in &regions {
            assert_eq!(r.first_page % 4096, 0);
            assert_eq!(r.last_page % 4096, 0);
            assert!(r.first_page <= r.last_page);
        }
        for pair in regions.windows(2) {
            assert!(pair[0].last_page < pair[1].first_page);
        }
    }
}

#[test]
fn zone_lists_partition_the_usable_pages() {
    let map = [
        usable(0x800000, 0x1800000),
        usable(0xF000_0000, 0x1_1000_0000),
        usable(0x200000, 0x300000),
    ];
    let lists = collected(&map);
    let pages = |regions: Vec<UsableRegion>| -> u64 { regions.iter().map(|r| r.size() / 4096).sum() };
    let all = pages(lists.all.to_vec());
    let isa_dma = pages(lists.isa_dma.to_vec());
    let dma32 = pages(lists.dma32.to_vec());
    let high = pages(lists.high.to_vec());
    assert_eq!(all, isa_dma + dma32 + high);
    assert_eq!(all, 0x1000 + 0x20000 + 0x100);
    assert_eq!(isa_dma, 0x100 + 0x800);
    assert_eq!(dma32, 0x800 + 0x10000);
    assert_eq!(high, 0x10000);
    for r in lists.isa_dma.to_vec() {
        assert!(0x100000 <= r.first_page && r.last_page <= 0xFFF000);
    }
    for r in lists.dma32.to_vec() {
        assert!(0x1000000 <= r.first_page && r.last_page <= 0xFFFF_F000);
    }
    for r in lists.high.to_vec() {
        assert!(0x1_0000_0000 <= r.first_page && r.last_page <= 0xFF_FFFF_F000);
    }
}

#[test]
fn map_of_128_regions_is_taken() {
    let map: Vec<MemoryRegion> =
        (0..128u64).map(|i| usable(0x100000 + i * 0x4000, 0x100000 + i * 0x4000 + 0x2000)).collect();
    let lists = collected(&map);
    assert_eq!(lists.all.len(), 128);
    assert_eq!(lists.all.get(127), region(0x100000 + 127 * 0x4000, 0x100000 + 127 * 0x4000 + 0x1000));
}

#[test]
fn map_of_129_regions_is_refused() {
    let map: Vec<MemoryRegion> =
        (0..129u64).map(|i| usable(0x100000 + i * 0x4000, 0x100000 + i * 0x4000 + 0x2000)).collect();
    assert!(matches!(collect_usable_regions(&map), Err(CollectError::TooManyRegions)));
}

#[test]
fn dropped_entries_do_not_count_towards_the_limit() {
    let mut map: Vec<MemoryRegion> =
        (0..128u64).map(|i| usable(0x100000 + i * 0x4000, 0x100000 + i * 0x4000 + 0x2000)).collect();
    map.push(usable(0, 0x9F000));
    map.push(MemoryRegion { start: 0x4000000, end: 0x5000000, kind: MemoryRegionKind::Bootloader });
    assert_eq!(collected(&map).all.len(), 128);
}

#[test]
fn overlapping_regions_are_refused() {
    let map = [usable(0x100000, 0x300000), usable(0x200000, 0x400000)];
    assert!(matches!(collect_usable_regions(&map), Err(CollectError::OverlappingRegions)));
    let nested = [usable(0x200000, 0x300000), usable(0x100000, 0x400000)];
    assert!(matches!(collect_usable_regions(&nested), Err(CollectError::OverlappingRegions)));
    let twice = [usable(0x200000, 0x300000), usable(0x200000, 0x300000)];
    assert!(matches!(collect_usable_regions(&twice), Err(CollectError::OverlappingRegions)));
}

#[test]
fn regions_that_touch_are_taken() {
    let map = [usable(0x200000, 0x300000), usable(0x100000, 0x200000)];
    let lists = collected(&map);
    assert_eq!(lists.all.to_vec(), vec![region(0x100000, 0x1FF000), region(0x200000, 0x2FF000)]);
}

#[test]
fn regions_that_share_the_page_of_an_unaligned_end_are_refused() {
    let map = [usable(0x100000, 0x200800), usable(0x200800, 0x300000)];
    assert_eq!(usable_region_of(&map[0]), Some(region(0x100000, 0x200000)));
    assert_eq!(usable_region_of(&map[1]), Some(region(0x201000, 0x2FF000)));
    assert!(collect_usable_regions(&map).is_ok());
    let shared = [usable(0x100000, 0x200800), usable(0x200000, 0x300000)];
    assert!(matches!(collect_usable_regions(&shared), Err(CollectError::OverlappingRegions)));
}

#[test]
fn order_of_the_map_does_not_matter() {
    let one = [
        usable(0x1_0000_0000, 0x1_4000_0000),
        usable(0x2000000, 0x8000000),
        usable(0x100000, 0x800000),
        usable(0x900000, 0x1100000),
    ];
    let other = [one[2], one[3], one[1], one[0]];
    let a = collected(&one);
    let b = collected(&other);
    assert_eq!(a.all.to_vec(), b.all.to_vec());
    assert_eq!(a.isa_dma.to_vec(), b.isa_dma.to_vec());
    assert_eq!(a.dma32.to_vec(), b.dma32.to_vec());
    assert_eq!(a.high.to_vec(), b.high.to_vec());
    assert_eq!(
        a.dma32.to_vec(),
        vec![region(0x1000000, 0x10FF000), region(0x2000000, 0x7FFF000)]
    );
}
