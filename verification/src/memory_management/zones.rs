//! The three memory zones and the lists of usable regions filed by zone.

use super::region_list::{RegionList, UsableRegion, REGION_LIST_CAPACITY};
use vstd::prelude::*;

verus! {

/// Some zone in memory.
#[derive(Debug, Clone, Copy, PartialEq, Eq, Structural)]
pub enum MemoryZoneEnum {
    /// (1-16 MB)
    IsaDma,
    /// (16 MB - 4 GB)
    Dma32,
    /// (4 GB - 1 TB)
    High,
}

/// Address of the first page of the ISA DMA memory (first page of 2nd MB)
pub const ISA_DMA_ZONE_MIN_FIRST_PAGE_ADDR: u64 = 0x100000;

/// Address of the last page of the ISA DMA memory (last page of 16th MB)
pub const ISA_DMA_ZONE_MAX_LAST_PAGE_ADDR: u64 = 0xFFF000;

/// Address of the first page of the DMA32 memory (first page of 17th MB)
pub const DMA32_MIN_FIRST_PAGE_ADDR: u64 = 0x1000000;

/// Address of the last page of the DMA32 memory (last page of 4th GB)
pub const DMA32_MAX_LAST_PAGE_ADDR: u64 = 0xFFFF_F000;

/// Address of the first page of the HIGH memory (first page of 5th GB)
pub const HIGH_ZONE_MIN_FIRST_PAGE_ADDR: u64 = 0x1_0000_0000;

/// Address of the last page of the HIGH memory (last page of 1st TB)
pub const HIGH_ZONE_MAX_LAST_PAGE_ADDR: u64 = 0xFF_FFFF_F000;

impl MemoryZoneEnum {
    /// Address of the first page of the zone.
    pub open spec fn spec_min_first_page(self) -> u64 {
        match self {
            MemoryZoneEnum::IsaDma => ISA_DMA_ZONE_MIN_FIRST_PAGE_ADDR,
            MemoryZoneEnum::Dma32 => DMA32_MIN_FIRST_PAGE_ADDR,
            MemoryZoneEnum::High => HIGH_ZONE_MIN_FIRST_PAGE_ADDR,
        }
    }

    /// Address of the last page of the zone.
    pub open spec fn spec_max_last_page(self) -> u64 {
        match self {
            MemoryZoneEnum::IsaDma => ISA_DMA_ZONE_MAX_LAST_PAGE_ADDR,
            MemoryZoneEnum::Dma32 => DMA32_MAX_LAST_PAGE_ADDR,
            MemoryZoneEnum::High => HIGH_ZONE_MAX_LAST_PAGE_ADDR,
        }
    }

    /// Whether `addr` lies between the first and the last page of the zone.
    pub open spec fn spec_contains(self, addr: u64) -> bool {
        self.spec_min_first_page() <= addr <= self.spec_max_last_page()
    }

    /// Address of the first page of the zone.
    pub fn min_first_page(self) -> (addr: u64)
        ensures
            addr == self.spec_min_first_page(),
    {
        match self {
            MemoryZoneEnum::IsaDma => ISA_DMA_ZONE_MIN_FIRST_PAGE_ADDR,
            MemoryZoneEnum::Dma32 => DMA32_MIN_FIRST_PAGE_ADDR,
            MemoryZoneEnum::High => HIGH_ZONE_MIN_FIRST_PAGE_ADDR,
        }
    }

    /// Address of the last page of the zone.
    pub fn max_last_page(self) -> (addr: u64)
        ensures
            addr == self.spec_max_last_page(),
    {
        match self {
            MemoryZoneEnum::IsaDma => ISA_DMA_ZONE_MAX_LAST_PAGE_ADDR,
            MemoryZoneEnum::Dma32 => DMA32_MAX_LAST_PAGE_ADDR,
            MemoryZoneEnum::High => HIGH_ZONE_MAX_LAST_PAGE_ADDR,
        }
    }
}

/// The zone whose address range holds `addr`, if any does.
pub open spec fn spec_zone_of(addr: u64) -> Option<MemoryZoneEnum> {
    if MemoryZoneEnum::IsaDma.spec_contains(addr) {
        Some(MemoryZoneEnum::IsaDma)
    } else if MemoryZoneEnum::Dma32.spec_contains(addr) {
        Some(MemoryZoneEnum::Dma32)
    } else if MemoryZoneEnum::High.spec_contains(addr) {
        Some(MemoryZoneEnum::High)
    } else {
        None
    }
}

/// Finds the zone that owns `phys_addr` from the address alone.
pub fn get_zone_allocator_by_addr(phys_addr: u64) -> (zone: Option<MemoryZoneEnum>)
    ensures
        zone == spec_zone_of(phys_addr),
{
    if phys_addr >= ISA_DMA_ZONE_MIN_FIRST_PAGE_ADDR && phys_addr
        <= ISA_DMA_ZONE_MAX_LAST_PAGE_ADDR {
        Some(MemoryZoneEnum::IsaDma)
    } else if phys_addr >= DMA32_MIN_FIRST_PAGE_ADDR && phys_addr <= DMA32_MAX_LAST_PAGE_ADDR {
        Some(MemoryZoneEnum::Dma32)
    } else if phys_addr >= HIGH_ZONE_MIN_FIRST_PAGE_ADDR && phys_addr
        <= HIGH_ZONE_MAX_LAST_PAGE_ADDR {
        Some(MemoryZoneEnum::High)
    } else {
        None
    }
}

/// What an entry of the boot memory map is used for.
#[derive(Debug, Clone, Copy, PartialEq, Eq, Structural)]
pub enum MemoryRegionKind {
    /// Unused conventional memory, can be used by the kernel.
    Usable,
    /// Memory mappings created by the bootloader.
    Bootloader,
    /// An unknown memory region reported by the UEFI firmware.
    UnknownUefi(u32),
    /// An unknown memory region reported by the BIOS firmware.
    UnknownBios(u32),
}

/// An entry of the boot memory map.
#[derive(Debug, Clone, Copy, PartialEq, Eq, Structural)]
pub struct MemoryRegion {
    /// The physical start address of the region.
    pub start: u64,
    /// The physical end address (exclusive) of the region.
    pub end: u64,
    /// The memory type of the memory region.
    pub kind: MemoryRegionKind,
}

/// The part of `region` between `limit_first_page` and `limit_last_page`, if
/// there is any.
pub open spec fn spec_adjust(
    region: UsableRegion,
    limit_first_page: u64,
    limit_last_page: u64,
) -> Option<UsableRegion> {
    if region.last_page < limit_first_page || region.first_page > limit_last_page {
        None
    } else {
        Some(
            UsableRegion {
                first_page: if region.first_page < limit_first_page {
                    limit_first_page
                } else {
                    region.first_page
                },
                last_page: if region.last_page > limit_last_page {
                    limit_last_page
                } else {
                    region.last_page
                },
            },
        )
    }
}

/// If usable_region can be entered in min and max, then the entered, reduced, region will be returned, otherwise None.
pub fn adjust_usable_region(
    usable_region: &UsableRegion,
    limit_first_page: u64,
    limit_last_page: u64,
) -> (adjusted: Option<UsableRegion>)
    requires
        usable_region.wf(),
        limit_first_page < limit_last_page,
    ensures
        adjusted == spec_adjust(*usable_region, limit_first_page, limit_last_page),
{
    if usable_region.last_page < limit_first_page || usable_region.first_page > limit_last_page {
        return None;
    }
    let mut new_usable_region = *usable_region;
    if usable_region.first_page < limit_first_page {
        new_usable_region.first_page = limit_first_page;
    }
    if usable_region.last_page > limit_last_page {
        new_usable_region.last_page = limit_last_page;
    }
    Some(new_usable_region)
}

/// The parts of `regions` between the two limits, in the order of `regions`.
pub open spec fn clip_list(
    regions: Seq<UsableRegion>,
    limit_first_page: u64,
    limit_last_page: u64,
) -> Seq<UsableRegion>
    decreases regions.len(),
{
    if regions.len() == 0 {
        Seq::empty()
    } else {
        let rest = clip_list(regions.drop_last(), limit_first_page, limit_last_page);
        match spec_adjust(regions.last(), limit_first_page, limit_last_page) {
            Some(part) => rest.push(part),
            None => rest,
        }
    }
}

/// Every region is well formed, and each ends before the next one starts.
pub open spec fn separated(regions: Seq<UsableRegion>) -> bool {
    &&& forall|i: int| 0 <= i < regions.len() ==> (#[trigger] regions[i]).wf()
    &&& forall|i: int, j: int|
        0 <= i < j < regions.len() ==> regions[i].last_page < regions[j].first_page
}

/// Every region lies between the first page of the lowest zone and the last
/// page of the highest.
pub open spec fn within_zones(regions: Seq<UsableRegion>) -> bool {
    forall|i: int|
        0 <= i < regions.len() ==> ISA_DMA_ZONE_MIN_FIRST_PAGE_ADDR <= (
        #[trigger] regions[i]).first_page && regions[i].last_page
            <= HIGH_ZONE_MAX_LAST_PAGE_ADDR
}

/// The list of all usable regions and, for each zone, the list of their parts
/// inside it.
pub struct RegionLists {
    /// Memory regions that may be used by allocators, sorted.
    pub all: RegionList,
    /// Their parts in ISA DMA memory, sorted.
    pub isa_dma: RegionList,
    /// Their parts in DMA32 memory, sorted.
    pub dma32: RegionList,
    /// Their parts in HIGH memory, sorted.
    pub high: RegionList,
}

impl RegionLists {
    /// The regions of `all` are well formed, ascending and apart, none leaves
    /// the zones, and each zone list holds exactly their parts in that zone.
    pub open spec fn wf(&self) -> bool {
        &&& separated(self.all@)
        &&& within_zones(self.all@)
        &&& self.isa_dma@ == spec_zone_regions(self.all@, MemoryZoneEnum::IsaDma)
        &&& self.dma32@ == spec_zone_regions(self.all@, MemoryZoneEnum::Dma32)
        &&& self.high@ == spec_zone_regions(self.all@, MemoryZoneEnum::High)
    }

    /// The list of `zone`.
    pub open spec fn spec_zone_list(&self, zone: MemoryZoneEnum) -> Seq<UsableRegion> {
        match zone {
            MemoryZoneEnum::IsaDma => self.isa_dma@,
            MemoryZoneEnum::Dma32 => self.dma32@,
            MemoryZoneEnum::High => self.high@,
        }
    }

    /// The list of `zone`.
    pub fn zone_list(&self, zone: MemoryZoneEnum) -> (list: &RegionList)
        ensures
            list@ == self.spec_zone_list(zone),
    {
        match zone {
            MemoryZoneEnum::IsaDma => &self.isa_dma,
            MemoryZoneEnum::Dma32 => &self.dma32,
            MemoryZoneEnum::High => &self.high,
        }
    }
}

/// The parts of `regions` that lie in `zone`.
pub open spec fn spec_zone_regions(regions: Seq<UsableRegion>, zone: MemoryZoneEnum) -> Seq<
    UsableRegion,
> {
    clip_list(regions, zone.spec_min_first_page(), zone.spec_max_last_page())
}

/// Clips every region of `all` to `zone` and keeps what is left of each.
pub fn zone_regions(all: &RegionList, zone: MemoryZoneEnum) -> (list: RegionList)
    requires
        forall|i: int| 0 <= i < all@.len() ==> (#[trigger] all@[i]).wf(),
    ensures
        list@ == spec_zone_regions(all@, zone),
{
    let limit_first_page = zone.min_first_page();
    let limit_last_page = zone.max_last_page();
    let mut list = RegionList::new();
    let n = all.len();
    let mut i: usize = 0;
    while i < n
        invariant
            n == all@.len(),
            n <= REGION_LIST_CAPACITY,
            i <= n,
            limit_first_page == zone.spec_min_first_page(),
            limit_last_page == zone.spec_max_last_page(),
            forall|k: int| 0 <= k < all@.len() ==> (#[trigger] all@[k]).wf(),
            list@ == clip_list(all@.take(i as int), limit_first_page, limit_last_page),
            list@.len() <= i,
        decreases n - i,
    {
        let usable_region = all.get(i);
        proof {
            let next = all@.take(i + 1);
            assert(next.drop_last() == all@.take(i as int));
            assert(next.last() == all@[i as int]);
            assert(clip_list(next, limit_first_page, limit_last_page) == match spec_adjust(
                next.last(),
                limit_first_page,
                limit_last_page,
            ) {
                Some(part) => clip_list(next.drop_last(), limit_first_page, limit_last_page).push(
                    part,
                ),
                None => clip_list(next.drop_last(), limit_first_page, limit_last_page),
            });
        }
        if let Some(new_usable_region) = adjust_usable_region(
            &usable_region,
            limit_first_page,
            limit_last_page,
        ) {
            list.push(new_usable_region);
        }
        i += 1;
    }
    proof {
        assert(all@.take(n as int) == all@);
    }
    list
}

} // verus!
