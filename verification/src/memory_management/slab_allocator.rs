//! What the memory backends of the slab caches decide: which slabs to ask the
//! physical memory manager for, and where the slab info pointer of a page is
//! kept.

use super::bootstrap::{spec_slab_info_entries, SlabInfoTable};
use super::region_list::UsableRegion;
use super::physical_memory_manager::{
    answers_in_zone, lemma_allocated_in_zone, PhysicalMemoryManager,
};
use super::virtual_memory_manager::{
    phys_addr_to_cpmm_virt_addr, spec_phys_to_virt, spec_virt_to_phys,
    virt_addr_from_cpmm_to_phys_addr, MAX_MAPPED_PHYS_ADDR, PHYSICAL_MEMORY_MAPPING_OFFSET,
};
use super::zones::{
    separated, spec_zone_of, within_zones, MemoryZoneEnum, HIGH_ZONE_MAX_LAST_PAGE_ADDR,
};
use super::{is_power_of_two, PAGE_SIZE, PAGE_SIZE_U64};
use vstd::arithmetic::power2::is_pow2;
use vstd::prelude::*;

verus! {

/// The zones that slabs are taken from, in this order.
pub open spec fn spec_slab_zones() -> Seq<MemoryZoneEnum> {
    seq![MemoryZoneEnum::High, MemoryZoneEnum::IsaDma, MemoryZoneEnum::Dma32]
}

/// The zones that slabs are taken from: HIGH first, then ISA DMA, then DMA32.
pub fn slab_zones() -> (zones: [MemoryZoneEnum; 3])
    ensures
        zones@ == spec_slab_zones(),
{
    [MemoryZoneEnum::High, MemoryZoneEnum::IsaDma, MemoryZoneEnum::Dma32]
}

/// Whether a cache may ask for slabs of `slab_size` bytes: a power of two of
/// at least one page that is a multiple of the cache's page size.
pub open spec fn spec_valid_slab_size(slab_size: usize, page_size: usize) -> bool {
    &&& slab_size >= PAGE_SIZE
    &&& is_pow2(slab_size as int)
    &&& page_size != 0
    &&& slab_size % page_size == 0
}

/// Whether a cache may ask for slabs of `slab_size` bytes.
pub fn valid_slab_size(slab_size: usize, page_size: usize) -> (valid: bool)
    ensures
        valid == spec_valid_slab_size(slab_size, page_size),
{
    slab_size >= PAGE_SIZE && is_power_of_two(slab_size) && page_size != 0 && slab_size
        % page_size == 0
}

/// Whether `virt_addr` is what a request for a slab of `slab_size` bytes
/// gives: the null address where the physical memory manager has none, else
/// the mirror of the physical address that it gave.
pub open spec fn slab_allocated<F: Fn(MemoryZoneEnum, usize) -> u64>(
    pmm: PhysicalMemoryManager,
    malloc: F,
    slab_size: usize,
    virt_addr: u64,
) -> bool {
    if virt_addr == 0 {
        pmm.allocated(malloc, spec_slab_zones(), slab_size, 0)
    } else {
        &&& virt_addr > PHYSICAL_MEMORY_MAPPING_OFFSET
        &&& pmm.allocated(malloc, spec_slab_zones(), slab_size, spec_virt_to_phys(virt_addr) as u64)
    }
}

/// Asks the physical memory manager for a slab of `slab_size` bytes from the
/// zones of `slab_zones`, and returns its address in the complete physical
/// memory mapping, or the null address.
pub fn alloc_slab<F: Fn(MemoryZoneEnum, usize) -> u64>(
    pmm: &PhysicalMemoryManager,
    slab_size: usize,
    page_size: usize,
    malloc: F,
) -> (virt_addr: u64)
    requires
        spec_valid_slab_size(slab_size, page_size),
        forall|zone: MemoryZoneEnum| call_requires(malloc, (zone, slab_size)),
        answers_in_zone(malloc, slab_size),
    ensures
        slab_allocated(*pmm, malloc, slab_size, virt_addr),
{
    let zones = slab_zones();
    // Alloc physical frame with slab size
    let phys_addr = pmm.alloc_from_zones(zones.as_slice(), slab_size, malloc);
    if phys_addr == 0 {
        return 0;
    }
    proof {
        lemma_allocated_in_zone(*pmm, malloc, zones@, slab_size, phys_addr);
    }
    phys_addr_to_cpmm_virt_addr(phys_addr)
}

/// Whether the slab at `slab_ptr` can be given back: the address lies in the
/// complete physical memory mapping and mirrors an address that the physical
/// memory manager owns.
pub open spec fn spec_slab_owned(pmm: PhysicalMemoryManager, slab_ptr: u64) -> bool {
    &&& slab_ptr >= PHYSICAL_MEMORY_MAPPING_OFFSET
    &&& pmm.spec_owns(spec_virt_to_phys(slab_ptr) as u64)
}

/// Whether the slab at `slab_ptr` can be given back.
pub fn slab_owned(pmm: &PhysicalMemoryManager, slab_ptr: u64) -> (yes: bool)
    ensures
        yes == spec_slab_owned(*pmm, slab_ptr),
{
    slab_ptr >= PHYSICAL_MEMORY_MAPPING_OFFSET && pmm.owns(
        virt_addr_from_cpmm_to_phys_addr(slab_ptr),
    )
}

/// Gives the slab at `slab_ptr`, an address in the complete physical memory
/// mapping, back to the allocator of the zone that its physical address
/// belongs to. Returns that zone.
pub fn free_slab<F: Fn(MemoryZoneEnum, u64)>(
    pmm: &PhysicalMemoryManager,
    slab_ptr: u64,
    slab_size: usize,
    page_size: usize,
    free_in_zone: F,
) -> (zone: MemoryZoneEnum)
    requires
        spec_valid_slab_size(slab_size, page_size),
        spec_slab_owned(*pmm, slab_ptr),
        call_requires(
            free_in_zone,
            (
                spec_zone_of(spec_virt_to_phys(slab_ptr) as u64).unwrap(),
                spec_virt_to_phys(slab_ptr) as u64,
            ),
        ),
    ensures
        Some(zone) == spec_zone_of(spec_virt_to_phys(slab_ptr) as u64),
        call_ensures(free_in_zone, (zone, spec_virt_to_phys(slab_ptr) as u64), ()),
{
    let phys_addr = virt_addr_from_cpmm_to_phys_addr(slab_ptr);
    pmm.free(phys_addr, free_in_zone)
}

/// The slot of the slab info table that belongs to the page at
/// `object_page_addr`, an address in the complete physical memory mapping:
/// the number of the physical page. The table has a slot for each page up to
/// the last usable one, so every usable page has one.
pub open spec fn spec_slab_info_slot(object_page_addr: u64) -> int {
    spec_virt_to_phys(object_page_addr) / 4096
}

/// Whether the table has a slot for the page at `object_page_addr`.
pub open spec fn spec_has_slab_info_slot(table: SlabInfoTable, object_page_addr: u64) -> bool {
    &&& object_page_addr >= PHYSICAL_MEMORY_MAPPING_OFFSET
    &&& spec_slab_info_slot(object_page_addr) < table.entries
}

/// Whether the table has a slot for the page at `object_page_addr`.
pub fn has_slab_info_slot(table: &SlabInfoTable, object_page_addr: u64) -> (yes: bool)
    ensures
        yes == spec_has_slab_info_slot(*table, object_page_addr),
{
    object_page_addr >= PHYSICAL_MEMORY_MAPPING_OFFSET && virt_addr_from_cpmm_to_phys_addr(
        object_page_addr,
    ) / PAGE_SIZE_U64 < table.entries
}

/// The slot of the slab info table in which the slab info pointer of the page
/// at `object_page_addr` is kept.
pub fn slab_info_slot(table: &SlabInfoTable, object_page_addr: u64) -> (slot: u64)
    requires
        spec_has_slab_info_slot(*table, object_page_addr),
    ensures
        slot == spec_slab_info_slot(object_page_addr),
        slot < table.entries,
{
    virt_addr_from_cpmm_to_phys_addr(object_page_addr) / PAGE_SIZE_U64
}

/// Every page up to the last usable one has a slot: an address that does not
/// lie behind the last page of `regions`, which the table was sized for, is
/// mirrored in the mapping, and the number of its page lies in the table.
pub proof fn lemma_pages_up_to_the_last_have_slots(
    regions: Seq<UsableRegion>,
    table: SlabInfoTable,
    phys_addr: u64,
)
    requires
        regions.len() > 0,
        separated(regions),
        within_zones(regions),
        table.entries == spec_slab_info_entries(regions),
        phys_addr <= regions.last().last_page + 4095,
    ensures
        phys_addr <= MAX_MAPPED_PHYS_ADDR,
        spec_has_slab_info_slot(table, spec_phys_to_virt(phys_addr) as u64),
        spec_slab_info_slot(spec_phys_to_virt(phys_addr) as u64) == phys_addr / 4096,
{
    let last = regions[regions.len() - 1];
    assert(last.wf());
    assert(last.last_page <= HIGH_ZONE_MAX_LAST_PAGE_ADDR);
}

/// Every usable page has a slot: an address in a region of `regions`, whose
/// last page the table was sized for, is mirrored in the mapping, and the
/// number of its page lies in the table.
pub proof fn lemma_usable_pages_have_slots(
    regions: Seq<UsableRegion>,
    table: SlabInfoTable,
    index: int,
    phys_addr: u64,
)
    requires
        separated(regions),
        within_zones(regions),
        table.entries == spec_slab_info_entries(regions),
        0 <= index < regions.len(),
        regions[index].first_page <= phys_addr <= regions[index].last_page + 4095,
    ensures
        phys_addr <= MAX_MAPPED_PHYS_ADDR,
        spec_has_slab_info_slot(table, spec_phys_to_virt(phys_addr) as u64),
        spec_slab_info_slot(spec_phys_to_virt(phys_addr) as u64) == phys_addr / 4096,
{
    let last = regions[regions.len() - 1];
    assert(regions[index].wf() && last.wf());
    if index < regions.len() - 1 {
        assert(regions[index].last_page < last.first_page);
    }
    lemma_pages_up_to_the_last_have_slots(regions, table, phys_addr);
}

/// Every page has a slot of its own: two addresses of the mapping share a
/// slot exactly when they lie in the same page. So caches that own different
/// pages never touch the same slot, and the table needs no lock.
pub proof fn lemma_slab_info_slots_apart(a: u64, b: u64)
    requires
        a >= PHYSICAL_MEMORY_MAPPING_OFFSET,
        b >= PHYSICAL_MEMORY_MAPPING_OFFSET,
    ensures
        spec_slab_info_slot(a) == spec_slab_info_slot(b) <==> a / 4096 == b / 4096,
        a % 4096 == 0 && b % 4096 == 0 && a != b ==> spec_slab_info_slot(a) != spec_slab_info_slot(
            b,
        ),
{
}

/// The memory backend of the caches of kernel objects.
#[derive(Debug, Clone, Copy, PartialEq, Eq, Structural)]
pub struct DefaultMemoryBackend;

impl DefaultMemoryBackend {
    /// Takes a slab for a cache: see `alloc_slab`.
    pub fn alloc_slab<F: Fn(MemoryZoneEnum, usize) -> u64>(
        &mut self,
        pmm: &PhysicalMemoryManager,
        slab_size: usize,
        page_size: usize,
        malloc: F,
    ) -> (virt_addr: u64)
        requires
            spec_valid_slab_size(slab_size, page_size),
            forall|zone: MemoryZoneEnum| call_requires(malloc, (zone, slab_size)),
            answers_in_zone(malloc, slab_size),
        ensures
            slab_allocated(*pmm, malloc, slab_size, virt_addr),
            *final(self) == *old(self),
    {
        self::alloc_slab(pmm, slab_size, page_size, malloc)
    }

    /// Gives a slab of a cache back: see `free_slab`.
    pub fn free_slab<F: Fn(MemoryZoneEnum, u64)>(
        &mut self,
        pmm: &PhysicalMemoryManager,
        slab_ptr: u64,
        slab_size: usize,
        page_size: usize,
        free_in_zone: F,
    ) -> (zone: MemoryZoneEnum)
        requires
            spec_valid_slab_size(slab_size, page_size),
            spec_slab_owned(*pmm, slab_ptr),
            call_requires(
                free_in_zone,
                (
                    spec_zone_of(spec_virt_to_phys(slab_ptr) as u64).unwrap(),
                    spec_virt_to_phys(slab_ptr) as u64,
                ),
            ),
        ensures
            Some(zone) == spec_zone_of(spec_virt_to_phys(slab_ptr) as u64),
            call_ensures(free_in_zone, (zone, spec_virt_to_phys(slab_ptr) as u64), ()),
            *final(self) == *old(self),
    {
        self::free_slab(pmm, slab_ptr, slab_size, page_size, free_in_zone)
    }

    /// The slot in which the slab info pointer of the page at
    /// `object_page_addr` is saved.
    pub fn save_slab_info_ptr(&mut self, table: &SlabInfoTable, object_page_addr: u64) -> (slot:
        u64)
        requires
            spec_has_slab_info_slot(*table, object_page_addr),
        ensures
            slot == spec_slab_info_slot(object_page_addr),
            slot < table.entries,
            *final(self) == *old(self),
    {
        slab_info_slot(table, object_page_addr)
    }

    /// The slot from which the slab info pointer of the page at
    /// `object_page_addr` is read.
    pub fn get_slab_info_ptr(&mut self, table: &SlabInfoTable, object_page_addr: u64) -> (slot:
        u64)
        requires
            spec_has_slab_info_slot(*table, object_page_addr),
        ensures
            slot == spec_slab_info_slot(object_page_addr),
            slot < table.entries,
            *final(self) == *old(self),
    {
        slab_info_slot(table, object_page_addr)
    }

    /// Forgets the slab info pointer of the page at `page_addr`: nothing is
    /// done, since the slot of a page is not read again before it is saved
    /// anew. Returns whether a slot was changed, which is never.
    pub fn delete_slab_info_ptr(&mut self, table: &SlabInfoTable, page_addr: u64) -> (changed:
        bool)
        requires
            page_addr != 0,
        ensures
            !changed,
            *final(self) == *old(self),
    {
        false
    }
}

/// The memory backend of the cache that holds the slab infos themselves.
#[derive(Debug, Clone, Copy, PartialEq, Eq, Structural)]
pub struct SlabInfoCacheMemoryBackend;

impl SlabInfoCacheMemoryBackend {
    /// Takes a slab for the cache of slab infos: see `alloc_slab`.
    pub fn alloc_slab<F: Fn(MemoryZoneEnum, usize) -> u64>(
        &mut self,
        pmm: &PhysicalMemoryManager,
        slab_size: usize,
        page_size: usize,
        malloc: F,
    ) -> (virt_addr: u64)
        requires
            spec_valid_slab_size(slab_size, page_size),
            forall|zone: MemoryZoneEnum| call_requires(malloc, (zone, slab_size)),
            answers_in_zone(malloc, slab_size),
        ensures
            slab_allocated(*pmm, malloc, slab_size, virt_addr),
            *final(self) == *old(self),
    {
        self::alloc_slab(pmm, slab_size, page_size, malloc)
    }

    /// Gives a slab of the cache of slab infos back: see `free_slab`.
    pub fn free_slab<F: Fn(MemoryZoneEnum, u64)>(
        &mut self,
        pmm: &PhysicalMemoryManager,
        slab_ptr: u64,
        slab_size: usize,
        page_size: usize,
        free_in_zone: F,
    ) -> (zone: MemoryZoneEnum)
        requires
            spec_valid_slab_size(slab_size, page_size),
            spec_slab_owned(*pmm, slab_ptr),
            call_requires(
                free_in_zone,
                (
                    spec_zone_of(spec_virt_to_phys(slab_ptr) as u64).unwrap(),
                    spec_virt_to_phys(slab_ptr) as u64,
                ),
            ),
        ensures
            Some(zone) == spec_zone_of(spec_virt_to_phys(slab_ptr) as u64),
            call_ensures(free_in_zone, (zone, spec_virt_to_phys(slab_ptr) as u64), ()),
            *final(self) == *old(self),
    {
        self::free_slab(pmm, slab_ptr, slab_size, page_size, free_in_zone)
    }
}

} // verus!
