//! The physical memory manager: finds the usable memory at boot, sets up the
//! zone allocators, and allocates from the zones in order of priority.

use super::bootstrap::{
    carved, init_slab_info_ptrs_array, is_last_fitting, lemma_carved_keeps_last_page,
    lemma_zone_lists_separated, slab_info_table_not_placed, slab_info_table_placed,
    spec_slab_info_entries, CarveError, SlabInfoTable,
};
use super::region_collector::{
    collect_usable_regions, collected_regions, pairwise_disjoint, CollectError,
};
use super::region_list::{UsableRegion, REGION_LIST_CAPACITY};
use super::zone_setup::{
    init_allocators, lemma_high_regions_stay, spec_zone_arena, zones_not_set_up, zones_set_up,
    MetadataPlacement, SetupError, ZoneArena, ZoneSetup, ZoneSetups,
};
use super::zones::{
    get_zone_allocator_by_addr, separated, spec_zone_of, MemoryRegion, MemoryZoneEnum,
    RegionLists,
};
use super::virtual_memory_manager::MAX_MAPPED_PHYS_ADDR;
use super::PAGE_SIZE;
use vstd::arithmetic::power2::is_pow2;
use vstd::prelude::*;

verus! {

/// Why the physical memory manager could not be set up.
#[derive(Debug, Clone, Copy, PartialEq, Eq, Structural)]
pub enum InitError {
    /// The boot memory map was refused.
    Collect(CollectError),
    /// The table of slab info pointers found no place.
    SlabInfoTable(CarveError),
    /// A zone allocator could not be set up.
    Setup(SetupError),
}

/// The usable regions of physical memory, the place of the slab info table
/// and the setup of each zone allocator.
pub struct PhysicalMemoryManager {
    /// The usable regions that are left for the allocators, filed by zone.
    pub regions: RegionLists,
    /// Where the table of slab info pointers lies.
    pub slab_info_table: SlabInfoTable,
    /// The setup of each zone; `None` for a zone that was not initialized.
    pub zones: ZoneSetups,
}

/// Whether `setup` is none for a zone without usable regions, and else has
/// the arena that the regions span.
pub open spec fn zone_matches(regions: Seq<UsableRegion>, setup: Option<ZoneSetup>) -> bool {
    match spec_zone_arena(regions) {
        None => setup is None,
        Some(arena) => match setup {
            None => false,
            Some(s) => s.arena == arena,
        },
    }
}

/// Whether `regions` are the regions kept of `memory_map`, ordered by
/// address, each ending before the next one starts.
pub open spec fn collected_as(memory_map: Seq<MemoryRegion>, regions: Seq<UsableRegion>) -> bool {
    &&& separated(regions)
    &&& regions.to_multiset() == collected_regions(memory_map).to_multiset()
}

/// Whether `error` is why `memory_map` is refused.
pub open spec fn collect_refused(memory_map: Seq<MemoryRegion>, error: CollectError) -> bool {
    match error {
        CollectError::TooManyRegions => collected_regions(memory_map).len()
            > REGION_LIST_CAPACITY,
        CollectError::OverlappingRegions => {
            &&& collected_regions(memory_map).len() <= REGION_LIST_CAPACITY
            &&& !pairwise_disjoint(collected_regions(memory_map))
        },
    }
}

/// The steps from the boot memory map to the manager: `collected` are the
/// regions kept of the map; `reserved` is what the slab info table leaves of
/// them; the manager's regions are what the zone setup leaves of those.
pub open spec fn boot_sequence<F: Fn(u64, u64) -> Option<u64>>(
    sizeof_alignment: F,
    memory_map: Seq<MemoryRegion>,
    collected: Seq<UsableRegion>,
    reserved: Seq<UsableRegion>,
    table: SlabInfoTable,
    regions: Seq<UsableRegion>,
    zones: ZoneSetups,
) -> bool {
    &&& collected_as(memory_map, collected)
    &&& slab_info_table_placed(collected, reserved, table)
    &&& zones_set_up(sizeof_alignment, reserved, regions, zones)
}

/// The steps up to a zone setup that fails with `error`.
pub open spec fn boot_sequence_failed<F: Fn(u64, u64) -> Option<u64>>(
    sizeof_alignment: F,
    memory_map: Seq<MemoryRegion>,
    collected: Seq<UsableRegion>,
    reserved: Seq<UsableRegion>,
    table: SlabInfoTable,
    regions: Seq<UsableRegion>,
    error: SetupError,
) -> bool {
    &&& collected_as(memory_map, collected)
    &&& slab_info_table_placed(collected, reserved, table)
    &&& zones_not_set_up(sizeof_alignment, reserved, regions, error)
}

impl PhysicalMemoryManager {
    /// The region lists are well formed and hold memory, the slab info table
    /// has a slot for each page up to the last usable one, and a zone has a
    /// setup exactly when it has usable regions, with the arena they span.
    pub open spec fn wf(&self) -> bool {
        &&& self.regions.wf()
        &&& self.regions.all@.len() > 0
        &&& self.slab_info_table.entries == spec_slab_info_entries(self.regions.all@)
        &&& zone_matches(self.regions.isa_dma@, self.zones.isa_dma)
        &&& zone_matches(self.regions.dma32@, self.zones.dma32)
        &&& zone_matches(self.regions.high@, self.zones.high)
    }

    /// The setup of `zone`, if it was initialized.
    pub open spec fn spec_zone_setup(&self, zone: MemoryZoneEnum) -> Option<ZoneSetup> {
        match zone {
            MemoryZoneEnum::IsaDma => self.zones.isa_dma,
            MemoryZoneEnum::Dma32 => self.zones.dma32,
            MemoryZoneEnum::High => self.zones.high,
        }
    }

    /// Whether `zone` was initialized.
    pub open spec fn spec_is_initialized(&self, zone: MemoryZoneEnum) -> bool {
        self.spec_zone_setup(zone) is Some
    }

    /// The setup of `zone`, if it was initialized.
    pub fn zone_setup(&self, zone: MemoryZoneEnum) -> (setup: Option<ZoneSetup>)
        ensures
            setup == self.spec_zone_setup(zone),
    {
        match zone {
            MemoryZoneEnum::IsaDma => self.zones.isa_dma,
            MemoryZoneEnum::Dma32 => self.zones.dma32,
            MemoryZoneEnum::High => self.zones.high,
        }
    }

    /// Whether `zone` was initialized.
    pub fn is_initialized(&self, zone: MemoryZoneEnum) -> (yes: bool)
        ensures
            yes == self.spec_is_initialized(zone),
    {
        self.zone_setup(zone).is_some()
    }
}

/// A step of bringing up the allocator of a zone.
#[derive(Debug, Clone, Copy, PartialEq, Eq, Structural)]
pub enum ZoneOperation {
    /// Create the allocator for `arena`, with `metadata_size` bytes of
    /// metadata at `metadata`.
    Create {
        /// Where the metadata lies.
        metadata: MetadataPlacement,
        /// Bytes of metadata.
        metadata_size: u64,
        /// The range that the allocator manages.
        arena: ZoneArena,
    },
    /// Mark the `size` bytes at `addr` as allocated.
    ReserveRange {
        /// Address of the first byte.
        addr: u64,
        /// Number of bytes.
        size: u64,
    },
    /// Mark the `size` bytes at `addr` as free.
    ReleaseRange {
        /// Address of the first byte.
        addr: u64,
        /// Number of bytes.
        size: u64,
    },
}

/// Step `step` of bringing up the allocator of a zone with the setup `setup`
/// and the usable regions `regions`: the allocator is created, then its whole
/// arena is reserved, then each usable region is released, in ascending
/// order; after that nothing is left to do.
pub open spec fn spec_zone_operation(
    setup: ZoneSetup,
    regions: Seq<UsableRegion>,
    step: int,
) -> Option<ZoneOperation> {
    if step == 0 {
        Some(
            ZoneOperation::Create {
                metadata: setup.metadata,
                metadata_size: setup.metadata_size,
                arena: setup.arena,
            },
        )
    } else if step == 1 {
        Some(ZoneOperation::ReserveRange { addr: setup.arena.first_page, size: setup.arena.size })
    } else if 2 <= step < regions.len() + 2 {
        Some(
            ZoneOperation::ReleaseRange {
                addr: regions[step - 2].first_page,
                size: regions[step - 2].spec_size() as u64,
            },
        )
    } else {
        None
    }
}

impl PhysicalMemoryManager {
    /// Step `step`, counted from 0, of bringing up the allocator of `zone`;
    /// `None` for a zone that was not initialized, and when all steps are
    /// done. So no memory is free before it is released, and only the usable
    /// regions ever are.
    pub fn zone_operation(&self, zone: MemoryZoneEnum, step: usize) -> (operation: Option<
        ZoneOperation,
    >)
        requires
            self.wf(),
        ensures
            operation == match self.spec_zone_setup(zone) {
                None => None,
                Some(setup) => spec_zone_operation(
                    setup,
                    self.regions.spec_zone_list(zone),
                    step as int,
                ),
            },
    {
        let setup = match self.zone_setup(zone) {
            Some(setup) => setup,
            None => {
                return None;
            },
        };
        if step == 0 {
            Some(
                ZoneOperation::Create {
                    metadata: setup.metadata,
                    metadata_size: setup.metadata_size,
                    arena: setup.arena,
                },
            )
        } else if step == 1 {
            Some(
                ZoneOperation::ReserveRange {
                    addr: setup.arena.first_page,
                    size: setup.arena.size,
                },
            )
        } else {
            let regions = self.regions.zone_list(zone);
            if step - 2 < regions.len() {
                proof {
                    lemma_zone_lists_separated(&self.regions, zone);
                }
                let usable_region = regions.get(step - 2);
                Some(
                    ZoneOperation::ReleaseRange {
                        addr: usable_region.first_page,
                        size: usable_region.size(),
                    },
                )
            } else {
                None
            }
        }
    }
}

/// Inits Physical Memory Manager and allocators
///
/// Collects the usable regions of the boot memory map, places the table of
/// slab info pointers, and sets up the zone allocators; `sizeof_alignment`
/// computes the metadata size of an arena from its size and the page size.
/// The map must hold usable memory, which `has_usable_memory` tells: without
/// any there is nothing to manage, and no manager.
pub fn init<F: Fn(u64, u64) -> Option<u64>>(memory_regions: &[MemoryRegion], sizeof_alignment: F) -> (result:
    Result<PhysicalMemoryManager, InitError>)
    requires
        collected_regions(memory_regions@).len() > 0,
        forall|size: u64, alignment: u64| call_requires(sizeof_alignment, (size, alignment)),
    ensures
        match result {
            Ok(pmm) => {
                &&& collected_regions(memory_regions@).len() <= REGION_LIST_CAPACITY
                &&& pairwise_disjoint(collected_regions(memory_regions@))
                &&& pmm.wf()
                &&& exists|collected: Seq<UsableRegion>, reserved: Seq<UsableRegion>| #[trigger]
                    boot_sequence(
                        sizeof_alignment,
                        memory_regions@,
                        collected,
                        reserved,
                        pmm.slab_info_table,
                        pmm.regions.all@,
                        pmm.zones,
                    )
            },
            Err(InitError::Collect(error)) => collect_refused(memory_regions@, error),
            Err(InitError::SlabInfoTable(error)) => exists|collected: Seq<UsableRegion>|
                {
                    &&& #[trigger] collected_as(memory_regions@, collected)
                    &&& collected.len() > 0
                    &&& slab_info_table_not_placed(collected, error)
                },
            Err(InitError::Setup(error)) => exists|
                collected: Seq<UsableRegion>,
                reserved: Seq<UsableRegion>,
                table: SlabInfoTable,
                regions: Seq<UsableRegion>,
            | #[trigger]
                boot_sequence_failed(
                    sizeof_alignment,
                    memory_regions@,
                    collected,
                    reserved,
                    table,
                    regions,
                    error,
                ),
        },
{
    let mut regions = match collect_usable_regions(memory_regions) {
        Ok(regions) => regions,
        Err(error) => {
            return Err(InitError::Collect(error));
        },
    };
    let ghost collected = regions.all@;
    assert(collected_as(memory_regions@, collected));
    proof {
        vstd::seq_lib::to_multiset_len(collected);
        vstd::seq_lib::to_multiset_len(collected_regions(memory_regions@));
    }
    let slab_info_table = match init_slab_info_ptrs_array(&mut regions) {
        Ok(table) => table,
        Err(error) => {
            return Err(InitError::SlabInfoTable(error));
        },
    };
    let ghost reserved = regions.all@;
    proof {
        let index = choose|index: int|
            {
                &&& #[trigger] is_last_fitting(collected, index, slab_info_table.size as int)
                &&& slab_info_table.phys_addr == collected[index].first_page
                &&& reserved == carved(collected, index, slab_info_table.size as int)
            };
        lemma_carved_keeps_last_page(collected, index, slab_info_table.size as int);
    }
    let zones = match init_allocators(&mut regions, sizeof_alignment) {
        Ok(zones) => zones,
        Err(error) => {
            assert(boot_sequence_failed(
                sizeof_alignment,
                memory_regions@,
                collected,
                reserved,
                slab_info_table,
                regions.all@,
                error,
            ));
            return Err(InitError::Setup(error));
        },
    };
    proof {
        match zones.high {
            Some(setup) => {
                match setup.metadata {
                    MetadataPlacement::Carved(storage) => {
                        lemma_high_regions_stay(
                            reserved,
                            regions.all@,
                            setup.metadata_size,
                            storage,
                        );
                    },
                    MetadataPlacement::Static => {},
                }
            },
            None => {},
        }
    }
    let pmm = PhysicalMemoryManager { regions, slab_info_table, zones };
    assert(boot_sequence(
        sizeof_alignment,
        memory_regions@,
        collected,
        reserved,
        pmm.slab_info_table,
        pmm.regions.all@,
        pmm.zones,
    ));
    Ok(pmm)
}

/// Whether `requested_size` is a size that the zone allocators serve: a
/// power of two of at least one page.
pub open spec fn spec_valid_request_size(requested_size: usize) -> bool {
    requested_size >= PAGE_SIZE && is_pow2(requested_size as int)
}

/// Whether `requested_size` is a power of two of at least one page.
pub fn valid_request_size(requested_size: usize) -> (valid: bool)
    ensures
        valid == spec_valid_request_size(requested_size),
{
    requested_size >= PAGE_SIZE && super::is_power_of_two(requested_size)
}

impl PhysicalMemoryManager {
    /// Whether `addr` is what an allocation of `requested_size` bytes from
    /// `zones` gives, where `malloc` asks the allocator of one zone: the
    /// answer of the first initialized zone of the list that does not answer
    /// with the null address, all initialized zones before it having answered
    /// with it; the null address where every initialized zone of the list
    /// answers with it.
    pub open spec fn allocated<F: Fn(MemoryZoneEnum, usize) -> u64>(
        &self,
        malloc: F,
        zones: Seq<MemoryZoneEnum>,
        requested_size: usize,
        addr: u64,
    ) -> bool {
        if addr == 0 {
            forall|i: int|
                0 <= i < zones.len() && self.spec_is_initialized(#[trigger] zones[i])
                    ==> call_ensures(malloc, (zones[i], requested_size), 0u64)
        } else {
            exists|i: int|
                {
                    &&& 0 <= i < zones.len()
                    &&& self.spec_is_initialized(#[trigger] zones[i])
                    &&& call_ensures(malloc, (zones[i], requested_size), addr)
                    &&& forall|j: int|
                        0 <= j < i && self.spec_is_initialized(#[trigger] zones[j])
                            ==> call_ensures(malloc, (zones[j], requested_size), 0u64)
                }
        }
    }

    /// Allocs memory from zone using buddy allocators
    ///
    /// request_size must be one or more pages
    ///
    /// `memory_zones_and_priority_specifier` specifies from which zones memory
    /// can be allocated and the priority in which it should be allocated;
    /// `malloc` asks the allocator of one zone for the bytes and answers with
    /// their address, or with the null address where that zone has none left.
    ///
    /// May return null address
    pub fn alloc_from_zones<F: Fn(MemoryZoneEnum, usize) -> u64>(
        &self,
        memory_zones_and_priority_specifier: &[MemoryZoneEnum],
        requested_size: usize,
        malloc: F,
    ) -> (addr: u64)
        requires
            spec_valid_request_size(requested_size),
            forall|zone: MemoryZoneEnum| call_requires(malloc, (zone, requested_size)),
        ensures
            self.allocated(malloc, memory_zones_and_priority_specifier@, requested_size, addr),
    {
        let mut i: usize = 0;
        while i < memory_zones_and_priority_specifier.len()
            invariant
                i <= memory_zones_and_priority_specifier@.len(),
                forall|zone: MemoryZoneEnum| call_requires(malloc, (zone, requested_size)),
                forall|j: int|
                    0 <= j < i && self.spec_is_initialized(
                        #[trigger] memory_zones_and_priority_specifier@[j],
                    ) ==> call_ensures(
                        malloc,
                        (memory_zones_and_priority_specifier@[j], requested_size),
                        0u64,
                    ),
            decreases memory_zones_and_priority_specifier@.len() - i,
        {
            let requested_memory_zone = memory_zones_and_priority_specifier[i];
            // Zone exist?
            if self.is_initialized(requested_memory_zone) {
                // Try to alloc memory from zone
                let allocated_addr = malloc(requested_memory_zone, requested_size);
                if allocated_addr != 0 {
                    assert(self.spec_is_initialized(memory_zones_and_priority_specifier@[i as int]));
                    return allocated_addr;
                }
            }
            i += 1;
        }
        0
    }

    /// Whether `freed_addr` can be given back: it is no null address, lies on
    /// a page boundary, and belongs to a zone that was initialized.
    pub open spec fn spec_owns(&self, freed_addr: u64) -> bool {
        &&& freed_addr != 0
        &&& freed_addr % 4096 == 0
        &&& match spec_zone_of(freed_addr) {
            Some(zone) => self.spec_is_initialized(zone),
            None => false,
        }
    }

    /// Whether `addr` is no null address, lies on a page boundary, and belongs
    /// to a zone that was initialized.
    pub fn owns(&self, addr: u64) -> (yes: bool)
        ensures
            yes == self.spec_owns(addr),
    {
        if addr == 0 || addr % 4096 != 0 {
            return false;
        }
        match get_zone_allocator_by_addr(addr) {
            Some(zone) => self.is_initialized(zone),
            None => false,
        }
    }

    /// Frees memory to buddy allocator
    ///
    /// The zone is found from the address alone; `free_in_zone` gives the
    /// address back to the allocator of that zone. Returns the zone.
    ///
    /// Freed memory must be previously allocated memory
    pub fn free<F: Fn(MemoryZoneEnum, u64)>(&self, freed_addr: u64, free_in_zone: F) -> (zone:
        MemoryZoneEnum)
        requires
            self.spec_owns(freed_addr),
            call_requires(free_in_zone, (spec_zone_of(freed_addr).unwrap(), freed_addr)),
        ensures
            Some(zone) == spec_zone_of(freed_addr),
            call_ensures(free_in_zone, (zone, freed_addr), ()),
    {
        match get_zone_allocator_by_addr(freed_addr) {
            Some(zone) => {
                free_in_zone(zone, freed_addr);
                zone
            },
            None => {
                proof {
                    assert(false);
                }
                MemoryZoneEnum::IsaDma
            },
        }
    }

    /// Reallocs memory, like C realloc
    ///
    /// The zone is found from the address alone; `realloc_in_zone` asks the
    /// allocator of that zone for the new size and answers with the new
    /// address, or with the null address. What the memory holds is given up:
    /// the buddy allocator works with physical memory and cannot move data.
    pub fn realloc<F: Fn(MemoryZoneEnum, u64, usize) -> u64>(
        &self,
        phys_addr: u64,
        requested_size: usize,
        ignore_data: bool,
        realloc_in_zone: F,
    ) -> (new_addr: u64)
        requires
            ignore_data,
            match spec_zone_of(phys_addr) {
                Some(zone) => self.spec_is_initialized(zone) && call_requires(
                    realloc_in_zone,
                    (zone, phys_addr, requested_size),
                ),
                None => false,
            },
        ensures
            call_ensures(
                realloc_in_zone,
                (spec_zone_of(phys_addr).unwrap(), phys_addr, requested_size),
                new_addr,
            ),
    {
        match get_zone_allocator_by_addr(phys_addr) {
            Some(zone) => realloc_in_zone(zone, phys_addr, requested_size),
            None => {
                proof {
                    assert(false);
                }
                0
            },
        }
    }
}

/// Whether the allocator of each zone answers a request for `size` bytes with
/// the null address or with an address of that zone.
pub open spec fn answers_in_zone<F: Fn(MemoryZoneEnum, usize) -> u64>(malloc: F, size: usize) -> bool {
    forall|zone: MemoryZoneEnum, answer: u64| #[trigger]
        call_ensures(malloc, (zone, size), answer) ==> answer == 0 || zone.spec_contains(answer)
}

/// Where the allocator of each zone answers with the null address or with an
/// address of that zone, what an allocation gives lies in a zone of the list,
/// and so has a mirror in the complete physical memory mapping.
pub proof fn lemma_allocated_in_zone<F: Fn(MemoryZoneEnum, usize) -> u64>(
    pmm: PhysicalMemoryManager,
    malloc: F,
    zones: Seq<MemoryZoneEnum>,
    requested_size: usize,
    addr: u64,
)
    requires
        pmm.allocated(malloc, zones, requested_size, addr),
        addr != 0,
        answers_in_zone(malloc, requested_size),
    ensures
        exists|i: int| 0 <= i < zones.len() && (#[trigger] zones[i]).spec_contains(addr),
        addr <= MAX_MAPPED_PHYS_ADDR,
{
    let i = choose|i: int|
        {
            &&& 0 <= i < zones.len()
            &&& pmm.spec_is_initialized(#[trigger] zones[i])
            &&& call_ensures(malloc, (zones[i], requested_size), addr)
        };
    assert(zones[i].spec_contains(addr));
}

/// Allocation round trip: where the allocator of each zone answers with the
/// null address or with a page of that zone, what an allocation gives can be
/// given back, and goes back to the allocator of the zone that gave it: an
/// initialized zone of the list that answered with this address.
pub proof fn lemma_freed_where_allocated<F: Fn(MemoryZoneEnum, usize) -> u64>(
    pmm: PhysicalMemoryManager,
    malloc: F,
    zones: Seq<MemoryZoneEnum>,
    requested_size: usize,
    addr: u64,
)
    requires
        pmm.allocated(malloc, zones, requested_size, addr),
        addr != 0,
        forall|zone: MemoryZoneEnum, answer: u64| #[trigger]
            call_ensures(malloc, (zone, requested_size), answer) ==> answer == 0 || (
            zone.spec_contains(answer) && answer % 4096 == 0),
    ensures
        pmm.spec_owns(addr),
        exists|i: int|
            {
                &&& 0 <= i < zones.len()
                &&& spec_zone_of(addr) == Some(#[trigger] zones[i])
                &&& pmm.spec_is_initialized(zones[i])
                &&& call_ensures(malloc, (zones[i], requested_size), addr)
            },
{
    let i = choose|i: int|
        {
            &&& 0 <= i < zones.len()
            &&& pmm.spec_is_initialized(#[trigger] zones[i])
            &&& call_ensures(malloc, (zones[i], requested_size), addr)
        };
    assert(zones[i].spec_contains(addr) && addr % 4096 == 0);
    assert(spec_zone_of(addr) == Some(zones[i]));
}

/// Priority fallback: where the first of two zones has no memory left and the
/// second, which was initialized, answers every request with an address of
/// its own range, an allocation from the two in this order gives an address
/// of the second zone.
pub proof fn lemma_priority_fallback<F: Fn(MemoryZoneEnum, usize) -> u64>(
    pmm: PhysicalMemoryManager,
    malloc: F,
    exhausted: MemoryZoneEnum,
    fallback: MemoryZoneEnum,
    requested_size: usize,
    addr: u64,
)
    requires
        pmm.allocated(malloc, seq![exhausted, fallback], requested_size, addr),
        pmm.spec_is_initialized(fallback),
        forall|answer: u64| #[trigger]
            call_ensures(malloc, (exhausted, requested_size), answer) ==> answer == 0,
        forall|answer: u64| #[trigger]
            call_ensures(malloc, (fallback, requested_size), answer) ==> answer != 0
                && fallback.spec_contains(answer),
    ensures
        addr != 0,
        fallback.spec_contains(addr),
{
    let zones = seq![exhausted, fallback];
    assert(zones[1] == fallback);
    assert(zones[0] == exhausted);
    if addr == 0 {
        assert(pmm.spec_is_initialized(zones[1]));
        assert(call_ensures(malloc, (zones[1], requested_size), 0u64));
        assert(call_ensures(malloc, (fallback, requested_size), 0u64));
        assert(false);
    } else {
        let i = choose|i: int|
            {
                &&& 0 <= i < zones.len()
                &&& pmm.spec_is_initialized(#[trigger] zones[i])
                &&& call_ensures(malloc, (zones[i], requested_size), addr)
            };
        if i == 0 {
            assert(call_ensures(malloc, (exhausted, requested_size), addr));
        } else {
            assert(i == 1);
            assert(call_ensures(malloc, (fallback, requested_size), addr));
        }
    }
}

} // verus!
