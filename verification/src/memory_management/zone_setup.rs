//! Sets up the zone allocators: the arena of each zone, the size and place of
//! its metadata, and the order in which all of it is decided.

use super::bootstrap::{
    carve_front, carved, fits, lemma_clip_list_members, lemma_clip_list_same_parts,
    lemma_zone_lists_separated,
};
use super::region_list::{RegionList, UsableRegion};
use super::zones::{
    separated, spec_adjust, spec_zone_regions, MemoryZoneEnum, RegionLists,
    HIGH_ZONE_MAX_LAST_PAGE_ADDR, ISA_DMA_ZONE_MIN_FIRST_PAGE_ADDR,
};
use super::{page_align_up, spec_align_up, PAGE_SIZE_U64};
use vstd::prelude::*;

verus! {

/// Bytes set aside in the kernel image for the metadata of the ISA DMA
/// allocator.
pub const ISA_DMA_ALLOCATOR_METADATA_SIZE: u64 = 1024 * 3;

/// Bytes set aside in the kernel image for the metadata of the DMA32
/// allocator.
pub const DMA32_ALLOCATOR_METADATA_SIZE: u64 = 1024 * 513;

/// The address range that a zone allocator manages: from the first page of
/// the first usable region of the zone to the end of the last page of the
/// last.
#[derive(Debug, Clone, Copy, PartialEq, Eq, Structural)]
pub struct ZoneArena {
    /// Address of the first page.
    pub first_page: u64,
    /// Bytes in the range.
    pub size: u64,
}

/// Storage taken from the front of a usable region.
#[derive(Debug, Clone, Copy, PartialEq, Eq, Structural)]
pub struct CarvedStorage {
    /// Physical address of the first byte.
    pub phys_addr: u64,
    /// Bytes taken, a whole number of pages.
    pub size: u64,
}

/// Where the metadata of a zone allocator lies.
#[derive(Debug, Clone, Copy, PartialEq, Eq, Structural)]
pub enum MetadataPlacement {
    /// In the buffer that the kernel image holds for the zone.
    Static,
    /// In storage taken from a usable region of a lower zone.
    Carved(CarvedStorage),
}

/// What the allocator of one zone is created with.
#[derive(Debug, Clone, Copy, PartialEq, Eq, Structural)]
pub struct ZoneSetup {
    /// The range that the allocator manages.
    pub arena: ZoneArena,
    /// Bytes of metadata that the allocator asks for.
    pub metadata_size: u64,
    /// Where those bytes lie.
    pub metadata: MetadataPlacement,
}

/// The setup of each zone; `None` for a zone without usable memory.
#[derive(Debug, Clone, Copy, PartialEq, Eq, Structural)]
pub struct ZoneSetups {
    /// ISA DMA zone: 1 MB - 16 MB
    pub isa_dma: Option<ZoneSetup>,
    /// DMA32 zone: 16 MB - 4 GB
    pub dma32: Option<ZoneSetup>,
    /// HIGH zone: 4 GB - 1 TB
    pub high: Option<ZoneSetup>,
}

/// Why the zone allocators could not be set up.
#[derive(Debug, Clone, Copy, PartialEq, Eq, Structural)]
pub enum SetupError {
    /// The metadata size of the zone's arena could not be computed.
    MetadataSizeUnknown(MemoryZoneEnum),
    /// The metadata of the zone, of the size given, does not fit in the
    /// zone's buffer.
    MetadataBufferTooSmall(MemoryZoneEnum, u64),
    /// No region of the DMA32 or ISA DMA zone can hold the metadata of the
    /// HIGH allocator, of the size given.
    NoMemoryForHighMetadata(u64),
}

/// The arena of a zone with the usable regions `regions`.
pub open spec fn spec_zone_arena(regions: Seq<UsableRegion>) -> Option<ZoneArena> {
    if regions.len() == 0 {
        None
    } else {
        Some(
            ZoneArena {
                first_page: regions[0].first_page,
                size: (regions.last().last_page + 4096 - regions[0].first_page) as u64,
            },
        )
    }
}

/// Detects the allocator range of a zone: from first usable page, to last
/// usable page; `None` for a zone without usable regions.
pub fn zone_arena(list: &RegionList) -> (arena: Option<ZoneArena>)
    requires
        separated(list@),
    ensures
        arena == spec_zone_arena(list@),
        arena matches Some(a) ==> a.size == list@.last().last_page + 4096 - list@[0].first_page
            && a.size >= 4096 && a.size % 4096 == 0 && a.first_page % 4096 == 0,
{
    let n = list.len();
    if n == 0 {
        return None;
    }
    let first = list.get(0);
    let last = list.get(n - 1);
    assert(first.wf() && last.wf());
    assert(first.first_page <= last.first_page) by {
        if n > 1 {
            assert(list@[0].last_page < list@[n - 1].first_page);
        }
    }
    Some(ZoneArena { first_page: first.first_page, size: last.last_page + 4096 - first.first_page })
}

/// Bytes that the kernel image holds for the metadata of `zone`; the HIGH
/// zone has no such buffer.
pub open spec fn spec_static_metadata_capacity(zone: MemoryZoneEnum) -> u64 {
    match zone {
        MemoryZoneEnum::IsaDma => ISA_DMA_ALLOCATOR_METADATA_SIZE,
        MemoryZoneEnum::Dma32 => DMA32_ALLOCATOR_METADATA_SIZE,
        MemoryZoneEnum::High => 0,
    }
}

/// Whether `region` starts in `zone` and its part in `zone` can give `bytes`
/// and keep a page. A region that reaches into `zone` from the zone below is
/// no donor: bytes taken at the zone's first page would lie in the middle of
/// the region, which a list of regions cannot show by moving a first page.
pub open spec fn is_donor(region: UsableRegion, zone: MemoryZoneEnum, bytes: int) -> bool {
    &&& zone.spec_contains(region.first_page)
    &&& spec_adjust(region, zone.spec_min_first_page(), zone.spec_max_last_page()) matches Some(
        part,
    ) && fits(part, bytes)
}

/// Whether the region at `index` is the first donor of the list.
pub open spec fn is_first_donor(
    regions: Seq<UsableRegion>,
    zone: MemoryZoneEnum,
    index: int,
    bytes: int,
) -> bool {
    &&& 0 <= index < regions.len()
    &&& is_donor(regions[index], zone, bytes)
    &&& forall|j: int| 0 <= j < index ==> !is_donor(#[trigger] regions[j], zone, bytes)
}

/// Whether the list holds a donor.
pub open spec fn has_donor(regions: Seq<UsableRegion>, zone: MemoryZoneEnum, bytes: int) -> bool {
    exists|j: int| 0 <= j < regions.len() && is_donor(#[trigger] regions[j], zone, bytes)
}

/// Index of the first region that starts in `zone` and whose part in `zone`
/// can give `bytes` and keep a page.
pub fn find_donor(all: &RegionList, zone: MemoryZoneEnum, bytes: u64) -> (found: Option<usize>)
    requires
        separated(all@),
    ensures
        match found {
            Some(index) => is_first_donor(all@, zone, index as int, bytes as int),
            None => !has_donor(all@, zone, bytes as int),
        },
{
    let limit_first_page = zone.min_first_page();
    let limit_last_page = zone.max_last_page();
    let n = all.len();
    let mut i: usize = 0;
    while i < n
        invariant
            n == all@.len(),
            i <= n,
            separated(all@),
            limit_first_page == zone.spec_min_first_page(),
            limit_last_page == zone.spec_max_last_page(),
            forall|j: int| 0 <= j < i ==> !is_donor(#[trigger] all@[j], zone, bytes as int),
        decreases n - i,
    {
        let region = all.get(i);
        assert(region.wf());
        if limit_first_page <= region.first_page && region.first_page <= limit_last_page {
            let last_page = if region.last_page > limit_last_page {
                limit_last_page
            } else {
                region.last_page
            };
            if last_page - region.first_page >= bytes {
                return Some(i);
            }
        }
        i += 1;
    }
    None
}

/// Whether `after` is `before` once storage for `metadata_size` bytes of
/// metadata, in whole pages, was taken from the front of the first donor of
/// the DMA32 zone or, where that zone has none, of the ISA DMA zone, and
/// `storage` is what was taken.
pub open spec fn high_metadata_reserved(
    before: Seq<UsableRegion>,
    after: Seq<UsableRegion>,
    metadata_size: u64,
    storage: CarvedStorage,
) -> bool {
    let bytes = spec_align_up(metadata_size as int, 4096);
    let zone = spec_donor_zone(before, bytes);
    &&& storage.size == bytes
    &&& exists|index: int|
        {
            &&& #[trigger] is_first_donor(before, zone, index, bytes)
            &&& storage.phys_addr == before[index].first_page
            &&& after == carved(before, index, bytes)
        }
}

/// The zone that gives the metadata of the HIGH allocator: DMA32 where it has
/// a donor, else ISA DMA.
pub open spec fn spec_donor_zone(regions: Seq<UsableRegion>, bytes: int) -> MemoryZoneEnum {
    if has_donor(regions, MemoryZoneEnum::Dma32, bytes) {
        MemoryZoneEnum::Dma32
    } else {
        MemoryZoneEnum::IsaDma
    }
}

/// Whether no region of the DMA32 or ISA DMA zone can hold `metadata_size`
/// bytes of metadata, in whole pages, and keep a page.
pub open spec fn no_high_metadata_donor(regions: Seq<UsableRegion>, metadata_size: u64) -> bool {
    let bytes = spec_align_up(metadata_size as int, 4096);
    !has_donor(regions, MemoryZoneEnum::Dma32, bytes) && !has_donor(
        regions,
        MemoryZoneEnum::IsaDma,
        bytes,
    )
}

/// Finds place for the metadata of the HIGH allocator: takes it, in whole
/// pages, from the front of the first region that starts in the DMA32 zone
/// and can give it there, else of the first such region of the ISA DMA zone.
pub fn reserve_high_metadata(lists: &mut RegionLists, metadata_size: u64) -> (result: Option<
    CarvedStorage,
>)
    requires
        old(lists).wf(),
    ensures
        match result {
            Some(storage) => {
                &&& high_metadata_reserved(
                    old(lists).all@,
                    final(lists).all@,
                    metadata_size,
                    storage,
                )
                &&& final(lists).wf()
            },
            None => {
                &&& no_high_metadata_donor(old(lists).all@, metadata_size)
                &&& *final(lists) == *old(lists)
            },
        },
{
    let bytes = match page_align_up(metadata_size) {
        Some(bytes) => bytes,
        None => {
            assert forall|j: int| 0 <= j < lists.all@.len() implies !is_donor(
                #[trigger] lists.all@[j],
                MemoryZoneEnum::Dma32,
                spec_align_up(metadata_size as int, 4096),
            ) && !is_donor(
                lists.all@[j],
                MemoryZoneEnum::IsaDma,
                spec_align_up(metadata_size as int, 4096),
            ) by {
                assert(lists.all@[j].wf());
            }
            return None;
        },
    };
    let found = match find_donor(&lists.all, MemoryZoneEnum::Dma32, bytes) {
        Some(index) => Some(index),
        None => find_donor(&lists.all, MemoryZoneEnum::IsaDma, bytes),
    };
    match found {
        Some(index) => {
            let ghost zone = spec_donor_zone(lists.all@, bytes as int);
            assert(is_first_donor(lists.all@, zone, index as int, bytes as int));
            assert(lists.all@[index as int].wf());
            let phys_addr = carve_front(lists, index, bytes);
            Some(CarvedStorage { phys_addr, size: bytes })
        },
        None => None,
    }
}

/// What becomes of a zone with a metadata buffer in the kernel image, given
/// the metadata size that was computed for its arena.
pub open spec fn spec_static_zone_setup(
    zone: MemoryZoneEnum,
    arena: ZoneArena,
    metadata_size: Option<u64>,
) -> Result<ZoneSetup, SetupError> {
    match metadata_size {
        None => Err(SetupError::MetadataSizeUnknown(zone)),
        Some(size) => if size > spec_static_metadata_capacity(zone) {
            Err(SetupError::MetadataBufferTooSmall(zone, size))
        } else {
            Ok(ZoneSetup { arena, metadata_size: size, metadata: MetadataPlacement::Static })
        },
    }
}

/// Checks the metadata size computed for the arena of the ISA DMA or DMA32
/// zone against the buffer that the kernel image holds for it.
pub fn static_zone_setup(zone: MemoryZoneEnum, arena: ZoneArena, metadata_size: Option<u64>) -> (result:
    Result<ZoneSetup, SetupError>)
    ensures
        result == spec_static_zone_setup(zone, arena, metadata_size),
{
    let capacity = match zone {
        MemoryZoneEnum::IsaDma => ISA_DMA_ALLOCATOR_METADATA_SIZE,
        MemoryZoneEnum::Dma32 => DMA32_ALLOCATOR_METADATA_SIZE,
        MemoryZoneEnum::High => 0,
    };
    match metadata_size {
        None => Err(SetupError::MetadataSizeUnknown(zone)),
        Some(size) => {
            if size > capacity {
                Err(SetupError::MetadataBufferTooSmall(zone, size))
            } else {
                Ok(ZoneSetup { arena, metadata_size: size, metadata: MetadataPlacement::Static })
            }
        },
    }
}

/// Places the metadata of the HIGH allocator, given the size that was
/// computed for its arena, in storage taken from a lower zone.
pub fn high_zone_setup(lists: &mut RegionLists, arena: ZoneArena, metadata_size: Option<u64>) -> (result:
    Result<ZoneSetup, SetupError>)
    requires
        old(lists).wf(),
    ensures
        final(lists).wf(),
        match metadata_size {
            None => {
                &&& result == Err::<ZoneSetup, SetupError>(
                    SetupError::MetadataSizeUnknown(MemoryZoneEnum::High),
                )
                &&& *final(lists) == *old(lists)
            },
            Some(size) => match result {
                Ok(setup) => {
                    &&& setup.arena == arena
                    &&& setup.metadata_size == size
                    &&& setup.metadata matches MetadataPlacement::Carved(storage)
                        && high_metadata_reserved(
                        old(lists).all@,
                        final(lists).all@,
                        size,
                        storage,
                    )
                },
                Err(error) => {
                    &&& error == SetupError::NoMemoryForHighMetadata(size)
                    &&& no_high_metadata_donor(old(lists).all@, size)
                    &&& *final(lists) == *old(lists)
                },
            },
        },
{
    match metadata_size {
        None => Err(SetupError::MetadataSizeUnknown(MemoryZoneEnum::High)),
        Some(size) => match reserve_high_metadata(lists, size) {
            Some(storage) => Ok(
                ZoneSetup {
                    arena,
                    metadata_size: size,
                    metadata: MetadataPlacement::Carved(storage),
                },
            ),
            None => Err(SetupError::NoMemoryForHighMetadata(size)),
        },
    }
}

/// The answer of the size computation that `error` reports.
pub open spec fn spec_answer_behind(error: SetupError) -> Option<u64> {
    match error {
        SetupError::MetadataSizeUnknown(_) => None,
        SetupError::MetadataBufferTooSmall(_, size) => Some(size),
        SetupError::NoMemoryForHighMetadata(size) => Some(size),
    }
}

/// Whether `setup` is the setup of a zone with the usable regions `regions`
/// and a metadata buffer in the kernel image: none for a zone without
/// regions, else its arena with a metadata size that `sizeof_alignment`
/// computed for it and that fits in the buffer.
pub open spec fn static_zone_set_up<F: Fn(u64, u64) -> Option<u64>>(
    sizeof_alignment: F,
    regions: Seq<UsableRegion>,
    zone: MemoryZoneEnum,
    setup: Option<ZoneSetup>,
) -> bool {
    match spec_zone_arena(regions) {
        None => setup is None,
        Some(arena) => match setup {
            None => false,
            Some(s) => {
                &&& call_ensures(sizeof_alignment, (arena.size, 4096u64), Some(s.metadata_size))
                &&& spec_static_zone_setup(zone, arena, Some(s.metadata_size)) == Ok::<
                    ZoneSetup,
                    SetupError,
                >(s)
            },
        },
    }
}

/// Whether `error` is why such a zone could not be set up: the answer of
/// `sizeof_alignment` for its arena was none, or does not fit in the buffer.
pub open spec fn static_zone_failed<F: Fn(u64, u64) -> Option<u64>>(
    sizeof_alignment: F,
    regions: Seq<UsableRegion>,
    zone: MemoryZoneEnum,
    error: SetupError,
) -> bool {
    match spec_zone_arena(regions) {
        None => false,
        Some(arena) => {
            &&& call_ensures(sizeof_alignment, (arena.size, 4096u64), spec_answer_behind(error))
            &&& spec_static_zone_setup(zone, arena, spec_answer_behind(error)) == Err::<
                ZoneSetup,
                SetupError,
            >(error)
        },
    }
}

/// Whether `setup` is the setup of the HIGH zone and `after` the region lists
/// that it leaves of `before`: nothing changes for a HIGH zone without
/// regions; else the metadata, of a size that `sizeof_alignment` computed for
/// the arena, lies in storage taken from a lower zone.
pub open spec fn high_zone_set_up<F: Fn(u64, u64) -> Option<u64>>(
    sizeof_alignment: F,
    before: Seq<UsableRegion>,
    after: Seq<UsableRegion>,
    setup: Option<ZoneSetup>,
) -> bool {
    match spec_zone_arena(spec_zone_regions(before, MemoryZoneEnum::High)) {
        None => setup is None && after == before,
        Some(arena) => match setup {
            None => false,
            Some(s) => {
                &&& s.arena == arena
                &&& call_ensures(sizeof_alignment, (arena.size, 4096u64), Some(s.metadata_size))
                &&& match s.metadata {
                    MetadataPlacement::Static => false,
                    MetadataPlacement::Carved(storage) => high_metadata_reserved(
                        before,
                        after,
                        s.metadata_size,
                        storage,
                    ),
                }
            },
        },
    }
}

/// Whether `error` is why the HIGH zone could not be set up: the answer of
/// `sizeof_alignment` for its arena was none, or no lower zone can hold
/// metadata of that size.
pub open spec fn high_zone_failed<F: Fn(u64, u64) -> Option<u64>>(
    sizeof_alignment: F,
    before: Seq<UsableRegion>,
    error: SetupError,
) -> bool {
    match spec_zone_arena(spec_zone_regions(before, MemoryZoneEnum::High)) {
        None => false,
        Some(arena) => {
            &&& call_ensures(sizeof_alignment, (arena.size, 4096u64), spec_answer_behind(error))
            &&& match error {
                SetupError::MetadataSizeUnknown(zone) => zone == MemoryZoneEnum::High,
                SetupError::NoMemoryForHighMetadata(size) => no_high_metadata_donor(before, size),
                _ => false,
            }
        },
    }
}

/// Whether `setups` are the setups of the three zones and `after` the list
/// of usable regions that they leave of `before`.
pub open spec fn zones_set_up<F: Fn(u64, u64) -> Option<u64>>(
    sizeof_alignment: F,
    before: Seq<UsableRegion>,
    after: Seq<UsableRegion>,
    setups: ZoneSetups,
) -> bool {
    &&& before.len() > 0
    &&& high_zone_set_up(sizeof_alignment, before, after, setups.high)
    &&& static_zone_set_up(
        sizeof_alignment,
        spec_zone_regions(after, MemoryZoneEnum::IsaDma),
        MemoryZoneEnum::IsaDma,
        setups.isa_dma,
    )
    &&& static_zone_set_up(
        sizeof_alignment,
        spec_zone_regions(after, MemoryZoneEnum::Dma32),
        MemoryZoneEnum::Dma32,
        setups.dma32,
    )
    &&& setups.isa_dma is Some || setups.dma32 is Some || setups.high is Some
}

/// Whether `error` is why the zones could not be set up, and `after` the
/// list of usable regions at that point: the first zone that fails, of HIGH,
/// ISA DMA and DMA32 in this order, ends the setup.
pub open spec fn zones_not_set_up<F: Fn(u64, u64) -> Option<u64>>(
    sizeof_alignment: F,
    before: Seq<UsableRegion>,
    after: Seq<UsableRegion>,
    error: SetupError,
) -> bool {
    &&& before.len() > 0
    &&& {
        ||| high_zone_failed(sizeof_alignment, before, error) && after == before
        ||| exists|high: Option<ZoneSetup>| #[trigger]
            high_zone_set_up(sizeof_alignment, before, after, high) && {
                ||| static_zone_failed(
                    sizeof_alignment,
                    spec_zone_regions(after, MemoryZoneEnum::IsaDma),
                    MemoryZoneEnum::IsaDma,
                    error,
                )
                ||| exists|isa_dma: Option<ZoneSetup>| #[trigger]
                    static_zone_set_up(
                        sizeof_alignment,
                        spec_zone_regions(after, MemoryZoneEnum::IsaDma),
                        MemoryZoneEnum::IsaDma,
                        isa_dma,
                    ) && static_zone_failed(
                        sizeof_alignment,
                        spec_zone_regions(after, MemoryZoneEnum::Dma32),
                        MemoryZoneEnum::Dma32,
                        error,
                    )
            }
    }
}

/// A list of usable regions that is not empty leaves no zone list empty in
/// all three zones.
pub proof fn lemma_some_zone_has_memory(lists: &RegionLists)
    requires
        lists.wf(),
        lists.all@.len() > 0,
    ensures
        lists.isa_dma@.len() > 0 || lists.dma32@.len() > 0 || lists.high@.len() > 0,
{
    let region = lists.all@[0];
    assert(region.wf());
    assert(ISA_DMA_ZONE_MIN_FIRST_PAGE_ADDR <= region.first_page && region.last_page
        <= HIGH_ZONE_MAX_LAST_PAGE_ADDR);
    lemma_clip_list_members(
        lists.all@,
        MemoryZoneEnum::IsaDma.spec_min_first_page(),
        MemoryZoneEnum::IsaDma.spec_max_last_page(),
    );
    lemma_clip_list_members(
        lists.all@,
        MemoryZoneEnum::Dma32.spec_min_first_page(),
        MemoryZoneEnum::Dma32.spec_max_last_page(),
    );
    lemma_clip_list_members(
        lists.all@,
        MemoryZoneEnum::High.spec_min_first_page(),
        MemoryZoneEnum::High.spec_max_last_page(),
    );
}

/// Inits zone allocators
///
/// Decides, for each zone with usable memory, the arena of its allocator and
/// the place of its metadata; `sizeof_alignment` computes the metadata size
/// of an arena from its size and the page size. The HIGH zone comes first:
/// its metadata is taken from a usable region of a lower zone, which must
/// happen before the regions of that zone are handed to its allocator. The
/// list of usable regions must hold a region: without memory there is no
/// zone to set up.
pub fn init_allocators<F: Fn(u64, u64) -> Option<u64>>(
    lists: &mut RegionLists,
    sizeof_alignment: F,
) -> (result: Result<ZoneSetups, SetupError>)
    requires
        old(lists).wf(),
        old(lists).all@.len() > 0,
        forall|size: u64, alignment: u64| call_requires(sizeof_alignment, (size, alignment)),
    ensures
        final(lists).wf(),
        final(lists).all@.len() == old(lists).all@.len(),
        final(lists).all@.last().last_page == old(lists).all@.last().last_page,
        match result {
            Ok(setups) => zones_set_up(
                sizeof_alignment,
                old(lists).all@,
                final(lists).all@,
                setups,
            ),
            Err(error) => zones_not_set_up(
                sizeof_alignment,
                old(lists).all@,
                final(lists).all@,
                error,
            ),
        },
{
    proof {
        lemma_zone_lists_separated(lists, MemoryZoneEnum::High);
    }
    let high = match zone_arena(&lists.high) {
        None => None,
        Some(arena) => {
            let answer = sizeof_alignment(arena.size, PAGE_SIZE_U64);
            match high_zone_setup(lists, arena, answer) {
                Ok(setup) => Some(setup),
                Err(error) => {
                    assert(high_zone_failed(sizeof_alignment, old(lists).all@, error));
                    return Err(error);
                },
            }
        },
    };
    assert(high_zone_set_up(sizeof_alignment, old(lists).all@, lists.all@, high));
    proof {
        lemma_zone_lists_separated(lists, MemoryZoneEnum::IsaDma);
        lemma_zone_lists_separated(lists, MemoryZoneEnum::Dma32);
    }
    let isa_dma = match zone_arena(&lists.isa_dma) {
        None => None,
        Some(arena) => {
            let answer = sizeof_alignment(arena.size, PAGE_SIZE_U64);
            match static_zone_setup(MemoryZoneEnum::IsaDma, arena, answer) {
                Ok(setup) => Some(setup),
                Err(error) => {
                    assert(static_zone_failed(
                        sizeof_alignment,
                        lists.isa_dma@,
                        MemoryZoneEnum::IsaDma,
                        error,
                    ));
                    return Err(error);
                },
            }
        },
    };
    assert(static_zone_set_up(sizeof_alignment, lists.isa_dma@, MemoryZoneEnum::IsaDma, isa_dma));
    let dma32 = match zone_arena(&lists.dma32) {
        None => None,
        Some(arena) => {
            let answer = sizeof_alignment(arena.size, PAGE_SIZE_U64);
            match static_zone_setup(MemoryZoneEnum::Dma32, arena, answer) {
                Ok(setup) => Some(setup),
                Err(error) => {
                    assert(static_zone_failed(
                        sizeof_alignment,
                        lists.dma32@,
                        MemoryZoneEnum::Dma32,
                        error,
                    ));
                    return Err(error);
                },
            }
        },
    };
    proof {
        lemma_some_zone_has_memory(lists);
    }
    Ok(ZoneSetups { isa_dma, dma32, high })
}

/// Taking the metadata of the HIGH allocator from a lower zone leaves the
/// usable regions of the HIGH zone as they were.
pub proof fn lemma_high_regions_stay(
    before: Seq<UsableRegion>,
    after: Seq<UsableRegion>,
    metadata_size: u64,
    storage: CarvedStorage,
)
    requires
        separated(before),
        high_metadata_reserved(before, after, metadata_size, storage),
    ensures
        spec_zone_regions(after, MemoryZoneEnum::High) == spec_zone_regions(
            before,
            MemoryZoneEnum::High,
        ),
{
    let bytes = spec_align_up(metadata_size as int, 4096);
    let zone = spec_donor_zone(before, bytes);
    let index = choose|index: int|
        {
            &&& #[trigger] is_first_donor(before, zone, index, bytes)
            &&& storage.phys_addr == before[index].first_page
            &&& after == carved(before, index, bytes)
        };
    let lo = MemoryZoneEnum::High.spec_min_first_page();
    let hi = MemoryZoneEnum::High.spec_max_last_page();
    assert(before[index].wf());
    assert forall|i: int| 0 <= i < after.len() implies spec_adjust(#[trigger] after[i], lo, hi)
        == spec_adjust(before[i], lo, hi) by {
        if i != index {
            assert(after[i] == before[i]);
        }
    }
    lemma_clip_list_same_parts(after, before, lo, hi);
}

} // verus!
