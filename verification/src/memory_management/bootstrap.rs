//! Storage that the memory managers need before any allocator exists, carved
//! from the front of usable regions.

use super::zones::{
    clip_list, separated, spec_adjust, zone_regions, MemoryZoneEnum, RegionLists,
    HIGH_ZONE_MAX_LAST_PAGE_ADDR, ISA_DMA_ZONE_MIN_FIRST_PAGE_ADDR,
};
use super::region_list::UsableRegion;
use super::{page_align_up, spec_align_up};
use vstd::prelude::*;

verus! {

/// Size of one slot of the slab info table: a pointer.
pub const SLAB_INFO_PTR_SIZE: u64 = 8;

/// Every part that `clip_list` keeps is the part of some region of the list,
/// and the part of every region that reaches between the limits is kept.
pub proof fn lemma_clip_list_members(regions: Seq<UsableRegion>, lo: u64, hi: u64)
    ensures
        forall|k: int|
            0 <= k < clip_list(regions, lo, hi).len() ==> exists|j: int|
                0 <= j < regions.len() && spec_adjust(#[trigger] regions[j], lo, hi) == Some(
                    #[trigger] clip_list(regions, lo, hi)[k],
                ),
        forall|j: int|
            0 <= j < regions.len() && spec_adjust(#[trigger] regions[j], lo, hi) is Some
                ==> clip_list(regions, lo, hi).contains(spec_adjust(regions[j], lo, hi).unwrap()),
        clip_list(regions, lo, hi).len() <= regions.len(),
    decreases regions.len(),
{
    let clipped = clip_list(regions, lo, hi);
    if regions.len() > 0 {
        let front = regions.drop_last();
        let rest = clip_list(front, lo, hi);
        lemma_clip_list_members(front, lo, hi);
        assert forall|k: int| 0 <= k < clipped.len() implies exists|j: int|
            0 <= j < regions.len() && spec_adjust(#[trigger] regions[j], lo, hi) == Some(
                #[trigger] clipped[k],
            ) by {
            if k < rest.len() {
                assert(clipped[k] == rest[k]);
                let j = choose|j: int|
                    0 <= j < front.len() && spec_adjust(#[trigger] front[j], lo, hi) == Some(
                        rest[k],
                    );
                assert(regions[j] == front[j]);
            } else {
                assert(spec_adjust(regions[regions.len() - 1], lo, hi) == Some(clipped[k]));
            }
        }
        assert forall|j: int|
            0 <= j < regions.len() && spec_adjust(
                #[trigger] regions[j],
                lo,
                hi,
            ) is Some implies clipped.contains(spec_adjust(regions[j], lo, hi).unwrap()) by {
            let part = spec_adjust(regions[j], lo, hi).unwrap();
            if j < front.len() {
                assert(front[j] == regions[j]);
                assert(rest.contains(part));
                let k = choose|k: int| 0 <= k < rest.len() && rest[k] == part;
                assert(clipped[k] == part);
            } else {
                assert(clipped[clipped.len() - 1] == part);
            }
        }
    }
}

/// The parts of regions that are apart are apart themselves, well formed, and
/// lie between the limits.
pub proof fn lemma_clip_list_separated(regions: Seq<UsableRegion>, lo: u64, hi: u64)
    requires
        separated(regions),
        lo % 4096 == 0,
        hi % 4096 == 0,
        lo <= hi,
        hi + 4096 <= u64::MAX,
    ensures
        separated(clip_list(regions, lo, hi)),
        forall|k: int|
            0 <= k < clip_list(regions, lo, hi).len() ==> lo <= (#[trigger] clip_list(
                regions,
                lo,
                hi,
            )[k]).first_page && clip_list(regions, lo, hi)[k].last_page <= hi,
    decreases regions.len(),
{
    let clipped = clip_list(regions, lo, hi);
    if regions.len() > 0 {
        let front = regions.drop_last();
        let rest = clip_list(front, lo, hi);
        assert(separated(front)) by {
            assert forall|i: int| 0 <= i < front.len() implies (#[trigger] front[i]).wf() by {
                assert(front[i] == regions[i]);
            }
            assert forall|i: int, j: int| 0 <= i < j < front.len() implies front[i].last_page
                < front[j].first_page by {
                assert(front[i] == regions[i] && front[j] == regions[j]);
            }
        }
        lemma_clip_list_separated(front, lo, hi);
        lemma_clip_list_members(front, lo, hi);
        let last = regions[regions.len() - 1];
        assert(last.wf());
        if spec_adjust(last, lo, hi) is Some {
            let part = spec_adjust(last, lo, hi).unwrap();
            assert(clipped == rest.push(part));
            assert forall|i: int| 0 <= i < clipped.len() implies (#[trigger] clipped[i]).wf() by {
                if i < rest.len() {
                    assert(clipped[i] == rest[i]);
                }
            }
            assert forall|i: int, j: int| 0 <= i < j < clipped.len() implies clipped[i].last_page
                < clipped[j].first_page by {
                if j < rest.len() {
                    assert(clipped[i] == rest[i] && clipped[j] == rest[j]);
                } else {
                    assert(clipped[i] == rest[i]);
                    let o = choose|o: int|
                        0 <= o < front.len() && spec_adjust(#[trigger] front[o], lo, hi) == Some(
                            rest[i],
                        );
                    assert(front[o] == regions[o]);
                    assert(regions[o].last_page < last.first_page);
                }
            }
            assert forall|k: int| 0 <= k < clipped.len() implies lo <= (
            #[trigger] clipped[k]).first_page && clipped[k].last_page <= hi by {
                if k < rest.len() {
                    assert(clipped[k] == rest[k]);
                }
            }
        } else {
            assert(clipped == rest);
        }
    }
}

/// The zone lists of well-formed region lists are well formed, ascending and
/// apart, and each stays inside its zone.
pub proof fn lemma_zone_lists_separated(lists: &RegionLists, zone: MemoryZoneEnum)
    requires
        lists.wf(),
    ensures
        separated(lists.spec_zone_list(zone)),
        forall|k: int|
            0 <= k < lists.spec_zone_list(zone).len() ==> zone.spec_min_first_page() <= (
            #[trigger] lists.spec_zone_list(zone)[k]).first_page && lists.spec_zone_list(
                zone,
            )[k].last_page <= zone.spec_max_last_page(),
{
    lemma_clip_list_separated(lists.all@, zone.spec_min_first_page(), zone.spec_max_last_page());
}

/// The list that is left when `bytes` are taken from the front of the region
/// at `index`.
pub open spec fn carved(regions: Seq<UsableRegion>, index: int, bytes: int) -> Seq<UsableRegion> {
    regions.update(
        index,
        UsableRegion {
            first_page: (regions[index].first_page + bytes) as u64,
            last_page: regions[index].last_page,
        },
    )
}

/// Whether `bytes` can be taken from `region` so that a page is left.
pub open spec fn fits(region: UsableRegion, bytes: int) -> bool {
    region.spec_size() >= bytes + 4096
}

/// Takes `bytes`, a whole number of pages, from the front of the region at
/// `index`, brings the zone lists up to date, and returns the address of what
/// was taken.
pub fn carve_front(lists: &mut RegionLists, index: usize, bytes: u64) -> (addr: u64)
    requires
        old(lists).wf(),
        index < old(lists).all@.len(),
        bytes % 4096 == 0,
        fits(old(lists).all@[index as int], bytes as int),
    ensures
        final(lists).wf(),
        final(lists).all@ == carved(old(lists).all@, index as int, bytes as int),
        addr == old(lists).all@[index as int].first_page,
{
    let region = lists.all.get(index);
    let ghost before = lists.all@;
    assert(region.wf());
    let shrunk = UsableRegion {
        first_page: region.first_page + bytes,
        last_page: region.last_page,
    };
    lists.all.set(index, shrunk);
    proof {
        let after = lists.all@;
        assert(after == carved(before, index as int, bytes as int));
        assert forall|i: int| 0 <= i < after.len() implies (#[trigger] after[i]).wf() by {
            if i != index {
                assert(after[i] == before[i]);
            }
        }
        assert forall|i: int, j: int| 0 <= i < j < after.len() implies after[i].last_page
            < after[j].first_page by {
            assert(before[i].last_page < before[j].first_page);
            assert(before[i].wf() && before[j].wf());
        }
        assert forall|i: int| 0 <= i < after.len() implies ISA_DMA_ZONE_MIN_FIRST_PAGE_ADDR <= (
        #[trigger] after[i]).first_page && after[i].last_page
            <= HIGH_ZONE_MAX_LAST_PAGE_ADDR by {
            assert(ISA_DMA_ZONE_MIN_FIRST_PAGE_ADDR <= before[i].first_page
                && before[i].last_page <= HIGH_ZONE_MAX_LAST_PAGE_ADDR);
        }
    }
    lists.isa_dma = zone_regions(&lists.all, MemoryZoneEnum::IsaDma);
    lists.dma32 = zone_regions(&lists.all, MemoryZoneEnum::Dma32);
    lists.high = zone_regions(&lists.all, MemoryZoneEnum::High);
    region.first_page
}

/// Where the table of slab info pointers lies: one slot for each page of
/// physical memory up to the last usable page, at the place of the page's
/// number.
#[derive(Debug, Clone, Copy, PartialEq, Eq, Structural)]
pub struct SlabInfoTable {
    /// Physical address of the first slot.
    pub phys_addr: u64,
    /// Number of slots.
    pub entries: u64,
    /// Bytes taken for the table, a whole number of pages.
    pub size: u64,
}

/// Why no storage could be set aside.
#[derive(Debug, Clone, Copy, PartialEq, Eq, Structural)]
pub enum CarveError {
    /// No region can give the bytes and keep a page.
    NoRegionFits,
}

/// Number of the pages of physical memory up to the last page of the last
/// region: the number of that page, plus one. A table of so many slots has a
/// slot for every usable page at the place of the page's number.
pub open spec fn spec_slab_info_entries(regions: Seq<UsableRegion>) -> int {
    (regions.last().last_page + 4096) / 4096
}

/// Bytes of a table with a pointer for each of those pages, in whole pages.
pub open spec fn spec_slab_info_table_size(regions: Seq<UsableRegion>) -> int {
    spec_align_up(spec_slab_info_entries(regions) * 8, 4096)
}

/// Whether the region at `index` is the last of the list that `bytes` fit in.
pub open spec fn is_last_fitting(regions: Seq<UsableRegion>, index: int, bytes: int) -> bool {
    &&& 0 <= index < regions.len()
    &&& fits(regions[index], bytes)
    &&& forall|j: int| index < j < regions.len() ==> !fits(#[trigger] regions[j], bytes)
}

/// Whether `after` is `before` once the storage of `table`, sized for
/// `before`, was taken from the front of the last region that it fits in.
pub open spec fn slab_info_table_placed(
    before: Seq<UsableRegion>,
    after: Seq<UsableRegion>,
    table: SlabInfoTable,
) -> bool {
    &&& before.len() > 0
    &&& table.entries == spec_slab_info_entries(before)
    &&& table.size == spec_slab_info_table_size(before)
    &&& exists|index: int|
        {
            &&& #[trigger] is_last_fitting(before, index, table.size as int)
            &&& table.phys_addr == before[index].first_page
            &&& after == carved(before, index, table.size as int)
        }
}

/// Whether no table can be placed in `regions`, and `error` says why.
pub open spec fn slab_info_table_not_placed(regions: Seq<UsableRegion>, error: CarveError) -> bool {
    match error {
        CarveError::NoRegionFits => {
            &&& regions.len() > 0
            &&& forall|j: int|
                0 <= j < regions.len() ==> !fits(
                    #[trigger] regions[j],
                    spec_slab_info_table_size(regions),
                )
        },
    }
}

/// Taking bytes from the front of a region leaves the last page of the list
/// where it was, and with it the pages that a table must have slots for.
pub proof fn lemma_carved_keeps_last_page(regions: Seq<UsableRegion>, index: int, bytes: int)
    requires
        0 <= index < regions.len(),
    ensures
        carved(regions, index, bytes).len() == regions.len(),
        carved(regions, index, bytes).last().last_page == regions.last().last_page,
        spec_slab_info_entries(carved(regions, index, bytes)) == spec_slab_info_entries(regions),
{
}

/// The parts between two limits are the same for two lists whose regions
/// have, place by place, the same part there.
pub proof fn lemma_clip_list_same_parts(
    a: Seq<UsableRegion>,
    b: Seq<UsableRegion>,
    lo: u64,
    hi: u64,
)
    requires
        a.len() == b.len(),
        forall|i: int|
            0 <= i < a.len() ==> spec_adjust(#[trigger] a[i], lo, hi) == spec_adjust(b[i], lo, hi),
    ensures
        clip_list(a, lo, hi) == clip_list(b, lo, hi),
    decreases a.len(),
{
    if a.len() > 0 {
        assert(a.last() == a[a.len() - 1]);
        assert(b.last() == b[b.len() - 1]);
        assert forall|i: int| 0 <= i < a.drop_last().len() implies spec_adjust(
            #[trigger] a.drop_last()[i],
            lo,
            hi,
        ) == spec_adjust(b.drop_last()[i], lo, hi) by {
            assert(a.drop_last()[i] == a[i]);
            assert(b.drop_last()[i] == b[i]);
        }
        lemma_clip_list_same_parts(a.drop_last(), b.drop_last(), lo, hi);
    }
}

/// Inits array of SlabInfo pointers
///
/// Sizes the table, with a slot for each page up to the last usable one, and
/// takes its storage from the front of the last usable region that can give
/// it and keep a page. The list must hold a region.
pub fn init_slab_info_ptrs_array(lists: &mut RegionLists) -> (result: Result<
    SlabInfoTable,
    CarveError,
>)
    requires
        old(lists).wf(),
        old(lists).all@.len() > 0,
    ensures
        final(lists).wf(),
        match result {
            Ok(table) => slab_info_table_placed(old(lists).all@, final(lists).all@, table),
            Err(error) => {
                &&& slab_info_table_not_placed(old(lists).all@, error)
                &&& *final(lists) == *old(lists)
            },
        },
{
    let n = lists.all.len();
    // SlabInfo per page up to the last usable
    let last_region = lists.all.get(n - 1);
    assert(last_region.wf());
    assert(last_region.last_page <= HIGH_ZONE_MAX_LAST_PAGE_ADDR);
    let number_of_slab_infos = (last_region.last_page + 4096) / 4096;
    let required_memory_size = match page_align_up(number_of_slab_infos * SLAB_INFO_PTR_SIZE) {
        Some(size) => size,
        None => {
            return Err(CarveError::NoRegionFits);
        },
    };
    // Reserve required memory in usable region
    let mut i: usize = n;
    while i > 0
        invariant
            lists.wf(),
            *lists == *old(lists),
            n == lists.all@.len(),
            i <= n,
            number_of_slab_infos == spec_slab_info_entries(lists.all@),
            required_memory_size == spec_slab_info_table_size(lists.all@),
            required_memory_size % 4096 == 0,
            forall|j: int| i <= j < n ==> !fits(#[trigger] lists.all@[j], required_memory_size as int),
        decreases i,
    {
        i -= 1;
        let usable_region = lists.all.get(i);
        assert(usable_region.wf());
        if usable_region.size() - 4096 >= required_memory_size {
            let phys_addr = carve_front(lists, i, required_memory_size);
            let table = SlabInfoTable {
                phys_addr,
                entries: number_of_slab_infos,
                size: required_memory_size,
            };
            assert(is_last_fitting(old(lists).all@, i as int, table.size as int));
            return Ok(table);
        }
    }
    Err(CarveError::NoRegionFits)
}

} // verus!
