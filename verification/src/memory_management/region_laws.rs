//! What holds of the region lists: the zone lists partition the usable pages,
//! and the regions of a list account for every byte once.

use super::bootstrap::{lemma_clip_list_members, lemma_clip_list_separated};
use super::physical_memory_manager::{
    lemma_freed_where_allocated, spec_zone_operation, PhysicalMemoryManager, ZoneOperation,
};
use super::region_list::UsableRegion;
use super::zone_setup::{spec_zone_arena, ZoneSetup};
use super::zones::{
    clip_list, separated, spec_adjust, spec_zone_of, MemoryZoneEnum, RegionLists,
};
use vstd::prelude::*;
use vstd::set_lib::{lemma_int_range, lemma_set_disjoint_lens, set_int_range};

verus! {

/// Whether the page with number `page`, which starts at address
/// `page * 4096`, belongs to `region`.
pub open spec fn region_holds(region: UsableRegion, page: int) -> bool {
    region.first_page <= page * 4096 <= region.last_page
}

/// The numbers of the pages of `region`.
pub open spec fn region_pages(region: UsableRegion) -> Set<int> {
    Set::new(|page: int| region_holds(region, page))
}

/// The numbers of the pages that belong to some region of `regions`.
pub open spec fn list_pages(regions: Seq<UsableRegion>) -> Set<int> {
    Set::new(
        |page: int| exists|i: int| 0 <= i < regions.len() && region_holds(#[trigger] regions[i], page),
    )
}

/// The sizes of the regions of `regions`, added up.
pub open spec fn total_size(regions: Seq<UsableRegion>) -> int
    decreases regions.len(),
{
    if regions.len() == 0 {
        0
    } else {
        total_size(regions.drop_last()) + regions.last().spec_size()
    }
}

/// Alignment invariant: in every list, every region starts and ends on a page
/// boundary and does not end before it starts.
pub proof fn lemma_alignment_invariant(lists: &RegionLists, zone: MemoryZoneEnum)
    requires
        lists.wf(),
    ensures
        forall|i: int|
            0 <= i < lists.all@.len() ==> (#[trigger] lists.all@[i]).first_page % 4096 == 0
                && lists.all@[i].last_page % 4096 == 0 && lists.all@[i].first_page
                <= lists.all@[i].last_page,
        forall|i: int|
            0 <= i < lists.spec_zone_list(zone).len() ==> (#[trigger] lists.spec_zone_list(
                zone,
            )[i]).first_page % 4096 == 0 && lists.spec_zone_list(zone)[i].last_page % 4096 == 0
                && lists.spec_zone_list(zone)[i].first_page <= lists.spec_zone_list(
                zone,
            )[i].last_page,
{
    assert forall|i: int| 0 <= i < lists.all@.len() implies (#[trigger] lists.all@[i]).first_page
        % 4096 == 0 && lists.all@[i].last_page % 4096 == 0 && lists.all@[i].first_page
        <= lists.all@[i].last_page by {
        assert(lists.all@[i].wf());
    }
    lemma_clip_list_separated(lists.all@, zone.spec_min_first_page(), zone.spec_max_last_page());
    let list = lists.spec_zone_list(zone);
    assert forall|i: int| 0 <= i < list.len() implies (#[trigger] list[i]).first_page % 4096 == 0
        && list[i].last_page % 4096 == 0 && list[i].first_page <= list[i].last_page by {
        assert(list[i].wf());
    }
}

/// The pages of the parts between two limits are the pages of the list whose
/// addresses lie between the limits.
proof fn lemma_clip_list_pages(regions: Seq<UsableRegion>, lo: u64, hi: u64)
    requires
        separated(regions),
        lo <= hi,
    ensures
        forall|page: int| #[trigger]
            list_pages(clip_list(regions, lo, hi)).contains(page) <==> list_pages(
                regions,
            ).contains(page) && lo <= page * 4096 <= hi,
{
    let clipped = clip_list(regions, lo, hi);
    lemma_clip_list_members(regions, lo, hi);
    assert forall|page: int| list_pages(clipped).contains(page) implies list_pages(
        regions,
    ).contains(page) && lo <= page * 4096 <= hi by {
        let k = choose|k: int| 0 <= k < clipped.len() && region_holds(#[trigger] clipped[k], page);
        let j = choose|j: int|
            0 <= j < regions.len() && spec_adjust(#[trigger] regions[j], lo, hi) == Some(
                clipped[k],
            );
        assert(region_holds(regions[j], page));
    }
    assert forall|page: int|
        list_pages(regions).contains(page) && lo <= page * 4096 <= hi implies list_pages(
        clipped,
    ).contains(page) by {
        let j = choose|j: int| 0 <= j < regions.len() && region_holds(#[trigger] regions[j], page);
        assert(regions[j].wf());
        let part = spec_adjust(regions[j], lo, hi).unwrap();
        assert(clipped.contains(part));
        let k = choose|k: int| 0 <= k < clipped.len() && clipped[k] == part;
        assert(region_holds(clipped[k], page));
    }
}

/// Partition property: every usable page belongs to the list of exactly one
/// zone, and the three zone lists hold no other page.
pub proof fn lemma_partition(lists: &RegionLists)
    requires
        lists.wf(),
    ensures
        list_pages(lists.all@) == list_pages(lists.isa_dma@) + list_pages(lists.dma32@)
            + list_pages(lists.high@),
        list_pages(lists.isa_dma@).disjoint(list_pages(lists.dma32@)),
        list_pages(lists.isa_dma@).disjoint(list_pages(lists.high@)),
        list_pages(lists.dma32@).disjoint(list_pages(lists.high@)),
{
    let all = list_pages(lists.all@);
    let isa_dma = list_pages(lists.isa_dma@);
    let dma32 = list_pages(lists.dma32@);
    let high = list_pages(lists.high@);
    lemma_clip_list_pages(
        lists.all@,
        MemoryZoneEnum::IsaDma.spec_min_first_page(),
        MemoryZoneEnum::IsaDma.spec_max_last_page(),
    );
    lemma_clip_list_pages(
        lists.all@,
        MemoryZoneEnum::Dma32.spec_min_first_page(),
        MemoryZoneEnum::Dma32.spec_max_last_page(),
    );
    lemma_clip_list_pages(
        lists.all@,
        MemoryZoneEnum::High.spec_min_first_page(),
        MemoryZoneEnum::High.spec_max_last_page(),
    );
    assert forall|page: int| all.contains(page) implies (isa_dma + dma32 + high).contains(
        page,
    ) by {
        let j = choose|j: int|
            0 <= j < lists.all@.len() && region_holds(#[trigger] lists.all@[j], page);
        assert(lists.all@[j].wf());
        assert(0x100000 <= page * 4096 <= 0xFF_FFFF_F000);
        if page * 4096 <= 0xFFF000 {
            assert(isa_dma.contains(page));
        } else if page * 4096 <= 0xFFFF_F000 {
            assert(page * 4096 >= 0x1000000);
            assert(dma32.contains(page));
        } else {
            assert(page * 4096 >= 0x1_0000_0000);
            assert(high.contains(page));
        }
    }
    assert(all =~= isa_dma + dma32 + high);
    assert forall|page: int| isa_dma.contains(page) implies !dma32.contains(page)
        && !high.contains(page) by {}
    assert forall|page: int| dma32.contains(page) implies !high.contains(page) by {}
}

/// The pages of a region are those from the number of its first page to the
/// number of its last.
proof fn lemma_region_pages(region: UsableRegion)
    requires
        region.wf(),
    ensures
        region_pages(region).finite(),
        region_pages(region).len() * 4096 == region.spec_size(),
{
    let lo = region.first_page as int / 4096;
    let hi = region.last_page as int / 4096 + 1;
    lemma_int_range(lo, hi);
    assert(region_pages(region) =~= set_int_range(lo, hi));
}

/// Reserve/release accounting: the regions of a list share no page, so the
/// pages that they cover, taken together, hold as many bytes as the sizes of
/// the regions add up to.
pub proof fn lemma_regions_account_for_every_byte(regions: Seq<UsableRegion>)
    requires
        separated(regions),
    ensures
        list_pages(regions).finite(),
        list_pages(regions).len() * 4096 == total_size(regions),
    decreases regions.len(),
{
    if regions.len() == 0 {
        assert(list_pages(regions) =~= Set::<int>::empty());
    } else {
        let front = regions.drop_last();
        let last = regions.last();
        assert(separated(front)) by {
            assert forall|i: int| 0 <= i < front.len() implies (#[trigger] front[i]).wf() by {
                assert(front[i] == regions[i]);
            }
            assert forall|i: int, j: int| 0 <= i < j < front.len() implies front[i].last_page
                < front[j].first_page by {
                assert(front[i] == regions[i] && front[j] == regions[j]);
            }
        }
        lemma_regions_account_for_every_byte(front);
        assert(last == regions[regions.len() - 1]);
        assert(last.wf());
        lemma_region_pages(last);
        assert(list_pages(regions) =~= list_pages(front) + region_pages(last)) by {
            assert forall|page: int| list_pages(regions).contains(page) implies (list_pages(front)
                + region_pages(last)).contains(page) by {
                let i = choose|i: int|
                    0 <= i < regions.len() && region_holds(#[trigger] regions[i], page);
                if i < front.len() {
                    assert(front[i] == regions[i]);
                }
            }
            assert forall|page: int|
                (list_pages(front) + region_pages(last)).contains(page) implies list_pages(
                regions,
            ).contains(page) by {
                if list_pages(front).contains(page) {
                    let i = choose|i: int|
                        0 <= i < front.len() && region_holds(#[trigger] front[i], page);
                    assert(front[i] == regions[i]);
                } else {
                    assert(region_holds(regions[regions.len() - 1], page));
                }
            }
        }
        assert(list_pages(front).disjoint(region_pages(last))) by {
            assert forall|page: int|
                list_pages(front).contains(page) && region_pages(last).contains(
                    page,
                ) implies false by {
                let i = choose|i: int|
                    0 <= i < front.len() && region_holds(#[trigger] front[i], page);
                assert(front[i] == regions[i]);
                assert(regions[i].last_page < regions[regions.len() - 1].first_page);
            }
        }
        lemma_set_disjoint_lens(list_pages(front), region_pages(last));
    }
}

/// The usable regions of a zone lie inside the arena of its allocator and
/// account for every byte once: what is released after the whole arena was
/// reserved holds as many bytes as the sizes of the regions add up to.
pub proof fn lemma_zone_release_accounting(lists: &RegionLists, zone: MemoryZoneEnum)
    requires
        lists.wf(),
        lists.spec_zone_list(zone).len() > 0,
    ensures
        list_pages(lists.spec_zone_list(zone)).finite(),
        list_pages(lists.spec_zone_list(zone)).len() * 4096 == total_size(
            lists.spec_zone_list(zone),
        ),
        forall|page: int| #[trigger]
            list_pages(lists.spec_zone_list(zone)).contains(page) ==> {
                let arena = spec_zone_arena(lists.spec_zone_list(zone)).unwrap();
                arena.first_page <= page * 4096 && page * 4096 + 4096 <= arena.first_page
                    + arena.size
            },
{
    let list = lists.spec_zone_list(zone);
    lemma_clip_list_separated(lists.all@, zone.spec_min_first_page(), zone.spec_max_last_page());
    lemma_regions_account_for_every_byte(list);
    let arena = spec_zone_arena(list).unwrap();
    assert(list[0].wf() && list.last().wf());
    assert(list[0].first_page <= list.last().last_page) by {
        if list.len() > 1 {
            assert(list[0].last_page < list[list.len() - 1].first_page);
        }
    }
    assert forall|page: int| #[trigger] list_pages(list).contains(page) implies arena.first_page
        <= page * 4096 && page * 4096 + 4096 <= arena.first_page + arena.size by {
        let i = choose|i: int| 0 <= i < list.len() && region_holds(#[trigger] list[i], page);
        assert(list[i].wf());
        if 0 < i {
            assert(list[0].last_page < list[i].first_page);
        }
        if i < list.len() - 1 {
            assert(list[i].last_page < list[list.len() - 1].first_page);
        }
    }
}

/// The numbers of the pages that lie whole in the `size` bytes at `addr`.
pub open spec fn range_pages(addr: u64, size: u64) -> Set<int> {
    Set::new(|page: int| addr <= page * 4096 && page * 4096 + 4096 <= addr + size)
}

/// The numbers of the pages that are free in the allocator of a zone after
/// the first `steps` steps of bringing it up: a new allocator has its whole
/// arena free; reserving a range takes its pages away, releasing a range adds
/// them.
pub open spec fn free_pages_after(
    setup: ZoneSetup,
    regions: Seq<UsableRegion>,
    steps: nat,
) -> Set<int>
    decreases steps,
{
    if steps == 0 {
        Set::empty()
    } else {
        let before = free_pages_after(setup, regions, (steps - 1) as nat);
        match spec_zone_operation(setup, regions, steps - 1) {
            Some(ZoneOperation::Create { arena, .. }) => range_pages(arena.first_page, arena.size),
            Some(ZoneOperation::ReserveRange { addr, size }) => before.difference(
                range_pages(addr, size),
            ),
            Some(ZoneOperation::ReleaseRange { addr, size }) => before.union(
                range_pages(addr, size),
            ),
            None => before,
        }
    }
}

/// After the allocator was created, its arena reserved and the first
/// `released` regions released, the pages of those regions are free and no
/// others.
proof fn lemma_free_pages_after(setup: ZoneSetup, regions: Seq<UsableRegion>, released: nat)
    requires
        separated(regions),
        released <= regions.len(),
    ensures
        free_pages_after(setup, regions, released + 2) == list_pages(
            regions.take(released as int),
        ),
    decreases released,
{
    if released == 0 {
        assert(free_pages_after(setup, regions, 1) == range_pages(
            setup.arena.first_page,
            setup.arena.size,
        ));
        assert(free_pages_after(setup, regions, 2) =~= Set::<int>::empty());
        assert(list_pages(regions.take(0)) =~= Set::<int>::empty());
    } else {
        let k = (released - 1) as nat;
        lemma_free_pages_after(setup, regions, k);
        let region = regions[k as int];
        assert(region.wf());
        let before = regions.take(k as int);
        let after = regions.take(released as int);
        assert(spec_zone_operation(setup, regions, (k + 2) as int) == Some(
            ZoneOperation::ReleaseRange { addr: region.first_page, size: region.spec_size() as u64 },
        ));
        assert(free_pages_after(setup, regions, released + 2) == list_pages(before).union(
            range_pages(region.first_page, region.spec_size() as u64),
        ));
        assert forall|page: int|
            list_pages(after).contains(page) <==> list_pages(before).contains(page)
                || range_pages(region.first_page, region.spec_size() as u64).contains(page) by {
            if list_pages(after).contains(page) {
                let i = choose|i: int| 0 <= i < after.len() && region_holds(#[trigger] after[i], page);
                if i < k {
                    assert(before[i] == after[i]);
                }
            }
            if list_pages(before).contains(page) {
                let i = choose|i: int|
                    0 <= i < before.len() && region_holds(#[trigger] before[i], page);
                assert(after[i] == before[i]);
            }
            if range_pages(region.first_page, region.spec_size() as u64).contains(page) {
                assert(region_holds(after[k as int], page));
            }
        }
        assert(list_pages(after) =~= list_pages(before).union(
            range_pages(region.first_page, region.spec_size() as u64),
        ));
    }
}

/// Reserve/release correctness: once every step of bringing up the allocator
/// of a zone is done, the free pages are the pages of the zone's usable
/// regions, and hold as many bytes as the sizes of these regions add up to.
pub proof fn lemma_free_bytes_after_init(pmm: &PhysicalMemoryManager, zone: MemoryZoneEnum)
    requires
        pmm.wf(),
        pmm.spec_is_initialized(zone),
    ensures
        ({
            let setup = pmm.spec_zone_setup(zone).unwrap();
            let regions = pmm.regions.spec_zone_list(zone);
            let free = free_pages_after(setup, regions, (regions.len() + 2) as nat);
            &&& spec_zone_operation(setup, regions, (regions.len() + 2) as int) is None
            &&& free == list_pages(regions)
            &&& free.finite()
            &&& free.len() * 4096 == total_size(regions)
        }),
{
    let setup = pmm.spec_zone_setup(zone).unwrap();
    let regions = pmm.regions.spec_zone_list(zone);
    lemma_clip_list_separated(
        pmm.regions.all@,
        zone.spec_min_first_page(),
        zone.spec_max_last_page(),
    );
    lemma_free_pages_after(setup, regions, regions.len());
    assert(regions.take(regions.len() as int) == regions);
    lemma_regions_account_for_every_byte(regions);
}

/// Two lists that hold the same regions, each ascending and apart, are the
/// same list.
pub proof fn lemma_separated_rearrangements_equal(a: Seq<UsableRegion>, b: Seq<UsableRegion>)
    requires
        separated(a),
        separated(b),
        a.to_multiset() == b.to_multiset(),
    ensures
        a == b,
    decreases a.len(),
{
    broadcast use vstd::seq_lib::to_multiset_contains;

    vstd::seq_lib::to_multiset_len(a);
    vstd::seq_lib::to_multiset_len(b);
    if a.len() == 0 {
        assert(a =~= b);
    } else {
        let x = a[0];
        let y = b[0];
        assert(x.wf() && y.wf());
        assert(a.contains(x));
        assert(b.contains(y));
        assert(b.to_multiset().count(x) > 0);
        assert(a.to_multiset().count(y) > 0);
        assert(b.contains(x));
        assert(a.contains(y));
        let p = choose|p: int| 0 <= p < b.len() && b[p] == x;
        let q = choose|q: int| 0 <= q < a.len() && a[q] == y;
        if p > 0 && q > 0 {
            assert(b[0].last_page < b[p].first_page);
            assert(a[0].last_page < a[q].first_page);
        }
        assert(x == y);
        let a_rest = a.remove(0);
        let b_rest = b.remove(0);
        vstd::seq_lib::to_multiset_remove(a, 0);
        vstd::seq_lib::to_multiset_remove(b, 0);
        assert(separated(a_rest)) by {
            assert forall|i: int| 0 <= i < a_rest.len() implies (#[trigger] a_rest[i]).wf() by {
                assert(a_rest[i] == a[i + 1]);
            }
            assert forall|i: int, j: int| 0 <= i < j < a_rest.len() implies a_rest[i].last_page
                < a_rest[j].first_page by {
                assert(a_rest[i] == a[i + 1] && a_rest[j] == a[j + 1]);
            }
        }
        assert(separated(b_rest)) by {
            assert forall|i: int| 0 <= i < b_rest.len() implies (#[trigger] b_rest[i]).wf() by {
                assert(b_rest[i] == b[i + 1]);
            }
            assert forall|i: int, j: int| 0 <= i < j < b_rest.len() implies b_rest[i].last_page
                < b_rest[j].first_page by {
                assert(b_rest[i] == b[i + 1] && b_rest[j] == b[j + 1]);
            }
        }
        lemma_separated_rearrangements_equal(a_rest, b_rest);
        assert forall|i: int| 0 <= i < a.len() implies a[i] == b[i] by {
            if i > 0 {
                assert(a[i] == a_rest[i - 1]);
                assert(b[i] == b_rest[i - 1]);
            }
        }
        assert(a =~= b);
    }
}

/// The region lists are determined by the regions that they hold: two
/// well-formed region lists with the same usable regions agree in every
/// list. So a memory map has one outcome, whatever the order of its entries
/// with equal addresses.
pub proof fn lemma_region_lists_determined(a: &RegionLists, b: &RegionLists)
    requires
        a.wf(),
        b.wf(),
        a.all@.to_multiset() == b.all@.to_multiset(),
    ensures
        a.all@ == b.all@,
        a.isa_dma@ == b.isa_dma@,
        a.dma32@ == b.dma32@,
        a.high@ == b.high@,
{
    lemma_separated_rearrangements_equal(a.all@, b.all@);
}

/// The free pages of each zone after the allocator of `zone` gave the block
/// of `size` bytes at `addr`: the pages of the block are taken from the free
/// pages of that zone.
pub open spec fn free_pages_after_alloc(
    free: Map<MemoryZoneEnum, Set<int>>,
    zone: MemoryZoneEnum,
    addr: u64,
    size: usize,
) -> Map<MemoryZoneEnum, Set<int>> {
    free.insert(zone, free[zone].difference(range_pages(addr, size as u64)))
}

/// The free pages of each zone after the block of `size` bytes at `addr` was
/// given back to the allocator of `zone`: the pages of the block are added
/// to the free pages of that zone.
pub open spec fn free_pages_after_free(
    free: Map<MemoryZoneEnum, Set<int>>,
    zone: MemoryZoneEnum,
    addr: u64,
    size: usize,
) -> Map<MemoryZoneEnum, Set<int>> {
    free.insert(zone, free[zone].union(range_pages(addr, size as u64)))
}

/// Allocation round trip, over the free pages of each zone as the steps
/// handed to the allocators change them: where the allocator of each zone
/// answers with the null address or with a page of that zone, and gives
/// blocks of pages that were free, an allocation followed by giving the
/// block back leaves the free pages of every zone, and so their number, as
/// they were. The block goes back to the zone that gave it, because `free`
/// finds that zone again from the address.
pub proof fn lemma_alloc_free_round_trip<F: Fn(MemoryZoneEnum, usize) -> u64>(
    pmm: PhysicalMemoryManager,
    malloc: F,
    zones: Seq<MemoryZoneEnum>,
    requested_size: usize,
    addr: u64,
    gave: MemoryZoneEnum,
    free: Map<MemoryZoneEnum, Set<int>>,
)
    requires
        pmm.allocated(malloc, zones, requested_size, addr),
        addr != 0,
        forall|zone: MemoryZoneEnum, answer: u64| #[trigger]
            call_ensures(malloc, (zone, requested_size), answer) ==> answer == 0 || (
            zone.spec_contains(answer) && answer % 4096 == 0),
        call_ensures(malloc, (gave, requested_size), addr),
        free.dom().contains(gave),
        range_pages(addr, requested_size as u64).subset_of(free[gave]),
    ensures
        pmm.spec_owns(addr),
        spec_zone_of(addr) == Some(gave),
        free_pages_after_free(
            free_pages_after_alloc(free, gave, addr, requested_size),
            spec_zone_of(addr).unwrap(),
            addr,
            requested_size,
        ) == free,
{
    lemma_freed_where_allocated(pmm, malloc, zones, requested_size, addr);
    assert(gave.spec_contains(addr));
    let block = range_pages(addr, requested_size as u64);
    assert(free[gave].difference(block).union(block) =~= free[gave]);
    assert(free_pages_after_free(
        free_pages_after_alloc(free, gave, addr, requested_size),
        gave,
        addr,
        requested_size,
    ) =~= free);
}

} // verus!
