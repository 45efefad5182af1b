//! Collects the usable regions of the boot memory map and files them by zone.

use super::zones::{
    separated, within_zones, zone_regions, MemoryRegion, MemoryRegionKind, MemoryZoneEnum,
    RegionLists, HIGH_ZONE_MAX_LAST_PAGE_ADDR, ISA_DMA_ZONE_MIN_FIRST_PAGE_ADDR,
};
use super::region_list::{sorted_by_first_page, RegionList, UsableRegion, REGION_LIST_CAPACITY};
use super::{page_align_down, page_align_up, spec_align_down, spec_align_up};
use vstd::prelude::*;

verus! {

/// Why the boot memory map was not accepted.
#[derive(Debug, Clone, Copy, PartialEq, Eq, Structural)]
pub enum CollectError {
    /// The map holds more usable regions than a list has room for.
    TooManyRegions,
    /// Two usable regions of the map share a page.
    OverlappingRegions,
}

/// First whole page of an entry that starts at `start`.
pub open spec fn spec_first_page_of(start: u64) -> int {
    spec_align_up(start as int, 4096)
}

/// Page of the last byte of an entry that ends before `end`.
pub open spec fn spec_last_page_of(end: u64) -> int {
    if end == 0 {
        0
    } else {
        spec_align_down(end - 1, 4096)
    }
}

/// Whether the collector keeps `entry`: it is usable, starts at or above the
/// lowest zone, ends at or below the last page of the highest, and its last
/// page lies above its first.
pub open spec fn is_collected(entry: MemoryRegion) -> bool {
    &&& entry.kind is Usable
    &&& entry.start >= ISA_DMA_ZONE_MIN_FIRST_PAGE_ADDR
    &&& entry.end <= HIGH_ZONE_MAX_LAST_PAGE_ADDR
    &&& spec_last_page_of(entry.end) > spec_first_page_of(entry.start)
}

/// The region that the collector keeps of `entry`.
pub open spec fn collected_region(entry: MemoryRegion) -> UsableRegion {
    UsableRegion {
        first_page: spec_first_page_of(entry.start) as u64,
        last_page: spec_last_page_of(entry.end) as u64,
    }
}

/// The regions kept of a memory map, in the order of the map.
pub open spec fn collected_regions(memory_map: Seq<MemoryRegion>) -> Seq<UsableRegion>
    decreases memory_map.len(),
{
    if memory_map.len() == 0 {
        Seq::empty()
    } else {
        let rest = collected_regions(memory_map.drop_last());
        if is_collected(memory_map.last()) {
            rest.push(collected_region(memory_map.last()))
        } else {
            rest
        }
    }
}

/// No two regions at different places of `regions` share a page.
pub open spec fn pairwise_disjoint(regions: Seq<UsableRegion>) -> bool {
    forall|i: int, j: int|
        0 <= i < j < regions.len() ==> regions[i].last_page < regions[j].first_page
            || regions[j].last_page < regions[i].first_page
}

/// The page-aligned region inside a usable entry of the memory map, or `None`
/// for an entry that the collector drops.
pub fn usable_region_of(entry: &MemoryRegion) -> (kept: Option<UsableRegion>)
    ensures
        kept == if is_collected(*entry) {
            Some(collected_region(*entry))
        } else {
            None
        },
        kept matches Some(region) ==> region.wf() && ISA_DMA_ZONE_MIN_FIRST_PAGE_ADDR
            <= region.first_page && region.last_page <= HIGH_ZONE_MAX_LAST_PAGE_ADDR,
{
    match entry.kind {
        MemoryRegionKind::Usable => {},
        _ => {
            return None;
        },
    }
    if entry.start < ISA_DMA_ZONE_MIN_FIRST_PAGE_ADDR || entry.end
        > HIGH_ZONE_MAX_LAST_PAGE_ADDR {
        return None;
    }
    if entry.end == 0 {
        return None;
    }
    let last_page = page_align_down(entry.end - 1);
    if entry.start > last_page {
        return None;
    }
    match page_align_up(entry.start) {
        Some(first_page) => {
            if last_page <= first_page {
                None
            } else {
                Some(UsableRegion { first_page, last_page })
            }
        },
        None => None,
    }
}

/// Whether the collector keeps a region of the memory map: whether the map
/// holds usable memory in some zone.
pub fn has_usable_memory(memory_regions: &[MemoryRegion]) -> (yes: bool)
    ensures
        yes == (collected_regions(memory_regions@).len() > 0),
{
    let mut i: usize = 0;
    while i < memory_regions.len()
        invariant
            i <= memory_regions@.len(),
            collected_regions(memory_regions@.take(i as int)).len() == 0,
        decreases memory_regions@.len() - i,
    {
        let entry = memory_regions[i];
        proof {
            let next = memory_regions@.take(i + 1);
            assert(next.drop_last() == memory_regions@.take(i as int));
            assert(next.last() == memory_regions@[i as int]);
        }
        if usable_region_of(&entry).is_some() {
            proof {
                lemma_collected_prefix_len(memory_regions@, i + 1);
            }
            return true;
        }
        i += 1;
    }
    proof {
        assert(memory_regions@.take(i as int) == memory_regions@);
    }
    false
}

/// A prefix of a memory map yields no more regions than the whole map.
proof fn lemma_collected_prefix_len(memory_map: Seq<MemoryRegion>, i: int)
    requires
        0 <= i <= memory_map.len(),
    ensures
        collected_regions(memory_map.take(i)).len() <= collected_regions(memory_map).len(),
    decreases memory_map.len(),
{
    if i == memory_map.len() {
        assert(memory_map.take(i) == memory_map);
    } else {
        lemma_collected_prefix_len(memory_map.drop_last(), i);
        assert(memory_map.drop_last().take(i) == memory_map.take(i));
    }
}

/// In a list whose neighbours are apart, any earlier region ends before any
/// later one starts.
proof fn lemma_neighbours_apart(regions: Seq<UsableRegion>, i: int, j: int)
    requires
        forall|k: int| 0 <= k < regions.len() ==> (#[trigger] regions[k]).wf(),
        forall|k: int|
            0 < k < regions.len() ==> regions[k - 1].last_page < (
            #[trigger] regions[k]).first_page,
        0 <= i < j < regions.len(),
    ensures
        regions[i].last_page < regions[j].first_page,
    decreases j - i,
{
    if i + 1 < j {
        lemma_neighbours_apart(regions, i, j - 1);
        assert(regions[j - 1].wf());
        assert(regions[j - 1].last_page < regions[j].first_page);
    } else {
        assert(regions[j - 1].last_page < regions[j].first_page);
    }
}

/// A rearrangement of a list whose regions are apart holds no two regions
/// that share a page.
proof fn lemma_rearranged_disjoint(regions: Seq<UsableRegion>, sorted: Seq<UsableRegion>)
    requires
        sorted.to_multiset() == regions.to_multiset(),
        separated(sorted),
    ensures
        pairwise_disjoint(regions),
{
    broadcast use vstd::seq_lib::to_multiset_contains;

    assert(sorted.no_duplicates()) by {
        assert forall|i: int, j: int|
            0 <= i < sorted.len() && 0 <= j < sorted.len() && i != j implies sorted[i]
            != sorted[j] by {
            assert(sorted[i].wf() && sorted[j].wf());
            if i < j {
                assert(sorted[i].last_page < sorted[j].first_page);
            } else {
                assert(sorted[j].last_page < sorted[i].first_page);
            }
        }
    }
    sorted.lemma_multiset_has_no_duplicates();
    regions.lemma_multiset_has_no_duplicates_conv();
    assert forall|i: int, j: int| 0 <= i < j < regions.len() implies regions[i].last_page
        < regions[j].first_page || regions[j].last_page < regions[i].first_page by {
        assert(regions.contains(regions[i]));
        assert(regions.contains(regions[j]));
        assert(sorted.to_multiset().count(regions[i]) > 0);
        assert(sorted.to_multiset().count(regions[j]) > 0);
        assert(sorted.contains(regions[i]));
        assert(sorted.contains(regions[j]));
        let a = choose|a: int| 0 <= a < sorted.len() && sorted[a] == regions[i];
        let b = choose|b: int| 0 <= b < sorted.len() && sorted[b] == regions[j];
        assert(regions[i] != regions[j]);
        if a < b {
            assert(sorted[a].last_page < sorted[b].first_page);
        } else {
            assert(sorted[b].last_page < sorted[a].first_page);
        }
    }
}

/// Where two neighbours of an ordered rearrangement share a page, two regions
/// of the list itself do.
proof fn lemma_rearranged_overlap(regions: Seq<UsableRegion>, sorted: Seq<UsableRegion>, k: int)
    requires
        sorted.to_multiset() == regions.to_multiset(),
        forall|i: int| 0 <= i < sorted.len() ==> (#[trigger] sorted[i]).wf(),
        sorted_by_first_page(sorted),
        0 < k < sorted.len(),
        sorted[k - 1].last_page >= sorted[k].first_page,
    ensures
        !pairwise_disjoint(regions),
{
    broadcast use vstd::seq_lib::to_multiset_contains;

    let a = sorted[k - 1];
    let b = sorted[k];
    assert(a.wf() && b.wf());
    assert(a.first_page <= b.first_page);
    if pairwise_disjoint(regions) {
        assert forall|i: int| 0 <= i < regions.len() implies (#[trigger] regions[i]).wf() by {
            assert(regions.contains(regions[i]));
            assert(sorted.to_multiset().count(regions[i]) > 0);
            assert(sorted.contains(regions[i]));
        }
        if a == b {
            assert(regions.no_duplicates()) by {
                assert forall|i: int, j: int|
                    0 <= i < regions.len() && 0 <= j < regions.len() && i != j implies regions[i]
                    != regions[j] by {
                    assert(regions[i].wf() && regions[j].wf());
                    if i < j {
                        assert(regions[i].last_page < regions[j].first_page || regions[j].last_page
                            < regions[i].first_page);
                    } else {
                        assert(regions[j].last_page < regions[i].first_page || regions[i].last_page
                            < regions[j].first_page);
                    }
                }
            }
            regions.lemma_multiset_has_no_duplicates();
            sorted.lemma_multiset_has_no_duplicates_conv();
            assert(sorted[k - 1] != sorted[k]);
        } else {
            assert(sorted.contains(a));
            assert(sorted.contains(b));
            assert(regions.to_multiset().count(a) > 0);
            assert(regions.to_multiset().count(b) > 0);
            assert(regions.contains(a));
            assert(regions.contains(b));
            let p = choose|p: int| 0 <= p < regions.len() && regions[p] == a;
            let q = choose|q: int| 0 <= q < regions.len() && regions[q] == b;
            if p < q {
                assert(regions[p].last_page < regions[q].first_page || regions[q].last_page
                    < regions[p].first_page);
            } else {
                assert(regions[q].last_page < regions[p].first_page || regions[p].last_page
                    < regions[q].first_page);
            }
        }
        assert(false);
    }
}

/// Parses memory map and collects data about usable regions
///
/// Keeps of every usable entry the whole pages inside it, orders what it
/// kept by address, and files the parts of each region by zone. A map with
/// more than 128 such regions, or with two that share a page, is refused.
pub fn collect_usable_regions(memory_regions: &[MemoryRegion]) -> (result: Result<
    RegionLists,
    CollectError,
>)
    ensures
        match result {
            Ok(lists) => {
                &&& collected_regions(memory_regions@).len() <= REGION_LIST_CAPACITY
                &&& pairwise_disjoint(collected_regions(memory_regions@))
                &&& lists.wf()
                &&& lists.all@.to_multiset() == collected_regions(memory_regions@).to_multiset()
            },
            Err(CollectError::TooManyRegions) => collected_regions(memory_regions@).len()
                > REGION_LIST_CAPACITY,
            Err(CollectError::OverlappingRegions) => {
                &&& collected_regions(memory_regions@).len() <= REGION_LIST_CAPACITY
                &&& !pairwise_disjoint(collected_regions(memory_regions@))
            },
        },
{
    // Collect all usable regions
    let mut all = RegionList::new();
    let mut i: usize = 0;
    while i < memory_regions.len()
        invariant
            i <= memory_regions@.len(),
            all@ == collected_regions(memory_regions@.take(i as int)),
            forall|k: int| 0 <= k < all@.len() ==> (#[trigger] all@[k]).wf(),
            within_zones(all@),
        decreases memory_regions@.len() - i,
    {
        let entry = memory_regions[i];
        proof {
            let next = memory_regions@.take(i + 1);
            assert(next.drop_last() == memory_regions@.take(i as int));
            assert(next.last() == memory_regions@[i as int]);
            assert(collected_regions(next) == if is_collected(next.last()) {
                collected_regions(next.drop_last()).push(collected_region(next.last()))
            } else {
                collected_regions(next.drop_last())
            });
        }
        if let Some(region) = usable_region_of(&entry) {
            if all.push(region).is_some() {
                proof {
                    lemma_collected_prefix_len(memory_regions@, i + 1);
                }
                return Err(CollectError::TooManyRegions);
            }
        }
        i += 1;
    }
    proof {
        assert(memory_regions@.take(i as int) == memory_regions@);
    }
    let ghost collected = all@;
    // Sort
    all.sort_by_first_page();
    proof {
        broadcast use vstd::seq_lib::to_multiset_contains;
        broadcast use vstd::seq_lib::to_multiset_len;

        vstd::seq_lib::to_multiset_len(all@);
        vstd::seq_lib::to_multiset_len(collected);
        assert(all@.len() == collected.len());
        assert forall|k: int| 0 <= k < all@.len() implies (#[trigger] all@[k]).wf()
            && ISA_DMA_ZONE_MIN_FIRST_PAGE_ADDR <= all@[k].first_page && all@[k].last_page
            <= HIGH_ZONE_MAX_LAST_PAGE_ADDR by {
            assert(all@.contains(all@[k]));
            assert(collected.to_multiset().count(all@[k]) > 0);
            assert(collected.contains(all@[k]));
            let c = choose|c: int| 0 <= c < collected.len() && collected[c] == all@[k];
            assert(collected[c].wf());
        }
    }
    let n = all.len();
    let mut k: usize = 1;
    while k < n
        invariant
            n == all@.len(),
            1 <= k,
            collected == collected_regions(memory_regions@),
            collected.len() <= REGION_LIST_CAPACITY,
            all@.to_multiset() == collected.to_multiset(),
            sorted_by_first_page(all@),
            forall|j: int| 0 <= j < all@.len() ==> (#[trigger] all@[j]).wf(),
            within_zones(all@),
            forall|j: int| 0 < j < k && j < n ==> all@[j - 1].last_page < (
            #[trigger] all@[j]).first_page,
        decreases n - k,
    {
        let previous = all.get(k - 1);
        let current = all.get(k);
        if previous.last_page >= current.first_page {
            proof {
                lemma_rearranged_overlap(collected, all@, k as int);
            }
            return Err(CollectError::OverlappingRegions);
        }
        k += 1;
    }
    proof {
        assert forall|a: int, b: int| 0 <= a < b < all@.len() implies all@[a].last_page
            < all@[b].first_page by {
            lemma_neighbours_apart(all@, a, b);
        }
        lemma_rearranged_disjoint(collected, all@);
    }
    // Collect usable ISA DMA, DMA32 and HIGH regions
    let isa_dma = zone_regions(&all, MemoryZoneEnum::IsaDma);
    let dma32 = zone_regions(&all, MemoryZoneEnum::Dma32);
    let high = zone_regions(&all, MemoryZoneEnum::High);
    Ok(RegionLists { all, isa_dma, dma32, high })
}

} // verus!
