//! Usable regions of physical memory and the bounded lists that hold them.

use tinyvec::ArrayVec;
use vstd::prelude::*;

verus! {

/// Number of regions that a list can hold.
pub const REGION_LIST_CAPACITY: usize = 128;

/// A run of whole pages that allocators may use.
#[derive(Debug, Clone, Copy, PartialEq, Eq, Structural)]
pub struct UsableRegion {
    /// Address of the first usable page.
    pub first_page: u64,
    /// Address of the last usable page; the page itself belongs to the region.
    pub last_page: u64,
}

impl UsableRegion {
    /// Both ends lie on page boundaries, the region holds at least one page,
    /// and the end of its last page is an address.
    pub open spec fn wf(self) -> bool {
        &&& self.first_page % 4096 == 0
        &&& self.last_page % 4096 == 0
        &&& self.first_page <= self.last_page
        &&& self.last_page + 4096 <= u64::MAX
    }

    /// Number of bytes in the region.
    pub open spec fn spec_size(self) -> int {
        self.last_page + 4096 - self.first_page
    }

    /// Gets size of usable region
    pub fn size(&self) -> (bytes: u64)
        requires
            self.wf(),
        ensures
            bytes == self.spec_size(),
            bytes >= 4096,
            bytes % 4096 == 0,
    {
        self.last_page + 4096 - self.first_page
    }
}

impl Default for UsableRegion {
    /// The region that holds page 0 alone; it fills the unused slots of a
    /// list.
    fn default() -> (region: Self)
        ensures
            region == (UsableRegion { first_page: 0, last_page: 0 }),
    {
        Self { first_page: 0, last_page: 0 }
    }
}

/// `tinyvec::ArrayVec`: a vector in an array of fixed size. What one holds
/// is told by `list_regions`.
#[verifier::external_type_specification]
#[verifier::external_body]
#[verifier::reject_recursive_types(A)]
pub struct ExArrayVec<A>(ArrayVec<A>);

/// The regions that a list holds, in the order of their indices.
pub uninterp spec fn list_regions(list: ArrayVec<[UsableRegion; 128]>) -> Seq<UsableRegion>;

/// `ArrayVec::new`: a list that holds nothing.
#[verifier::external_body]
fn list_new() -> (list: ArrayVec<[UsableRegion; 128]>)
    ensures
        list_regions(list) == Seq::<UsableRegion>::empty(),
{
    ArrayVec::new()
}

/// `ArrayVec::len`: the number of regions held, which the backing array of
/// 128 slots bounds.
#[verifier::external_body]
fn list_len(list: &ArrayVec<[UsableRegion; 128]>) -> (n: usize)
    ensures
        n == list_regions(*list).len(),
        n <= 128,
{
    list.len()
}

/// `ArrayVec::push`: appends `region`. The outside function panics on a full
/// list.
#[verifier::external_body]
fn list_push(list: &mut ArrayVec<[UsableRegion; 128]>, region: UsableRegion)
    requires
        list_regions(*old(list)).len() < 128,
    ensures
        list_regions(*final(list)) == list_regions(*old(list)).push(region),
{
    list.push(region)
}

/// Indexing an `ArrayVec`: the region at `index`. The outside function panics
/// on an index at or past the length.
#[verifier::external_body]
fn list_get(list: &ArrayVec<[UsableRegion; 128]>, index: usize) -> (region: UsableRegion)
    requires
        index < list_regions(*list).len(),
    ensures
        region == list_regions(*list)[index as int],
{
    list[index]
}

/// Assigning through an index of an `ArrayVec`: replaces the region at
/// `index` and leaves the others. The outside function panics on an index at
/// or past the length.
#[verifier::external_body]
fn list_set(list: &mut ArrayVec<[UsableRegion; 128]>, index: usize, region: UsableRegion)
    requires
        index < list_regions(*old(list)).len(),
    ensures
        list_regions(*final(list)) == list_regions(*old(list)).update(index as int, region),
{
    list[index] = region;
}

/// `sort_unstable_by_key` of the standard library on the list's slice, keyed
/// by the first page: the same regions, each as often as before, in ascending
/// order of their first pages; regions with equal first pages in any order.
#[verifier::external_body]
fn list_sort_by_first_page(list: &mut ArrayVec<[UsableRegion; 128]>)
    ensures
        list_regions(*final(list)).to_multiset() == list_regions(*old(list)).to_multiset(),
        forall|i: int, j: int|
            0 <= i < j < list_regions(*final(list)).len() ==> list_regions(
                *final(list),
            )[i].first_page <= list_regions(*final(list))[j].first_page,
{
    list.as_mut_slice().sort_unstable_by_key(|region| region.first_page)
}

/// A list of at most 128 usable regions.
pub struct RegionList {
    regions: ArrayVec<[UsableRegion; 128]>,
}

impl View for RegionList {
    type V = Seq<UsableRegion>;

    /// The regions of the list, in order.
    closed spec fn view(&self) -> Seq<UsableRegion> {
        list_regions(self.regions)
    }
}

impl RegionList {
    /// An empty list.
    pub fn new() -> (list: Self)
        ensures
            list@ == Seq::<UsableRegion>::empty(),
    {
        RegionList { regions: list_new() }
    }

    /// Number of regions in the list.
    pub fn len(&self) -> (n: usize)
        ensures
            n == self@.len(),
            n <= REGION_LIST_CAPACITY,
    {
        list_len(&self.regions)
    }

    /// The region at `index`.
    pub fn get(&self, index: usize) -> (region: UsableRegion)
        requires
            index < self@.len(),
        ensures
            region == self@[index as int],
    {
        list_get(&self.regions, index)
    }

    /// Appends `region`, or hands it back when the list is full.
    pub fn push(&mut self, region: UsableRegion) -> (rejected: Option<UsableRegion>)
        ensures
            old(self)@.len() < REGION_LIST_CAPACITY ==> rejected is None && final(self)@ == old(
                self,
            )@.push(region),
            old(self)@.len() >= REGION_LIST_CAPACITY ==> rejected == Some(region) && final(self)@
                == old(self)@,
    {
        if list_len(&self.regions) < REGION_LIST_CAPACITY {
            list_push(&mut self.regions, region);
            None
        } else {
            Some(region)
        }
    }

    /// Replaces the region at `index`.
    pub fn set(&mut self, index: usize, region: UsableRegion)
        requires
            index < old(self)@.len(),
        ensures
            final(self)@ == old(self)@.update(index as int, region),
    {
        list_set(&mut self.regions, index, region)
    }

    /// Orders the list by ascending first page.
    pub fn sort_by_first_page(&mut self)
        ensures
            final(self)@.to_multiset() == old(self)@.to_multiset(),
            sorted_by_first_page(final(self)@),
    {
        list_sort_by_first_page(&mut self.regions)
    }

    /// The regions as a vector, in order.
    pub fn to_vec(&self) -> (regions: Vec<UsableRegion>)
        ensures
            regions@ == self@,
    {
        let mut regions: Vec<UsableRegion> = Vec::new();
        let n = self.len();
        let mut i: usize = 0;
        while i < n
            invariant
                n == self@.len(),
                i <= n,
                regions@ == self@.take(i as int),
            decreases n - i,
        {
            regions.push(self.get(i));
            proof {
                assert(self@.take(i + 1) == self@.take(i as int).push(self@[i as int]));
            }
            i += 1;
        }
        proof {
            assert(self@.take(n as int) == self@);
        }
        regions
    }
}

/// First pages never decrease along `regions`.
pub open spec fn sorted_by_first_page(regions: Seq<UsableRegion>) -> bool {
    forall|i: int, j: int|
        0 <= i < j < regions.len() ==> regions[i].first_page <= regions[j].first_page
}

} // verus!
