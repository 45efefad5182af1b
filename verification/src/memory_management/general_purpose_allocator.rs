//! The general purpose allocator: a heap whose chunks come from the physical
//! memory manager, for allocations of any size.

use super::physical_memory_manager::{
    answers_in_zone, lemma_allocated_in_zone, spec_valid_request_size, PhysicalMemoryManager,
};
use super::virtual_memory_manager::{
    phys_addr_to_cpmm_virt_addr, spec_virt_to_phys, virt_addr_from_cpmm_to_phys_addr,
    PHYSICAL_MEMORY_MAPPING_OFFSET,
};
use super::zones::{spec_zone_of, MemoryZoneEnum};
use super::PAGE_SIZE;
use vstd::prelude::*;

verus! {

/// The zones that chunks of the heap are taken from, in this order.
pub open spec fn spec_heap_zones() -> Seq<MemoryZoneEnum> {
    seq![MemoryZoneEnum::High, MemoryZoneEnum::Dma32, MemoryZoneEnum::IsaDma]
}

/// The zones that chunks of the heap are taken from: HIGH first, then DMA32,
/// then ISA DMA.
pub fn heap_zones() -> (zones: [MemoryZoneEnum; 3])
    ensures
        zones@ == spec_heap_zones(),
{
    [MemoryZoneEnum::High, MemoryZoneEnum::Dma32, MemoryZoneEnum::IsaDma]
}

/// "System" allocator required for dlmalloc allocator
///
/// Wrapper over buddy allocator
#[derive(Debug, Clone, Copy, PartialEq, Eq, Structural)]
pub struct DlmallocSystemAllocator;

impl DlmallocSystemAllocator {
    /// Whether `chunk` is what a request of the heap for `size` bytes gives:
    /// no memory, as `(0, 0, 0)`, where the physical memory manager has none;
    /// else the mirror of the physical address that it gave, `size` and no
    /// flags.
    pub open spec fn chunk_allocated<F: Fn(MemoryZoneEnum, usize) -> u64>(
        pmm: PhysicalMemoryManager,
        malloc: F,
        size: usize,
        chunk: (u64, usize, u32),
    ) -> bool {
        if chunk.0 == 0 {
            &&& chunk == (0u64, 0usize, 0u32)
            &&& pmm.allocated(malloc, spec_heap_zones(), size, 0)
        } else {
            &&& chunk.0 > PHYSICAL_MEMORY_MAPPING_OFFSET
            &&& chunk.1 == size
            &&& chunk.2 == 0
            &&& pmm.allocated(malloc, spec_heap_zones(), size, spec_virt_to_phys(chunk.0) as u64)
        }
    }

    /// Takes a chunk of `size` bytes for the heap from the zones of
    /// `heap_zones`.
    pub fn alloc_chunk<F: Fn(MemoryZoneEnum, usize) -> u64>(
        &self,
        pmm: &PhysicalMemoryManager,
        size: usize,
        malloc: F,
    ) -> (chunk: (u64, usize, u32))
        requires
            spec_valid_request_size(size),
            forall|zone: MemoryZoneEnum| call_requires(malloc, (zone, size)),
            answers_in_zone(malloc, size),
        ensures
            Self::chunk_allocated(*pmm, malloc, size, chunk),
    {
        let zones = heap_zones();
        let phys_addr = pmm.alloc_from_zones(zones.as_slice(), size, malloc);
        if phys_addr == 0 {
            return (0, 0, 0);
        }
        proof {
            lemma_allocated_in_zone(*pmm, malloc, zones@, size, phys_addr);
        }
        let virt_addr = phys_addr_to_cpmm_virt_addr(phys_addr);
        (virt_addr, size, 0)
    }

    /// Whether the chunk at `ptr` belongs to the heap: the address lies in
    /// the complete physical memory mapping and mirrors an address of a zone
    /// that was initialized.
    pub open spec fn spec_chunk_owned(pmm: PhysicalMemoryManager, ptr: u64) -> bool {
        &&& ptr >= PHYSICAL_MEMORY_MAPPING_OFFSET
        &&& pmm.spec_owns(spec_virt_to_phys(ptr) as u64)
    }

    /// Whether the chunk at `ptr` belongs to the heap.
    pub fn chunk_owned(&self, pmm: &PhysicalMemoryManager, ptr: u64) -> (yes: bool)
        ensures
            yes == Self::spec_chunk_owned(*pmm, ptr),
    {
        ptr >= PHYSICAL_MEMORY_MAPPING_OFFSET && pmm.owns(virt_addr_from_cpmm_to_phys_addr(ptr))
    }

    /// Whether `new_ptr` is what resizing the chunk at `ptr` to `newsize`
    /// bytes gives: the null address where the chunk may not move or the
    /// allocator of its zone has no memory; else the mirror of the physical
    /// address that this allocator gave.
    pub open spec fn chunk_remapped<F: Fn(MemoryZoneEnum, u64, usize) -> u64>(
        realloc_in_zone: F,
        ptr: u64,
        newsize: usize,
        can_move: bool,
        new_ptr: u64,
    ) -> bool {
        let phys_addr = spec_virt_to_phys(ptr) as u64;
        let zone = spec_zone_of(phys_addr).unwrap();
        if !can_move {
            new_ptr == 0
        } else if new_ptr == 0 {
            call_ensures(realloc_in_zone, (zone, phys_addr, newsize), 0u64)
        } else {
            &&& new_ptr > PHYSICAL_MEMORY_MAPPING_OFFSET
            &&& call_ensures(
                realloc_in_zone,
                (zone, phys_addr, newsize),
                spec_virt_to_phys(new_ptr) as u64,
            )
        }
    }

    /// Resizes the chunk at `ptr`, which may only be done by moving it: a
    /// chunk that may not move is left alone, whatever `ptr` is, and the
    /// answer is the null address.
    pub fn remap<F: Fn(MemoryZoneEnum, u64, usize) -> u64>(
        &self,
        pmm: &PhysicalMemoryManager,
        ptr: u64,
        oldsize: usize,
        newsize: usize,
        can_move: bool,
        realloc_in_zone: F,
    ) -> (new_ptr: u64)
        requires
            spec_valid_request_size(oldsize),
            spec_valid_request_size(newsize),
            can_move ==> Self::spec_chunk_owned(*pmm, ptr),
            can_move ==> call_requires(
                realloc_in_zone,
                (
                    spec_zone_of(spec_virt_to_phys(ptr) as u64).unwrap(),
                    spec_virt_to_phys(ptr) as u64,
                    newsize,
                ),
            ),
            can_move ==> forall|zone: MemoryZoneEnum, addr: u64, answer: u64| #[trigger]
                call_ensures(realloc_in_zone, (zone, addr, newsize), answer) ==> answer == 0
                    || zone.spec_contains(answer),
        ensures
            Self::chunk_remapped(realloc_in_zone, ptr, newsize, can_move, new_ptr),
    {
        if can_move {
            let phys_addr = virt_addr_from_cpmm_to_phys_addr(ptr);
            let new_phys_addr = pmm.realloc(phys_addr, newsize, true, realloc_in_zone);
            if new_phys_addr == 0 {
                return 0;
            }
            phys_addr_to_cpmm_virt_addr(new_phys_addr)
        } else {
            0
        }
    }

    /// Gives the chunk at `ptr` back to the allocator of its zone; always
    /// succeeds.
    pub fn free<F: Fn(MemoryZoneEnum, u64)>(
        &self,
        pmm: &PhysicalMemoryManager,
        ptr: u64,
        size: usize,
        free_in_zone: F,
    ) -> (freed: bool)
        requires
            spec_valid_request_size(size),
            Self::spec_chunk_owned(*pmm, ptr),
            call_requires(
                free_in_zone,
                (
                    spec_zone_of(spec_virt_to_phys(ptr) as u64).unwrap(),
                    spec_virt_to_phys(ptr) as u64,
                ),
            ),
        ensures
            freed,
            call_ensures(
                free_in_zone,
                (
                    spec_zone_of(spec_virt_to_phys(ptr) as u64).unwrap(),
                    spec_virt_to_phys(ptr) as u64,
                ),
                (),
            ),
    {
        let phys_addr = virt_addr_from_cpmm_to_phys_addr(ptr);
        pmm.free(phys_addr, free_in_zone);
        true
    }

    /// Parts of a chunk are never released.
    pub fn can_release_part(&self, _flags: u32) -> (yes: bool)
        ensures
            !yes,
    {
        false
    }

    /// Chunks are handed out as they are, not zeroed.
    pub fn allocates_zeros(&self) -> (yes: bool)
        ensures
            !yes,
    {
        false
    }

    /// The page size that the heap works with.
    pub fn page_size(&self) -> (size: usize)
        ensures
            size == PAGE_SIZE,
    {
        PAGE_SIZE
    }
}

/// The heap has no memory for a request.
#[derive(Debug, Clone, Copy, PartialEq, Eq, Structural)]
pub struct AllocError;

/// Allocator that implements the Allocator trait and can be used as a general-purpose allocator, mainly for libraries that require it
///
/// A SLAB allocator should be used for frequent and basic selection of kernel objects of the same size.
#[derive(Debug, Clone, Copy, PartialEq, Eq, Structural)]
pub struct GeneralPurposeAllocator;

impl GeneralPurposeAllocator {
    /// What a request for `size` bytes aligned to `align` gives, as the
    /// address and the length of the block, where `heap_malloc` asks the
    /// heap: for no bytes, an address that is aligned and never used, without
    /// asking the heap; else the answer of the heap, or an error where the
    /// heap answers with the null address.
    pub open spec fn allocation<F: Fn(usize, usize) -> u64>(
        heap_malloc: F,
        size: usize,
        align: usize,
        result: Result<(u64, usize), AllocError>,
    ) -> bool {
        if size == 0 {
            result == Ok::<(u64, usize), AllocError>((align as u64, 0usize))
        } else {
            match result {
                Ok((addr, len)) => addr != 0 && len == size && call_ensures(
                    heap_malloc,
                    (size, align),
                    addr,
                ),
                Err(_) => call_ensures(heap_malloc, (size, align), 0u64),
            }
        }
    }

    /// Allocates `size` bytes aligned to `align`.
    pub fn allocate<F: Fn(usize, usize) -> u64>(&self, size: usize, align: usize, heap_malloc: F) -> (result:
        Result<(u64, usize), AllocError>)
        requires
            align != 0,
            call_requires(heap_malloc, (size, align)),
        ensures
            Self::allocation(heap_malloc, size, align, result),
    {
        if size == 0 {
            // Create aligned dangling pointer
            return Ok((align as u64, 0));
        }
        let allocated_addr = heap_malloc(size, align);
        if allocated_addr == 0 {
            return Err(AllocError);
        }
        Ok((allocated_addr, size))
    }

    /// Gives the block of `size` bytes at `addr` back: to the heap through
    /// `heap_free`, unless it holds no bytes. Returns whether the heap was
    /// asked.
    pub fn deallocate<F: Fn(u64, usize, usize)>(
        &self,
        addr: u64,
        size: usize,
        align: usize,
        heap_free: F,
    ) -> (forwarded: bool)
        requires
            addr != 0,
            align != 0,
            size != 0 ==> call_requires(heap_free, (addr, size, align)),
        ensures
            forwarded == (size != 0),
            forwarded ==> call_ensures(heap_free, (addr, size, align), ()),
    {
        if size == 0 {
            return false;
        }
        heap_free(addr, size, align);
        true
    }
}

} // verus!
