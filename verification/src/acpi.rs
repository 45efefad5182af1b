//! Where the ACPI tables are found in virtual memory.

use crate::memory_management::virtual_memory_manager::{
    phys_addr_to_cpmm_virt_addr, spec_phys_to_virt, MAX_MAPPED_PHYS_ADDR,
};
use crate::memory_management::{
    align_up, lemma_page_size_is_pow2, page_align_down, PAGE_SIZE, PAGE_SIZE_U64,
};
use vstd::prelude::*;

verus! {

/// A physical region as the ACPI tables are read through: its mirror in the
/// complete physical memory mapping.
#[derive(Debug, Clone, Copy, PartialEq, Eq, Structural)]
pub struct MappedRegion {
    /// Physical address of the region.
    pub physical_start: u64,
    /// Address of its mirror in virtual memory.
    pub virtual_start: u64,
    /// Bytes of the region.
    pub region_length: usize,
    /// Bytes of the pages that hold the start of the region.
    pub mapped_length: usize,
}

/// Hands physical regions to the ACPI library: all of physical memory is
/// mapped already, so nothing is mapped or unmapped.
#[derive(Debug, Clone, Copy, PartialEq, Eq, Structural)]
pub struct BaseAcpiHandler;

impl BaseAcpiHandler {
    /// The mirror of the region of `region_length` bytes at
    /// `physical_address` in the complete physical memory mapping.
    pub fn map_physical_region(&self, physical_address: u64, region_length: usize) -> (mapping:
        MappedRegion)
        requires
            physical_address <= MAX_MAPPED_PHYS_ADDR,
        ensures
            mapping.physical_start == physical_address,
            mapping.virtual_start == spec_phys_to_virt(physical_address),
            mapping.region_length == region_length,
            mapping.mapped_length == PAGE_SIZE,
    {
        // We just need to return the virtual address from Complete Physical Memory Mapping region
        let physical_region_start = page_align_down(physical_address);
        let offset = physical_address - physical_region_start;
        let physical_region_size: u64 = if offset == 0 {
            PAGE_SIZE_U64
        } else {
            proof {
                lemma_page_size_is_pow2();
            }
            align_up(offset, PAGE_SIZE_U64)
        };
        let virtual_address = phys_addr_to_cpmm_virt_addr(physical_address);
        MappedRegion {
            physical_start: physical_address,
            virtual_start: virtual_address,
            region_length,
            mapped_length: physical_region_size as usize,
        }
    }
}

} // verus!
