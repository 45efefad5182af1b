//! Addresses in the complete physical memory mapping: the region of virtual
//! memory that mirrors all physical memory at a fixed offset.

use vstd::prelude::*;

verus! {

/// Complete Physical Memory Mapping offset in virtual memory
pub const PHYSICAL_MEMORY_MAPPING_OFFSET: u64 = 0xFFFF_A000_0000_0000;

/// The highest physical address that has a mirror in the mapping.
pub const MAX_MAPPED_PHYS_ADDR: u64 = 0x0000_5FFF_FFFF_FFFF;

/// The mirror of `phys_addr` in the complete physical memory mapping.
pub open spec fn spec_phys_to_virt(phys_addr: u64) -> int {
    phys_addr + PHYSICAL_MEMORY_MAPPING_OFFSET
}

/// The physical address that `virt_addr` mirrors.
pub open spec fn spec_virt_to_phys(virt_addr: u64) -> int {
    virt_addr - PHYSICAL_MEMORY_MAPPING_OFFSET
}

/// Converts physical address to virtual address in Complete Physical Memory Mapping area
///
/// Adds PHYSICAL_MEMORY_MAPPING_OFFSET to physical address
pub fn phys_addr_to_cpmm_virt_addr(phys_addr: u64) -> (virt_addr: u64)
    requires
        phys_addr <= MAX_MAPPED_PHYS_ADDR,
    ensures
        virt_addr == spec_phys_to_virt(phys_addr),
        virt_addr >= PHYSICAL_MEMORY_MAPPING_OFFSET,
{
    phys_addr + PHYSICAL_MEMORY_MAPPING_OFFSET
}

/// Converts virtual address from Complete Physical Memory Mapping area to physical address
///
/// Subs PHYSICAL_MEMORY_MAPPING_OFFSET from virtual address
pub fn virt_addr_from_cpmm_to_phys_addr(virt_addr: u64) -> (phys_addr: u64)
    requires
        virt_addr >= PHYSICAL_MEMORY_MAPPING_OFFSET,
    ensures
        phys_addr == spec_virt_to_phys(virt_addr),
        phys_addr <= MAX_MAPPED_PHYS_ADDR,
{
    virt_addr - PHYSICAL_MEMORY_MAPPING_OFFSET
}

/// Whether `virt_addr` lies in the complete physical memory mapping.
pub fn is_cpmm_virt_addr(virt_addr: u64) -> (yes: bool)
    ensures
        yes == (virt_addr >= PHYSICAL_MEMORY_MAPPING_OFFSET),
{
    virt_addr >= PHYSICAL_MEMORY_MAPPING_OFFSET
}

/// The two translations undo each other, and the mirror of a page boundary is
/// a page boundary.
pub proof fn lemma_translation_round_trip(phys_addr: u64, virt_addr: u64)
    requires
        phys_addr <= MAX_MAPPED_PHYS_ADDR,
        virt_addr >= PHYSICAL_MEMORY_MAPPING_OFFSET,
    ensures
        spec_virt_to_phys(spec_phys_to_virt(phys_addr) as u64) == phys_addr,
        spec_phys_to_virt(spec_virt_to_phys(virt_addr) as u64) == virt_addr,
        spec_phys_to_virt(phys_addr) % 4096 == phys_addr % 4096,
{
}

/// Flag of a page table entry that maps a huge page, 2 MiB or 1 GiB, and
/// leads to no lower table.
pub const HUGE_PAGE: u64 = 1 << 7;

/// Number of entries of the PML4 that map the lower half of the address
/// space, which user space gets.
pub const USERSPACE_PML4_ENTRIES: usize = 256;

/// A level of the page tables; level four is the PML4.
#[derive(Debug, Clone, Copy, PartialEq, Eq, Structural)]
pub enum PageTableLevel {
    /// A page table, whose entries map pages of 4 KiB.
    One,
    /// A page directory.
    Two,
    /// A page directory pointer table.
    Three,
    /// The PML4.
    Four,
}

impl PageTableLevel {
    /// Number of the level, from 1 to 4.
    pub open spec fn spec_number(self) -> int {
        match self {
            PageTableLevel::One => 1,
            PageTableLevel::Two => 2,
            PageTableLevel::Three => 3,
            PageTableLevel::Four => 4,
        }
    }

    /// The level below, if there is one.
    pub fn next_lower_level(self) -> (lower: Option<PageTableLevel>)
        ensures
            match lower {
                Some(level) => level.spec_number() == self.spec_number() - 1,
                None => self == PageTableLevel::One,
            },
    {
        match self {
            PageTableLevel::Four => Some(PageTableLevel::Three),
            PageTableLevel::Three => Some(PageTableLevel::Two),
            PageTableLevel::Two => Some(PageTableLevel::One),
            PageTableLevel::One => None,
        }
    }
}

/// What is done at one table on the way down from the PML4.
#[derive(Debug, Clone, Copy, PartialEq, Eq, Structural)]
pub enum FlagsStep {
    /// The entry gets these flags, and the walk ends.
    SetFlags(u64),
    /// The walk goes on in the table that the entry leads to, at this level.
    Descend(PageTableLevel),
}

/// `entry_flags` with the flags of `page_table_flags` set, or cleared.
pub open spec fn spec_with_flags(entry_flags: u64, page_table_flags: u64, value: bool) -> u64 {
    if value {
        entry_flags | page_table_flags
    } else {
        entry_flags & !page_table_flags
    }
}

/// What is done at the table of `current_level` whose entry for the address
/// has the flags `entry_flags`: the flags are changed there at the level
/// asked for, and also at a level above it where the entry maps a huge page;
/// else the walk goes one level down.
pub open spec fn spec_flags_step(
    current_level: PageTableLevel,
    page_table_level: PageTableLevel,
    entry_flags: u64,
    page_table_flags: u64,
    value: bool,
) -> FlagsStep {
    if current_level == page_table_level || entry_flags & HUGE_PAGE != 0 {
        FlagsStep::SetFlags(spec_with_flags(entry_flags, page_table_flags, value))
    } else {
        match current_level {
            PageTableLevel::Four => FlagsStep::Descend(PageTableLevel::Three),
            PageTableLevel::Three => FlagsStep::Descend(PageTableLevel::Two),
            _ => FlagsStep::Descend(PageTableLevel::One),
        }
    }
}

/// Sets flags to value in selected page table level by virtual addr
///
/// If the selected page table level does not exist due to huge (2MB or 1GB) page using, the flags will be applied to the existing level above.
///
/// Decides what is done at the table of `current_level`, on the way down
/// from the PML4, given the flags of its entry for the address.
pub fn set_flags_in_page_table(
    current_level: PageTableLevel,
    page_table_level: PageTableLevel,
    entry_flags: u64,
    page_table_flags: u64,
    value: bool,
) -> (step: FlagsStep)
    requires
        current_level.spec_number() >= page_table_level.spec_number(),
    ensures
        step == spec_flags_step(
            current_level,
            page_table_level,
            entry_flags,
            page_table_flags,
            value,
        ),
        step matches FlagsStep::Descend(level) ==> level.spec_number()
            == current_level.spec_number() - 1 && level.spec_number()
            >= page_table_level.spec_number(),
{
    let same_level = match (current_level, page_table_level) {
        (PageTableLevel::One, PageTableLevel::One) => true,
        (PageTableLevel::Two, PageTableLevel::Two) => true,
        (PageTableLevel::Three, PageTableLevel::Three) => true,
        (PageTableLevel::Four, PageTableLevel::Four) => true,
        _ => false,
    };
    if same_level || entry_flags & HUGE_PAGE != 0 {
        let flags = if value {
            entry_flags | page_table_flags
        } else {
            entry_flags & !page_table_flags
        };
        FlagsStep::SetFlags(flags)
    } else {
        match current_level.next_lower_level() {
            Some(level) => FlagsStep::Descend(level),
            None => FlagsStep::Descend(PageTableLevel::One),
        }
    }
}

} // verus!
