use kernel::memory_management::virtual_memory_manager::{
    is_cpmm_virt_addr, phys_addr_to_cpmm_virt_addr, set_flags_in_page_table,
    virt_addr_from_cpmm_to_phys_addr, FlagsStep, PageTableLevel, HUGE_PAGE,
    MAX_MAPPED_PHYS_ADDR, PHYSICAL_MEMORY_MAPPING_OFFSET,
};
use kernel::memory_management::virtual_memory_manager::PageTableLevel::{Four, One, Three, Two};
use kernel::memory_management::{
    is_page_aligned, is_power_of_two, page_align_down, page_align_up, PAGE_SIZE,
};

#[test]
fn page_size_is_4_kib() {
    assert_eq!(PAGE_SIZE, 4096);
}

#[test]
fn align_down_clears_the_offset_in_the_page() {
    assert_eq!(page_align_down(0x1234), 0x1000);
    assert_eq!(page_align_down(0x1FFF), 0x1000);
    assert_eq!(page_align_down(0xFFF), 0);
    assert_eq!(page_align_down(u64::MAX), 0xFFFF_FFFF_FFFF_F000);
}

#[test]
fn align_down_keeps_a_page_boundary() {
    assert_eq!(page_align_down(0), 0);
    assert_eq!(page_align_down(0x2000), 0x2000);
}

#[test]
fn align_up_goes_to_the_next_page_boundary() {
    assert_eq!(page_align_up(0x1001), Some(0x2000));
    assert_eq!(page_align_up(0x1FFF), Some(0x2000));
    assert_eq!(page_align_up(1), Some(0x1000));
}

#[test]
fn align_up_keeps_a_page_boundary() {
    assert_eq!(page_align_up(0), Some(0));
    assert_eq!(page_align_up(0x3000), Some(0x3000));
    assert_eq!(page_align_up(0xFFFF_FFFF_FFFF_F000), Some(0xFFFF_FFFF_FFFF_F000));
}

#[test]
fn align_up_past_the_last_page_is_none() {
    assert_eq!(page_align_up(0xFFFF_FFFF_FFFF_F001), None);
    assert_eq!(page_align_up(u64::MAX), None);
}

#[test]
fn page_alignment_is_told() {
    assert!(is_page_aligned(0));
    assert!(is_page_aligned(0x1000));
    assert!(!is_page_aligned(0x1001));
    assert!(!is_page_aligned(0xFFF));
}

#[test]
fn powers_of_two_are_told() {
    assert!(!is_power_of_two(0));
    assert!(is_power_of_two(1));
    assert!(is_power_of_two(2));
    assert!(!is_power_of_two(3));
    assert!(is_power_of_two(4096));
    assert!(!is_power_of_two(4097));
    assert!(!is_power_of_two(12288));
    assert!(is_power_of_two(1 << 40));
    assert!(!is_power_of_two(usize::MAX));
}

#[test]
fn physical_address_is_mirrored_at_the_offset() {
    assert_eq!(PHYSICAL_MEMORY_MAPPING_OFFSET, 0xFFFF_A000_0000_0000);
    assert_eq!(phys_addr_to_cpmm_virt_addr(0), 0xFFFF_A000_0000_0000);
    assert_eq!(phys_addr_to_cpmm_virt_addr(0x100000), 0xFFFF_A000_0010_0000);
    assert_eq!(phys_addr_to_cpmm_virt_addr(MAX_MAPPED_PHYS_ADDR), u64::MAX);
}

#[test]
fn virtual_address_is_taken_back_to_the_physical() {
    assert_eq!(virt_addr_from_cpmm_to_phys_addr(0xFFFF_A000_0000_0000), 0);
    assert_eq!(virt_addr_from_cpmm_to_phys_addr(0xFFFF_A000_FEE0_0000), 0xFEE0_0000);
    assert_eq!(virt_addr_from_cpmm_to_phys_addr(u64::MAX), MAX_MAPPED_PHYS_ADDR);
}

#[test]
fn translation_round_trips() {
    for phys in [0u64, 0x1000, 0x100000, 0xFFFF_F000, 0xFF_FFFF_F000] {
        let virt = phys_addr_to_cpmm_virt_addr(phys);
        assert!(is_cpmm_virt_addr(virt));
        assert_eq!(virt_addr_from_cpmm_to_phys_addr(virt), phys);
        assert_eq!(virt % 4096, phys % 4096);
    }
    assert!(!is_cpmm_virt_addr(0xFFFF_9FFF_FFFF_FFFF));
}

#[test]
fn page_table_levels_go_down_to_one() {
    assert_eq!(PageTableLevel::Four.next_lower_level(), Some(PageTableLevel::Three));
    assert_eq!(PageTableLevel::Three.next_lower_level(), Some(PageTableLevel::Two));
    assert_eq!(PageTableLevel::Two.next_lower_level(), Some(PageTableLevel::One));
    assert_eq!(PageTableLevel::One.next_lower_level(), None);
}

#[test]
fn flags_are_set_at_the_level_asked_for() {
    // NO_CACHE | WRITE_THROUGH on a present, writable entry
    assert_eq!(set_flags_in_page_table(Four, One, 0b11, 0b11000, true), FlagsStep::Descend(Three));
    assert_eq!(set_flags_in_page_table(Three, One, 0b11, 0b11000, true), FlagsStep::Descend(Two));
    assert_eq!(set_flags_in_page_table(Two, One, 0b11, 0b11000, true), FlagsStep::Descend(One));
    assert_eq!(set_flags_in_page_table(One, One, 0b11, 0b11000, true), FlagsStep::SetFlags(0b11011));
    assert_eq!(set_flags_in_page_table(Four, Four, 0b11, 0b11000, true), FlagsStep::SetFlags(0b11011));
    assert_eq!(set_flags_in_page_table(Two, Two, 0b11011, 0b11000, false), FlagsStep::SetFlags(0b11));
    assert_eq!(set_flags_in_page_table(One, One, 0b10011, 0b11000, false), FlagsStep::SetFlags(0b11));
}

#[test]
fn flags_are_set_at_a_huge_page_above_the_level_asked_for() {
    assert_eq!(HUGE_PAGE, 0x80);
    assert_eq!(
        set_flags_in_page_table(Two, One, 0x83, 0b11000, true),
        FlagsStep::SetFlags(0x9B)
    );
    assert_eq!(
        set_flags_in_page_table(Three, One, 0x9B, 0b11000, false),
        FlagsStep::SetFlags(0x83)
    );
    assert_eq!(set_flags_in_page_table(Three, Two, 0x3, 0x80, true), FlagsStep::Descend(Two));
}
