use kernel::interrupts::apic::ioapic::{
    number_of_redirection_table_entries, redirection_table,
    set_acpi_lib_pin_polarity_and_trigger_mode, valid_redirection,
    write_ioapic_redirection_table_entry, InterruptSourceOverride, NmiSource, Polarity,
    RedirectionTableEntry, TriggerMode,
};
use kernel::interrupts::apic::{
    fill_lvt_error_register, fill_lvt_lint0_register, fill_lvt_lint1_register,
    fill_lvt_timer_register, fill_spurious_interrupt_vector_register, local_apic_version,
    set_nmi_if_needed, LocalApicVersion, LocalInterruptLine, LvtRegister, NmiLine, NmiProcessor,
};
use kernel::interrupts::idt::{general_interrupt_handler, sends_eoi, InterruptAction};

#[test]
fn vectors_up_to_31_are_cpu_exceptions() {
    assert_eq!(general_interrupt_handler(0), InterruptAction::CpuException { page_fault: false });
    assert_eq!(general_interrupt_handler(13), InterruptAction::CpuException { page_fault: false });
    assert_eq!(general_interrupt_handler(14), InterruptAction::CpuException { page_fault: true });
    assert_eq!(general_interrupt_handler(31), InterruptAction::CpuException { page_fault: false });
}

#[test]
fn vectors_from_32_to_57_are_io_apic_interrupts() {
    assert_eq!(general_interrupt_handler(32), InterruptAction::IoApicIsaIrq { pit_tick: true });
    assert_eq!(general_interrupt_handler(33), InterruptAction::IoApicIsaIrq { pit_tick: false });
    assert_eq!(general_interrupt_handler(48), InterruptAction::IoApicIsaIrq { pit_tick: false });
    assert_eq!(general_interrupt_handler(51), InterruptAction::IoApicIsaIrq { pit_tick: false });
    assert_eq!(general_interrupt_handler(57), InterruptAction::IoApicIsaIrq { pit_tick: false });
}

#[test]
fn other_vectors() {
    assert_eq!(general_interrupt_handler(58), InterruptAction::Unexpected);
    assert_eq!(general_interrupt_handler(128), InterruptAction::Unexpected);
    assert_eq!(general_interrupt_handler(254), InterruptAction::Unexpected);
    assert_eq!(general_interrupt_handler(255), InterruptAction::LocalApicSpurious);
}

#[test]
fn end_of_interrupt_is_sent_for_io_apic_interrupts_only() {
    for index in 0..=255u8 {
        assert_eq!(sends_eoi(general_interrupt_handler(index)), (32..=57).contains(&index));
    }
}

#[test]
fn local_apic_versions() {
    assert_eq!(local_apic_version(0), Some(LocalApicVersion::Descrete));
    assert_eq!(local_apic_version(0x0005_0000), Some(LocalApicVersion::Descrete));
    assert_eq!(local_apic_version(0x10), Some(LocalApicVersion::Integrated));
    assert_eq!(local_apic_version(0x0005_0014), Some(LocalApicVersion::Integrated));
    assert_eq!(local_apic_version(0x15), Some(LocalApicVersion::Integrated));
    assert_eq!(local_apic_version(0x16), None);
    assert_eq!(local_apic_version(0x0F), None);
    assert_eq!(local_apic_version(1), None);
    assert_eq!(local_apic_version(0xFF), None);
}

#[test]
fn lvt_register_fields() {
    let mut register = LvtRegister(0xFFFF_FFFF);
    register.set_vector(0x31);
    assert_eq!(register.0, 0xFFFF_FF31);
    register.set_delivery_mode(0b100);
    assert_eq!(register.0, 0xFFFF_FC31);
    assert_eq!(register.vector(), 0x31);
    assert_eq!(register.delivery_mode(), 0b100);
    register.set_vector(0x1FF);
    assert_eq!(register.vector(), 0xFF);
    register.set_delivery_mode(0xF);
    assert_eq!(register.delivery_mode(), 7);
    assert_eq!(register.0, 0xFFFF_FFFF);
}

#[test]
fn lvt_registers_without_nmi_hold_their_vectors() {
    assert_eq!(fill_lvt_timer_register(), 48);
    assert_eq!(fill_lvt_lint0_register(0, &[]), 49);
    assert_eq!(fill_lvt_lint1_register(0, &[]), 50);
    assert_eq!(fill_lvt_error_register(), 51);
    assert_eq!(fill_spurious_interrupt_vector_register(), 0x1FF);
}

#[test]
fn lvt_registers_of_nmi_lines_deliver_nmi() {
    let all_lint1 = NmiLine { processor: NmiProcessor::All, line: LocalInterruptLine::Lint1 };
    let cpu2_lint0 =
        NmiLine { processor: NmiProcessor::ProcessorUid(2), line: LocalInterruptLine::Lint0 };
    let lines = [cpu2_lint0, all_lint1];
    assert_eq!(fill_lvt_lint1_register(0, &lines), 0x432);
    assert_eq!(fill_lvt_lint1_register(7, &lines), 0x432);
    assert_eq!(fill_lvt_lint0_register(0, &lines), 49);
    assert_eq!(fill_lvt_lint0_register(2, &lines), 0x431);
    assert_eq!(fill_lvt_lint0_register(2, &[all_lint1]), 49);
    assert_eq!(fill_lvt_lint0_register(2, &[all_lint1, all_lint1, cpu2_lint0]), 0x431);
}

#[test]
fn nmi_is_set_only_where_needed() {
    let line = NmiLine { processor: NmiProcessor::ProcessorUid(1), line: LocalInterruptLine::Lint0 };
    let mut register = LvtRegister(0x2_0031);
    set_nmi_if_needed(&mut register, LocalInterruptLine::Lint0, 0, &[line]);
    assert_eq!(register, LvtRegister(0x2_0031));
    set_nmi_if_needed(&mut register, LocalInterruptLine::Lint1, 1, &[line]);
    assert_eq!(register, LvtRegister(0x2_0031));
    set_nmi_if_needed(&mut register, LocalInterruptLine::Lint0, 1, &[line]);
    assert_eq!(register, LvtRegister(0x2_0431));
}

#[test]
fn io_apic_pins_are_told_by_the_version_register() {
    assert_eq!(number_of_redirection_table_entries(0x0017_0011), 24);
    assert_eq!(number_of_redirection_table_entries(0x003F_0020), 64);
    assert_eq!(number_of_redirection_table_entries(0), 1);
    assert_eq!(number_of_redirection_table_entries(0xFFFF_FFFF), 256);
}

#[test]
fn redirection_entry_fields() {
    let mut entry = RedirectionTableEntry(0);
    entry.set_vector(0x21);
    entry.set_delivery_mode(0b100);
    entry.set_interrupt_input_pin_polarity(true);
    entry.set_trigger_mode(true);
    entry.set_interrupt_mask(true);
    entry.set_destination_field(0xF);
    assert_eq!(entry.0, 0x0F00_0000_0001_A421);
    entry.set_interrupt_input_pin_polarity(false);
    entry.set_trigger_mode(false);
    entry.set_interrupt_mask(false);
    entry.set_delivery_mode(0);
    assert_eq!(entry.0, 0x0F00_0000_0000_0021);
    let mut full = RedirectionTableEntry(u64::MAX);
    full.set_vector(0);
    full.set_destination_field(0);
    assert_eq!(full.0, 0x00FF_FFFF_FFFF_FF00);
}

#[test]
fn pin_polarity_and_trigger_mode() {
    for (polarity, trigger_mode, bits) in [
        (Polarity::ActiveHigh, TriggerMode::Edge, 0u64),
        (Polarity::SameAsBus, TriggerMode::SameAsBus, 0),
        (Polarity::ActiveLow, TriggerMode::Edge, 1 << 13),
        (Polarity::ActiveHigh, TriggerMode::Level, 1 << 15),
        (Polarity::ActiveLow, TriggerMode::Level, (1 << 13) | (1 << 15)),
    ] {
        let mut entry = RedirectionTableEntry(0x21);
        set_acpi_lib_pin_polarity_and_trigger_mode(polarity, trigger_mode, &mut entry);
        assert_eq!(entry.0, 0x21 | bits);
        let mut set = RedirectionTableEntry(0xA021);
        set_acpi_lib_pin_polarity_and_trigger_mode(polarity, trigger_mode, &mut set);
        assert_eq!(set.0, 0x21 | bits);
    }
}

#[test]
fn default_redirection_table() {
    let table = redirection_table(24, 3, &[], &[]);
    assert_eq!(table.len(), 24);
    for (pin, entry) in table.iter().enumerate() {
        let masked = if pin >= 16 { 1u64 << 16 } else { 0 };
        assert_eq!(entry.0, (3 << 56) | masked | (32 + pin as u64));
    }
    assert_eq!(redirection_table(64, 0, &[], &[])[63].0, 0x1_005F);
}

#[test]
fn redirection_table_with_overrides() {
    let overrides = [
        // the interval timer arrives at pin 2
        InterruptSourceOverride {
            isa_source: 0,
            global_system_interrupt: 2,
            polarity: Polarity::SameAsBus,
            trigger_mode: TriggerMode::SameAsBus,
        },
        InterruptSourceOverride {
            isa_source: 9,
            global_system_interrupt: 20,
            polarity: Polarity::ActiveLow,
            trigger_mode: TriggerMode::Level,
        },
    ];
    let nmi = [NmiSource { global_system_interrupt: 23, polarity: Polarity::ActiveLow }];
    let table = redirection_table(24, 0, &overrides, &nmi);
    // pin 0 is masked, pin 2 carries the vector of interrupt 0
    assert_eq!(table[0].0, 0x1_0020);
    assert_eq!(table[2].0, 0x20);
    assert_eq!(table[1].0, 0x21);
    // pin 9 is masked, pin 20 carries the vector of interrupt 9, active low, level triggered
    assert_eq!(table[9].0, 0x1_0029);
    assert_eq!(table[20].0, 0xA029);
    // pin 23 delivers NMI, active low, edge triggered, unmasked
    assert_eq!(table[23].0, 0x2437);
    assert_eq!(table[22].0, 0x1_0036);
}

#[test]
fn override_of_a_pin_by_itself_leaves_it_unmasked() {
    let overrides = [InterruptSourceOverride {
        isa_source: 5,
        global_system_interrupt: 5,
        polarity: Polarity::ActiveHigh,
        trigger_mode: TriggerMode::Level,
    }];
    let table = redirection_table(24, 1, &overrides, &[]);
    assert_eq!(table[5].0, (1 << 56) | 0x8025);
}

#[test]
fn redirection_that_cannot_be_made() {
    let good = InterruptSourceOverride {
        isa_source: 0,
        global_system_interrupt: 2,
        polarity: Polarity::SameAsBus,
        trigger_mode: TriggerMode::SameAsBus,
    };
    assert!(valid_redirection(24, 0, &[good], &[]));
    assert!(valid_redirection(64, 15, &[good], &[]));
    assert!(!valid_redirection(23, 0, &[], &[]));
    assert!(!valid_redirection(65, 0, &[], &[]));
    assert!(!valid_redirection(24, 16, &[], &[]));
    let far_pin = InterruptSourceOverride { global_system_interrupt: 24, ..good };
    assert!(!valid_redirection(24, 0, &[good, far_pin], &[]));
    assert!(valid_redirection(25, 0, &[good, far_pin], &[]));
    let far_irq = InterruptSourceOverride { isa_source: 26, ..good };
    assert!(!valid_redirection(64, 0, &[far_irq], &[]));
    let last_irq = InterruptSourceOverride { isa_source: 25, ..good };
    assert!(valid_redirection(64, 0, &[last_irq], &[]));
    assert!(!valid_redirection(24, 0, &[last_irq], &[]));
    let nmi = NmiSource { global_system_interrupt: 24, polarity: Polarity::ActiveHigh };
    assert!(!valid_redirection(24, 0, &[], &[nmi]));
    assert!(valid_redirection(25, 0, &[], &[nmi]));
}

#[test]
fn redirection_entry_is_written_in_two_halves() {
    let entry = RedirectionTableEntry(0x0F00_0000_0001_A421);
    assert_eq!(
        write_ioapic_redirection_table_entry(0, &entry),
        [(0x10, 0x0001_A421), (0x11, 0x0F00_0000)]
    );
    assert_eq!(
        write_ioapic_redirection_table_entry(2, &entry),
        [(0x14, 0x0001_A421), (0x15, 0x0F00_0000)]
    );
    assert_eq!(
        write_ioapic_redirection_table_entry(63, &RedirectionTableEntry(u64::MAX)),
        [(0x8E, 0xFFFF_FFFF), (0x8F, 0xFFFF_FFFF)]
    );
}
