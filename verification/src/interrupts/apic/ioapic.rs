//! IO APIC: the redirection table that routes the pins of the IO APIC to
//! interrupt vectors.

use crate::interrupts::idt::{IO_APIC_ISA_IRQ_FIRST_IDT_VECTOR, IO_APIC_ISA_IRQ_LAST_IDT_VECTOR};
use vstd::prelude::*;

verus! {

/// Number of the legacy ISA interrupts, which the first pins carry.
pub const ISA_IRQS: usize = 16;

/// Polarity of an interrupt pin.
#[derive(Debug, Clone, Copy, PartialEq, Eq, Structural)]
pub enum Polarity {
    /// As the bus has it: active high for ISA.
    SameAsBus,
    /// Active high.
    ActiveHigh,
    /// Active low.
    ActiveLow,
}

/// Trigger mode of an interrupt pin.
#[derive(Debug, Clone, Copy, PartialEq, Eq, Structural)]
pub enum TriggerMode {
    /// As the bus has it: edge triggered for ISA.
    SameAsBus,
    /// Edge triggered.
    Edge,
    /// Level triggered.
    Level,
}

/// An ISA interrupt that arrives at another pin than the one of its number.
#[derive(Debug, Clone, Copy, PartialEq, Eq, Structural)]
pub struct InterruptSourceOverride {
    /// Number of the ISA interrupt.
    pub isa_source: u8,
    /// The pin that it arrives at.
    pub global_system_interrupt: u32,
    /// Polarity of that pin.
    pub polarity: Polarity,
    /// Trigger mode of that pin.
    pub trigger_mode: TriggerMode,
}

/// A pin that carries non-maskable interrupts.
#[derive(Debug, Clone, Copy, PartialEq, Eq, Structural)]
pub struct NmiSource {
    /// The pin.
    pub global_system_interrupt: u32,
    /// Polarity of the pin.
    pub polarity: Polarity,
}

/// An entry of the redirection table.
///
/// Vector 0-7, delivery mode 8-10, destination mode 11, delivery status 12,
/// interrupt input pin polarity 13, remote IRR 14, trigger mode 15,
/// interrupt mask 16, destination field 56-63.
#[derive(Debug, Clone, Copy, PartialEq, Eq, Structural)]
pub struct RedirectionTableEntry(pub u64);

/// `value` with bit `bit` set or cleared.
pub open spec fn spec_with_bit(value: u64, bit: u64, set: bool) -> u64 {
    if set {
        value | (1u64 << bit)
    } else {
        value & !(1u64 << bit)
    }
}

impl RedirectionTableEntry {
    /// The entry with `vector` in bits 0 to 7.
    pub open spec fn spec_set_vector(self, vector: u64) -> Self {
        RedirectionTableEntry((self.0 & !0xFFu64) | (vector & 0xFF))
    }

    /// The entry with `delivery_mode` in bits 8 to 10.
    pub open spec fn spec_set_delivery_mode(self, delivery_mode: u64) -> Self {
        RedirectionTableEntry((self.0 & !0x700u64) | ((delivery_mode & 0x7) << 8))
    }

    /// The entry with bit 13 set for a pin that is active low.
    pub open spec fn spec_set_interrupt_input_pin_polarity(self, low: bool) -> Self {
        RedirectionTableEntry(spec_with_bit(self.0, 13, low))
    }

    /// The entry with bit 15 set for a pin that is level triggered.
    pub open spec fn spec_set_trigger_mode(self, level: bool) -> Self {
        RedirectionTableEntry(spec_with_bit(self.0, 15, level))
    }

    /// The entry with bit 16 set for a masked pin.
    pub open spec fn spec_set_interrupt_mask(self, masked: bool) -> Self {
        RedirectionTableEntry(spec_with_bit(self.0, 16, masked))
    }

    /// The entry with `destination` in bits 56 to 63.
    pub open spec fn spec_set_destination_field(self, destination: u64) -> Self {
        RedirectionTableEntry((self.0 & !0xFF00_0000_0000_0000u64) | ((destination & 0xFF) << 56))
    }

    /// Puts `vector` in bits 0 to 7.
    pub fn set_vector(&mut self, vector: u64)
        ensures
            *final(self) == old(self).spec_set_vector(vector),
    {
        self.0 = (self.0 & !0xFFu64) | (vector & 0xFF);
    }

    /// Puts `delivery_mode` in bits 8 to 10.
    pub fn set_delivery_mode(&mut self, delivery_mode: u64)
        ensures
            *final(self) == old(self).spec_set_delivery_mode(delivery_mode),
    {
        self.0 = (self.0 & !0x700u64) | ((delivery_mode & 0x7) << 8);
    }

    /// Sets bit 13 for a pin that is active low, and clears it else.
    pub fn set_interrupt_input_pin_polarity(&mut self, low: bool)
        ensures
            *final(self) == old(self).spec_set_interrupt_input_pin_polarity(low),
    {
        self.0 = if low {
            self.0 | (1u64 << 13)
        } else {
            self.0 & !(1u64 << 13)
        };
    }

    /// Sets bit 15 for a pin that is level triggered, and clears it else.
    pub fn set_trigger_mode(&mut self, level: bool)
        ensures
            *final(self) == old(self).spec_set_trigger_mode(level),
    {
        self.0 = if level {
            self.0 | (1u64 << 15)
        } else {
            self.0 & !(1u64 << 15)
        };
    }

    /// Sets bit 16 for a masked pin, and clears it else.
    pub fn set_interrupt_mask(&mut self, masked: bool)
        ensures
            *final(self) == old(self).spec_set_interrupt_mask(masked),
    {
        self.0 = if masked {
            self.0 | (1u64 << 16)
        } else {
            self.0 & !(1u64 << 16)
        };
    }

    /// Puts `destination` in bits 56 to 63.
    pub fn set_destination_field(&mut self, destination: u64)
        ensures
            *final(self) == old(self).spec_set_destination_field(destination),
    {
        self.0 = (self.0 & !0xFF00_0000_0000_0000u64) | ((destination & 0xFF) << 56);
    }

    /// The entry with the polarity and the trigger mode that the platform
    /// tells: active low and level triggered where it says so, else active
    /// high and edge triggered.
    pub open spec fn spec_set_pin(self, polarity: Polarity, trigger_mode: TriggerMode) -> Self {
        self.spec_set_interrupt_input_pin_polarity(polarity is ActiveLow).spec_set_trigger_mode(
            trigger_mode is Level,
        )
    }
}

/// Set Pin Polarity and Trigger Mode
pub fn set_acpi_lib_pin_polarity_and_trigger_mode(
    polarity: Polarity,
    trigger_mode: TriggerMode,
    redirection_table_entry: &mut RedirectionTableEntry,
)
    ensures
        *final(redirection_table_entry) == old(redirection_table_entry).spec_set_pin(
            polarity,
            trigger_mode,
        ),
{
    match polarity {
        Polarity::ActiveHigh => redirection_table_entry.set_interrupt_input_pin_polarity(false),
        Polarity::ActiveLow => redirection_table_entry.set_interrupt_input_pin_polarity(true),
        Polarity::SameAsBus => redirection_table_entry.set_interrupt_input_pin_polarity(false),
    }
    match trigger_mode {
        TriggerMode::Edge => redirection_table_entry.set_trigger_mode(false),
        TriggerMode::Level => redirection_table_entry.set_trigger_mode(true),
        TriggerMode::SameAsBus => redirection_table_entry.set_trigger_mode(false),
    }
}

/// Number of the pins of the IO APIC: bits 16 to 23 of its version register,
/// plus one.
pub open spec fn spec_number_of_redirection_table_entries(version_register: u32) -> u32 {
    (((version_register & 0xFF0000) >> 16) + 1) as u32
}

/// Number of entries in redirection table/number of pins
pub fn number_of_redirection_table_entries(version_register: u32) -> (entries: u32)
    ensures
        entries == spec_number_of_redirection_table_entries(version_register),
        1 <= entries <= 256,
{
    assert((version_register & 0xFF0000) >> 16 <= 255) by (bit_vector);
    ((version_register & 0xFF0000) >> 16) + 1
}

/// The entry of pin `pin` before the platform's overrides: the vector of the
/// ISA interrupt of that number, fixed delivery to the processor
/// `bsp_apic_id`, active high, edge triggered; the pins of the ISA interrupts
/// unmasked, the others masked.
pub open spec fn spec_default_entry(pin: int, bsp_apic_id: u32) -> RedirectionTableEntry {
    RedirectionTableEntry(0).spec_set_vector(
        (pin + IO_APIC_ISA_IRQ_FIRST_IDT_VECTOR) as u64,
    ).spec_set_delivery_mode(0).spec_set_interrupt_input_pin_polarity(false).spec_set_trigger_mode(
        false,
    ).spec_set_interrupt_mask(true).spec_set_destination_field(
        bsp_apic_id as u64,
    ).spec_set_interrupt_mask(pin >= ISA_IRQS)
}

/// The table after an override: the pin that the ISA interrupt arrives at
/// gets its vector, polarity and trigger mode and is unmasked; the pin of
/// the interrupt's own number is masked first.
pub open spec fn spec_apply_override(
    table: Seq<RedirectionTableEntry>,
    source: InterruptSourceOverride,
) -> Seq<RedirectionTableEntry> {
    let pin = source.global_system_interrupt as int;
    let vector = (IO_APIC_ISA_IRQ_FIRST_IDT_VECTOR + source.isa_source) as u64;
    let with_vector = table.update(pin, table[pin].spec_set_vector(vector));
    let masked = with_vector.update(
        source.isa_source as int,
        with_vector[source.isa_source as int].spec_set_interrupt_mask(true),
    );
    masked.update(
        pin,
        masked[pin].spec_set_interrupt_mask(false).spec_set_pin(
            source.polarity,
            source.trigger_mode,
        ),
    )
}

/// The table after the overrides of `sources`, applied in their order.
pub open spec fn spec_apply_overrides(
    table: Seq<RedirectionTableEntry>,
    sources: Seq<InterruptSourceOverride>,
) -> Seq<RedirectionTableEntry>
    decreases sources.len(),
{
    if sources.len() == 0 {
        table
    } else {
        spec_apply_override(spec_apply_overrides(table, sources.drop_last()), sources.last())
    }
}

/// The table after a source of non-maskable interrupts: its pin is unmasked,
/// delivers NMI, and is edge triggered with the polarity of the source.
pub open spec fn spec_apply_nmi_source(
    table: Seq<RedirectionTableEntry>,
    source: NmiSource,
) -> Seq<RedirectionTableEntry> {
    let pin = source.global_system_interrupt as int;
    table.update(
        pin,
        table[pin].spec_set_interrupt_mask(false).spec_set_delivery_mode(0b100).spec_set_pin(
            source.polarity,
            TriggerMode::Edge,
        ),
    )
}

/// The table after the sources of `sources`, applied in their order.
pub open spec fn spec_apply_nmi_sources(
    table: Seq<RedirectionTableEntry>,
    sources: Seq<NmiSource>,
) -> Seq<RedirectionTableEntry>
    decreases sources.len(),
{
    if sources.len() == 0 {
        table
    } else {
        spec_apply_nmi_source(spec_apply_nmi_sources(table, sources.drop_last()), sources.last())
    }
}

/// The redirection table of an IO APIC with `entries` pins.
pub open spec fn spec_redirection_table(
    entries: u32,
    bsp_apic_id: u32,
    interrupt_source_overrides: Seq<InterruptSourceOverride>,
    nmi_sources: Seq<NmiSource>,
) -> Seq<RedirectionTableEntry> {
    spec_apply_nmi_sources(
        spec_apply_overrides(
            Seq::new(entries as nat, |pin: int| spec_default_entry(pin, bsp_apic_id)),
            interrupt_source_overrides,
        ),
        nmi_sources,
    )
}

/// Whether a table of `entries` pins can be made: the IO APIC has from 24 to
/// 64 pins, the processor's id fits in 4 bits, every overridden interrupt has
/// a vector of the IO APIC, and every pin named is one of the table.
pub open spec fn spec_valid_redirection(
    entries: u32,
    bsp_apic_id: u32,
    interrupt_source_overrides: Seq<InterruptSourceOverride>,
    nmi_sources: Seq<NmiSource>,
) -> bool {
    &&& 24 <= entries <= 64
    &&& bsp_apic_id < 16
    &&& forall|i: int|
        0 <= i < interrupt_source_overrides.len() ==> {
            &&& IO_APIC_ISA_IRQ_FIRST_IDT_VECTOR + (
            #[trigger] interrupt_source_overrides[i]).isa_source
                <= IO_APIC_ISA_IRQ_LAST_IDT_VECTOR
            &&& interrupt_source_overrides[i].isa_source < entries
            &&& interrupt_source_overrides[i].global_system_interrupt < entries
        }
    &&& forall|i: int|
        0 <= i < nmi_sources.len() ==> (#[trigger] nmi_sources[i]).global_system_interrupt
            < entries
}

/// Whether a table of `entries` pins can be made.
pub fn valid_redirection(
    entries: u32,
    bsp_apic_id: u32,
    interrupt_source_overrides: &[InterruptSourceOverride],
    nmi_sources: &[NmiSource],
) -> (valid: bool)
    ensures
        valid == spec_valid_redirection(
            entries,
            bsp_apic_id,
            interrupt_source_overrides@,
            nmi_sources@,
        ),
{
    if entries < 24 || entries > 64 || bsp_apic_id >= 16 {
        return false;
    }
    let mut i: usize = 0;
    while i < interrupt_source_overrides.len()
        invariant
            i <= interrupt_source_overrides@.len(),
            forall|k: int|
                0 <= k < i ==> {
                    &&& IO_APIC_ISA_IRQ_FIRST_IDT_VECTOR + (
                    #[trigger] interrupt_source_overrides@[k]).isa_source
                        <= IO_APIC_ISA_IRQ_LAST_IDT_VECTOR
                    &&& interrupt_source_overrides@[k].isa_source < entries
                    &&& interrupt_source_overrides@[k].global_system_interrupt < entries
                },
        decreases interrupt_source_overrides@.len() - i,
    {
        let source = interrupt_source_overrides[i];
        if source.isa_source > IO_APIC_ISA_IRQ_LAST_IDT_VECTOR - IO_APIC_ISA_IRQ_FIRST_IDT_VECTOR
            || source.isa_source as u32 >= entries || source.global_system_interrupt >= entries {
            return false;
        }
        i += 1;
    }
    let mut j: usize = 0;
    while j < nmi_sources.len()
        invariant
            j <= nmi_sources@.len(),
            forall|k: int|
                0 <= k < j ==> (#[trigger] nmi_sources@[k]).global_system_interrupt < entries,
        decreases nmi_sources@.len() - j,
    {
        if nmi_sources[j].global_system_interrupt >= entries {
            return false;
        }
        j += 1;
    }
    true
}

/// Fills the redirection table of an IO APIC with `entries` pins: every pin
/// gets the vector of the ISA interrupt of its number and is sent to the
/// processor `bsp_apic_id`, the pins of the ISA interrupts unmasked; then
/// the entries required by the interrupt source overrides and by the
/// sources of non-maskable interrupts are modified.
pub fn redirection_table(
    entries: u32,
    bsp_apic_id: u32,
    interrupt_source_overrides: &[InterruptSourceOverride],
    nmi_sources: &[NmiSource],
) -> (table: Vec<RedirectionTableEntry>)
    requires
        spec_valid_redirection(entries, bsp_apic_id, interrupt_source_overrides@, nmi_sources@),
    ensures
        table@ == spec_redirection_table(
            entries,
            bsp_apic_id,
            interrupt_source_overrides@,
            nmi_sources@,
        ),
        table@.len() == entries,
{
    let mut table: Vec<RedirectionTableEntry> = Vec::new();
    let mut pin: usize = 0;
    while pin < entries as usize
        invariant
            pin <= entries <= 64,
            table@ == Seq::new(pin as nat, |p: int| spec_default_entry(p, bsp_apic_id)),
        decreases entries - pin,
    {
        let mut entry = RedirectionTableEntry(0);
        entry.set_vector((pin + IO_APIC_ISA_IRQ_FIRST_IDT_VECTOR as usize) as u64);
        entry.set_delivery_mode(0);  // Fixed
        entry.set_interrupt_input_pin_polarity(false);  // High Active by default
        entry.set_trigger_mode(false);  // Edge-triggered by default
        entry.set_interrupt_mask(true);  // Masked
        entry.set_destination_field(bsp_apic_id as u64);
        // Unmask ISA IRQ's
        entry.set_interrupt_mask(pin >= ISA_IRQS);
        table.push(entry);
        pin += 1;
        assert(table@ =~= Seq::new(pin as nat, |p: int| spec_default_entry(p, bsp_apic_id)));
    }
    let ghost initial = table@;
    // Modify the entries required by Interrupt Source Override table
    let mut i: usize = 0;
    while i < interrupt_source_overrides.len()
        invariant
            i <= interrupt_source_overrides@.len(),
            table@.len() == entries,
            spec_valid_redirection(entries, bsp_apic_id, interrupt_source_overrides@, nmi_sources@),
            table@ == spec_apply_overrides(initial, interrupt_source_overrides@.take(i as int)),
        decreases interrupt_source_overrides@.len() - i,
    {
        let source = interrupt_source_overrides[i];
        proof {
            let next = interrupt_source_overrides@.take(i + 1);
            assert(next.drop_last() == interrupt_source_overrides@.take(i as int));
            assert(next.last() == interrupt_source_overrides@[i as int]);
        }
        let isa_irq = source.isa_source as usize;
        let global_system_interrupt = source.global_system_interrupt as usize;
        let vector = IO_APIC_ISA_IRQ_FIRST_IDT_VECTOR + source.isa_source;
        // Set vector of IRQ for IO APIC pin
        let mut entry = table[global_system_interrupt];
        entry.set_vector(vector as u64);
        table.set(global_system_interrupt, entry);
        // Mask unused IO APIC pin
        let mut unused = table[isa_irq];
        unused.set_interrupt_mask(true);
        table.set(isa_irq, unused);
        // Unmask used IO APIC pin (he could be masked if he himself had been reassigned earlier)
        let mut used = table[global_system_interrupt];
        used.set_interrupt_mask(false);
        // Set Pin Polarity and Trigger Mode
        set_acpi_lib_pin_polarity_and_trigger_mode(source.polarity, source.trigger_mode, &mut used);
        table.set(global_system_interrupt, used);
        i += 1;
    }
    proof {
        assert(interrupt_source_overrides@.take(i as int) == interrupt_source_overrides@);
    }
    let ghost overridden = table@;
    // Set NMI sources
    let mut j: usize = 0;
    while j < nmi_sources.len()
        invariant
            j <= nmi_sources@.len(),
            table@.len() == entries,
            spec_valid_redirection(entries, bsp_apic_id, interrupt_source_overrides@, nmi_sources@),
            table@ == spec_apply_nmi_sources(overridden, nmi_sources@.take(j as int)),
        decreases nmi_sources@.len() - j,
    {
        let source = nmi_sources[j];
        proof {
            let next = nmi_sources@.take(j + 1);
            assert(next.drop_last() == nmi_sources@.take(j as int));
            assert(next.last() == nmi_sources@[j as int]);
        }
        let pin = source.global_system_interrupt as usize;
        let mut entry = table[pin];
        // Unmask
        entry.set_interrupt_mask(false);
        // Delivery Mode: NMI (vector ignored)
        entry.set_delivery_mode(0b100);
        // Must be edge triggered
        set_acpi_lib_pin_polarity_and_trigger_mode(source.polarity, TriggerMode::Edge, &mut entry);
        table.set(pin, entry);
        j += 1;
    }
    proof {
        assert(nmi_sources@.take(j as int) == nmi_sources@);
    }
    table
}

/// What is written to the IO APIC for an entry of the redirection table: the
/// low half of the entry to the register `0x10 + 2 * index`, the high half
/// to the register after it.
pub open spec fn spec_redirection_table_writes(
    index: u8,
    redirection_table_entry: RedirectionTableEntry,
) -> [(u8, u32); 2] {
    [
        ((0x10 + 2 * index) as u8, (redirection_table_entry.0 & 0xFFFF_FFFF) as u32),
        ((0x11 + 2 * index) as u8, (redirection_table_entry.0 >> 32) as u32),
    ]
}

/// The two register writes, each as the register's offset and the value, that
/// put `redirection_table_entry` in place `index` of the table.
pub fn write_ioapic_redirection_table_entry(
    index: u8,
    redirection_table_entry: &RedirectionTableEntry,
) -> (writes: [(u8, u32); 2])
    requires
        index < 64,
    ensures
        writes == spec_redirection_table_writes(index, *redirection_table_entry),
{
    let offset_low = 0x10 + 2 * index;
    let offset_high = offset_low + 1;
    let bits = redirection_table_entry.0;
    assert(bits >> 32 <= 0xFFFF_FFFF) by (bit_vector);
    assert(bits & 0xFFFF_FFFF <= 0xFFFF_FFFF) by (bit_vector);
    let low = (bits & 0xFFFF_FFFF) as u32;
    let high = (bits >> 32) as u32;
    [(offset_low, low), (offset_high, high)]
}

} // verus!
