//! Local APIC: what its local vector table and its spurious interrupt vector
//! register are filled with.

pub mod ioapic;
pub mod timer;

use super::idt::{
    LOCAL_APIC_ERROR_IDT_VECTOR, LOCAL_APIC_LINT0_IDT_VECTOR, LOCAL_APIC_LINT1_IDT_VECTOR,
    LOCAL_APIC_SPURIOUS_IDT_VECTOR, LOCAL_APIC_TIMER_IDT_VECTOR,
};
use vstd::prelude::*;

verus! {

/// By default, local APIC base, APIC registers are placed on this physical page
pub const BASE_PHYS_ADDR: u64 = 0xFEE00000;

/// Delivery mode of a non-maskable interrupt.
pub const DELIVERY_MODE_NMI: u32 = 0b100;

/// Defined in Local APIC Version Register
#[derive(Debug, Clone, Copy, PartialEq, Eq, Structural)]
pub enum LocalApicVersion {
    /// 82489DX discrete APIC.
    Descrete,
    /// Integrated APIC.
    Integrated,
}

/// A local interrupt pin of a processor.
#[derive(Debug, Clone, Copy, PartialEq, Eq, Structural)]
pub enum LocalInterruptLine {
    /// Pin LINT0.
    Lint0,
    /// Pin LINT1.
    Lint1,
}

/// The processors that a non-maskable interrupt line is wired to.
#[derive(Debug, Clone, Copy, PartialEq, Eq, Structural)]
pub enum NmiProcessor {
    /// Every processor.
    All,
    /// The processor with this UID.
    ProcessorUid(u32),
}

/// A local interrupt pin that the platform uses for non-maskable interrupts.
#[derive(Debug, Clone, Copy, PartialEq, Eq, Structural)]
pub struct NmiLine {
    /// The processors that the line is wired to.
    pub processor: NmiProcessor,
    /// The pin that it is wired to.
    pub line: LocalInterruptLine,
}

/// The version of the local APIC that the Local APIC Version Register tells
/// in its bits 0 to 7: 0 for the discrete one, 0x10 to 0x15 for the
/// integrated one; other values are reserved.
pub open spec fn spec_local_apic_version(register_value: u32) -> Option<LocalApicVersion> {
    let version = register_value & 0xFF;
    if version == 0 {
        Some(LocalApicVersion::Descrete)
    } else if 0x10 <= version <= 0x15 {
        Some(LocalApicVersion::Integrated)
    } else {
        None
    }
}

/// The version of the local APIC from the Local APIC Version Register, or
/// `None` for a reserved value.
pub fn local_apic_version(register_value: u32) -> (version: Option<LocalApicVersion>)
    ensures
        version == spec_local_apic_version(register_value),
{
    let version = register_value & 0xFF;
    if version == 0 {
        Some(LocalApicVersion::Descrete)
    } else if 0x10 <= version && version <= 0x15 {
        Some(LocalApicVersion::Integrated)
    } else {
        None
    }
}

/// A register of the local vector table.
///
/// Vector 0-7, delivery mode 8-10, delivery status 12, interrupt input pin
/// polarity 13, remote IRR 14, trigger mode 15, mask 16, timer mode 17-18.
#[derive(Debug, Clone, Copy, PartialEq, Eq, Structural)]
pub struct LvtRegister(pub u32);

impl LvtRegister {
    /// The register with `vector` in bits 0 to 7.
    pub open spec fn spec_set_vector(self, vector: u32) -> LvtRegister {
        LvtRegister((self.0 & !0xFFu32) | (vector & 0xFF))
    }

    /// The register with `delivery_mode` in bits 8 to 10.
    pub open spec fn spec_set_delivery_mode(self, delivery_mode: u32) -> LvtRegister {
        LvtRegister((self.0 & !0x700u32) | ((delivery_mode & 0x7) << 8))
    }

    /// Puts `vector` in bits 0 to 7.
    pub fn set_vector(&mut self, vector: u32)
        ensures
            *final(self) == old(self).spec_set_vector(vector),
    {
        self.0 = (self.0 & !0xFFu32) | (vector & 0xFF);
    }

    /// Puts `delivery_mode` in bits 8 to 10.
    pub fn set_delivery_mode(&mut self, delivery_mode: u32)
        ensures
            *final(self) == old(self).spec_set_delivery_mode(delivery_mode),
    {
        self.0 = (self.0 & !0x700u32) | ((delivery_mode & 0x7) << 8);
    }

    /// Bits 0 to 7.
    pub fn vector(&self) -> (vector: u32)
        ensures
            vector == self.0 & 0xFF,
    {
        self.0 & 0xFF
    }

    /// Bits 8 to 10.
    pub fn delivery_mode(&self) -> (delivery_mode: u32)
        ensures
            delivery_mode == (self.0 >> 8) & 0x7,
    {
        (self.0 >> 8) & 0x7
    }
}

/// Whether `nmi_line` makes the pin `local_interrupt_line` of the processor
/// `processor_uid` deliver non-maskable interrupts.
pub open spec fn spec_is_nmi_of(
    nmi_line: NmiLine,
    local_interrupt_line: LocalInterruptLine,
    processor_uid: u32,
) -> bool {
    &&& nmi_line.line == local_interrupt_line
    &&& match nmi_line.processor {
        NmiProcessor::All => true,
        NmiProcessor::ProcessorUid(uid) => uid == processor_uid,
    }
}

/// Whether some line of `nmi_lines` makes the pin deliver non-maskable
/// interrupts.
pub open spec fn spec_needs_nmi(
    nmi_lines: Seq<NmiLine>,
    local_interrupt_line: LocalInterruptLine,
    processor_uid: u32,
) -> bool {
    exists|i: int|
        0 <= i < nmi_lines.len() && spec_is_nmi_of(
            #[trigger] nmi_lines[i],
            local_interrupt_line,
            processor_uid,
        )
}

/// Sets NMI delivery mode for LINT# if it's required by ACPI table
pub fn set_nmi_if_needed(
    lvt_register: &mut LvtRegister,
    local_interrupt_line: LocalInterruptLine,
    processor_uid: u32,
    nmi_lines: &[NmiLine],
)
    ensures
        *final(lvt_register) == if spec_needs_nmi(
            nmi_lines@,
            local_interrupt_line,
            processor_uid,
        ) {
            old(lvt_register).spec_set_delivery_mode(DELIVERY_MODE_NMI)
        } else {
            *old(lvt_register)
        },
{
    let mut needed = false;
    let mut i: usize = 0;
    while i < nmi_lines.len()
        invariant
            i <= nmi_lines@.len(),
            needed == spec_needs_nmi(nmi_lines@.take(i as int), local_interrupt_line, processor_uid),
        decreases nmi_lines@.len() - i,
    {
        let nmi_line = nmi_lines[i];
        let same_line = match (nmi_line.line, local_interrupt_line) {
            (LocalInterruptLine::Lint0, LocalInterruptLine::Lint0) => true,
            (LocalInterruptLine::Lint1, LocalInterruptLine::Lint1) => true,
            _ => false,
        };
        let need_set_nmi = same_line && match nmi_line.processor {
            NmiProcessor::All => true,
            NmiProcessor::ProcessorUid(uid) => uid == processor_uid,
        };
        proof {
            let before = nmi_lines@.take(i as int);
            let after = nmi_lines@.take(i + 1);
            assert(after[i as int] == nmi_lines@[i as int]);
            assert(need_set_nmi == spec_is_nmi_of(after[i as int], local_interrupt_line, processor_uid));
            if spec_needs_nmi(before, local_interrupt_line, processor_uid) {
                let k = choose|k: int|
                    0 <= k < before.len() && spec_is_nmi_of(
                        #[trigger] before[k],
                        local_interrupt_line,
                        processor_uid,
                    );
                assert(after[k] == before[k]);
            }
            if spec_needs_nmi(after, local_interrupt_line, processor_uid) && !need_set_nmi {
                let k = choose|k: int|
                    0 <= k < after.len() && spec_is_nmi_of(
                        #[trigger] after[k],
                        local_interrupt_line,
                        processor_uid,
                    );
                assert(before[k] == after[k]);
            }
        }
        if need_set_nmi {
            needed = true;
        }
        i += 1;
    }
    proof {
        assert(nmi_lines@.take(i as int) == nmi_lines@);
    }
    if needed {
        // Delivery mode: NMI
        lvt_register.set_delivery_mode(DELIVERY_MODE_NMI);
    }
}

/// What a register of the local vector table holds for a pin: the vector,
/// unmasked, with fixed delivery, or with NMI delivery where the platform
/// asks for it.
pub open spec fn spec_lvt_lint(
    vector: u8,
    local_interrupt_line: LocalInterruptLine,
    processor_uid: u32,
    nmi_lines: Seq<NmiLine>,
) -> u32 {
    if spec_needs_nmi(nmi_lines, local_interrupt_line, processor_uid) {
        LvtRegister(0).spec_set_vector(vector as u32).spec_set_delivery_mode(DELIVERY_MODE_NMI).0
    } else {
        LvtRegister(0).spec_set_vector(vector as u32).0
    }
}

/// Set and unmasks APIC Timer interrupt vector <br>
/// Vector               0-7     = IDT vector <br>
/// Mask                 16      = 0 - Unmasked <br>
/// Timer Periodic Mode  17-18   = 00 - Fired only once <br>
pub fn fill_lvt_timer_register() -> (register_value: u32)
    ensures
        register_value == 48,
{
    let mut register_value = LvtRegister(0);
    register_value.set_vector(LOCAL_APIC_TIMER_IDT_VECTOR as u32);
    assert((0u32 & !0xFFu32) | (48u32 & 0xFF) == 48) by (bit_vector);
    register_value.0
}

/// Set and unmasks APIC LINT0 interrupt vector <br>
/// Vector                           0-7 = IDT vector <br>
/// Delivery Mode                    8-10 = 000 - Fixed, or 100 - NMI <br>
/// Interrupt Input Pin Polarity     13 = 0 - High <br>
/// Trigger Mode                     15 = 0 - Edge Triggered <br>
/// Mask                             16 = 0 - Unmasked <br>
pub fn fill_lvt_lint0_register(processor_uid: u32, nmi_lines: &[NmiLine]) -> (register_value: u32)
    ensures
        register_value == spec_lvt_lint(
            LOCAL_APIC_LINT0_IDT_VECTOR,
            LocalInterruptLine::Lint0,
            processor_uid,
            nmi_lines@,
        ),
{
    let mut register_value = LvtRegister(0);
    register_value.set_vector(LOCAL_APIC_LINT0_IDT_VECTOR as u32);
    set_nmi_if_needed(&mut register_value, LocalInterruptLine::Lint0, processor_uid, nmi_lines);
    register_value.0
}

/// Set and unmasks APIC LINT1 interrupt vector <br>
/// Vector                           0-7 = IDT vector <br>
/// Delivery Mode                    8-10 = 000 - Fixed, or 100 - NMI <br>
/// Interrupt Input Pin Polarity     13 = 0 - High <br>
/// Trigger Mode                     15 = 0 - Always Edge Triggered <br>
/// Mask                             16 = 0 - Unmasked <br>
pub fn fill_lvt_lint1_register(processor_uid: u32, nmi_lines: &[NmiLine]) -> (register_value: u32)
    ensures
        register_value == spec_lvt_lint(
            LOCAL_APIC_LINT1_IDT_VECTOR,
            LocalInterruptLine::Lint1,
            processor_uid,
            nmi_lines@,
        ),
{
    let mut register_value = LvtRegister(0);
    register_value.set_vector(LOCAL_APIC_LINT1_IDT_VECTOR as u32);
    set_nmi_if_needed(&mut register_value, LocalInterruptLine::Lint1, processor_uid, nmi_lines);
    register_value.0
}

/// Set and unmasks APIC Error interrupt vector <br>
/// Vector                           0-7 = IDT vector <br>
/// Mask                             16 = 0 - Unmasked <br>
pub fn fill_lvt_error_register() -> (register_value: u32)
    ensures
        register_value == 51,
{
    let mut register_value = LvtRegister(0);
    register_value.set_vector(LOCAL_APIC_ERROR_IDT_VECTOR as u32);
    assert((0u32 & !0xFFu32) | (51u32 & 0xFF) == 51) by (bit_vector);
    register_value.0
}

/// Sets spurious interrupt vector interrupts, enables APIC interrupts (Enabled by Default) <br>
/// Vector                           0-7 = IDT vector (0-3 always 1111) <br>
/// APIC Software Enable             8 = 1 Enabled <br>
/// Focus Processing Checking        9 = 0 Disabled <br>
/// EOI-Broadcast Suppression        12 = 0 Disabled <br>
pub fn fill_spurious_interrupt_vector_register() -> (register_value: u32)
    ensures
        register_value == 0x1FF,
{
    let mut register_value: u32 = 0;
    register_value |= LOCAL_APIC_SPURIOUS_IDT_VECTOR as u32;
    // Set 8 bit
    register_value |= 1 << 8;
    assert((0u32 | 255u32) | (1u32 << 8) == 0x1FF) by (bit_vector);
    register_value
}

/// The values of the local vector table: a pin without a matching line
/// delivers its vector, a pin with one delivers non-maskable interrupts.
pub proof fn lemma_lvt_lint_values(
    vector: u8,
    local_interrupt_line: LocalInterruptLine,
    processor_uid: u32,
    nmi_lines: Seq<NmiLine>,
)
    ensures
        spec_lvt_lint(vector, local_interrupt_line, processor_uid, nmi_lines) == if spec_needs_nmi(
            nmi_lines,
            local_interrupt_line,
            processor_uid,
        ) {
            vector as int + 0x400
        } else {
            vector as int
        },
{
    let v = vector as u32;
    assert((0u32 & !0xFFu32) | (v & 0xFF) == v) by (bit_vector)
        requires
            v <= 255,
    ;
    assert((v & !0x700u32) | ((0b100u32 & 0x7) << 8) == v + 0x400) by (bit_vector)
        requires
            v <= 255,
    ;
}

} // verus!
