//! The vectors of the interrupt descriptor table and what is done on each.

use vstd::prelude::*;

verus! {

/// Last vector of the CPU exceptions, which start at 0.
pub const CPU_EXCEPTIONS_LAST_IDT_VECTOR: u8 = 31;

/// First vector of the interrupts that come through the IO APIC.
pub const IO_APIC_ISA_IRQ_FIRST_IDT_VECTOR: u8 = 32;

/// Last vector of the interrupts that come through the IO APIC.
pub const IO_APIC_ISA_IRQ_LAST_IDT_VECTOR: u8 = 57;

/// Vector of the Local APIC Timer.
pub const LOCAL_APIC_TIMER_IDT_VECTOR: u8 = 48;

/// Vector of Local APIC LINT0.
pub const LOCAL_APIC_LINT0_IDT_VECTOR: u8 = 49;

/// Vector of Local APIC LINT1.
pub const LOCAL_APIC_LINT1_IDT_VECTOR: u8 = 50;

/// Vector of the Local APIC Error interrupt.
pub const LOCAL_APIC_ERROR_IDT_VECTOR: u8 = 51;

/// Vector of the Local APIC Spurious-Interrupt.
pub const LOCAL_APIC_SPURIOUS_IDT_VECTOR: u8 = 255;

/// Vector of the page fault.
pub const PAGE_FAULT_IDT_VECTOR: u8 = 14;

/// Vector of the interval timer.
pub const PIT_IDT_VECTOR: u8 = 32;

/// What the general handler does on an interrupt.
#[derive(Debug, Clone, Copy, PartialEq, Eq, Structural)]
pub enum InterruptAction {
    /// A CPU exception: the kernel stops, and reports the faulting address
    /// for a page fault.
    CpuException {
        /// Whether the exception is a page fault.
        page_fault: bool,
    },
    /// An interrupt that came through the IO APIC: the interval timer counts
    /// a tick where it is its interrupt, and the end of the interrupt is
    /// signalled.
    IoApicIsaIrq {
        /// Whether the interrupt is the one of the interval timer.
        pit_tick: bool,
    },
    /// The spurious interrupt of the local APIC: nothing is done, and no end
    /// of interrupt is signalled.
    LocalApicSpurious,
    /// A vector that no interrupt is set up for.
    Unexpected,
}

/// What the general handler does on the interrupt with the vector `index`.
/// The vectors from 32 to 57 are all answered as interrupts of the IO APIC,
/// those of the local APIC timer, LINT0, LINT1 and error among them.
pub open spec fn spec_interrupt_action(index: u8) -> InterruptAction {
    if index <= CPU_EXCEPTIONS_LAST_IDT_VECTOR {
        InterruptAction::CpuException { page_fault: index == PAGE_FAULT_IDT_VECTOR }
    } else if index <= IO_APIC_ISA_IRQ_LAST_IDT_VECTOR {
        InterruptAction::IoApicIsaIrq { pit_tick: index == PIT_IDT_VECTOR }
    } else if index == LOCAL_APIC_SPURIOUS_IDT_VECTOR {
        InterruptAction::LocalApicSpurious
    } else {
        InterruptAction::Unexpected
    }
}

/// A general handler function for an interrupt or an exception with the interrupt/exception index
///
/// 0-31    CPU exceptions<br>
/// 32-57   IO APIC interrupts<br>
/// 255     Local APIC Spurious-Interrupt (handler must do nothing (and even don't send an EOI))
pub fn general_interrupt_handler(index: u8) -> (action: InterruptAction)
    ensures
        action == spec_interrupt_action(index),
{
    if index <= CPU_EXCEPTIONS_LAST_IDT_VECTOR {
        InterruptAction::CpuException { page_fault: index == PAGE_FAULT_IDT_VECTOR }
    } else if index >= IO_APIC_ISA_IRQ_FIRST_IDT_VECTOR && index
        <= IO_APIC_ISA_IRQ_LAST_IDT_VECTOR {
        InterruptAction::IoApicIsaIrq { pit_tick: index == PIT_IDT_VECTOR }
    } else if index == LOCAL_APIC_SPURIOUS_IDT_VECTOR {
        InterruptAction::LocalApicSpurious
    } else {
        InterruptAction::Unexpected
    }
}

/// Whether the end of the interrupt is signalled to the local APIC after
/// `action`.
pub fn sends_eoi(action: InterruptAction) -> (yes: bool)
    ensures
        yes == action is IoApicIsaIrq,
{
    match action {
        InterruptAction::IoApicIsaIrq { .. } => true,
        _ => false,
    }
}

} // verus!
