//! Memory-management core of an x86_64 kernel: page arithmetic, the usable
//! region lists and their partition into zones, the bootstrap of the zone
//! allocators, and the facades of the physical, slab and general-purpose
//! allocators, together with what the timers, the interrupt controllers and
//! the serial port compute.
//!
//! Nothing here touches the hardware: registers, ports and raw memory are
//! read and written by the kernel around this library, which hands over
//! plain values and gets plain values back. The allocators that manage the
//! memory of a zone and the heap are handed in as functions.

pub mod acpi;
pub mod com_ports;
pub mod interrupts;
pub mod memory_management;
pub mod serial_debug;
pub mod timers;
