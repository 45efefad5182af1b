//! What is computed for the interrupt controllers: which interrupt a vector
//! stands for, and what the registers of the local and the IO APIC hold.

pub mod apic;
pub mod idt;
