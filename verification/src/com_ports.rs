//! COM ports: what their registers are set to.

use vstd::prelude::*;

verus! {

/// Base I/O port of COM1.
pub const COM1_BASE: u16 = 0x3F8;

/// Offset of the Interrupt Enable Register from the base port.
pub const INTERRUPT_ENABLE_REGISTER: u16 = 1;

/// Offset of the Line Control Register from the base port.
pub const LINE_CONTROL_REGISTER: u16 = 3;

/// The Line Control Register with DLAB, its most significant bit, cleared.
pub open spec fn spec_disable_dlab(line_control_register_value: u8) -> u8 {
    line_control_register_value & 0b0111_1111u8
}

/// What to write to the Line Control Register, given what it holds, so that
/// the divisor latch is closed and the Interrupt Enable Register can be
/// reached: the same with DLAB cleared.
pub fn disable_dlab(line_control_register_value: u8) -> (new_value: u8)
    ensures
        new_value == spec_disable_dlab(line_control_register_value),
        new_value < 128,
        new_value == line_control_register_value % 128,
{
    assert(line_control_register_value & 0b0111_1111u8 == line_control_register_value % 128)
        by (bit_vector);
    line_control_register_value & 0b0111_1111u8
}

} // verus!
