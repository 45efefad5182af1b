//! High Precision Event Timer: what its registers say, its period and
//! frequency as fixed-point numbers, and the conversion between ticks and
//! nanoseconds.

use crate::memory_management::virtual_memory_manager::{
    phys_addr_to_cpmm_virt_addr, spec_phys_to_virt, MAX_MAPPED_PHYS_ADDR,
};
use fixed::types::extra::U12;
use fixed::FixedU64;
use vstd::prelude::*;

verus! {

/// Femtoseconds in a second.
pub const FEMTOSECONDS_IN_SECOND: u64 = 1_000_000_000_000_000;

/// The longest period that a timer may have, in femtoseconds: 100 ns.
pub const MAX_COUNTER_CLOCK_PERIOD: u64 = 0x05F5E100;

/// The least number that the conversion to fixed point does not take.
pub const FIXED_INTEGER_LIMIT: u64 = 0x10_0000_0000_0000;

/// An unsigned number with 52 integer and 12 fractional bits: it stands for
/// `bits / 4096`.
#[derive(Debug, Clone, Copy, PartialEq, Eq, Structural)]
pub struct FixedU64F12 {
    /// The number, multiplied by 4096.
    pub bits: u64,
}

/// `FixedU64::<U12>::from_num` on an integer: the fixed-point number equal to
/// `n`, which has the bits `n * 4096`. The outside function may panic on a
/// number that needs more than 52 bits.
#[verifier::external_body]
fn fixed_from_num(n: u64) -> (bits: u64)
    requires
        n < FIXED_INTEGER_LIMIT,
    ensures
        bits == n * 4096,
{
    FixedU64::<U12>::from_num(n).to_bits()
}

/// Division of a `FixedU64<U12>` by an integer: divides the bits and rounds
/// down. The outside function panics on a divisor of 0.
#[verifier::external_body]
fn fixed_div_int(bits: u64, divisor: u64) -> (quotient: u64)
    requires
        divisor != 0,
    ensures
        quotient == bits / divisor,
{
    (FixedU64::<U12>::from_bits(bits) / divisor).to_bits()
}

/// Multiplication of an integer by a `FixedU64<U12>`: multiplies the bits.
/// The outside function may panic on a product that does not fit in 64 bits.
#[verifier::external_body]
fn int_mul_fixed(factor: u64, bits: u64) -> (product: u64)
    requires
        factor * bits <= u64::MAX,
    ensures
        product == factor * bits,
{
    (factor * FixedU64::<U12>::from_bits(bits)).to_bits()
}

/// Division of a `FixedU64<U12>` by another: the bits of the first, shifted
/// left by 12, divided by the bits of the second, rounded down. The outside
/// function panics on a divisor of 0 and may panic on a quotient that does
/// not fit in 64 bits.
#[verifier::external_body]
fn fixed_div(bits: u64, divisor_bits: u64) -> (quotient: u64)
    requires
        divisor_bits != 0,
        (bits * 4096) / (divisor_bits as int) <= u64::MAX,
    ensures
        quotient == (bits * 4096) / (divisor_bits as int),
{
    (FixedU64::<U12>::from_bits(bits) / FixedU64::<U12>::from_bits(divisor_bits)).to_bits()
}

/// `FixedU64::<U12>::to_num` to an integer: the number without its fractional
/// bits.
#[verifier::external_body]
fn fixed_to_num(bits: u64) -> (n: u64)
    ensures
        n == bits / 4096,
{
    FixedU64::<U12>::from_bits(bits).to_num::<u64>()
}

/// The period of the main counter in femtoseconds: bits 32 to 63 of the
/// General Capabilities And ID Register.
pub open spec fn spec_counter_clock_period(register_value: u64) -> u64 {
    register_value >> 32
}

/// Whether the main counter has 64 bits: bit 13 of the register.
pub open spec fn spec_count_size_cap(register_value: u64) -> bool {
    (register_value >> 13) & 1 == 1
}

/// The number of the last comparator: bits 8 to 12 of the register.
pub open spec fn spec_number_timers_cap(register_value: u64) -> u64 {
    (register_value >> 8) & 0x1F
}

/// Whether a timer with this General Capabilities And ID Register can be
/// used: its period is at most 100 ns and long enough to be told from the
/// least fixed-point number of nanoseconds, its main counter has 64 bits, and
/// it has at least 3 comparators.
pub open spec fn spec_capabilities_supported(register_value: u64) -> bool {
    &&& spec_counter_clock_period(register_value) <= MAX_COUNTER_CLOCK_PERIOD
    &&& spec_counter_clock_period(register_value) * 4096 / 1_000_000 > 1
    &&& spec_count_size_cap(register_value)
    &&& spec_number_timers_cap(register_value) + 1 >= 3
}

/// The period of the main counter in femtoseconds.
pub fn counter_clock_period(register_value: u64) -> (period: u64)
    ensures
        period == spec_counter_clock_period(register_value),
        period <= 0xFFFF_FFFF,
{
    assert(register_value >> 32 <= 0xFFFF_FFFF) by (bit_vector);
    register_value >> 32
}

/// Whether the main counter has 64 bits.
pub fn count_size_cap(register_value: u64) -> (yes: bool)
    ensures
        yes == spec_count_size_cap(register_value),
{
    (register_value >> 13) & 1 == 1
}

/// The number of the last comparator.
pub fn number_timers_cap(register_value: u64) -> (last: u64)
    ensures
        last == spec_number_timers_cap(register_value),
        last <= 31,
{
    assert((register_value >> 8) & 0x1F <= 31) by (bit_vector);
    (register_value >> 8) & 0x1F
}

/// Whether a timer with this General Capabilities And ID Register can be
/// used.
pub fn capabilities_supported(register_value: u64) -> (supported: bool)
    ensures
        supported == spec_capabilities_supported(register_value),
{
    let period = counter_clock_period(register_value);
    period <= MAX_COUNTER_CLOCK_PERIOD && period * 4096 / 1_000_000 > 1 && count_size_cap(
        register_value,
    ) && number_timers_cap(register_value) + 1 >= 3
}

/// HPET control structure
#[derive(Debug, Clone, Copy, PartialEq, Eq, Structural)]
pub struct HPETTimer {
    /// Address of the registers in the complete physical memory mapping.
    pub base_address: u64,
    /// Period in femtoseconds (femtoseconds per tick)
    pub period_in_femtoseconds: FixedU64F12,
    /// Period in nanoseconds (nanoseconds per tick)
    pub period_in_nanoseconds: FixedU64F12,
    /// Ticks per second.
    pub frequency: FixedU64F12,
}

/// Whether HPET was detected.
pub fn is_supported(timer: &Option<HPETTimer>) -> (supported: bool)
    ensures
        supported == timer is Some,
{
    timer.is_some()
}

/// The General Configuration Register with ENABLE_CNF, its bit 0, set.
pub open spec fn spec_run(register_value: u64) -> u64 {
    register_value | 1
}

/// The General Configuration Register with ENABLE_CNF, its bit 0, cleared.
pub open spec fn spec_halt(register_value: u64) -> u64 {
    register_value & !1u64
}

/// Runs main counter and timer interrupts are allowed if enabled
///
/// Returns what to write to the General Configuration Register, given what
/// it holds: the same with ENABLE_CNF = 1
pub fn run(register_value: u64) -> (new_value: u64)
    ensures
        new_value == spec_run(register_value),
{
    register_value | 1
}

/// Halts main counter and disables interrupts
///
/// Returns what to write to the General Configuration Register, given what
/// it holds: the same with ENABLE_CNF = 0
pub fn halt(register_value: u64) -> (new_value: u64)
    ensures
        new_value == spec_halt(register_value),
{
    register_value & !1u64
}

/// Running and halting change ENABLE_CNF and no other bit, and each undoes
/// the other on that bit.
pub proof fn lemma_run_halt(register_value: u64)
    ensures
        spec_run(register_value) & 1 == 1,
        spec_halt(register_value) & 1 == 0,
        spec_run(register_value) & !1u64 == register_value & !1u64,
        spec_halt(register_value) & !1u64 == register_value & !1u64,
        spec_halt(spec_run(register_value)) == spec_halt(register_value),
        spec_run(spec_halt(register_value)) == spec_run(register_value),
{
    assert((register_value | 1) & 1 == 1) by (bit_vector);
    assert((register_value & !1u64) & 1 == 0) by (bit_vector);
    assert((register_value | 1) & !1u64 == register_value & !1u64) by (bit_vector);
    assert((register_value & !1u64) & !1u64 == register_value & !1u64) by (bit_vector);
    assert((register_value & !1u64) | 1 == register_value | 1) by (bit_vector);
}

impl HPETTimer {
    /// The period is set, is at most 100 ns, and the other numbers follow
    /// from it.
    pub open spec fn wf(&self) -> bool {
        &&& 4096 <= self.period_in_femtoseconds.bits <= MAX_COUNTER_CLOCK_PERIOD * 4096
        &&& self.period_in_femtoseconds.bits % 4096 == 0
        &&& self.period_in_nanoseconds.bits == self.period_in_femtoseconds.bits / 1_000_000
        &&& self.period_in_nanoseconds.bits > 1
        &&& self.frequency.bits == FEMTOSECONDS_IN_SECOND * 4096 / (
        self.period_in_femtoseconds.bits as int / 4096)
    }

    /// Creates HPET timer, checks cap's
    ///
    /// `base_phys_address` is the physical address of the registers and
    /// `register_value` what the General Capabilities And ID Register holds.
    pub fn new(base_phys_address: u64, register_value: u64) -> (timer: Self)
        requires
            base_phys_address <= MAX_MAPPED_PHYS_ADDR,
            spec_capabilities_supported(register_value),
        ensures
            timer.wf(),
            timer.base_address == spec_phys_to_virt(base_phys_address),
            timer.period_in_femtoseconds.bits == spec_counter_clock_period(register_value) * 4096,
    {
        // Get base address
        let base_address = phys_addr_to_cpmm_virt_addr(base_phys_address);
        let counter_clock_period = counter_clock_period(register_value);
        // Calculate frequency (Min: 10 MHz) using counter clock period (in femtoseconds)
        // f = 10^15 / period
        let femtoseconds_in_second = fixed_from_num(FEMTOSECONDS_IN_SECOND);
        let period_in_femtoseconds = fixed_from_num(counter_clock_period);
        let frequency = fixed_div_int(femtoseconds_in_second, counter_clock_period);
        // For Duration calculation
        let period_in_nanoseconds = fixed_div_int(period_in_femtoseconds, 1_000_000);
        HPETTimer {
            base_address,
            period_in_femtoseconds: FixedU64F12 { bits: period_in_femtoseconds },
            period_in_nanoseconds: FixedU64F12 { bits: period_in_nanoseconds },
            frequency: FixedU64F12 { bits: frequency },
        }
    }

    /// Nanoseconds that `ticks` ticks take, rounded down.
    pub open spec fn spec_ticks_to_nanoseconds(&self, ticks: u64) -> int {
        ticks * self.period_in_nanoseconds.bits / 4096
    }

    /// The fixed-point quotient of `nanoseconds` and the period, as bits.
    pub open spec fn spec_nanoseconds_by_period(&self, nanoseconds: u64) -> int {
        nanoseconds * 4096 * 4096 / (self.period_in_nanoseconds.bits as int)
    }

    /// Ticks that `nanoseconds` take, rounded down.
    pub open spec fn spec_nanoseconds_to_ticks(&self, nanoseconds: u64) -> int {
        self.spec_nanoseconds_by_period(nanoseconds) / 4096
    }

    /// Whether `ticks` can be converted: their product with the bits of the
    /// period fits in 64 bits.
    pub fn can_convert_ticks(&self, ticks: u64) -> (yes: bool)
        ensures
            yes == (ticks * self.period_in_nanoseconds.bits <= u64::MAX),
    {
        ticks.checked_mul(self.period_in_nanoseconds.bits).is_some()
    }

    /// The nanoseconds that `ticks` ticks of the main counter take.
    pub fn ticks_to_duration(&self, ticks: u64) -> (nanoseconds: u64)
        requires
            ticks * self.period_in_nanoseconds.bits <= u64::MAX,
        ensures
            nanoseconds == self.spec_ticks_to_nanoseconds(ticks),
    {
        // 1 tick = n nanoseconds
        let nanoseconds_per_tick = self.period_in_nanoseconds.bits;
        fixed_to_num(int_mul_fixed(ticks, nanoseconds_per_tick))
    }

    /// Whether `nanoseconds` can be converted: they fit in a fixed-point
    /// number, and so does their quotient by the period.
    pub open spec fn spec_can_convert_nanoseconds(&self, nanoseconds: u64) -> bool {
        &&& nanoseconds < FIXED_INTEGER_LIMIT
        &&& self.spec_nanoseconds_by_period(nanoseconds) <= u64::MAX
    }

    /// Whether `nanoseconds` can be converted.
    pub fn can_convert_nanoseconds(&self, nanoseconds: u64) -> (yes: bool)
        requires
            self.wf(),
        ensures
            yes == self.spec_can_convert_nanoseconds(nanoseconds),
    {
        if nanoseconds >= FIXED_INTEGER_LIMIT {
            return false;
        }
        let wide: u128 = nanoseconds as u128 * 0x100_0000;
        assert(wide == nanoseconds * 4096 * 4096);
        wide / (self.period_in_nanoseconds.bits as u128) <= 0xFFFF_FFFF_FFFF_FFFF
    }

    /// The ticks of the main counter that `nanoseconds` take.
    pub fn duration_to_ticks(&self, nanoseconds: u64) -> (ticks: u64)
        requires
            self.wf(),
            self.spec_can_convert_nanoseconds(nanoseconds),
        ensures
            ticks == self.spec_nanoseconds_to_ticks(nanoseconds),
    {
        // 1 tick = n nanoseconds
        let nanoseconds_per_tick = self.period_in_nanoseconds.bits;
        let nanoseconds_bits = fixed_from_num(nanoseconds);
        assert(nanoseconds_bits * 4096 == nanoseconds * 4096 * 4096);
        fixed_to_num(fixed_div(nanoseconds_bits, nanoseconds_per_tick))
    }

    /// The value of the main counter that ends a sleep of `nanoseconds` that
    /// starts at `start_tick_value`.
    pub open spec fn spec_sleep_end(&self, start_tick_value: u64, nanoseconds: u64) -> int {
        start_tick_value + self.spec_nanoseconds_to_ticks(nanoseconds)
    }

    /// Returns the value of the main counter that ends a sleep of
    /// `nanoseconds` that starts at `start_tick_value`: the sleep is over
    /// once the main counter has reached it.
    pub fn sleep(&self, start_tick_value: u64, nanoseconds: u64) -> (end_tick_value: u64)
        requires
            self.wf(),
            self.spec_can_convert_nanoseconds(nanoseconds),
            self.spec_sleep_end(start_tick_value, nanoseconds) <= u64::MAX,
        ensures
            end_tick_value == self.spec_sleep_end(start_tick_value, nanoseconds),
    {
        let wait_ticks = self.duration_to_ticks(nanoseconds);
        start_tick_value + wait_ticks
    }
}

} // verus!
