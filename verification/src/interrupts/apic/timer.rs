//! Local APIC Timer: its divider and the measurement of its frequency.

use vstd::prelude::*;

verus! {

/// Number of measurements that the frequency is averaged over.
pub const MEASURES: usize = 10;

/// Whether the timer can divide its frequency by `frequency_divider`: a power
/// of two from 2 to 128.
pub open spec fn spec_valid_divider(frequency_divider: u8) -> bool {
    frequency_divider == 2 || frequency_divider == 4 || frequency_divider == 8
        || frequency_divider == 16 || frequency_divider == 32 || frequency_divider == 64
        || frequency_divider == 128
}

/// What the Divide Configuration Register holds for `frequency_divider`.
pub open spec fn spec_divide_configuration(frequency_divider: u8) -> u32 {
    if frequency_divider == 2 {
        0b0000
    } else if frequency_divider == 4 {
        0b0001
    } else if frequency_divider == 8 {
        0b0010
    } else if frequency_divider == 16 {
        0b0011
    } else if frequency_divider == 32 {
        0b1000
    } else if frequency_divider == 64 {
        0b1001
    } else {
        0b1010
    }
}

/// Whether the timer can divide its frequency by `frequency_divider`.
pub fn valid_divider(frequency_divider: u8) -> (valid: bool)
    ensures
        valid == spec_valid_divider(frequency_divider),
{
    frequency_divider == 2 || frequency_divider == 4 || frequency_divider == 8
        || frequency_divider == 16 || frequency_divider == 32 || frequency_divider == 64
        || frequency_divider == 128
}

/// Sets frequency divider in Divide Configuration Register
///
/// Valid values is 2, 4, 8, 16, 32, 64, 128. Returns what to write to the
/// register.
pub fn set_divide_configuration_register(frequency_divider: u8) -> (register_value: u32)
    requires
        spec_valid_divider(frequency_divider),
    ensures
        register_value == spec_divide_configuration(frequency_divider),
{
    if frequency_divider == 2 {
        0b0000
    } else if frequency_divider == 4 {
        0b0001
    } else if frequency_divider == 8 {
        0b0010
    } else if frequency_divider == 16 {
        0b0011
    } else if frequency_divider == 32 {
        0b1000
    } else if frequency_divider == 64 {
        0b1001
    } else {
        0b1010
    }
}

/// The ticks that the timer counted down from `initial_count` to
/// `current_count`.
pub fn measured_ticks(initial_count: u32, current_count: u32) -> (ticks: u32)
    requires
        current_count <= initial_count,
    ensures
        ticks == initial_count - current_count,
{
    initial_count - current_count
}

/// The numbers of `measures`, added up.
pub open spec fn spec_sum(measures: Seq<u32>) -> int
    decreases measures.len(),
{
    if measures.len() == 0 {
        0
    } else {
        spec_sum(measures.drop_last()) + measures.last()
    }
}

/// The frequency in Hz of a timer without divider that, with the divider
/// `current_frequency_divider`, counted `ticks_measures` ticks in ten
/// measurements of 10 ms each: their average, by the divider, by 100.
pub open spec fn spec_true_frequency(ticks_measures: Seq<u32>, current_frequency_divider: u8) -> int {
    spec_sum(ticks_measures) / 10 * current_frequency_divider * 100
}

/// Determines the frequency of the Local APIC Timer<br>
/// Calculates the true frequency as if there is no divisor (1)
///
/// `ticks_measures` are the ticks counted in each of ten measurements of
/// 10 ms; current_frequency_divider may be any, the frequency will be
/// recalculated taking it into account
pub fn determine_timer_true_frequency(
    ticks_measures: &[u32; 10],
    current_frequency_divider: u8,
) -> (frequency: u64)
    ensures
        frequency == spec_true_frequency(ticks_measures@, current_frequency_divider),
{
    let mut sum: u64 = 0;
    let mut i: usize = 0;
    while i < MEASURES
        invariant
            i <= 10,
            ticks_measures@.len() == 10,
            sum == spec_sum(ticks_measures@.take(i as int)),
            sum <= i * 0xFFFF_FFFF,
        decreases 10 - i,
    {
        proof {
            let next = ticks_measures@.take(i + 1);
            assert(next.drop_last() == ticks_measures@.take(i as int));
            assert(next.last() == ticks_measures@[i as int]);
        }
        sum = sum + ticks_measures[i] as u64;
        i += 1;
    }
    proof {
        assert(ticks_measures@.take(10) == ticks_measures@);
    }
    // Ticks in 10 ms
    let average_ticks: u64 = sum / 10;
    // Ticks in 1000 ms without divisor = true HZ
    assert(average_ticks * current_frequency_divider * 100 <= u64::MAX) by (nonlinear_arith)
        requires
            average_ticks <= 0xFFFF_FFFF,
            current_frequency_divider <= 255,
    ;
    assert(average_ticks * current_frequency_divider <= u64::MAX) by (nonlinear_arith)
        requires
            average_ticks <= 0xFFFF_FFFF,
            current_frequency_divider <= 255,
    ;
    average_ticks * current_frequency_divider as u64 * 100
}

} // verus!
