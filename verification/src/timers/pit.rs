//! Programmable Interval Timer
//!
//! Only used to calibrate other timers if HPET is not available.

use vstd::prelude::*;

verus! {

/// Frequency of the timer's oscillator in Hz.
pub const BASE_FREQ: u32 = 1193182;

/// Bits of the operating mode in the operational command word.
pub const OCW_MASK_MODE: u8 = 0xE;

/// Bits of the read/load mode in the operational command word.
pub const OCW_MASK_RL: u8 = 0x30;

/// Read/load mode: least significant byte first, then most significant.
pub const OCW_RL_DATA: u8 = 0x30;

/// Bits of the counter in the operational command word.
pub const OCW_MASK_COUNTER: u8 = 0xC0;

/// Counter 0.
pub const OCW_COUNTER_0: u8 = 0x0;

/// Operating mode: square wave generator.
pub const OCW_MODE_SQUAREWAVEGEN: u8 = 0x6;

/// Port of the command register.
pub const REG_COMMAND: u16 = 0x43;

/// Port of counter 0.
pub const REG_COUNTER0: u16 = 0x40;

/// What is written to the timer's ports to start it.
#[derive(Debug, Clone, Copy, PartialEq, Eq, Structural)]
pub struct PitProgram {
    /// The operational command word, for the command register.
    pub command: u8,
    /// Low byte of the divisor, written to counter 0 first.
    pub divisor_low: u8,
    /// High byte of the divisor, written to counter 0 second.
    pub divisor_high: u8,
}

/// The tick counter of the interval timer and the time between two ticks.
#[derive(Debug, Clone, Copy, PartialEq, Eq, Structural)]
pub struct PitTimer {
    /// Ticks counted so far; wraps around.
    pub tick_counter: u64,
    /// Milliseconds between two ticks; 0 until the timer is started.
    pub milliseconds_per_tick: u32,
}

/// Ticks per second for an interval of `interval_in_milliseconds`.
pub open spec fn spec_frequency(interval_in_milliseconds: u32) -> int {
    1000int / (interval_in_milliseconds as int)
}

/// The divisor that makes the timer tick every `interval_in_milliseconds`.
pub open spec fn spec_divisor(interval_in_milliseconds: u32) -> int {
    BASE_FREQ as int / spec_frequency(interval_in_milliseconds)
}

/// Whether the timer can tick every `interval_in_milliseconds`: the interval
/// is from 1 to 54 ms and its divisor fits in 16 bits.
pub open spec fn spec_valid_interval(interval_in_milliseconds: u32) -> bool {
    &&& 1 <= interval_in_milliseconds <= 54
    &&& 1 <= spec_divisor(interval_in_milliseconds) <= 65535
}

/// Whether the timer can tick every `interval_in_milliseconds`.
pub fn valid_interval(interval_in_milliseconds: u32) -> (valid: bool)
    ensures
        valid == spec_valid_interval(interval_in_milliseconds),
{
    if interval_in_milliseconds < 1 || interval_in_milliseconds > 54 {
        return false;
    }
    let freq: u32 = 1000 / interval_in_milliseconds;
    assert(freq >= 18) by (nonlinear_arith)
        requires
            freq == 1000int / (interval_in_milliseconds as int),
            1 <= interval_in_milliseconds <= 54,
    ;
    BASE_FREQ / freq >= 1 && BASE_FREQ / freq <= 65535
}

impl PitTimer {
    /// A timer that was not started yet.
    pub fn new() -> (timer: Self)
        ensures
            timer == (PitTimer { tick_counter: 0, milliseconds_per_tick: 0 }),
    {
        PitTimer { tick_counter: 0, milliseconds_per_tick: 0 }
    }

    /// Inits and starts PIT interrupts
    ///
    /// Interval of interrupt in ms (1-54). Records the interval and returns
    /// what starts the timer in square wave mode on counter 0.
    pub fn init(&mut self, interval_in_milliseconds: u32) -> (program: PitProgram)
        requires
            spec_valid_interval(interval_in_milliseconds),
        ensures
            final(self).milliseconds_per_tick == interval_in_milliseconds,
            final(self).tick_counter == old(self).tick_counter,
            program.command == 0x36,
            program.divisor_low == spec_divisor(interval_in_milliseconds) % 256,
            program.divisor_high == spec_divisor(interval_in_milliseconds) / 256,
    {
        let freq: u32 = 1000 / interval_in_milliseconds;
        assert(freq >= 18) by (nonlinear_arith)
            requires
                freq == 1000int / (interval_in_milliseconds as int),
                1 <= interval_in_milliseconds <= 54,
        ;
        let divisor: u32 = BASE_FREQ / freq;
        self.milliseconds_per_tick = interval_in_milliseconds;

        // Operational command
        let mut ocw: u8 = 0;
        ocw = (ocw & !OCW_MASK_MODE) | OCW_MODE_SQUAREWAVEGEN;
        ocw = (ocw & !OCW_MASK_RL) | OCW_RL_DATA;
        ocw = (ocw & !OCW_MASK_COUNTER) | OCW_COUNTER_0;
        assert(ocw == 0x36) by (bit_vector)
            requires
                ocw == (((((0u8 & !0xEu8) | 0x6u8) & !0x30u8) | 0x30u8) & !0xC0u8) | 0x0u8,
        ;
        PitProgram {
            command: ocw,
            divisor_low: (divisor % 256) as u8,
            divisor_high: (divisor / 256) as u8,
        }
    }

    /// Counts one tick.
    pub fn tick_interrupt_handler(&mut self)
        ensures
            final(self).tick_counter == if old(self).tick_counter == u64::MAX {
                0
            } else {
                old(self).tick_counter + 1
            },
            final(self).milliseconds_per_tick == old(self).milliseconds_per_tick,
    {
        self.tick_counter = if self.tick_counter == u64::MAX {
            0
        } else {
            self.tick_counter + 1
        };
    }

    /// Ticks counted so far.
    pub fn get_ticks_counter(&self) -> (ticks: u64)
        ensures
            ticks == self.tick_counter,
    {
        self.tick_counter
    }

    /// The tick that ends a sleep of `milliseconds` that starts now.
    pub open spec fn spec_sleep_end(&self, milliseconds: u32) -> int {
        self.tick_counter + milliseconds as int / self.milliseconds_per_tick as int
    }

    /// Sleeps
    ///
    /// Returns the tick that ends a sleep of `milliseconds` that starts now:
    /// the sleep is over once the tick counter has reached it.
    pub fn sleep(&self, milliseconds: u32) -> (end_tick: u64)
        requires
            self.milliseconds_per_tick != 0,
            self.spec_sleep_end(milliseconds) <= u64::MAX,
        ensures
            end_tick == self.spec_sleep_end(milliseconds),
    {
        let start_tick = self.tick_counter;
        let ticks: u32 = milliseconds / self.milliseconds_per_tick;
        start_tick + ticks as u64
    }

    /// Whether a sleep that ends at `end_tick` is over.
    pub fn sleep_is_over(&self, end_tick: u64) -> (over: bool)
        ensures
            over == (self.tick_counter >= end_tick),
    {
        self.get_ticks_counter() >= end_tick
    }
}

} // verus!
