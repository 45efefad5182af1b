//! What the timers compute: the programming of the interval timer, the
//! conversion between ticks and time, and the ends of sleeps.

pub mod hpet;
pub mod pit;
