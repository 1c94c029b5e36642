//! A repeating timer, held as plain nanosecond counts, whose ticks are
//! computed by bevy's `Timer`.

use vstd::prelude::*;

verus! {

/// Nanoseconds in one millisecond.
pub const NANOS_PER_MILLI: u64 = 1_000_000;

/// Fires counted by one tick are kept in a `u32`, so they wrap at this value.
pub const FIRE_COUNT_MODULUS: u64 = 0x1_0000_0000;

/// Nanoseconds on the clock after a repeating timer of period `period` that
/// stood at `elapsed` has advanced by `delta`: the remainder of the total
/// after whole periods. A zero period leaves nothing on the clock.
pub open spec fn ticked_elapsed(period: nat, elapsed: nat, delta: nat) -> nat {
    if period == 0 {
        0
    } else {
        (elapsed + delta) % period
    }
}

/// Whether that tick reports the timer as just finished: the total reached the
/// period, and the number of whole periods in it, as a `u32`, is not zero.
/// A zero period is reached on every tick.
pub open spec fn tick_fires(period: nat, elapsed: nat, delta: nat) -> bool {
    if period == 0 {
        true
    } else {
        elapsed + delta >= period && ((elapsed + delta) / period) % (FIRE_COUNT_MODULUS as nat) != 0
    }
}

/// Relies on bevy's `Timer::tick` in `TimerMode::Repeating`, on a timer that
/// is not paused: the elapsed time grows by `delta`; once it reaches the
/// duration, the number of whole durations in it becomes the fire count (cast
/// to `u32`) and the remainder stays as elapsed time. `just_finished` reports
/// a non-zero fire count. `Timer::new` starts unpaused, and `set_elapsed` only
/// sets the elapsed time.
#[verifier::external_body]
fn repeating_tick(period_ns: u64, elapsed_ns: u64, delta_ns: u64) -> (r: (u64, bool))
    ensures
        r.0 == ticked_elapsed(period_ns as nat, elapsed_ns as nat, delta_ns as nat),
        r.1 == tick_fires(period_ns as nat, elapsed_ns as nat, delta_ns as nat),
{
    let mut t = bevy::time::Timer::new(
        std::time::Duration::from_nanos(period_ns),
        bevy::time::TimerMode::Repeating,
    );
    t.set_elapsed(std::time::Duration::from_nanos(elapsed_ns));
    let finished = t.tick(std::time::Duration::from_nanos(delta_ns)).just_finished();
    (t.elapsed().as_nanos() as u64, finished)
}

/// A repeating timer: it fires each time the elapsed time reaches the period,
/// and keeps what is left over.
#[derive(Clone, Copy, Debug, PartialEq, Eq, Structural)]
pub struct DropTimer {
    pub period_ns: u64,
    pub elapsed_ns: u64,
}

impl DropTimer {
    /// A timer with the given period in milliseconds, nothing elapsed yet.
    pub fn from_millis(millis: u64) -> (t: DropTimer)
        requires
            millis * NANOS_PER_MILLI <= u64::MAX,
        ensures
            t.period_ns == millis * NANOS_PER_MILLI,
            t.elapsed_ns == 0,
    {
        DropTimer { period_ns: millis * NANOS_PER_MILLI, elapsed_ns: 0 }
    }

    /// Advances the timer by `delta_ns` nanoseconds; returns whether it fired.
    pub fn tick(&mut self, delta_ns: u64) -> (fired: bool)
        ensures
            final(self).period_ns == old(self).period_ns,
            final(self).elapsed_ns == ticked_elapsed(
                old(self).period_ns as nat,
                old(self).elapsed_ns as nat,
                delta_ns as nat,
            ),
            fired == tick_fires(old(self).period_ns as nat, old(self).elapsed_ns as nat, delta_ns as nat),
    {
        let (elapsed_ns, fired) = repeating_tick(self.period_ns, self.elapsed_ns, delta_ns);
        self.elapsed_ns = elapsed_ns;
        fired
    }
}

} // verus!
