//! The per-frame decision whether the next gear falls.

use vstd::prelude::*;
use crate::timer::{DropTimer, ticked_elapsed, tick_fires};

verus! {

/// How many gears are still to be dropped.
#[derive(Clone, Copy, Debug, PartialEq, Eq, Structural)]
pub struct Gears(pub u32);

/// One frame of dropping, `delta_ns` nanoseconds after the last. While gears
/// remain, the timer advances; when it fires, one gear is taken from the count
/// and `true` says that a gear is to be dropped now. With none left, neither
/// the timer nor the count changes and nothing is dropped.
pub fn send_event(timer: &mut DropTimer, delta_ns: u64, gears: &mut Gears) -> (drop_now: bool)
    ensures
        old(gears).0 == 0 ==> {
            &&& *final(timer) == *old(timer)
            &&& *final(gears) == *old(gears)
            &&& !drop_now
        },
        old(gears).0 > 0 ==> {
            &&& final(timer).period_ns == old(timer).period_ns
            &&& final(timer).elapsed_ns == ticked_elapsed(
                old(timer).period_ns as nat,
                old(timer).elapsed_ns as nat,
                delta_ns as nat,
            )
            &&& drop_now == tick_fires(
                old(timer).period_ns as nat,
                old(timer).elapsed_ns as nat,
                delta_ns as nat,
            )
            &&& final(gears).0 == if drop_now {
                old(gears).0 - 1
            } else {
                old(gears).0 as int
            }
        },
{
    if gears.0 > 0 && timer.tick(delta_ns) {
        gears.0 = gears.0 - 1;
        true
    } else {
        false
    }
}

} // verus!
