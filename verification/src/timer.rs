//! Ticks of the clock.

use vstd::prelude::*;

verus! {

/// Nanoseconds in a second.
pub const NSEC_PER_SEC: i32 = 1_000_000_000;

/// The tick of the moment `sec` seconds and `nsec` nanoseconds after the
/// epoch: a thousand ticks for each second and one for each thousand
/// nanoseconds.
pub open spec fn msec_tick(sec: int, nsec: int) -> int {
    sec * 1000 + nsec / 1000
}

/// The seconds of which [`get_msec_tick`] can give the tick, whatever the
/// nanoseconds.
pub open spec fn tick_fits(sec: int) -> bool {
    -9_000_000_000_000_000 <= sec <= 9_000_000_000_000_000
}

/// What the clock's reading `sec`, `nsec` gives: the tick of that moment, or
/// nothing where the seconds are too many for it.
pub open spec fn tick_at(sec: int, nsec: int) -> Option<i64> {
    if tick_fits(sec) {
        Some(msec_tick(sec, nsec) as i64)
    } else {
        None
    }
}

/// The tick of a moment.
pub fn get_msec_tick(sec: i64, nsec: i32) -> (tick: i64)
    requires
        tick_fits(sec as int),
        0 <= nsec < NSEC_PER_SEC,
    ensures
        tick == msec_tick(sec as int, nsec as int),
{
    sec * 1000 + (nsec / 1000) as i64
}

/// The tick of a moment, or `None` where the seconds are too many for it.
pub fn tick_of(sec: i64, nsec: i32) -> (tick: Option<i64>)
    requires
        0 <= nsec < NSEC_PER_SEC,
    ensures
        tick == tick_at(sec as int, nsec as int),
{
    if -9_000_000_000_000_000 <= sec && sec <= 9_000_000_000_000_000 {
        Some(get_msec_tick(sec, nsec))
    } else {
        None
    }
}

/// The seconds and nanoseconds since the epoch, by `time::get_time`.  What
/// it returns is built by `Timespec::new`, which lets no nanoseconds pass but
/// those of one second.
#[verifier::external_body]
fn current_time() -> (now: (i64, i32))
    ensures
        0 <= now.1 < NSEC_PER_SEC,
{
    let t = time::get_time();
    (t.sec, t.nsec)
}

/// The tick of this moment, or `None` where the clock is too far from the
/// epoch for it.  Which moment the clock shows is not for the library to
/// say: whatever it shows, seconds of 64 bits and the nanoseconds of one
/// second, the result is what [`tick_at`] gives for that reading.
pub fn get_tick() -> (tick: Option<i64>)
    ensures
        exists|sec: int, nsec: int|
            i64::MIN <= sec <= i64::MAX && 0 <= nsec < NSEC_PER_SEC && tick == #[trigger] tick_at(
                sec,
                nsec,
            ),
{
    let (sec, nsec) = current_time();
    let tick = tick_of(sec, nsec);
    assert(tick == tick_at(sec as int, nsec as int));
    tick
}

} // verus!
