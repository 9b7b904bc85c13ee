//! The timestamps of a session. The clock is read outside; what is read comes
//! in as `now`, in milliseconds since the epoch.

use vstd::prelude::*;
use crate::glue::PlatformTime;

verus! {

/// The timestamps as they stand.
pub fn get_platform_time(time: &PlatformTime) -> (copy: PlatformTime)
    ensures
        copy == *time,
{
    *time
}

/// The managed runtime is about to be initialised.
pub fn init_start(time: &mut PlatformTime, now: u64)
    ensures
        *final(time) == (PlatformTime { init_start: now, ..*old(time) }),
{
    time.init_start = now;
}

/// The managed runtime has been initialised.
pub fn init_end(time: &mut PlatformTime, now: u64)
    ensures
        *final(time) == (PlatformTime { init_end: now, ..*old(time) }),
{
    time.init_end = now;
}

/// A frame begins.
pub fn render_start(time: &mut PlatformTime, now: u64)
    ensures
        *final(time) == (PlatformTime { render_start: now, ..*old(time) }),
{
    time.render_start = now;
}

/// A frame has ended: its end, and the start it had, become those of the last
/// frame.
pub fn render_end(time: &mut PlatformTime, now: u64)
    ensures
        *final(time) == (PlatformTime {
            last_render_end: now,
            last_render_start: old(time).render_start,
            ..*old(time)
        }),
{
    time.last_render_end = now;
    time.last_render_start = time.render_start;
}

} // verus!
