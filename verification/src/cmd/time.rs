//! Timing queries.

use vstd::prelude::*;

use crate::context::Context;

verus! {

/// The latest clock sample, in nanoseconds since the clock's epoch.
pub fn current_time(ctx: &Context) -> (r: u64)
    ensures
        r == ctx.time.current_time,
{
    ctx.time.current_time
}

/// Nanoseconds elapsed since startup.  The embedding layer divides this
/// down to fractional seconds where the application wants an `f32`.
pub fn elapsed_nanos(ctx: &Context) -> (r: u64)
    requires
        ctx.wf(),
    ensures
        r == ctx.time.current_time - ctx.time.start_time,
{
    ctx.time.elapsed_nanos()
}

} // verus!
