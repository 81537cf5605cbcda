//! Latency sampler: a per-operation probabilistic decision whether to time
//! one task's operations, tuned so that about `target_samples` samples are
//! collected over a whole run of `tasks` tasks.
//!
//! The decision draws, independently for each task index, a uniform integer
//! in `[0, tasks)` and samples when the draw is below the target count; the
//! expected number of sampled tasks is therefore the target count (clipped
//! to the task count). Every worker owns its thread-local generator, so no
//! shared mutable state is involved.

use vstd::prelude::*;
use rand::Rng;

verus! {

/// Relies on rand::thread_rng and rand::Rng::gen_range: the draw is an
/// integer in `[0, bound)`. Nothing beyond the range holds of any single
/// draw — the result is random, so callers state only what is true of every
/// outcome.
#[verifier::external_body]
fn draw_uniform(bound: i64) -> (r: i64)
    requires
        0 < bound,
    ensures
        0 <= r < bound,
{
    rand::thread_rng().gen_range(0..bound)
}

/// The sampling rule applied to a known draw: sample exactly when the draw
/// fell below the target count.
pub fn sample_from_draw(draw: i64, target_samples: i64) -> (r: bool)
    ensures
        r == (draw < target_samples),
{
    draw < target_samples
}

/// Decide whether to time the current task's operations. When the target
/// count is at least the task count, every draw lands below it, so every
/// task is sampled; when the target is not positive, none is.
pub fn should_sample(tasks: i64, target_samples: i64) -> (r: bool)
    requires
        0 < tasks,
    ensures
        tasks <= target_samples ==> r,
        target_samples <= 0 ==> !r,
{
    let draw: i64 = draw_uniform(tasks);
    sample_from_draw(draw, target_samples)
}

} // verus!
