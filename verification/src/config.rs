//! Run configuration: workload kind, task count, concurrency, batch size.

use vstd::prelude::*;

verus! {

/// Largest admissible task count: every task index `pk` must allow the
/// derived column values `2 * pk` and `3 * pk` to be computed in `i64`
/// without overflow, so `pk` is capped at `i64::MAX / 3`.
pub const MAX_TASKS: i64 = 3074457345618258602;

/// Which operations the benchmark issues for each task index.
#[derive(Clone, Copy, Debug, PartialEq, Eq, Structural)]
pub enum Workload {
    Inserts,
    Selects,
    Mixed,
}

pub open spec fn spec_has_inserts(w: Workload) -> bool {
    w is Inserts || w is Mixed
}

pub open spec fn spec_has_selects(w: Workload) -> bool {
    w is Selects || w is Mixed
}

/// True when the workload issues an insert for each task index.
pub fn has_inserts(w: Workload) -> (r: bool)
    ensures
        r == spec_has_inserts(w),
{
    w == Workload::Inserts || w == Workload::Mixed
}

/// True when the workload issues a select for each task index.
pub fn has_selects(w: Workload) -> (r: bool)
    ensures
        r == spec_has_selects(w),
{
    w == Workload::Selects || w == Workload::Mixed
}

/// The configuration of one benchmark run, immutable once built and shared
/// read-only by every worker.
pub struct RunConfig {
    /// Addresses of the target cluster's nodes.
    pub node_addresses: Vec<String>,
    /// Which operations to issue per task index.
    pub workload: Workload,
    /// Total number of task indices, i.e. the task space is `[0, tasks)`.
    pub tasks: i64,
    /// Number of concurrent workers in the timed phase.
    pub concurrency: i64,
    /// Number of task indices handed out per allocator claim.
    pub batch_size: i64,
    /// Skip schema preparation and the warm-up stage.
    pub dont_prepare: bool,
}

impl RunConfig {
    /// A configuration is valid when the counts are positive and small
    /// enough for the derived-value arithmetic to stay inside `i64`.
    pub open spec fn valid(self) -> bool {
        &&& 0 < self.tasks <= MAX_TASKS
        &&& 0 < self.concurrency
        &&& 0 < self.batch_size <= MAX_TASKS
    }

    /// Executable validity check, for callers that receive the numbers
    /// from outside.
    pub fn is_valid(&self) -> (r: bool)
        ensures
            r == self.valid(),
    {
        0 < self.tasks && self.tasks <= MAX_TASKS && 0 < self.concurrency && 0 < self.batch_size
            && self.batch_size <= MAX_TASKS
    }
}

} // verus!
