//! Worker state machine: one unit of concurrent execution, which repeatedly
//! claims a batch from the shared allocator, issues the configured
//! operations for every task index in the batch, checks what the selects
//! return, and records sampled timings in its local buffers.
//!
//! The machine holds every decision the worker makes; the surrounding
//! binary only performs the returned [`Action`] — one atomic fetch-and-add
//! or one timed database call — and hands the outcome back through the
//! matching `on_*` method. Each call returns the next action, so the
//! machine's contracts pin the worker's whole behaviour for any outcome of
//! the outside calls.

use vstd::prelude::*;
use crate::config::MAX_TASKS;
use crate::config::Workload;
use crate::config::spec_has_inserts;
use crate::config::spec_has_selects;
use crate::config::has_selects;
use crate::config::has_inserts;
use crate::allocator::batch_of;
use crate::allocator::spec_batch_end;
use crate::sampler::should_sample;
use crate::values::BenchError;
use crate::values::insert_values;
use crate::values::verify_select_rows;
use crate::values::spec_select_check;

verus! {

/// What the surrounding binary must do next on the machine's behalf.
#[derive(Clone, Copy, Debug, PartialEq, Eq, Structural)]
pub enum Action {
    /// Fetch-and-add the shared cursor by the batch size and report the
    /// start value received back through [`WorkerMachine::on_claimed`].
    Claim,
    /// Execute the prepared insert with these values, timing the call, and
    /// report the outcome through [`WorkerMachine::on_insert_done`].
    Insert { pk: i64, v1: i64, v2: i64 },
    /// Execute the prepared select for this key, timing the call, and
    /// report the outcome through [`WorkerMachine::on_select_done`].
    Select { pk: i64 },
    /// The allocator is exhausted: this worker is done.
    Finish,
    /// A fatal error: abort the whole run.
    Abort { error: BenchError },
}

/// The outcome of one select call: either the session failed, or it
/// returned this list of rows.
#[derive(Debug)]
pub enum SelectOutcome {
    Failed,
    Rows(Vec<(i64, i64)>),
}

/// Which outcome the machine is waiting for.
#[derive(Clone, Copy, Debug, PartialEq, Eq, Structural)]
pub enum Pending {
    AwaitClaim,
    AwaitInsert,
    AwaitSelect,
    Stopped,
    Failed,
}

/// One worker's state: the run's fixed parameters, the current batch and
/// task, the sampling decision for the current task, and the local sample
/// buffers that the driver merges after the join barrier.
pub struct WorkerMachine {
    /// Which operations are issued per task index.
    pub workload: Workload,
    /// Total task count of the run.
    pub tasks: i64,
    /// Indices handed out per allocator claim.
    pub batch_size: i64,
    /// Target number of latency samples over the run; `0` turns sampling
    /// off, as the warm-up stage wants.
    pub target_samples: i64,
    /// Which outcome the machine expects next.
    pub pending: Pending,
    /// Current task index.
    pub pk: i64,
    /// End of the current batch (exclusive).
    pub batch_end: i64,
    /// Whether the current task's operations are being timed.
    pub sampled: bool,
    /// Sampled insert latencies, in nanoseconds.
    pub insert_samples: Vec<i64>,
    /// Sampled select latencies, in nanoseconds.
    pub select_samples: Vec<i64>,
}

/// The run's fixed parameters never change.
pub open spec fn same_setup(pre: WorkerMachine, post: WorkerMachine) -> bool {
    &&& post.workload == pre.workload
    &&& post.tasks == pre.tasks
    &&& post.batch_size == pre.batch_size
    &&& post.target_samples == pre.target_samples
}

/// The machine has issued the first operation of task `pk`: a fresh
/// sampling decision was drawn — certainly on when the target count reaches
/// the task count, certainly off when the target is not positive — and the
/// action is the insert carrying `(2 * pk, 3 * pk)` when the workload has
/// inserts, else the select.
pub open spec fn spec_task_issued(
    pre: WorkerMachine,
    post: WorkerMachine,
    a: Action,
    pk: int,
) -> bool {
    &&& post.pk == pk
    &&& (pre.tasks <= pre.target_samples ==> post.sampled)
    &&& (pre.target_samples <= 0 ==> !post.sampled)
    &&& (spec_has_inserts(pre.workload) ==> post.pending is AwaitInsert && (a matches
        Action::Insert { pk: p, v1, v2 } && p == pk && v1 == 2 * pk && v2 == 3 * pk))
    &&& (!spec_has_inserts(pre.workload) ==> post.pending is AwaitSelect && (a matches
        Action::Select { pk: p } && p == pk))
}

/// The machine has finished task `pre.pk`: within the batch it issues the
/// next task's first operation; at the batch's end it claims anew.
pub open spec fn spec_task_done(pre: WorkerMachine, post: WorkerMachine, a: Action) -> bool {
    if pre.pk + 1 < pre.batch_end {
        post.batch_end == pre.batch_end && spec_task_issued(pre, post, a, pre.pk + 1 as int)
    } else {
        post.pending is AwaitClaim && a is Claim
    }
}

/// How the machine answers the rows a select returned: a verdict against
/// the deterministic relationship aborts the run; a passing row records the
/// timing when the task is sampled, and the worker moves past the task.
pub open spec fn spec_select_handled(
    pre: WorkerMachine,
    post: WorkerMachine,
    a: Action,
    rows: Seq<(i64, i64)>,
    nanos: i64,
) -> bool {
    &&& (spec_select_check(pre.pk as int, rows) matches Err(e) ==> a == (Action::Abort {
        error: e,
    }) && post.pending is Failed && post.select_samples == pre.select_samples)
    &&& (spec_select_check(pre.pk as int, rows) is Ok ==> post.select_samples@ == (if pre.sampled {
        pre.select_samples@.push(nanos)
    } else {
        pre.select_samples@
    }) && spec_task_done(pre, post, a))
}

impl WorkerMachine {
    pub open spec fn wf(self) -> bool {
        &&& 0 < self.tasks <= MAX_TASKS
        &&& 0 < self.batch_size <= MAX_TASKS
        &&& 0 <= self.target_samples
        &&& ((self.pending is AwaitInsert || self.pending is AwaitSelect) ==> 0 <= self.pk
            < self.batch_end <= self.tasks)
    }

    /// A fresh worker. It waits for its first claim: the first action the
    /// surrounding binary performs for it is `Action::Claim`.
    pub fn new(workload: Workload, tasks: i64, batch_size: i64, target_samples: i64) -> (r:
        WorkerMachine)
        requires
            0 < tasks <= MAX_TASKS,
            0 < batch_size <= MAX_TASKS,
            0 <= target_samples,
        ensures
            r.wf(),
            r.workload == workload,
            r.tasks == tasks,
            r.batch_size == batch_size,
            r.target_samples == target_samples,
            r.pending is AwaitClaim,
            r.insert_samples@ == Seq::<i64>::empty(),
            r.select_samples@ == Seq::<i64>::empty(),
    {
        WorkerMachine {
            workload,
            tasks,
            batch_size,
            target_samples,
            pending: Pending::AwaitClaim,
            pk: 0,
            batch_end: 0,
            sampled: false,
            insert_samples: Vec::new(),
            select_samples: Vec::new(),
        }
    }

    /// Install the current task and issue its first operation.
    fn issue_task(&mut self, pk: i64) -> (a: Action)
        requires
            old(self).wf(),
            0 <= pk < old(self).batch_end <= old(self).tasks,
        ensures
            final(self).wf(),
            same_setup(*old(self), *final(self)),
            final(self).batch_end == old(self).batch_end,
            final(self).insert_samples == old(self).insert_samples,
            final(self).select_samples == old(self).select_samples,
            spec_task_issued(*old(self), *final(self), a, pk as int),
    {
        self.pk = pk;
        self.sampled = should_sample(self.tasks, self.target_samples);
        if has_inserts(self.workload) {
            let (v1, v2) = insert_values(pk);
            self.pending = Pending::AwaitInsert;
            Action::Insert { pk, v1, v2 }
        } else {
            self.pending = Pending::AwaitSelect;
            Action::Select { pk }
        }
    }

    /// Move past the finished task `self.pk`.
    fn next_task(&mut self) -> (a: Action)
        requires
            old(self).wf(),
            0 <= old(self).pk < old(self).batch_end <= old(self).tasks,
        ensures
            final(self).wf(),
            same_setup(*old(self), *final(self)),
            final(self).insert_samples == old(self).insert_samples,
            final(self).select_samples == old(self).select_samples,
            spec_task_done(*old(self), *final(self), a),
    {
        if self.pk + 1 < self.batch_end {
            let pk = self.pk + 1;
            self.issue_task(pk)
        } else {
            self.pending = Pending::AwaitClaim;
            Action::Claim
        }
    }

    /// Receive the start value the shared cursor handed back for a claim.
    /// At or past the task count the worker stops; otherwise the batch runs
    /// from `start` to `batch_end` and the first task's operation is
    /// issued.
    pub fn on_claimed(&mut self, start: i64) -> (a: Action)
        requires
            old(self).wf(),
            old(self).pending is AwaitClaim,
            0 <= start,
        ensures
            final(self).wf(),
            same_setup(*old(self), *final(self)),
            final(self).insert_samples == old(self).insert_samples,
            final(self).select_samples == old(self).select_samples,
            start >= old(self).tasks ==> final(self).pending is Stopped && a is Finish,
            start < old(self).tasks ==> final(self).batch_end == spec_batch_end(
                start as int,
                old(self).batch_size as int,
                old(self).tasks as int,
            ) && spec_task_issued(*old(self), *final(self), a, start as int),
    {
        match batch_of(start, self.batch_size, self.tasks) {
            None => {
                self.pending = Pending::Stopped;
                Action::Finish
            },
            Some(be) => {
                self.batch_end = be.1;
                self.issue_task(be.0)
            },
        }
    }

    /// Hand back how an insert went. A failed operation aborts the run. On
    /// success, a sampled task's nanosecond timing is pushed onto the insert
    /// buffer; a mixed workload next issues the select for the same key,
    /// reusing the task's one sampling decision, while an inserts-only
    /// workload moves past the task.
    pub fn on_insert_done(&mut self, ok: bool, nanos: i64) -> (a: Action)
        requires
            old(self).wf(),
            old(self).pending is AwaitInsert,
            spec_has_inserts(old(self).workload),
            0 <= nanos,
        ensures
            final(self).wf(),
            same_setup(*old(self), *final(self)),
            !ok ==> a == (Action::Abort { error: BenchError::OperationFailed }) && final(self).pending is Failed && final(self).insert_samples == old(self).insert_samples && final(self).select_samples == old(self).select_samples,
            ok ==> ({
                &&& final(self).insert_samples@ == (if old(self).sampled {
                    old(self).insert_samples@.push(nanos)
                } else {
                    old(self).insert_samples@
                })
                &&& final(self).select_samples == old(self).select_samples
                &&& (spec_has_selects(old(self).workload) ==> final(self).pending is AwaitSelect
                    && final(self).pk == old(self).pk && final(self).batch_end == old(self).batch_end && final(self).sampled == old(self).sampled && (a matches
                Action::Select { pk } && pk == old(self).pk))
                &&& (!spec_has_selects(old(self).workload) ==> spec_task_done(
                    *old(self),
                    *final(self),
                    a,
                ))
            }),
    {
        if !ok {
            self.pending = Pending::Failed;
            return Action::Abort { error: BenchError::OperationFailed };
        }
        if self.sampled {
            self.insert_samples.push(nanos);
        }
        if has_selects(self.workload) {
            self.pending = Pending::AwaitSelect;
            Action::Select { pk: self.pk }
        } else {
            self.next_task()
        }
    }

    /// Hand back how a select went. A failed call aborts the run; so does
    /// any violation of the deterministic relationship in the returned rows,
    /// or a row count other than one. When the row is right, a sampled
    /// task's nanosecond timing is pushed onto the select buffer and the
    /// worker moves past the task.
    pub fn on_select_done(&mut self, outcome: SelectOutcome, nanos: i64) -> (a: Action)
        requires
            old(self).wf(),
            old(self).pending is AwaitSelect,
            0 <= nanos,
        ensures
            final(self).wf(),
            same_setup(*old(self), *final(self)),
            final(self).insert_samples == old(self).insert_samples,
            outcome is Failed ==> a == (Action::Abort { error: BenchError::OperationFailed })
                && final(self).pending is Failed && final(self).select_samples == old(self).select_samples,
            outcome matches SelectOutcome::Rows(rows) ==> spec_select_handled(
                *old(self),
                *final(self),
                a,
                rows@,
                nanos,
            ),
    {
        match outcome {
            SelectOutcome::Failed => {
                self.pending = Pending::Failed;
                Action::Abort { error: BenchError::OperationFailed }
            },
            SelectOutcome::Rows(rows) => {
                match verify_select_rows(self.pk, &rows) {
                    Err(e) => {
                        self.pending = Pending::Failed;
                        Action::Abort { error: e }
                    },
                    Ok(()) => {
                        if self.sampled {
                            self.select_samples.push(nanos);
                        }
                        self.next_task()
                    },
                }
            },
        }
    }
}

} // verus!
