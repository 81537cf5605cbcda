//! Batch allocator: a single monotonically increasing cursor over the task
//! index space `[0, tasks)` that hands out contiguous half-open batches.
//!
//! In the concurrent driver the cursor is one shared atomic integer advanced
//! by fetch-and-add; the start value each worker receives back determines its
//! batch via [`batch_of`]. Because the atomic serializes the adds, the starts
//! handed out across all workers are exactly `0, b, 2b, ...` whatever the
//! interleaving, so the lemmas below, stated over batch indices, hold for any
//! concurrent schedule. [`BatchAllocator`] is the same cursor discipline as a
//! sequential value, usable where one caller drains the space.

use vstd::prelude::*;
use vstd::arithmetic::div_mod::lemma_fundamental_div_mod;
use vstd::arithmetic::div_mod::lemma_fundamental_div_mod_converse_div;
use vstd::arithmetic::div_mod::lemma_mod_division_less_than_divisor;
use vstd::arithmetic::div_mod::lemma_div_pos_is_pos;
use vstd::arithmetic::mul::lemma_mul_inequality;
use vstd::arithmetic::mul::lemma_mul_is_commutative;
use vstd::arithmetic::mul::lemma_mul_nonnegative;
use crate::config::MAX_TASKS;

verus! {

/// Where the batch starting at `start` ends: `start + batch_size`, clipped
/// to the end of the task space.
pub open spec fn spec_batch_end(start: int, batch_size: int, tasks: int) -> int {
    if start + batch_size <= tasks {
        start + batch_size
    } else {
        tasks
    }
}

/// How many batches a full run hands out: `tasks / batch_size`, rounded up.
pub open spec fn spec_num_batches(tasks: int, batch_size: int) -> int
    recommends
        0 < batch_size,
{
    (tasks + batch_size - 1) / batch_size
}

/// The batch belonging to one cursor value: `None` once the cursor is at or
/// past the end of the task space, otherwise the range from the cursor to
/// the lesser of `start + batch_size` and `tasks`.
pub fn batch_of(start: i64, batch_size: i64, tasks: i64) -> (r: Option<(i64, i64)>)
    requires
        0 <= start,
        0 < batch_size <= MAX_TASKS,
        0 < tasks <= MAX_TASKS,
    ensures
        start >= tasks ==> r is None,
        start < tasks ==> (r matches Some(be) && be.0 == start && be.1 == spec_batch_end(
            start as int,
            batch_size as int,
            tasks as int,
        )),
{
    if start >= tasks {
        None
    } else {
        let end: i64 = if batch_size <= tasks - start {
            start + batch_size
        } else {
            tasks
        };
        Some((start, end))
    }
}

/// The allocator cursor together with the run's fixed batch size and task
/// count.
pub struct BatchAllocator {
    next_start: i64,
    batch_size: i64,
    tasks: i64,
}

impl BatchAllocator {
    /// The next start value the allocator will hand out.
    pub closed spec fn cursor(self) -> int {
        self.next_start as int
    }

    pub closed spec fn batch_size(self) -> int {
        self.batch_size as int
    }

    pub closed spec fn tasks(self) -> int {
        self.tasks as int
    }

    pub open spec fn wf(self) -> bool {
        &&& 0 <= self.cursor()
        &&& 0 < self.batch_size() <= MAX_TASKS
        &&& 0 < self.tasks() <= MAX_TASKS
    }

    pub fn new(tasks: i64, batch_size: i64) -> (r: BatchAllocator)
        requires
            0 < tasks <= MAX_TASKS,
            0 < batch_size <= MAX_TASKS,
        ensures
            r.wf(),
            r.cursor() == 0,
            r.tasks() == tasks,
            r.batch_size() == batch_size,
    {
        BatchAllocator { next_start: 0, batch_size, tasks }
    }

    /// Hand out the next batch, or report exhaustion once the cursor has
    /// reached the task count. While work remains the cursor strictly
    /// advances by the batch size, so repeated claims terminate.
    pub fn claim(&mut self) -> (r: Option<(i64, i64)>)
        requires
            old(self).wf(),
        ensures
            final(self).wf(),
            final(self).batch_size() == old(self).batch_size(),
            final(self).tasks() == old(self).tasks(),
            old(self).cursor() >= old(self).tasks() ==> r is None && final(self).cursor() == old(
                self,
            ).cursor(),
            old(self).cursor() < old(self).tasks() ==> (r matches Some(be) && be.0 == old(
                self,
            ).cursor() && be.1 == spec_batch_end(
                old(self).cursor(),
                old(self).batch_size(),
                old(self).tasks(),
            ) && final(self).cursor() == old(self).cursor() + old(self).batch_size()),
    {
        let r = batch_of(self.next_start, self.batch_size, self.tasks);
        if r.is_some() {
            self.next_start = self.next_start + self.batch_size;
        }
        r
    }

    /// Drain the allocator from a fresh cursor: the returned vector holds
    /// every batch of the run, the `i`-th starting at `i * batch_size`.
    /// That this loop verifies (its `decreases` clause) is the termination
    /// argument: each claim advances the cursor, and once the cursor passes
    /// the task count every claim reports exhaustion.
    pub fn claim_all(&mut self) -> (r: Vec<(i64, i64)>)
        requires
            old(self).wf(),
            old(self).cursor() == 0,
        ensures
            final(self).wf(),
            r@.len() == spec_num_batches(old(self).tasks(), old(self).batch_size()),
            forall|i: int|
                0 <= i < r@.len() ==> (#[trigger] r@[i]).0 == i * old(self).batch_size()
                    && r@[i].1 == spec_batch_end(
                    i * old(self).batch_size(),
                    old(self).batch_size(),
                    old(self).tasks(),
                ),
    {
        let mut r: Vec<(i64, i64)> = Vec::new();
        loop
            invariant
                self.wf(),
                self.batch_size() == old(self).batch_size(),
                self.tasks() == old(self).tasks(),
                self.cursor() == r@.len() * self.batch_size(),
                r@.len() >= 1 ==> (r@.len() - 1) * self.batch_size() < self.tasks(),
                forall|i: int|
                    0 <= i < r@.len() ==> (#[trigger] r@[i]).0 == i * self.batch_size()
                        && r@[i].1 == spec_batch_end(
                        i * self.batch_size(),
                        self.batch_size(),
                        self.tasks(),
                    ),
            ensures
                self.cursor() >= self.tasks(),
            decreases self.tasks() + self.batch_size() - self.cursor(),
        {
            let ghost len_before = r@.len() as int;
            let ghost b = self.batch_size();
            match self.claim() {
                None => {
                    break ;
                },
                Some(be) => {
                    proof {
                        assert((len_before + 1) * b == len_before * b + b) by (nonlinear_arith);
                    }
                    r.push(be);
                },
            }
        }
        proof {
            let b = old(self).batch_size();
            let t = old(self).tasks();
            let k = r@.len() as int;
            if k == 0 {
                assert(self.cursor() == 0 * b);
                assert(0 * b == 0) by (nonlinear_arith);
                assert(false);
            }
            lemma_batch_count(k, b, t);
        }
        r
    }
}

/// A claim count that exactly exhausts the task space is the rounded-up
/// quotient of tasks by batch size.
proof fn lemma_batch_count(k: int, b: int, t: int)
    requires
        0 < b,
        0 < t,
        1 <= k,
        k * b >= t,
        (k - 1) * b < t,
    ensures
        k == spec_num_batches(t, b),
{
    assert((k - 1) * b == k * b - b) by (nonlinear_arith);
    let rr = t + b - 1 - k * b;
    lemma_fundamental_div_mod_converse_div(t + b - 1, b, k, rr);
}

/// Once as many batches as the task space holds have been handed out, every
/// further cursor value lies at or past the task count, so every further
/// claim reports exhaustion: a pool of workers that stop on exhaustion all
/// terminate.
pub proof fn lemma_allocator_exhausted(i: int, batch_size: int, tasks: int)
    requires
        0 < batch_size,
        0 < tasks,
        i >= spec_num_batches(tasks, batch_size),
    ensures
        i * batch_size >= tasks,
{
    let q = spec_num_batches(tasks, batch_size);
    lemma_fundamental_div_mod(tasks + batch_size - 1, batch_size);
    lemma_mod_division_less_than_divisor(tasks + batch_size - 1, batch_size);
    lemma_mul_is_commutative(batch_size, q);
    lemma_mul_inequality(q, i, batch_size);
}

/// No double-claim: two distinct batch indices yield disjoint ranges — the
/// earlier batch ends no later than the later one starts.
pub proof fn lemma_no_double_claim(i: int, j: int, batch_size: int, tasks: int)
    requires
        0 <= i < j,
        0 < batch_size,
    ensures
        spec_batch_end(i * batch_size, batch_size, tasks) <= j * batch_size,
{
    assert(i * batch_size + batch_size == (i + 1) * batch_size) by (nonlinear_arith);
    lemma_mul_inequality(i + 1, j, batch_size);
}

/// Full coverage, pointwise: every task index lies inside the batch whose
/// index is its quotient by the batch size, and that batch is among the
/// ones a full run hands out.
pub proof fn lemma_task_in_batch(k: int, batch_size: int, tasks: int)
    requires
        0 <= k < tasks,
        0 < batch_size,
    ensures
        ({
            let i = k / batch_size;
            &&& 0 <= i
            &&& i * batch_size <= k
            &&& k < spec_batch_end(i * batch_size, batch_size, tasks)
            &&& i < spec_num_batches(tasks, batch_size)
        }),
{
    let i = k / batch_size;
    lemma_fundamental_div_mod(k, batch_size);
    lemma_mod_division_less_than_divisor(k, batch_size);
    lemma_mul_is_commutative(batch_size, i);
    lemma_div_pos_is_pos(k, batch_size);
    if i >= spec_num_batches(tasks, batch_size) {
        lemma_allocator_exhausted(i, batch_size, tasks);
        assert(false);
    }
}

/// A task index determines its batch uniquely: lying inside batch `i` forces
/// `i` to be the quotient, so no index can lie in two batches.
pub proof fn lemma_batch_unique(k: int, i: int, batch_size: int, tasks: int)
    requires
        0 <= i,
        0 < batch_size,
        i * batch_size <= k,
        k < spec_batch_end(i * batch_size, batch_size, tasks),
    ensures
        i == k / batch_size,
{
    lemma_fundamental_div_mod_converse_div(k, batch_size, i, k - i * batch_size);
}

/// Some handed-out batch contains the task index `k`.
pub open spec fn covers(batches: Seq<(i64, i64)>, k: int) -> bool {
    exists|i: int| 0 <= i < batches.len() && (#[trigger] batches[i]).0 <= k < batches[i].1
}

/// The batches of a full allocator run are pairwise disjoint, lie inside
/// `[0, tasks)`, and together cover every task index: their union,
/// intersected with the task space, is the task space exactly.
pub proof fn lemma_partition(batches: Seq<(i64, i64)>, batch_size: int, tasks: int)
    requires
        0 < batch_size <= MAX_TASKS,
        0 < tasks <= MAX_TASKS,
        batches.len() == spec_num_batches(tasks, batch_size),
        forall|i: int|
            0 <= i < batches.len() ==> (#[trigger] batches[i]).0 == i * batch_size
                && batches[i].1 == spec_batch_end(i * batch_size, batch_size, tasks),
    ensures
        forall|i: int, j: int|
            0 <= i < j < batches.len() ==> (#[trigger] batches[i]).1 <= (#[trigger] batches[j]).0,
        forall|i: int|
            0 <= i < batches.len() ==> 0 <= (#[trigger] batches[i]).0 && batches[i].1 <= tasks,
        forall|k: int| 0 <= k < tasks ==> #[trigger] covers(batches, k),
{
    assert forall|i: int, j: int| 0 <= i < j < batches.len() implies (#[trigger] batches[i]).1 <= (
    #[trigger] batches[j]).0 by {
        lemma_no_double_claim(i, j, batch_size, tasks);
    }
    assert forall|i: int| 0 <= i < batches.len() implies 0 <= (#[trigger] batches[i]).0
        && batches[i].1 <= tasks by {
        lemma_mul_nonnegative(i, batch_size);
    }
    assert forall|k: int| 0 <= k < tasks implies #[trigger] covers(batches, k) by {
        lemma_task_in_batch(k, batch_size, tasks);
        let i = k / batch_size;
        assert(0 <= i < batches.len() && batches[i].0 <= k < batches[i].1);
    }
}

} // verus!
