//! Driver decisions: when the warm-up stage runs and how wide it is, how
//! each worker is configured, and the verdict at the join barrier.
//!
//! The sequencing itself — connecting, preparing statements, spawning the
//! workers, awaiting them, printing — is plain I/O glue in the surrounding
//! binary; everything it decides is computed here.

use vstd::prelude::*;
use crate::config::RunConfig;
use crate::config::Workload;
use crate::values::BenchError;
use crate::worker::WorkerMachine;

verus! {

/// Target number of latency samples collected per operation type over a
/// run.
pub const SAMPLES: i64 = 20000;

/// The warm-up stage runs exactly before a selects-only benchmark whose
/// schema preparation was not skipped: select latencies can only be
/// measured against pre-existing rows.
pub fn needs_warmup(config: &RunConfig) -> (r: bool)
    ensures
        r == (config.workload is Selects && !config.dont_prepare),
{
    config.workload == Workload::Selects && !config.dont_prepare
}

/// Worker multiplicity of the warm-up stage: at least 1024, or the
/// configured concurrency when that is larger.
pub fn warmup_worker_count(concurrency: i64) -> (r: i64)
    requires
        0 <= concurrency,
    ensures
        r == (if concurrency >= 1024 {
            concurrency as int
        } else {
            1024
        }),
{
    if concurrency >= 1024 {
        concurrency
    } else {
        1024
    }
}

/// A worker of the timed phase: the configured workload, sampling on with
/// the run's fixed target.
pub fn timed_worker(config: &RunConfig) -> (r: WorkerMachine)
    requires
        config.valid(),
    ensures
        r.wf(),
        r.workload == config.workload,
        r.tasks == config.tasks,
        r.batch_size == config.batch_size,
        r.target_samples == SAMPLES,
        r.pending is AwaitClaim,
        r.insert_samples@ == Seq::<i64>::empty(),
        r.select_samples@ == Seq::<i64>::empty(),
{
    WorkerMachine::new(config.workload, config.tasks, config.batch_size, SAMPLES)
}

/// A worker of the warm-up stage: inserts only, sampling off, sharing the
/// stage's own fresh allocator.
pub fn warmup_worker(config: &RunConfig) -> (r: WorkerMachine)
    requires
        config.valid(),
    ensures
        r.wf(),
        r.workload is Inserts,
        r.tasks == config.tasks,
        r.batch_size == config.batch_size,
        r.target_samples == 0,
        r.pending is AwaitClaim,
        r.insert_samples@ == Seq::<i64>::empty(),
        r.select_samples@ == Seq::<i64>::empty(),
{
    WorkerMachine::new(Workload::Inserts, config.tasks, config.batch_size, 0)
}

/// The first fatal error among the workers' outcomes, if any.
pub open spec fn spec_first_error(outcomes: Seq<Option<BenchError>>) -> Option<BenchError>
    decreases outcomes.len(),
{
    if outcomes.len() == 0 {
        None
    } else if outcomes[0] is Some {
        outcomes[0]
    } else {
        spec_first_error(outcomes.drop_first())
    }
}

/// The driver reads the workers' outcomes at the join barrier: `Ok` only
/// when no worker hit a fatal error, else the first error among them.
pub fn join_outcomes(outcomes: &Vec<Option<BenchError>>) -> (r: Result<(), BenchError>)
    ensures
        r is Ok <==> spec_first_error(outcomes@) is None,
        r matches Err(e) ==> Some(e) == spec_first_error(outcomes@),
        r is Ok <==> (forall|i: int| 0 <= i < outcomes@.len() ==> outcomes@[i] is None),
{
    let mut i: usize = 0;
    proof {
        assert(outcomes@.skip(0) =~= outcomes@);
    }
    while i < outcomes.len()
        invariant
            i <= outcomes@.len(),
            forall|j: int| 0 <= j < i ==> outcomes@[j] is None,
            spec_first_error(outcomes@) == spec_first_error(outcomes@.skip(i as int)),
        decreases outcomes@.len() - i,
    {
        match outcomes[i] {
            Some(e) => {
                proof {
                    assert(outcomes@.skip(i as int)[0] == outcomes@[i as int]);
                }
                return Err(e);
            },
            None => {
                proof {
                    assert(outcomes@.skip(i as int)[0] == outcomes@[i as int]);
                    assert(outcomes@.skip(i as int).drop_first() =~= outcomes@.skip(i as int + 1));
                }
                i += 1;
            },
        }
    }
    proof {
        assert(outcomes@.skip(outcomes@.len() as int) =~= Seq::<Option<BenchError>>::empty());
    }
    Ok(())
}

/// Fatal propagation: one failed worker among any number is enough — the
/// joined run reports an error rather than silently completing with a
/// reduced task count.
pub proof fn lemma_fatal_propagation(outcomes: Seq<Option<BenchError>>, i: int)
    requires
        0 <= i < outcomes.len(),
        outcomes[i] is Some,
    ensures
        spec_first_error(outcomes) is Some,
    decreases outcomes.len(),
{
    if !(outcomes[0] is Some) {
        lemma_fatal_propagation(outcomes.drop_first(), i - 1);
    }
}

} // verus!
