use scylla_bench::collector::merge_samples;
use scylla_bench::config::Workload;
use scylla_bench::driver::join_outcomes;
use scylla_bench::values::BenchError;
use scylla_bench::worker::Action;
use scylla_bench::worker::Pending;
use scylla_bench::worker::SelectOutcome;
use scylla_bench::worker::WorkerMachine;
use std::collections::HashMap;

/// A sequential stand-in for the shared pieces the concurrent driver owns:
/// the shared cursor the workers fetch-and-add, and the target table.
struct Sim {
    cursor: i64,
    table: HashMap<i64, (i64, i64)>,
    /// Inject one fatal operation failure for this primary key.
    fail_insert_at: Option<i64>,
}

impl Sim {
    fn new() -> Sim {
        Sim { cursor: 0, table: HashMap::new(), fail_insert_at: None }
    }

    /// Perform one action for one worker and hand the outcome back,
    /// exactly as the binary does around its database calls.
    fn step(&mut self, m: &mut WorkerMachine, action: Action) -> Action {
        match action {
            Action::Claim => {
                let start = self.cursor;
                self.cursor += m.batch_size;
                m.on_claimed(start)
            }
            Action::Insert { pk, v1, v2 } => {
                if self.fail_insert_at == Some(pk) {
                    m.on_insert_done(false, 1)
                } else {
                    self.table.insert(pk, (v1, v2));
                    m.on_insert_done(true, 10 + pk)
                }
            }
            Action::Select { pk } => {
                let rows = match self.table.get(&pk) {
                    Some(&v) => vec![v],
                    None => vec![],
                };
                m.on_select_done(SelectOutcome::Rows(rows), 20 + pk)
            }
            Action::Finish | Action::Abort { .. } => action,
        }
    }

    /// Run a pool of workers round-robin until every one finished or
    /// aborted, and report each worker's outcome as the driver sees it.
    fn run_pool(
        &mut self,
        workers: &mut Vec<WorkerMachine>,
    ) -> Vec<Option<BenchError>> {
        let mut actions: Vec<Action> = workers.iter().map(|_| Action::Claim).collect();
        let mut outcomes: Vec<Option<BenchError>> = workers.iter().map(|_| None).collect();
        let mut live = workers.len();
        while live > 0 {
            for i in 0..workers.len() {
                match actions[i] {
                    Action::Finish | Action::Abort { .. } => continue,
                    a => {
                        let next = self.step(&mut workers[i], a);
                        match next {
                            Action::Finish => {
                                live -= 1;
                            }
                            Action::Abort { error } => {
                                outcomes[i] = Some(error);
                                live -= 1;
                            }
                            _ => {}
                        }
                        actions[i] = next;
                    }
                }
            }
        }
        outcomes
    }
}

#[test]
fn mixed_pool_covers_task_space_and_samples_all() {
    // 4 workers, 100 tasks, batch size 7, sample-all target.
    let mut sim = Sim::new();
    let mut workers: Vec<WorkerMachine> =
        (0..4).map(|_| WorkerMachine::new(Workload::Mixed, 100, 7, 100)).collect();
    let outcomes = sim.run_pool(&mut workers);
    assert_eq!(join_outcomes(&outcomes), Ok(()));
    assert_eq!(sim.table.len(), 100);
    for pk in 0..100i64 {
        assert_eq!(sim.table[&pk], (2 * pk, 3 * pk));
    }
    let inserts = merge_samples(&workers.iter().map(|w| w.insert_samples.clone()).collect());
    let selects = merge_samples(&workers.iter().map(|w| w.select_samples.clone()).collect());
    // Sample-all: one insert sample and one select sample per task.
    assert_eq!(inserts.len(), 100);
    assert_eq!(selects.len(), 100);
    let mut insert_sorted = inserts.clone();
    insert_sorted.sort();
    let expected: Vec<i64> = (0..100i64).map(|pk| 10 + pk).collect();
    assert_eq!(insert_sorted, expected);
    for w in workers.iter() {
        assert_eq!(w.pending, Pending::Stopped);
    }
}

#[test]
fn warmup_is_idempotent_and_never_samples() {
    // First warm-up populates the table; a second run over the same range
    // leaves every value relationship unchanged.
    let mut sim = Sim::new();
    let mut first: Vec<WorkerMachine> =
        (0..8).map(|_| WorkerMachine::new(Workload::Inserts, 200, 16, 0)).collect();
    let outcomes = sim.run_pool(&mut first);
    assert!(outcomes.iter().all(|o| o.is_none()));
    let populated = sim.table.clone();
    assert_eq!(populated.len(), 200);

    // Re-run against the already-populated table, with a fresh cursor.
    sim.cursor = 0;
    let mut second: Vec<WorkerMachine> =
        (0..8).map(|_| WorkerMachine::new(Workload::Inserts, 200, 16, 0)).collect();
    let outcomes = sim.run_pool(&mut second);
    assert!(outcomes.iter().all(|o| o.is_none()));
    assert_eq!(sim.table, populated);

    // The warm-up does not touch the result collections.
    for w in first.iter().chain(second.iter()) {
        assert!(w.insert_samples.is_empty());
        assert!(w.select_samples.is_empty());
    }
}

#[test]
fn selects_run_after_warmup_passes_checks() {
    let mut sim = Sim::new();
    let mut warmup: Vec<WorkerMachine> =
        (0..4).map(|_| WorkerMachine::new(Workload::Inserts, 50, 8, 0)).collect();
    sim.run_pool(&mut warmup);
    sim.cursor = 0;
    let mut readers: Vec<WorkerMachine> =
        (0..4).map(|_| WorkerMachine::new(Workload::Selects, 50, 8, 50)).collect();
    let outcomes = sim.run_pool(&mut readers);
    assert_eq!(join_outcomes(&outcomes), Ok(()));
    let selects = merge_samples(&readers.iter().map(|w| w.select_samples.clone()).collect());
    assert_eq!(selects.len(), 50);
}

#[test]
fn one_failed_insert_aborts_the_run() {
    // One injected operation failure among 4 concurrent workers must abort
    // the whole run, not silently shrink the task count.
    let mut sim = Sim::new();
    sim.fail_insert_at = Some(23);
    let mut workers: Vec<WorkerMachine> =
        (0..4).map(|_| WorkerMachine::new(Workload::Inserts, 100, 7, 0)).collect();
    let outcomes = sim.run_pool(&mut workers);
    assert_eq!(outcomes.iter().filter(|o| o.is_some()).count(), 1);
    assert_eq!(join_outcomes(&outcomes), Err(BenchError::OperationFailed));
    assert!(workers.iter().any(|w| w.pending == Pending::Failed));
}

#[test]
fn select_violations_abort() {
    // Missing row.
    let mut m = WorkerMachine::new(Workload::Selects, 10, 3, 0);
    let a = m.on_claimed(0);
    assert_eq!(a, Action::Select { pk: 0 });
    let a = m.on_select_done(SelectOutcome::Rows(vec![]), 5);
    assert_eq!(a, Action::Abort { error: BenchError::NoRowReturned });
    assert_eq!(m.pending, Pending::Failed);

    // More than one row.
    let mut m = WorkerMachine::new(Workload::Selects, 10, 3, 0);
    m.on_claimed(0);
    let a = m.on_select_done(SelectOutcome::Rows(vec![(0, 0), (0, 0)]), 5);
    assert_eq!(a, Action::Abort { error: BenchError::MultipleRowsReturned });

    // Wrong values.
    let mut m = WorkerMachine::new(Workload::Selects, 10, 3, 0);
    m.on_claimed(0);
    let a = m.on_select_done(SelectOutcome::Rows(vec![(1, 0)]), 5);
    assert_eq!(a, Action::Abort { error: BenchError::ValueMismatch });

    // Session failure.
    let mut m = WorkerMachine::new(Workload::Selects, 10, 3, 0);
    m.on_claimed(0);
    let a = m.on_select_done(SelectOutcome::Failed, 5);
    assert_eq!(a, Action::Abort { error: BenchError::OperationFailed });
}

#[test]
fn mixed_workload_reuses_one_sampling_decision() {
    // Sample-all: the insert and the select of the same task are both
    // recorded, with the one decision drawn at the task's start.
    let mut m = WorkerMachine::new(Workload::Mixed, 2, 10, 2);
    let a = m.on_claimed(0);
    assert_eq!(a, Action::Insert { pk: 0, v1: 0, v2: 0 });
    let a = m.on_insert_done(true, 11);
    assert_eq!(a, Action::Select { pk: 0 });
    let a = m.on_select_done(SelectOutcome::Rows(vec![(0, 0)]), 21);
    assert_eq!(a, Action::Insert { pk: 1, v1: 2, v2: 3 });
    let a = m.on_insert_done(true, 12);
    assert_eq!(a, Action::Select { pk: 1 });
    let a = m.on_select_done(SelectOutcome::Rows(vec![(2, 3)]), 22);
    assert_eq!(a, Action::Claim);
    let a = m.on_claimed(10);
    assert_eq!(a, Action::Finish);
    assert_eq!(m.pending, Pending::Stopped);
    assert_eq!(m.insert_samples, vec![11, 12]);
    assert_eq!(m.select_samples, vec![21, 22]);
}

#[test]
fn batch_boundary_walk() {
    // tasks = 5, batch size = 2: batches [0,2) [2,4) [4,5).
    let mut m = WorkerMachine::new(Workload::Inserts, 5, 2, 0);
    let mut pks = Vec::new();
    let mut action = Action::Claim;
    let mut cursor: i64 = 0;
    loop {
        action = match action {
            Action::Claim => {
                let start = cursor;
                cursor += 2;
                m.on_claimed(start)
            }
            Action::Insert { pk, .. } => {
                pks.push(pk);
                m.on_insert_done(true, 1)
            }
            Action::Finish => break,
            other => panic!("unexpected action {:?}", other),
        };
    }
    assert_eq!(pks, vec![0, 1, 2, 3, 4]);
}
