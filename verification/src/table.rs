//! Model of the benchmark table: a map from primary key to the pair of
//! column values. An insert is an overwrite keyed by `pk`, which is what
//! makes the warm-up stage safe to re-run.

use vstd::prelude::*;
use vstd::map::*;

verus! {

/// The table after inserting the deterministic values for task index `pk`.
pub open spec fn spec_table_after_insert(table: Map<int, (int, int)>, pk: int) -> Map<
    int,
    (int, int),
> {
    table.insert(pk, (2 * pk, 3 * pk))
}

/// The table after the warm-up inserts for every task index in `[lo, hi)`,
/// in ascending order. (Workers interleave in any order; since each key is
/// written by exactly one task with values fixed by the key, the end state
/// does not depend on the order, and one fixed order models all of them.)
pub open spec fn spec_table_after_range(table: Map<int, (int, int)>, lo: int, hi: int) -> Map<
    int,
    (int, int),
>
    decreases hi - lo,
{
    if lo >= hi {
        table
    } else {
        spec_table_after_range(spec_table_after_insert(table, lo), lo + 1, hi)
    }
}

/// What the warm-up leaves at each key: every task index in the range holds
/// its deterministic values, whatever the table held before; keys outside
/// the range are untouched.
pub proof fn lemma_warmup_values(table: Map<int, (int, int)>, lo: int, hi: int, k: int)
    ensures
        lo <= k < hi ==> spec_table_after_range(table, lo, hi).contains_key(k)
            && spec_table_after_range(table, lo, hi)[k] == (2 * k, 3 * k),
        !(lo <= k < hi) ==> (spec_table_after_range(table, lo, hi).contains_key(k)
            <==> table.contains_key(k)) && (table.contains_key(k) ==> spec_table_after_range(
            table,
            lo,
            hi,
        )[k] == table[k]),
    decreases hi - lo,
{
    if lo < hi {
        lemma_warmup_values(spec_table_after_insert(table, lo), lo + 1, hi, k);
    }
}

/// Idempotent re-run safety: running the warm-up inserts a second time over
/// an already-populated range changes nothing — the deterministic value
/// relationship already holds at every key in the range, and re-inserting
/// the same values is the identity.
pub proof fn lemma_warmup_idempotent(table: Map<int, (int, int)>, lo: int, hi: int)
    ensures
        spec_table_after_range(spec_table_after_range(table, lo, hi), lo, hi)
            == spec_table_after_range(table, lo, hi),
{
    let once = spec_table_after_range(table, lo, hi);
    let twice = spec_table_after_range(once, lo, hi);
    assert(twice =~= once) by {
        assert forall|k: int| twice.contains_key(k) <==> once.contains_key(k) by {
            lemma_warmup_values(table, lo, hi, k);
            lemma_warmup_values(once, lo, hi, k);
        }
        assert forall|k: int| #[trigger] once.contains_key(k) implies twice[k] == once[k] by {
            lemma_warmup_values(table, lo, hi, k);
            lemma_warmup_values(once, lo, hi, k);
        }
    }
}

} // verus!
