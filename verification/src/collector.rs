//! Result collector: latency samples accumulate in per-worker buffers and
//! are merged once, after the join barrier, into one collection per
//! operation type. Order among samples carries no meaning; what matters is
//! that the merged collection holds exactly the samples the workers
//! produced — no loss, no duplication.

use vstd::prelude::*;
use vstd::multiset::Multiset;
use vstd::seq_lib::lemma_multiset_commutative;

verus! {

/// The views of the per-worker buffers.
pub open spec fn spec_views(buffers: Seq<Vec<i64>>) -> Seq<Seq<i64>> {
    buffers.map_values(|b: Vec<i64>| b@)
}

/// The per-worker buffers laid end to end.
pub open spec fn spec_concat_all(buffers: Seq<Seq<i64>>) -> Seq<i64>
    decreases buffers.len(),
{
    if buffers.len() == 0 {
        Seq::empty()
    } else {
        buffers[0] + spec_concat_all(buffers.drop_first())
    }
}

/// Total number of samples across the per-worker buffers.
pub open spec fn spec_total_len(buffers: Seq<Seq<i64>>) -> int
    decreases buffers.len(),
{
    if buffers.len() == 0 {
        0
    } else {
        buffers[0].len() + spec_total_len(buffers.drop_first())
    }
}

/// Every sample across the per-worker buffers, with multiplicity.
pub open spec fn spec_combined(buffers: Seq<Seq<i64>>) -> Multiset<i64>
    decreases buffers.len(),
{
    if buffers.len() == 0 {
        Multiset::empty()
    } else {
        buffers[0].to_multiset().add(spec_combined(buffers.drop_first()))
    }
}

/// Appending one more buffer extends the concatenation at its end.
proof fn lemma_concat_all_push(buffers: Seq<Seq<i64>>, last: Seq<i64>)
    ensures
        spec_concat_all(buffers.push(last)) == spec_concat_all(buffers) + last,
    decreases buffers.len(),
{
    let p = buffers.push(last);
    if buffers.len() == 0 {
        assert(p[0] == last);
        assert(p.drop_first() =~= Seq::<Seq<i64>>::empty());
        assert(spec_concat_all(p.drop_first()) == Seq::<i64>::empty());
        assert(spec_concat_all(p) == last + Seq::<i64>::empty());
        assert(last + Seq::<i64>::empty() =~= Seq::<i64>::empty() + last);
        assert(spec_concat_all(buffers) == Seq::<i64>::empty());
    } else {
        assert(p[0] == buffers[0]);
        assert(p.drop_first() =~= buffers.drop_first().push(last));
        lemma_concat_all_push(buffers.drop_first(), last);
        assert(spec_concat_all(p) == buffers[0] + (spec_concat_all(buffers.drop_first()) + last));
        assert(buffers[0] + (spec_concat_all(buffers.drop_first()) + last) =~= (buffers[0]
            + spec_concat_all(buffers.drop_first())) + last);
    }
}

/// Merge the per-worker sample buffers into the run's one collection for an
/// operation type.
pub fn merge_samples(buffers: &Vec<Vec<i64>>) -> (r: Vec<i64>)
    ensures
        r@ == spec_concat_all(spec_views(buffers@)),
{
    let mut r: Vec<i64> = Vec::new();
    let mut idx: usize = 0;
    proof {
        assert(spec_views(buffers@).take(0) =~= Seq::<Seq<i64>>::empty());
    }
    while idx < buffers.len()
        invariant
            idx <= buffers.len(),
            r@ == spec_concat_all(spec_views(buffers@).take(idx as int)),
        decreases buffers.len() - idx,
    {
        let buf = &buffers[idx];
        let mut j: usize = 0;
        while j < buf.len()
            invariant
                j <= buf.len(),
                idx < buffers.len(),
                buf@ == buffers@[idx as int]@,
                r@ == spec_concat_all(spec_views(buffers@).take(idx as int)) + buf@.take(j as int),
            decreases buf.len() - j,
        {
            r.push(buf[j]);
            j += 1;
            proof {
                assert(buf@.take(j as int) =~= buf@.take(j - 1).push(buf@[j - 1]));
                assert(r@ == spec_concat_all(spec_views(buffers@).take(idx as int)) + buf@.take(
                    j as int,
                ));
            }
        }
        idx += 1;
        proof {
            assert(buf@.take(buf@.len() as int) =~= buf@);
            assert(spec_views(buffers@).take(idx as int) =~= spec_views(buffers@).take(
                idx - 1,
            ).push(buf@));
            lemma_concat_all_push(spec_views(buffers@).take(idx - 1), buf@);
        }
    }
    proof {
        assert(spec_views(buffers@).take(buffers@.len() as int) =~= spec_views(buffers@));
    }
    r
}

/// Collector integrity: the merged collection loses and duplicates nothing —
/// it has exactly the summed length of the per-worker buffers, and exactly
/// their samples, with multiplicity.
pub proof fn lemma_collector_integrity(buffers: Seq<Seq<i64>>)
    ensures
        spec_concat_all(buffers).len() == spec_total_len(buffers),
        spec_concat_all(buffers).to_multiset() == spec_combined(buffers),
    decreases buffers.len(),
{
    if buffers.len() == 0 {
        assert(spec_concat_all(buffers).to_multiset() =~= Multiset::<i64>::empty()) by {
            Seq::<i64>::empty().to_multiset_ensures();
        }
    } else {
        lemma_collector_integrity(buffers.drop_first());
        lemma_multiset_commutative(buffers[0], spec_concat_all(buffers.drop_first()));
    }
}

} // verus!
