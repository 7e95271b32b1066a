//! Worst-case aggregation of symbolic execution path results.
//!
//! The exploration engine yields, for every feasible execution path
//! reachable from the entry symbol, an upper-bound cycle cost. The
//! estimate for the artifact is the maximum over all yielded paths:
//! worst-case timing, not average or typical-case. An entry symbol
//! with zero explored paths is an error, not a zero estimate.

use vstd::prelude::*;
use crate::errors::MeasureError;

verus! {

/// The symbol name of the instrumented entry function. Both
/// measurement methods evaluate the code reachable from this one
/// symbol: the firmware calls it exactly once at startup, and the
/// symbolic exploration starts from it.
pub fn entry_symbol() -> (s: &'static str)
    ensures
        s@ == "measure"@,
{
    "measure"
}

/// One feasible path explored by the estimator, carrying an
/// upper-bound cycle cost for that path.
#[derive(Clone, Copy, Debug, PartialEq, Eq, Structural)]
pub struct PathResult {
    /// Upper-bound cycle cost of this path.
    pub max_cycles: u64,
}

/// The cycle costs carried by a sequence of path results, in order.
pub open spec fn costs_of(paths: Seq<PathResult>) -> Seq<u64> {
    paths.map_values(|p: PathResult| p.max_cycles)
}

/// The maximum of a sequence of cycle costs; zero for the empty
/// sequence, which callers rule out separately.
pub open spec fn max_cost(costs: Seq<u64>) -> u64
    decreases costs.len(),
{
    if costs.len() == 0 {
        0
    } else {
        let rest = max_cost(costs.drop_last());
        if costs.last() > rest {
            costs.last()
        } else {
            rest
        }
    }
}

/// Every cost in the sequence is bounded by the maximum, and, for a
/// nonempty sequence, the maximum is attained by one of the costs:
/// the aggregate is exactly the worst explored path, not an
/// overapproximation.
pub proof fn lemma_max_cost_is_max(costs: Seq<u64>)
    ensures
        forall|i: int| 0 <= i < costs.len() ==> costs[i] <= max_cost(costs),
        costs.len() > 0 ==> exists|i: int| 0 <= i < costs.len() && costs[i] == max_cost(costs),
    decreases costs.len(),
{
    if costs.len() > 0 {
        lemma_max_cost_is_max(costs.drop_last());
        assert forall|i: int| 0 <= i < costs.len() implies costs[i] <= max_cost(costs) by {
            if i < costs.len() - 1 {
                assert(costs.drop_last()[i] == costs[i]);
            }
        }
        if costs.len() == 1 {
            assert(costs[0] == max_cost(costs));
        } else if costs.last() > max_cost(costs.drop_last()) {
            assert(costs[costs.len() - 1] == max_cost(costs));
        } else {
            let j = choose|j: int|
                0 <= j < costs.drop_last().len() && costs.drop_last()[j] == max_cost(
                    costs.drop_last(),
                );
            assert(costs[j] == max_cost(costs));
        }
    }
}

/// Adding a newly explored feasible path can only raise the
/// worst-case estimate, never lower it, and the estimate is at least
/// the new path's own cost.
pub proof fn lemma_max_cost_monotonic(costs: Seq<u64>, new_cost: u64)
    ensures
        max_cost(costs.push(new_cost)) >= max_cost(costs),
        max_cost(costs.push(new_cost)) >= new_cost,
{
    assert(costs.push(new_cost).drop_last() =~= costs);
    assert(costs.push(new_cost).last() == new_cost);
}

/// Reduces the explored path results of one artifact to the
/// worst-case cycle estimate: the maximum over all per-path bounds.
/// Zero explored paths mean the entry symbol was not actually
/// evaluated, and are a symbolic execution error.
pub fn estimated_cycles(paths: &Vec<PathResult>) -> (r: Result<u64, MeasureError>)
    ensures
        r is Ok <==> paths@.len() > 0,
        r is Ok ==> r->Ok_0 == max_cost(costs_of(paths@)),
        r is Err ==> r->Err_0 == MeasureError::SymbolicExecution,
{
    if paths.len() == 0 {
        return Err(MeasureError::SymbolicExecution);
    }
    let mut max: u64 = 0;
    let mut i: usize = 0;
    while i < paths.len()
        invariant
            0 <= i <= paths@.len(),
            max == max_cost(costs_of(paths@).take(i as int)),
        decreases paths@.len() - i,
    {
        proof {
            assert(costs_of(paths@).take(i + 1).drop_last() =~= costs_of(paths@).take(i as int));
            assert(costs_of(paths@).take(i + 1).last() == paths@[i as int].max_cycles);
        }
        if paths[i].max_cycles > max {
            max = paths[i].max_cycles;
        }
        i += 1;
    }
    proof {
        assert(costs_of(paths@).take(paths@.len() as int) =~= costs_of(paths@));
    }
    Ok(max)
}

} // verus!
