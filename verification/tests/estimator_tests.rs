use cyclebench::errors::MeasureError;
use cyclebench::estimator::{entry_symbol, estimated_cycles, PathResult};

#[test]
fn entry_symbol_is_measure() {
    assert_eq!(entry_symbol(), "measure");
}

fn paths(costs: &[u64]) -> Vec<PathResult> {
    let mut v = Vec::new();
    for &c in costs {
        v.push(PathResult { max_cycles: c });
    }
    v
}

#[test]
fn zero_explored_paths_is_an_error() {
    // An entry symbol with no explored paths is a symbolic execution
    // error, not a zero estimate.
    let empty: Vec<PathResult> = Vec::new();
    assert_eq!(estimated_cycles(&empty), Err(MeasureError::SymbolicExecution));
}

#[test]
fn estimate_is_maximum_over_paths() {
    assert_eq!(estimated_cycles(&paths(&[3, 9, 4])), Ok(9));
    assert_eq!(estimated_cycles(&paths(&[7])), Ok(7));
    assert_eq!(estimated_cycles(&paths(&[0, 0, 0])), Ok(0));
}

#[test]
fn estimate_independent_of_path_order() {
    assert_eq!(estimated_cycles(&paths(&[9, 3, 4])), Ok(9));
    assert_eq!(estimated_cycles(&paths(&[4, 9, 3])), Ok(9));
}

#[test]
fn adding_a_costlier_path_raises_the_estimate() {
    // Monotonicity: a newly found feasible path can only raise the
    // worst case, never lower it.
    let base = estimated_cycles(&paths(&[3, 9])).unwrap();
    let more = estimated_cycles(&paths(&[3, 9, 12])).unwrap();
    assert_eq!(base, 9);
    assert_eq!(more, 12);
    assert!(more >= base);

    let cheaper = estimated_cycles(&paths(&[3, 9, 1])).unwrap();
    assert_eq!(cheaper, base);
}

#[test]
fn scenario_three_way_branch_loop() {
    // A measured region looping 255 times over a 3-way branch whose
    // arms cost 1, 5 or 2 cycles, with 2 cycles of loop overhead per
    // iteration: the worst-case path takes the costliest arm on every
    // iteration, so the estimate is 255 * 5 plus the loop overhead.
    let overhead_per_iteration: u64 = 2;
    let all_cheap = 255 * (1 + overhead_per_iteration);
    let all_costly = 255 * (5 + overhead_per_iteration);
    let all_middle = 255 * (2 + overhead_per_iteration);
    let result = estimated_cycles(&paths(&[all_cheap, all_costly, all_middle]));
    assert_eq!(result, Ok(255 * 5 + 255 * overhead_per_iteration));
    assert_eq!(result, Ok(1785));
}
