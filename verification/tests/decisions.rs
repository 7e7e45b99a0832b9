use hopfield::descent::{DescentAction, DescentLoop};
use hopfield::shape::weighted_memory_dim;
use hopfield::support::sparsemax_support;

/// Drives a retrieval whose convergence test yields `reports[i]` at iteration `i`.
fn drive(max_iters: usize, reports: &[bool]) -> (usize, usize) {
    let mut ctl = DescentLoop::new(max_iters);
    let mut evaluations = 0;
    while !ctl.is_exhausted() {
        let converged = reports[ctl.iterations()];
        evaluations += 1;
        match ctl.report(converged) {
            DescentAction::Finish(n) => return (n, evaluations),
            DescentAction::Step => {}
        }
    }
    (ctl.iterations(), evaluations)
}

#[test]
fn weighted_memory_dim_accepts_consistent_bank() {
    assert_eq!(weighted_memory_dim(&[2, 2], 2), Some(2));
    assert_eq!(weighted_memory_dim(&[1, 1, 1], 3), Some(1));
    assert_eq!(weighted_memory_dim(&[0, 0], 2), Some(0));
}

#[test]
fn weighted_memory_dim_rejects_inconsistent_shapes() {
    // one weight for two memories
    assert_eq!(weighted_memory_dim(&[1, 1], 1), None);
    // memories of different dimensions
    assert_eq!(weighted_memory_dim(&[1, 2], 2), None);
    assert_eq!(weighted_memory_dim(&[3, 3, 4], 3), None);
}

#[test]
fn weighted_memory_dim_rejects_empty_bank() {
    assert_eq!(weighted_memory_dim(&[], 0), None);
    assert_eq!(weighted_memory_dim(&[], 2), None);
}

#[test]
fn sparsemax_support_of_two_tied_logits() {
    // sorted logits [1, 1, 0]: 1 + 1*1 > 1, 1 + 2*1 > 2, 1 + 3*0 > 2 fails
    let tests: Vec<bool> = [1.0f64, 1.0, 0.0]
        .iter()
        .scan(0.0f64, |cumsum, z| {
            *cumsum += z;
            Some((*cumsum, *z))
        })
        .enumerate()
        .map(|(i, (cumsum, z))| 1.0 + ((i + 1) as f64) * z > cumsum)
        .collect();
    assert_eq!(tests, vec![true, true, false]);
    assert_eq!(sparsemax_support(&tests), 2);
}

#[test]
fn sparsemax_support_takes_last_holding_rank() {
    assert_eq!(sparsemax_support(&[true, false, true, false]), 3);
    assert_eq!(sparsemax_support(&[true]), 1);
    assert_eq!(sparsemax_support(&[true, true, true]), 3);
}

#[test]
fn sparsemax_support_is_zero_when_no_test_holds() {
    assert_eq!(sparsemax_support(&[]), 0);
    assert_eq!(sparsemax_support(&[false, false]), 0);
}

#[test]
fn descent_finishes_at_first_convergence() {
    assert_eq!(drive(100, &[false, false, false, true, true]), (3, 4));
    assert_eq!(drive(5, &[true, false, false, false, false]), (0, 1));
}

#[test]
fn descent_uses_whole_budget_without_convergence() {
    assert_eq!(drive(4, &[false, false, false, false]), (4, 4));
    // convergence after the budget is never seen
    assert_eq!(drive(2, &[false, false, true]), (2, 2));
}

#[test]
fn descent_with_zero_budget_evaluates_nothing() {
    let ctl = DescentLoop::new(0);
    assert!(ctl.is_exhausted());
    assert_eq!(ctl.iterations(), 0);
    assert_eq!(ctl.max_iters(), 0);
    assert_eq!(drive(0, &[]), (0, 0));
}

#[test]
fn descent_report_steps_then_finishes() {
    let mut ctl = DescentLoop::new(3);
    assert_eq!(ctl.report(false), DescentAction::Step);
    assert_eq!(ctl.iterations(), 1);
    assert!(!ctl.is_exhausted());
    assert_eq!(ctl.report(true), DescentAction::Finish(1));
    assert_eq!(ctl.iterations(), 1);
}
