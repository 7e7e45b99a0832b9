//! Stopping rule of energy-descent retrieval.
//!
//! Retrieval by energy descent evaluates the energy gradient at the current
//! state once per iteration, stops as soon as the gradient norm falls below
//! the tolerance, and otherwise takes a descent step; after `max_iters`
//! iterations it stops regardless. The numeric work stays with the caller:
//! [`DescentLoop`] holds the iteration count, is told after each gradient
//! evaluation whether the state has converged, and answers whether to step
//! or to finish with the number of iterations used.
use vstd::prelude::*;

verus! {

/// What the caller does after reporting one gradient evaluation.
#[derive(Debug, Clone, Copy, PartialEq, Eq, Structural)]
pub enum DescentAction {
    /// Stop; the retrieval used this many iterations.
    Finish(usize),
    /// Take one descent step and evaluate the gradient again.
    Step,
}

/// Abstract state of the stopping rule: iterations completed so far and the
/// iteration budget.
pub struct DescentState {
    pub iter: usize,
    pub max_iters: usize,
}

/// The state in which a retrieval with budget `max_iters` starts.
pub open spec fn initial_state(max_iters: usize) -> DescentState {
    DescentState { iter: 0, max_iters }
}

/// One transition: a converged report finishes with the current iteration
/// count; any other report moves to the next iteration and asks for a step.
pub open spec fn report_spec(s: DescentState, converged: bool) -> (DescentState, DescentAction) {
    if converged {
        (s, DescentAction::Finish(s.iter as usize))
    } else {
        (DescentState { iter: (s.iter + 1) as usize, max_iters: s.max_iters }, DescentAction::Step)
    }
}

/// Iteration count that a retrieval reports when, from state `s`, the
/// convergence test at iteration `i` comes out as `converged[i]`.
pub open spec fn iterations_reported(s: DescentState, converged: Seq<bool>) -> nat
    decreases s.max_iters - s.iter,
{
    if s.iter >= s.max_iters {
        s.max_iters as nat
    } else {
        let (t, a) = report_spec(s, converged[s.iter as int]);
        match a {
            DescentAction::Finish(n) => n as nat,
            DescentAction::Step => iterations_reported(t, converged),
        }
    }
}

/// Number of descent steps the caller is told to take when, from state `s`,
/// the convergence test at iteration `i` comes out as `converged[i]`.
pub open spec fn steps_taken(s: DescentState, converged: Seq<bool>) -> nat
    decreases s.max_iters - s.iter,
{
    if s.iter >= s.max_iters {
        0
    } else {
        let (t, a) = report_spec(s, converged[s.iter as int]);
        match a {
            DescentAction::Finish(_) => 0,
            DescentAction::Step => 1 + steps_taken(t, converged),
        }
    }
}

/// Iteration counter of one energy-descent retrieval.
pub struct DescentLoop {
    iter: usize,
    max_iters: usize,
}

impl View for DescentLoop {
    type V = DescentState;

    closed spec fn view(&self) -> DescentState {
        DescentState { iter: self.iter, max_iters: self.max_iters }
    }
}

impl DescentLoop {
    #[verifier::type_invariant]
    spec fn within_budget(self) -> bool {
        self.iter <= self.max_iters
    }

    /// Starts a retrieval that may run for at most `max_iters` iterations.
    pub fn new(max_iters: usize) -> (s: DescentLoop)
        ensures
            s@ == initial_state(max_iters),
    {
        DescentLoop { iter: 0, max_iters }
    }

    /// Number of iterations completed so far; never more than the budget.
    pub fn iterations(&self) -> (n: usize)
        ensures
            n == self@.iter,
            self@.iter <= self@.max_iters,
    {
        proof {
            use_type_invariant(self);
        }
        self.iter
    }

    /// The iteration budget.
    pub fn max_iters(&self) -> (n: usize)
        ensures
            n == self@.max_iters,
    {
        self.max_iters
    }

    /// Whether the budget is spent, so that no further gradient is evaluated.
    pub fn is_exhausted(&self) -> (b: bool)
        ensures
            b == (self@.iter >= self@.max_iters),
            b ==> self@.iter == self@.max_iters,
    {
        proof {
            use_type_invariant(self);
        }
        self.iter >= self.max_iters
    }

    /// Reports the convergence test of the gradient just evaluated (gradient
    /// norm below the tolerance) and returns what to do next.
    pub fn report(&mut self, converged: bool) -> (action: DescentAction)
        requires
            old(self)@.iter < old(self)@.max_iters,
        ensures
            (final(self)@, action) == report_spec(old(self)@, converged),
    {
        proof {
            use_type_invariant(&*self);
        }
        if converged {
            DescentAction::Finish(self.iter)
        } else {
            self.iter = self.iter + 1;
            DescentAction::Step
        }
    }
}

/// Retrieval reports the first iteration whose convergence test holds, and
/// the full budget when none within the budget does: the reported count
/// never exceeds `max_iters`, the test holds at the reported iteration when
/// it is below the budget, and fails at every earlier iteration.
pub proof fn lemma_reports_first_convergence(max_iters: usize, converged: Seq<bool>)
    requires
        converged.len() >= max_iters,
    ensures
        iterations_reported(initial_state(max_iters), converged) <= max_iters,
        iterations_reported(initial_state(max_iters), converged) < max_iters ==> converged[iterations_reported(
            initial_state(max_iters),
            converged,
        ) as int],
        forall|j: int|
            0 <= j < iterations_reported(initial_state(max_iters), converged) ==> !#[trigger] converged[j],
{
    lemma_reports_first_convergence_from(initial_state(max_iters), converged);
}

/// A report whose convergence test fails asks for a descent step at every
/// iteration of the budget, the last one included, and moves to the next
/// iteration; a report whose test holds finishes with the current count.
pub proof fn lemma_failed_test_always_steps(s: DescentState)
    requires
        s.iter < s.max_iters,
    ensures
        report_spec(s, false).1 == DescentAction::Step,
        report_spec(s, false).0.iter == s.iter + 1,
        report_spec(s, false).0.max_iters == s.max_iters,
        report_spec(s, true).1 == DescentAction::Finish(s.iter),
        report_spec(s, true).0 == s,
{
}

/// The number of descent steps a retrieval takes equals the iteration count
/// it reports: `max_iters` steps when no test within the budget holds, and
/// one step per failed test before the first that holds.
pub proof fn lemma_steps_match_reported_iterations(max_iters: usize, converged: Seq<bool>)
    requires
        converged.len() >= max_iters,
    ensures
        steps_taken(initial_state(max_iters), converged) == iterations_reported(
            initial_state(max_iters),
            converged,
        ),
        (forall|j: int| 0 <= j < max_iters ==> !#[trigger] converged[j]) ==> steps_taken(
            initial_state(max_iters),
            converged,
        ) == max_iters,
{
    lemma_steps_match_from(initial_state(max_iters), converged);
    lemma_reports_first_convergence(max_iters, converged);
    if forall|j: int| 0 <= j < max_iters ==> !#[trigger] converged[j] {
        let r = iterations_reported(initial_state(max_iters), converged);
        if r < max_iters {
            assert(!converged[r as int]);
        }
    }
}

proof fn lemma_steps_match_from(s: DescentState, converged: Seq<bool>)
    requires
        s.iter <= s.max_iters,
    ensures
        s.iter + steps_taken(s, converged) == iterations_reported(s, converged),
    decreases s.max_iters - s.iter,
{
    if s.iter < s.max_iters && !converged[s.iter as int] {
        let t = DescentState { iter: (s.iter + 1) as usize, max_iters: s.max_iters };
        lemma_steps_match_from(t, converged);
    }
}

proof fn lemma_reports_first_convergence_from(s: DescentState, converged: Seq<bool>)
    requires
        s.iter <= s.max_iters,
        converged.len() >= s.max_iters,
        forall|j: int| 0 <= j < s.iter ==> !#[trigger] converged[j],
    ensures
        s.iter <= iterations_reported(s, converged) <= s.max_iters,
        iterations_reported(s, converged) < s.max_iters ==> converged[iterations_reported(
            s,
            converged,
        ) as int],
        forall|j: int| 0 <= j < iterations_reported(s, converged) ==> !#[trigger] converged[j],
    decreases s.max_iters - s.iter,
{
    if s.iter < s.max_iters && !converged[s.iter as int] {
        let t = DescentState { iter: (s.iter + 1) as usize, max_iters: s.max_iters };
        lemma_reports_first_convergence_from(t, converged);
    }
}

} // verus!
