use vstd::prelude::*;

verus! {

/// The most corrections that one backward-Euler update may make.
pub const N_ITERATIONS_MAX: usize = 20;

/// What a backward-Euler update does after testing its residual.
#[derive(Clone, Copy, Debug, PartialEq, Eq)]
pub enum NewtonAction {
    /// The residual met the tolerance: the current iterate is the result.
    Accept,
    /// Apply one Newton correction and test the residual again.
    Correct,
    /// The correction budget is spent: the update did not converge.
    GiveUp,
}

/// The action taken on a residual test, after `corrections` corrections.
pub open spec fn newton_decision(corrections: nat, residual_small: bool) -> NewtonAction {
    if corrections >= N_ITERATIONS_MAX {
        NewtonAction::GiveUp
    } else if residual_small {
        NewtonAction::Accept
    } else {
        NewtonAction::Correct
    }
}

/// The actions taken in a run whose residual tests come out as `tests`,
/// starting after `corrections` corrections; the run ends at the first
/// action that is not a correction, or when the tests run out.
pub open spec fn run_actions(corrections: nat, tests: Seq<bool>) -> Seq<NewtonAction>
    decreases tests.len(),
{
    if tests.len() == 0 {
        Seq::empty()
    } else {
        let a = newton_decision(corrections, tests[0]);
        if a == NewtonAction::Correct {
            seq![a] + run_actions(corrections + 1, tests.drop_first())
        } else {
            seq![a]
        }
    }
}

/// The state of the local Newton iteration of one backward-Euler update.
pub struct NewtonIteration {
    corrections: usize,
}

impl NewtonIteration {
    /// The number of corrections made so far.
    pub closed spec fn spec_corrections(&self) -> nat {
        self.corrections as nat
    }

    pub closed spec fn wf(&self) -> bool {
        self.corrections <= N_ITERATIONS_MAX
    }

    pub fn new() -> (r: NewtonIteration)
        ensures
            r.wf(),
            r.spec_corrections() == 0,
    {
        NewtonIteration { corrections: 0 }
    }

    pub fn corrections(&self) -> (r: usize)
        ensures
            r == self.spec_corrections(),
    {
        self.corrections
    }

    /// Decides what follows a residual test. Once `N_ITERATIONS_MAX`
    /// corrections have been made the update gives up, whatever the test says;
    /// before that, a small residual is accepted and a large one corrected.
    pub fn next(&mut self, residual_small: bool) -> (r: NewtonAction)
        requires
            old(self).wf(),
        ensures
            final(self).wf(),
            r == newton_decision(old(self).spec_corrections(), residual_small),
            final(self).spec_corrections() == if r == NewtonAction::Correct {
                old(self).spec_corrections() + 1
            } else {
                old(self).spec_corrections()
            },
    {
        if self.corrections >= N_ITERATIONS_MAX {
            NewtonAction::GiveUp
        } else if residual_small {
            NewtonAction::Accept
        } else {
            self.corrections = self.corrections + 1;
            NewtonAction::Correct
        }
    }
}

proof fn lemma_run_ends(corrections: nat, tests: Seq<bool>)
    requires
        corrections <= N_ITERATIONS_MAX,
        tests.len() > N_ITERATIONS_MAX - corrections,
    ensures
        ({
            let acts = run_actions(corrections, tests);
            &&& 1 <= acts.len() <= N_ITERATIONS_MAX - corrections + 1
            &&& acts.last() != NewtonAction::Correct
            &&& forall|i: int| 0 <= i < acts.len() - 1 ==> acts[i] == NewtonAction::Correct
        }),
    decreases tests.len(),
{
    let a = newton_decision(corrections, tests[0]);
    if a == NewtonAction::Correct {
        lemma_run_ends(corrections + 1, tests.drop_first());
        let rest = run_actions(corrections + 1, tests.drop_first());
        let acts = seq![a] + rest;
        assert(run_actions(corrections, tests) == acts);
        assert forall|i: int| 0 <= i < acts.len() - 1 implies acts[i] == NewtonAction::Correct by {
            if i > 0 {
                assert(acts[i] == rest[i - 1]);
            }
        }
    }
}

proof fn lemma_run_never_small(corrections: nat, tests: Seq<bool>)
    requires
        corrections <= N_ITERATIONS_MAX,
        tests.len() > N_ITERATIONS_MAX - corrections,
        forall|i: int| 0 <= i < tests.len() ==> !tests[i],
    ensures
        run_actions(corrections, tests).len() == N_ITERATIONS_MAX - corrections + 1,
        run_actions(corrections, tests).last() == NewtonAction::GiveUp,
    decreases tests.len(),
{
    if corrections < N_ITERATIONS_MAX {
        assert(!tests[0]);
        lemma_run_never_small(corrections + 1, tests.drop_first());
    }
}

/// A backward-Euler update stops within `N_ITERATIONS_MAX + 1` residual
/// tests, whatever they show: every action before the last is a correction,
/// and the last accepts the iterate or gives up.
pub proof fn lemma_newton_stops(tests: Seq<bool>)
    requires
        tests.len() > N_ITERATIONS_MAX,
    ensures
        ({
            let acts = run_actions(0, tests);
            &&& 1 <= acts.len() <= N_ITERATIONS_MAX + 1
            &&& acts.last() == NewtonAction::Accept || acts.last() == NewtonAction::GiveUp
            &&& forall|i: int| 0 <= i < acts.len() - 1 ==> acts[i] == NewtonAction::Correct
        }),
{
    lemma_run_ends(0, tests);
}

/// When no residual test ever meets the tolerance, the update makes exactly
/// `N_ITERATIONS_MAX` corrections and then gives up.
pub proof fn lemma_newton_gives_up(tests: Seq<bool>)
    requires
        tests.len() > N_ITERATIONS_MAX,
        forall|i: int| 0 <= i < tests.len() ==> !tests[i],
    ensures
        run_actions(0, tests).len() == N_ITERATIONS_MAX + 1,
        run_actions(0, tests).last() == NewtonAction::GiveUp,
{
    lemma_run_never_small(0, tests);
}

} // verus!
