//! The unit of work: all-or-nothing sequencing of one operation's calls.
//!
//! A plan is executed as one atomic unit. The machine offers the calls in
//! order — the forward-call first, then the skim transfers — and consumes
//! one outcome per call. Any failure rolls the whole unit back and no
//! further call is ever offered; the unit commits only when every call has
//! succeeded. The host performs each offered call and reports its outcome;
//! discarding the effects of a rolled-back unit is the host's part of the
//! bargain.

use vstd::prelude::*;
use vstd::slice::slice_index_get;
use crate::call::{instr_eq, Instruction, Plan, SkimCall};

verus! {

/// The reported result of one performed call.
#[derive(Clone, Copy, Debug, PartialEq, Eq, Structural)]
pub enum CallOutcome {
    Success,
    Failure,
}

/// Where a unit of work stands.
#[derive(Clone, Copy, Debug, PartialEq, Eq, Structural)]
pub enum UnitState {
    /// Calls remain to be issued.
    Running,
    /// Every call succeeded; the unit's effects stand.
    Committed,
    /// A call failed; the host discards every effect since the unit began.
    RolledBack,
}

/// One call a unit issues.
#[derive(Clone, Debug)]
pub enum Action {
    /// The forward-call to the external program.
    Forward(Instruction),
    /// A skim transfer through the token program.
    Skim(SkimCall),
}

/// Equality of two actions, comparing forwarded instructions by contents.
pub open spec fn action_eq(a: Action, b: Action) -> bool {
    match (a, b) {
        (Action::Forward(x), Action::Forward(y)) => instr_eq(x, y),
        (Action::Skim(x), Action::Skim(y)) => x == y,
        _ => false,
    }
}

impl Action {
    /// An exact copy of this action.
    pub fn duplicate(&self) -> (r: Action)
        ensures
            action_eq(r, *self),
    {
        match self {
            Action::Forward(instr) => Action::Forward(instr.duplicate()),
            Action::Skim(skim) => Action::Skim(*skim),
        }
    }
}

/// The unit-of-work machine for one operation.
pub struct UnitOfWork {
    actions: Vec<Action>,
    issued: usize,
    state: UnitState,
    history: Ghost<Seq<CallOutcome>>,
}

impl UnitOfWork {
    /// The planned calls, in issue order.
    pub closed spec fn actions_spec(&self) -> Seq<Action> {
        self.actions@
    }

    /// How many calls have had their outcome recorded.
    pub closed spec fn issued_spec(&self) -> int {
        self.issued as int
    }

    /// Where the unit stands.
    pub closed spec fn state_spec(&self) -> UnitState {
        self.state
    }

    /// The outcomes recorded so far, in issue order.
    pub closed spec fn history_spec(&self) -> Seq<CallOutcome> {
        self.history@
    }

    /// Well-formedness: the plan starts with the forward-call and continues
    /// with skims only; outcomes are recorded one per issued call; the unit
    /// runs only while every recorded outcome is a success, commits exactly
    /// when all calls succeeded, and is rolled back exactly when the latest
    /// outcome was a failure.
    pub open spec fn wf(&self) -> bool {
        &&& self.history_spec().len() == self.issued_spec()
        &&& self.issued_spec() <= self.actions_spec().len()
        &&& self.actions_spec().len() >= 1
        &&& self.actions_spec()[0] is Forward
        &&& forall|i: int|
            1 <= i < self.actions_spec().len() ==> self.actions_spec()[i] is Skim
        &&& match self.state_spec() {
            UnitState::Running => self.issued_spec() < self.actions_spec().len() && forall|i: int|
                0 <= i < self.issued_spec() ==> self.history_spec()[i] is Success,
            UnitState::Committed => self.issued_spec() == self.actions_spec().len() && forall|
                i: int,
            |
                0 <= i < self.issued_spec() ==> self.history_spec()[i] is Success,
            UnitState::RolledBack => 1 <= self.issued_spec() && self.history_spec()[
                self.issued_spec() - 1
            ] is Failure && forall|i: int|
                0 <= i < self.issued_spec() - 1 ==> self.history_spec()[i] is Success,
        }
    }

    /// The next call to issue: defined exactly while the unit runs.
    pub open spec fn spec_next_action(&self) -> Option<Action> {
        if self.state_spec() is Running {
            Some(self.actions_spec()[self.issued_spec()])
        } else {
            None
        }
    }

    /// Opens a unit over a plan: the forward-call first, then the plan's
    /// skims in order, nothing issued yet.
    pub fn begin(plan: Plan) -> (u: UnitOfWork)
        ensures
            u.wf(),
            u.state_spec() is Running,
            u.issued_spec() == 0,
            u.history_spec() == Seq::<CallOutcome>::empty(),
            u.actions_spec().len() == 1 + plan.skims@.len(),
            (u.actions_spec()[0] matches Action::Forward(f) && instr_eq(f, plan.forward)),
            forall|j: int|
                0 <= j < plan.skims@.len() ==> u.actions_spec()[j + 1] == Action::Skim(
                    plan.skims@[j],
                ),
    {
        let ghost orig_forward = plan.forward;
        let ghost orig_skims = plan.skims@;
        let Plan { forward, skims } = plan;
        let mut actions: Vec<Action> = Vec::new();
        actions.push(Action::Forward(forward));
        let mut i: usize = 0;
        while i < skims.len()
            invariant
                i <= skims.len(),
                skims@ == orig_skims,
                actions@.len() == 1 + i,
                (actions@[0] matches Action::Forward(f) && instr_eq(f, orig_forward)),
                forall|j: int| 0 <= j < i ==> actions@[j + 1] == Action::Skim(orig_skims[j]),
            decreases skims.len() - i,
        {
            actions.push(Action::Skim(skims[i]));
            i = i + 1;
        }
        proof {
            assert forall|k: int| 1 <= k < actions@.len() implies actions@[k] is Skim by {
                assert(actions@[k] == Action::Skim(orig_skims[k - 1]));
            }
        }
        UnitOfWork {
            actions,
            issued: 0,
            state: UnitState::Running,
            history: Ghost(Seq::empty()),
        }
    }

    /// Whether calls remain to be issued.
    pub fn is_running(&self) -> (b: bool)
        ensures
            b == (self.state_spec() is Running),
    {
        self.state == UnitState::Running
    }

    /// Where the unit stands.
    pub fn status(&self) -> (s: UnitState)
        ensures
            s == self.state_spec(),
    {
        self.state
    }

    /// The next call to perform, while the unit runs; nothing once it has
    /// committed or rolled back.
    pub fn next_action(&self) -> (r: Option<Action>)
        requires
            self.wf(),
        ensures
            self.state_spec() is Running ==> (r matches Some(a) && action_eq(
                a,
                self.actions_spec()[self.issued_spec()],
            )),
            !(self.state_spec() is Running) ==> r is None,
    {
        if self.state == UnitState::Running {
            let action = slice_index_get(self.actions.as_slice(), self.issued);
            Some(action.duplicate())
        } else {
            None
        }
    }

    /// Consumes the outcome of the call just performed. A failure rolls the
    /// unit back, after which no call is ever offered again; the success of
    /// the last planned call commits the unit.
    pub fn record(&mut self, outcome: CallOutcome)
        requires
            old(self).wf(),
            old(self).state_spec() is Running,
        ensures
            final(self).wf(),
            final(self).actions_spec() == old(self).actions_spec(),
            final(self).issued_spec() == old(self).issued_spec() + 1,
            final(self).history_spec() == old(self).history_spec().push(outcome),
            outcome is Failure ==> final(self).state_spec() is RolledBack
                && final(self).spec_next_action() is None,
            (outcome is Success && old(self).issued_spec() + 1 == old(self).actions_spec().len())
                ==> final(self).state_spec() is Committed,
            (outcome is Success && old(self).issued_spec() + 1 < old(self).actions_spec().len())
                ==> final(self).state_spec() is Running,
    {
        let total = self.actions.len();
        self.issued = self.issued + 1;
        self.history = Ghost(self.history@.push(outcome));
        match outcome {
            CallOutcome::Failure => {
                self.state = UnitState::RolledBack;
            },
            CallOutcome::Success => {
                if self.issued == total {
                    self.state = UnitState::Committed;
                }
            },
        }
    }
}

/// A skim call is only ever offered after the forward-call — the first call
/// of every unit — has recorded a success. With `record` rolling the unit
/// back on any failure and offering nothing further, a forward-call failure
/// prevents every skim call from being issued.
pub proof fn lemma_skim_only_after_forward_success(u: UnitOfWork)
    requires
        u.wf(),
        (u.spec_next_action() matches Some(a) && a is Skim),
    ensures
        u.issued_spec() >= 1,
        u.history_spec()[0] is Success,
{
    if u.issued_spec() == 0 {
        assert(u.actions_spec()[0] is Forward);
    }
}

/// A committed unit recorded a success for every planned call: the unit's
/// effects stand only when the forward-call and every skim succeeded.
pub proof fn lemma_commit_needs_all_success(u: UnitOfWork)
    requires
        u.wf(),
        u.state_spec() is Committed,
    ensures
        u.history_spec().len() == u.actions_spec().len(),
        forall|i: int| 0 <= i < u.history_spec().len() ==> u.history_spec()[i] is Success,
{
}

} // verus!
