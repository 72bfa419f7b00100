use vstd::prelude::*;

use crate::state::no_quarter_state::NoQuarterState;
use crate::state::sold_out_state::SoldOutState;
use crate::state::state::{
    transition, GumballMachineState, GumballMachineStateError, GumballMachineStateId, GumballOp,
    GumballState,
};

verus! {

/// The machine shell. It owns the current state, which carries the unit
/// count, and forwards each public operation to the state's handler: on
/// success the returned successor replaces the held state, on failure nothing
/// changes and the error is surfaced.
///
/// Well-formedness (`wf`) is established by `new` and preserved by every
/// operation: outside `SoldOutState` the unit count is positive, so the
/// machine is sold out exactly when the count is zero.
#[derive(Clone, Copy, Debug)]
pub struct Machine {
    current_state: GumballState,
}

/// How one operation relates the machine after the call to the machine before
/// it: the transition table row for the old state either names a successor,
/// which the new machine holds, or names an error, which is returned while the
/// machine stays exactly as it was.
pub open spec fn machine_step(
    pre: Machine,
    post: Machine,
    op: GumballOp,
    r: Result<(), GumballMachineStateError>,
) -> bool {
    match transition(pre.spec_state_id(), pre.spec_unit_count(), op) {
        Ok((next_id, next_count)) => r == Ok::<(), GumballMachineStateError>(())
            && post.spec_state_id() == next_id && post.spec_unit_count() == next_count,
        Err(e) => r matches Err(a) && a == e && post == pre,
    }
}

impl Machine {
    /// The tag of the current state.
    pub closed spec fn spec_state_id(&self) -> GumballMachineStateId {
        self.current_state.spec_id()
    }

    /// The number of dispensable units remaining.
    pub closed spec fn spec_unit_count(&self) -> nat {
        self.current_state.spec_count() as nat
    }

    /// The machine's invariant: the unit count is positive in every state but
    /// `SoldOutState`. `SoldOutState` itself carries no count, so the machine
    /// is in it if and only if the count is zero.
    pub open spec fn wf(&self) -> bool {
        self.spec_state_id() != GumballMachineStateId::SoldOutState ==> self.spec_unit_count() > 0
    }

    /// A machine stocked with `initial_unit_count` units: ready to take a
    /// quarter if there is anything to dispense, sold out otherwise.
    pub fn new(initial_unit_count: u32) -> (m: Machine)
        ensures
            m.wf(),
            m.spec_unit_count() == initial_unit_count as nat,
            m.spec_state_id() == if initial_unit_count == 0 {
                GumballMachineStateId::SoldOutState
            } else {
                GumballMachineStateId::NoQuarterState
            },
    {
        if initial_unit_count == 0 {
            Machine { current_state: GumballState::SoldOut(SoldOutState::new()) }
        } else {
            Machine { current_state: GumballState::NoQuarter(NoQuarterState::new(initial_unit_count)) }
        }
    }

    /// The tag of the current state; a pure observer.
    pub fn state_id(&self) -> (id: GumballMachineStateId)
        ensures
            id == self.spec_state_id(),
    {
        self.current_state.get_id()
    }

    /// The number of dispensable units remaining; a pure observer.
    pub fn unit_count(&self) -> (count: u32)
        ensures
            count as nat == self.spec_unit_count(),
    {
        self.current_state.get_count()
    }

    pub fn insert_quarter(&mut self) -> (r: Result<(), GumballMachineStateError>)
        requires
            old(self).wf(),
        ensures
            final(self).wf(),
            machine_step(*old(self), *final(self), GumballOp::InsertQuarter, r),
    {
        let mut s = self.current_state;
        match s.insert_quarter() {
            Ok(next) => {
                self.current_state = next;
                Ok(())
            },
            Err(e) => Err(e),
        }
    }

    pub fn eject_quarter(&mut self) -> (r: Result<(), GumballMachineStateError>)
        requires
            old(self).wf(),
        ensures
            final(self).wf(),
            machine_step(*old(self), *final(self), GumballOp::EjectQuarter, r),
    {
        let mut s = self.current_state;
        match s.eject_quarter() {
            Ok(next) => {
                self.current_state = next;
                Ok(())
            },
            Err(e) => Err(e),
        }
    }

    pub fn turn_crank(&mut self) -> (r: Result<(), GumballMachineStateError>)
        requires
            old(self).wf(),
        ensures
            final(self).wf(),
            machine_step(*old(self), *final(self), GumballOp::TurnCrank, r),
    {
        let mut s = self.current_state;
        match s.turn_crank() {
            Ok(next) => {
                self.current_state = next;
                Ok(())
            },
            Err(e) => Err(e),
        }
    }

    pub fn dispense(&mut self) -> (r: Result<(), GumballMachineStateError>)
        requires
            old(self).wf(),
        ensures
            final(self).wf(),
            machine_step(*old(self), *final(self), GumballOp::Dispense, r),
    {
        let mut s = self.current_state;
        match s.dispense() {
            Ok(next) => {
                self.current_state = next;
                Ok(())
            },
            Err(e) => Err(e),
        }
    }
}

/// The machine is in `SoldOutState` if and only if its unit count is zero.
pub proof fn lemma_sold_out_iff_empty(m: Machine)
    requires
        m.wf(),
    ensures
        m.spec_state_id() == GumballMachineStateId::SoldOutState <==> m.spec_unit_count() == 0,
{
}

/// For every machine and operation exactly one row of the transition table
/// applies: two outcomes of the same operation on the same machine agree on
/// the returned result and on everything observable of the machine after it.
pub proof fn lemma_step_deterministic(
    pre: Machine,
    post_a: Machine,
    r_a: Result<(), GumballMachineStateError>,
    post_b: Machine,
    r_b: Result<(), GumballMachineStateError>,
    op: GumballOp,
)
    requires
        machine_step(pre, post_a, op, r_a),
        machine_step(pre, post_b, op, r_b),
    ensures
        r_a == r_b,
        post_a.spec_state_id() == post_b.spec_state_id(),
        post_a.spec_unit_count() == post_b.spec_unit_count(),
{
}

/// The unit count never increases across an operation, and it decreases —
/// by exactly one — only on a successful dispense from `SoldState`.
pub proof fn lemma_unit_count_monotonic(
    pre: Machine,
    post: Machine,
    op: GumballOp,
    r: Result<(), GumballMachineStateError>,
)
    requires
        machine_step(pre, post, op, r),
    ensures
        post.spec_unit_count() <= pre.spec_unit_count(),
        post.spec_unit_count() < pre.spec_unit_count() ==> r is Ok && op == GumballOp::Dispense
            && pre.spec_state_id() == GumballMachineStateId::SoldState
            && post.spec_unit_count() == pre.spec_unit_count() - 1,
{
}

/// An operation that fails leaves the machine — state tag and unit count —
/// exactly as it was.
pub proof fn lemma_failure_changes_nothing(
    pre: Machine,
    post: Machine,
    op: GumballOp,
    r: Result<(), GumballMachineStateError>,
)
    requires
        machine_step(pre, post, op, r),
        r is Err,
    ensures
        post == pre,
{
}

} // verus!
