use vstd::prelude::*;

use crate::state::has_quarter_state::HasQuarterState;
use crate::state::state::{
    GumballMachineState, GumballMachineStateError, GumballMachineStateId, GumballState,
};

verus! {

/// The machine is waiting for a quarter. Inserting one is the only operation
/// it accepts; everything else is rejected with `NoQuarterInserted`.
#[derive(Clone, Copy, Debug)]
pub struct NoQuarterState {
    count: u32,
}

impl NoQuarterState {
    /// The unit count this state carries.
    pub closed spec fn count_spec(&self) -> u32 {
        self.count
    }

    /// A quarter-less state holding `count` dispensable units.
    pub fn new(count: u32) -> (s: Self)
        ensures
            s.count_spec() == count,
    {
        NoQuarterState { count }
    }
}

impl Default for NoQuarterState {
    fn default() -> (s: Self)
        ensures
            s.count_spec() == 0,
    {
        NoQuarterState { count: 0 }
    }
}

impl GumballMachineState for NoQuarterState {
    open spec fn spec_id(&self) -> GumballMachineStateId {
        GumballMachineStateId::NoQuarterState
    }

    open spec fn spec_count(&self) -> u32 {
        self.count_spec()
    }

    open spec fn dispense_allowed(&self) -> bool {
        true
    }

    fn get_id(&self) -> GumballMachineStateId {
        proof {
            assert(self.spec_id() == GumballMachineStateId::NoQuarterState);
        }
        GumballMachineStateId::NoQuarterState
    }

    fn get_count(&self) -> u32 {
        self.count
    }

    fn insert_quarter(&mut self) -> Result<GumballState, GumballMachineStateError> {
        Ok(GumballState::HasQuarter(HasQuarterState::new(self.count)))
    }

    fn eject_quarter(&mut self) -> Result<GumballState, GumballMachineStateError> {
        Err(GumballMachineStateError::NoQuarterInserted)
    }

    fn turn_crank(&mut self) -> Result<GumballState, GumballMachineStateError> {
        Err(GumballMachineStateError::NoQuarterInserted)
    }

    fn dispense(&mut self) -> Result<GumballState, GumballMachineStateError> {
        Err(GumballMachineStateError::NoQuarterInserted)
    }
}

} // verus!
