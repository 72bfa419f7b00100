use vstd::prelude::*;

use crate::state::no_quarter_state::NoQuarterState;
use crate::state::sold_state::SoldState;
use crate::state::state::{
    GumballMachineState, GumballMachineStateError, GumballMachineStateId, GumballState,
};

verus! {

/// A quarter has been inserted and the crank has not been turned. The caller
/// can eject the quarter or commit to a dispense attempt by turning the crank.
#[derive(Clone, Copy, Debug)]
pub struct HasQuarterState {
    count: u32,
}

impl HasQuarterState {
    /// The unit count this state carries.
    pub closed spec fn count_spec(&self) -> u32 {
        self.count
    }

    /// A quarter-holding state with `count` dispensable units.
    pub fn new(count: u32) -> (s: Self)
        ensures
            s.count_spec() == count,
    {
        HasQuarterState { count }
    }
}

impl Default for HasQuarterState {
    fn default() -> (s: Self)
        ensures
            s.count_spec() == 0,
    {
        HasQuarterState { count: 0 }
    }
}

impl GumballMachineState for HasQuarterState {
    open spec fn spec_id(&self) -> GumballMachineStateId {
        GumballMachineStateId::HasQuarterState
    }

    open spec fn spec_count(&self) -> u32 {
        self.count_spec()
    }

    open spec fn dispense_allowed(&self) -> bool {
        true
    }

    fn get_id(&self) -> GumballMachineStateId {
        proof {
            assert(self.spec_id() == GumballMachineStateId::HasQuarterState);
        }
        GumballMachineStateId::HasQuarterState
    }

    fn get_count(&self) -> u32 {
        self.count
    }

    fn insert_quarter(&mut self) -> Result<GumballState, GumballMachineStateError> {
        Err(GumballMachineStateError::AlreadyHasQuarter)
    }

    fn eject_quarter(&mut self) -> Result<GumballState, GumballMachineStateError> {
        Ok(GumballState::NoQuarter(NoQuarterState::new(self.count)))
    }

    fn turn_crank(&mut self) -> Result<GumballState, GumballMachineStateError> {
        Ok(GumballState::Sold(SoldState::new(self.count)))
    }

    fn dispense(&mut self) -> Result<GumballState, GumballMachineStateError> {
        Err(GumballMachineStateError::CrankHasNotBeenTurned)
    }
}

} // verus!
