use vstd::prelude::*;

use crate::state::state::{
    GumballMachineState, GumballMachineStateError, GumballMachineStateId, GumballState,
};

verus! {

/// No units are left. The state carries no count — it stands for exactly
/// zero — and permanently rejects all four operations with `OutOfGumballs`
/// until the machine is restocked, which only a constructor can do.
#[derive(Clone, Copy, Debug)]
pub struct SoldOutState;

impl SoldOutState {
    /// The sold-out state.
    pub fn new() -> (s: Self)
        ensures
            s.spec_count() == 0,
    {
        SoldOutState
    }
}

impl Default for SoldOutState {
    fn default() -> (s: Self)
        ensures
            s.spec_count() == 0,
    {
        SoldOutState
    }
}

impl GumballMachineState for SoldOutState {
    open spec fn spec_id(&self) -> GumballMachineStateId {
        GumballMachineStateId::SoldOutState
    }

    open spec fn spec_count(&self) -> u32 {
        0
    }

    open spec fn dispense_allowed(&self) -> bool {
        true
    }

    fn get_id(&self) -> GumballMachineStateId {
        proof {
            assert(self.spec_id() == GumballMachineStateId::SoldOutState);
        }
        GumballMachineStateId::SoldOutState
    }

    fn get_count(&self) -> u32 {
        0
    }

    fn insert_quarter(&mut self) -> Result<GumballState, GumballMachineStateError> {
        Err(GumballMachineStateError::OutOfGumballs)
    }

    fn eject_quarter(&mut self) -> Result<GumballState, GumballMachineStateError> {
        Err(GumballMachineStateError::OutOfGumballs)
    }

    fn turn_crank(&mut self) -> Result<GumballState, GumballMachineStateError> {
        Err(GumballMachineStateError::OutOfGumballs)
    }

    fn dispense(&mut self) -> Result<GumballState, GumballMachineStateError> {
        Err(GumballMachineStateError::OutOfGumballs)
    }
}

} // verus!
