use vstd::prelude::*;

use crate::state::no_quarter_state::NoQuarterState;
use crate::state::sold_out_state::SoldOutState;
use crate::state::state::{
    GumballMachineState, GumballMachineStateError, GumballMachineStateId, GumballState,
};

verus! {

/// The crank has been turned and a gumball is owed. Dispensing is the only
/// operation this state accepts, and the only one anywhere that changes the
/// unit count: it releases one ball, then hands control back to
/// `NoQuarterState`, or to `SoldOutState` when the last unit went out.
#[derive(Clone, Copy, Debug)]
pub struct SoldState {
    count: u32,
}

impl SoldState {
    /// The unit count this state carries.
    pub closed spec fn count_spec(&self) -> u32 {
        self.count
    }

    /// A sold state with `count` dispensable units, the one about to be
    /// released included.
    pub fn new(count: u32) -> (s: Self)
        ensures
            s.count_spec() == count,
    {
        SoldState { count }
    }

    /// Releases one gumball. The count must be positive: a sold state with no
    /// units is reachable only through external misuse, and the machine shell
    /// never constructs one.
    pub fn release_ball(&mut self)
        requires
            old(self).count_spec() > 0,
        ensures
            final(self).count_spec() == old(self).count_spec() - 1,
    {
        self.count = self.count - 1;
    }
}

impl Default for SoldState {
    fn default() -> (s: Self)
        ensures
            s.count_spec() == 0,
    {
        SoldState { count: 0 }
    }
}

impl GumballMachineState for SoldState {
    open spec fn spec_id(&self) -> GumballMachineStateId {
        GumballMachineStateId::SoldState
    }

    open spec fn spec_count(&self) -> u32 {
        self.count_spec()
    }

    open spec fn dispense_allowed(&self) -> bool {
        self.count_spec() > 0
    }

    fn get_id(&self) -> GumballMachineStateId {
        proof {
            assert(self.spec_id() == GumballMachineStateId::SoldState);
        }
        GumballMachineStateId::SoldState
    }

    fn get_count(&self) -> u32 {
        self.count
    }

    fn insert_quarter(&mut self) -> Result<GumballState, GumballMachineStateError> {
        Err(GumballMachineStateError::AlreadyTurnedCrank)
    }

    fn eject_quarter(&mut self) -> Result<GumballState, GumballMachineStateError> {
        Err(GumballMachineStateError::AlreadyTurnedCrank)
    }

    fn turn_crank(&mut self) -> Result<GumballState, GumballMachineStateError> {
        Err(GumballMachineStateError::AlreadyTurnedCrank)
    }

    fn dispense(&mut self) -> Result<GumballState, GumballMachineStateError> {
        self.release_ball();
        if self.count > 0 {
            Ok(GumballState::NoQuarter(NoQuarterState::new(self.count)))
        } else {
            Ok(GumballState::SoldOut(SoldOutState::new()))
        }
    }
}

} // verus!
