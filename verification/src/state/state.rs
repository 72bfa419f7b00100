use vstd::prelude::*;

use crate::state::has_quarter_state::HasQuarterState;
use crate::state::no_quarter_state::NoQuarterState;
use crate::state::sold_out_state::SoldOutState;
use crate::state::sold_state::SoldState;

verus! {

/// The four mutually exclusive operating modes of a gumball machine.
#[derive(Clone, Copy, Debug, PartialEq, Eq, Structural)]
pub enum GumballMachineStateId {
    NoQuarterState,
    HasQuarterState,
    SoldOutState,
    SoldState,
}

/// Why a requested operation is inapplicable in the current state. Every
/// error is final in place: the state is left unchanged, and the caller must
/// change the situation before the operation can succeed.
#[derive(Clone, Copy, Debug, PartialEq, Eq, Structural)]
pub enum GumballMachineStateError {
    NoQuarterInserted,
    AlreadyHasQuarter,
    CrankHasNotBeenTurned,
    AlreadyTurnedCrank,
    OutOfGumballs,
}

/// The four operations a caller can request of the machine.
#[derive(Clone, Copy, Debug, PartialEq, Eq, Structural)]
pub enum GumballOp {
    InsertQuarter,
    EjectQuarter,
    TurnCrank,
    Dispense,
}

/// One state value. A transition consumes the old value and produces a new
/// one, carrying the unit count forward; no state outlives its replacement.
#[derive(Clone, Copy, Debug)]
pub enum GumballState {
    NoQuarter(NoQuarterState),
    HasQuarter(HasQuarterState),
    Sold(SoldState),
    SoldOut(SoldOutState),
}

/// The transition table. Exactly one row per state/operation pair: each pair
/// either names the successor state with its unit count, or names the one
/// error that rejects the operation there.
///
/// Dispensing is the only operation that changes the count: it decrements by
/// exactly one, and reaching zero always routes to `SoldOutState`, never back
/// to `NoQuarterState`. A dispense from `SoldState` with a zero count never
/// arises in a machine (the shell's invariant keeps the count positive outside
/// `SoldOutState`); the table routes it to `SoldOutState` so that it is total.
pub open spec fn transition(
    id: GumballMachineStateId,
    count: nat,
    op: GumballOp,
) -> Result<(GumballMachineStateId, nat), GumballMachineStateError> {
    match (id, op) {
        (GumballMachineStateId::NoQuarterState, GumballOp::InsertQuarter) => Ok(
            (GumballMachineStateId::HasQuarterState, count),
        ),
        (GumballMachineStateId::NoQuarterState, _) => Err(
            GumballMachineStateError::NoQuarterInserted,
        ),
        (GumballMachineStateId::HasQuarterState, GumballOp::InsertQuarter) => Err(
            GumballMachineStateError::AlreadyHasQuarter,
        ),
        (GumballMachineStateId::HasQuarterState, GumballOp::EjectQuarter) => Ok(
            (GumballMachineStateId::NoQuarterState, count),
        ),
        (GumballMachineStateId::HasQuarterState, GumballOp::TurnCrank) => Ok(
            (GumballMachineStateId::SoldState, count),
        ),
        (GumballMachineStateId::HasQuarterState, GumballOp::Dispense) => Err(
            GumballMachineStateError::CrankHasNotBeenTurned,
        ),
        (GumballMachineStateId::SoldState, GumballOp::Dispense) => if count >= 2 {
            Ok((GumballMachineStateId::NoQuarterState, (count - 1) as nat))
        } else {
            Ok((GumballMachineStateId::SoldOutState, 0))
        },
        (GumballMachineStateId::SoldState, _) => Err(GumballMachineStateError::AlreadyTurnedCrank),
        (GumballMachineStateId::SoldOutState, _) => Err(GumballMachineStateError::OutOfGumballs),
    }
}

impl GumballState {
    /// The tag of the state this value holds.
    pub open spec fn tag(&self) -> GumballMachineStateId {
        match self {
            GumballState::NoQuarter(_) => GumballMachineStateId::NoQuarterState,
            GumballState::HasQuarter(_) => GumballMachineStateId::HasQuarterState,
            GumballState::Sold(_) => GumballMachineStateId::SoldState,
            GumballState::SoldOut(_) => GumballMachineStateId::SoldOutState,
        }
    }

    /// The unit count this value carries; `SoldOutState` carries zero.
    pub open spec fn units(&self) -> u32 {
        match self {
            GumballState::NoQuarter(s) => s.count_spec(),
            GumballState::HasQuarter(s) => s.count_spec(),
            GumballState::Sold(s) => s.count_spec(),
            GumballState::SoldOut(_) => 0,
        }
    }
}

/// The contract every state handler meets: the outcome of an operation on a
/// state with tag `id` and unit count `count` is exactly what the transition
/// table gives for that row.
pub open spec fn step_post(
    id: GumballMachineStateId,
    count: nat,
    op: GumballOp,
    r: Result<GumballState, GumballMachineStateError>,
) -> bool {
    match transition(id, count, op) {
        Ok((next_id, next_count)) => r matches Ok(s) && s.tag() == next_id && s.units() as nat
            == next_count,
        Err(e) => r matches Err(a) && a == e,
    }
}

/// The common contract of the four states: observers for the tag and the unit
/// count, and the four operations, each pinned to the transition table.
pub trait GumballMachineState {
    /// The tag of this state.
    spec fn spec_id(&self) -> GumballMachineStateId;

    /// The unit count this state carries.
    spec fn spec_count(&self) -> u32;

    /// When a dispense may be requested of this state. Only `SoldState`
    /// restricts it: a dispense decrements the count, so the count must be
    /// positive there.
    spec fn dispense_allowed(&self) -> bool;

    fn get_id(&self) -> (id: GumballMachineStateId)
        ensures
            id == self.spec_id(),
    ;

    fn get_count(&self) -> (count: u32)
        ensures
            count == self.spec_count(),
    ;

    fn insert_quarter(&mut self) -> (r: Result<GumballState, GumballMachineStateError>)
        ensures
            step_post(
                old(self).spec_id(),
                old(self).spec_count() as nat,
                GumballOp::InsertQuarter,
                r,
            ),
    ;

    fn eject_quarter(&mut self) -> (r: Result<GumballState, GumballMachineStateError>)
        ensures
            step_post(
                old(self).spec_id(),
                old(self).spec_count() as nat,
                GumballOp::EjectQuarter,
                r,
            ),
    ;

    fn turn_crank(&mut self) -> (r: Result<GumballState, GumballMachineStateError>)
        ensures
            step_post(
                old(self).spec_id(),
                old(self).spec_count() as nat,
                GumballOp::TurnCrank,
                r,
            ),
    ;

    fn dispense(&mut self) -> (r: Result<GumballState, GumballMachineStateError>)
        requires
            old(self).dispense_allowed(),
        ensures
            step_post(old(self).spec_id(), old(self).spec_count() as nat, GumballOp::Dispense, r),
    ;
}

impl GumballMachineState for GumballState {
    open spec fn spec_id(&self) -> GumballMachineStateId {
        self.tag()
    }

    open spec fn spec_count(&self) -> u32 {
        self.units()
    }

    open spec fn dispense_allowed(&self) -> bool {
        match self {
            GumballState::Sold(s) => s.count_spec() > 0,
            _ => true,
        }
    }

    fn get_id(&self) -> GumballMachineStateId {
        match self {
            GumballState::NoQuarter(s) => s.get_id(),
            GumballState::HasQuarter(s) => s.get_id(),
            GumballState::Sold(s) => s.get_id(),
            GumballState::SoldOut(s) => s.get_id(),
        }
    }

    fn get_count(&self) -> u32 {
        match self {
            GumballState::NoQuarter(s) => s.get_count(),
            GumballState::HasQuarter(s) => s.get_count(),
            GumballState::Sold(s) => s.get_count(),
            GumballState::SoldOut(s) => s.get_count(),
        }
    }

    fn insert_quarter(&mut self) -> Result<GumballState, GumballMachineStateError> {
        match *self {
            GumballState::NoQuarter(mut s) => s.insert_quarter(),
            GumballState::HasQuarter(mut s) => s.insert_quarter(),
            GumballState::Sold(mut s) => s.insert_quarter(),
            GumballState::SoldOut(mut s) => s.insert_quarter(),
        }
    }

    fn eject_quarter(&mut self) -> Result<GumballState, GumballMachineStateError> {
        match *self {
            GumballState::NoQuarter(mut s) => s.eject_quarter(),
            GumballState::HasQuarter(mut s) => s.eject_quarter(),
            GumballState::Sold(mut s) => s.eject_quarter(),
            GumballState::SoldOut(mut s) => s.eject_quarter(),
        }
    }

    fn turn_crank(&mut self) -> Result<GumballState, GumballMachineStateError> {
        match *self {
            GumballState::NoQuarter(mut s) => s.turn_crank(),
            GumballState::HasQuarter(mut s) => s.turn_crank(),
            GumballState::Sold(mut s) => s.turn_crank(),
            GumballState::SoldOut(mut s) => s.turn_crank(),
        }
    }

    fn dispense(&mut self) -> Result<GumballState, GumballMachineStateError> {
        match *self {
            GumballState::NoQuarter(mut s) => s.dispense(),
            GumballState::HasQuarter(mut s) => s.dispense(),
            GumballState::Sold(mut s) => s.dispense(),
            GumballState::SoldOut(mut s) => s.dispense(),
        }
    }
}

} // verus!
