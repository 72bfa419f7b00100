use patterns::state::has_quarter_state::HasQuarterState;
use patterns::state::no_quarter_state::NoQuarterState;
use patterns::state::sold_out_state::SoldOutState;
use patterns::state::sold_state::SoldState;
use patterns::state::state::{
    GumballMachineState, GumballMachineStateError, GumballMachineStateId,
};

#[test]
fn no_quarter_state_insert_quarter() {
    let mut state = NoQuarterState::default();
    let state = state.insert_quarter().unwrap();
    assert_eq!(state.get_id(), GumballMachineStateId::HasQuarterState);
    assert_eq!(state.get_count(), 0);
}

#[test]
fn no_quarter_state_eject_quarter() {
    let mut state = NoQuarterState::default();
    assert_eq!(
        state.eject_quarter().unwrap_err(),
        GumballMachineStateError::NoQuarterInserted
    );
}

#[test]
fn no_quarter_state_turn_crank() {
    let mut state = NoQuarterState::default();
    assert_eq!(
        state.turn_crank().unwrap_err(),
        GumballMachineStateError::NoQuarterInserted
    );
}

#[test]
fn no_quarter_state_dispense() {
    let mut state = NoQuarterState::default();
    assert_eq!(
        state.dispense().unwrap_err(),
        GumballMachineStateError::NoQuarterInserted
    );
}

#[test]
fn has_quarter_state_insert_quarter() {
    let mut state = HasQuarterState::default();
    assert_eq!(
        state.insert_quarter().unwrap_err(),
        GumballMachineStateError::AlreadyHasQuarter,
    );
}

#[test]
fn has_quarter_state_eject_quarter() {
    let mut state = HasQuarterState::default();
    assert_eq!(
        state.eject_quarter().unwrap().get_id(),
        GumballMachineStateId::NoQuarterState,
    );
}

#[test]
fn has_quarter_state_turn_crank() {
    let mut state = HasQuarterState::default();
    assert_eq!(
        state.turn_crank().unwrap().get_id(),
        GumballMachineStateId::SoldState,
    );
}

#[test]
fn has_quarter_state_dispense() {
    let mut state = HasQuarterState::default();
    assert_eq!(
        state.dispense().unwrap_err(),
        GumballMachineStateError::CrankHasNotBeenTurned
    );
}

#[test]
fn sold_state_insert_quarter() {
    let mut state = SoldState::default();
    assert_eq!(
        state.insert_quarter().unwrap_err(),
        GumballMachineStateError::AlreadyTurnedCrank,
    );
}

#[test]
fn sold_state_eject_quarter() {
    let mut state = SoldState::default();
    assert_eq!(
        state.eject_quarter().unwrap_err(),
        GumballMachineStateError::AlreadyTurnedCrank,
    );
}

#[test]
fn sold_state_turn_crank() {
    let mut state = SoldState::default();
    assert_eq!(
        state.turn_crank().unwrap_err(),
        GumballMachineStateError::AlreadyTurnedCrank,
    );
}

#[test]
fn sold_state_dispense_to_not_sold_out() {
    let mut state = SoldState::new(2);
    assert_eq!(
        state.dispense().unwrap().get_id(),
        GumballMachineStateId::NoQuarterState,
    );
}

#[test]
fn sold_state_dispense_to_sold_out() {
    let mut state = SoldState::new(1);
    assert_eq!(
        state.dispense().unwrap().get_id(),
        GumballMachineStateId::SoldOutState,
    );
}

#[test]
fn sold_out_state_insert_quarter() {
    let mut state = SoldOutState::default();
    assert_eq!(
        state.insert_quarter().unwrap_err(),
        GumballMachineStateError::OutOfGumballs,
    );
}

#[test]
fn sold_out_state_eject_quarter() {
    let mut state = SoldOutState::default();
    assert_eq!(
        state.eject_quarter().unwrap_err(),
        GumballMachineStateError::OutOfGumballs,
    );
}

#[test]
fn sold_out_state_turn_crank() {
    let mut state = SoldOutState::default();
    assert_eq!(
        state.turn_crank().unwrap_err(),
        GumballMachineStateError::OutOfGumballs,
    );
}

#[test]
fn sold_out_state_dispense() {
    let mut state = SoldOutState::default();
    assert_eq!(
        state.dispense().unwrap_err(),
        GumballMachineStateError::OutOfGumballs,
    );
}

#[test]
fn lib_insert_quarter() {
    let mut state = NoQuarterState::default();
    let state = state.insert_quarter().unwrap();
    assert!(matches!(
        state.get_id(),
        GumballMachineStateId::HasQuarterState
    ));
    assert_eq!(state.get_count(), 0);

    let mut state = HasQuarterState::default();
    assert!(matches!(
        state.insert_quarter().unwrap_err(),
        GumballMachineStateError::AlreadyHasQuarter,
    ));

    let mut state = SoldState::default();
    assert!(matches!(
        state.insert_quarter().unwrap_err(),
        GumballMachineStateError::AlreadyTurnedCrank,
    ));
}

#[test]
fn lib_eject_quarter() {
    let mut state = NoQuarterState::default();
    assert!(matches!(
        state.eject_quarter().unwrap_err(),
        GumballMachineStateError::NoQuarterInserted
    ));

    let mut state = HasQuarterState::default();
    assert!(matches!(
        state.eject_quarter().unwrap().get_id(),
        GumballMachineStateId::NoQuarterState,
    ));

    let mut state = SoldState::default();
    assert!(matches!(
        state.eject_quarter().unwrap_err(),
        GumballMachineStateError::AlreadyTurnedCrank,
    ));
}

#[test]
fn lib_turn_crank() {
    let mut state = NoQuarterState::default();
    assert!(matches!(
        state.turn_crank().unwrap_err(),
        GumballMachineStateError::NoQuarterInserted
    ));

    let mut state = HasQuarterState::default();
    assert!(matches!(
        state.turn_crank().unwrap().get_id(),
        GumballMachineStateId::SoldState,
    ));

    let mut state = SoldState::default();
    assert!(matches!(
        state.turn_crank().unwrap_err(),
        GumballMachineStateError::AlreadyTurnedCrank,
    ));
}

#[test]
fn lib_dispense() {
    let mut state = NoQuarterState::default();
    assert!(matches!(
        state.dispense().unwrap_err(),
        GumballMachineStateError::NoQuarterInserted
    ));

    let mut state = HasQuarterState::default();
    assert!(matches!(
        state.dispense().unwrap_err(),
        GumballMachineStateError::CrankHasNotBeenTurned
    ));
}

#[test]
fn lib_dispense_to_not_sold_out() {
    let mut state = SoldState::new(2);
    assert!(matches!(
        state.dispense().unwrap().get_id(),
        GumballMachineStateId::NoQuarterState,
    ));
}

#[test]
fn lib_dispense_to_sold_out() {
    let mut state = SoldState::new(1);
    assert!(matches!(
        state.dispense().unwrap().get_id(),
        GumballMachineStateId::SoldOutState,
    ));
}
