//! The gumball machine: a four-state machine with a proved transition table.
//!
//! `state` holds the closed sets of states, operations and errors, the
//! transition table as a spec function, and the state handler trait. One file
//! per state implements the handlers, and `machine` wraps the current state in
//! a shell that owns the unit count invariant.

pub mod has_quarter_state;
pub mod machine;
pub mod no_quarter_state;
pub mod sold_out_state;
pub mod sold_state;
pub mod state;
