//! Classic object-composition idioms, written as verified Rust.
//!
//! The heart of the crate is `state`: a gumball-machine state machine with a
//! proved transition table, a count invariant, and an error taxonomy. Around
//! it stand the simpler idioms the machine is usually taught with: decorated
//! beverages, pizza factories, duck strategies, and a one-slot remote control.

pub mod abstract_factory;
pub mod command;
pub mod decorator;
pub mod factory_method;
pub mod observer;
pub mod state;
pub mod strategy;
