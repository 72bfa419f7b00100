//! The command idiom: a light, commands that act on it through a shared cell,
//! and a one-slot remote control that fires whatever command it holds.

pub mod command;
pub mod simple_remote_control;
