//! The pizzas a store can make, and the store contract itself.

pub mod cheese;
pub mod clam;
pub mod pizza;
pub mod store;

pub use pizza::{Cut, Data, Pizza, Status, Variety};
