//! Duck strategies: flying and quacking behaviors selected per duck, either
//! fixed at the type level or swappable at run time through a strategy value.

pub mod duck;
pub mod fly_behavior;
pub mod quack_behavior;
