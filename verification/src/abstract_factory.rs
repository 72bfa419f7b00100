//! Pizza stores built over an ingredient factory: each region supplies one
//! factory, and every pizza prepared by a store records the ingredients that
//! factory names. Ingredients are recorded by name; the marker traits tag the
//! families an ingredient can stand in for.

pub mod ingredients;
pub mod pizzas;
pub mod regions;
