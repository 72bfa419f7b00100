//! Pizza stores that defer the choice of pizza to the concrete store. Two
//! sibling data models live here: the `pizzas` model tracks cutting as a
//! flag, the `pizza` model as an optional cut style. Each has its own store
//! contract and mock implementations.

pub mod chicago_style_pizza_store;
pub mod ny_pizza_store;
pub mod ny_style_pizza_store;
pub mod pizz_store;
pub mod pizza;
pub mod pizza_store;
pub mod pizzas;
