//! One module per region, each pairing an ingredient factory with a store.

pub mod ny;
