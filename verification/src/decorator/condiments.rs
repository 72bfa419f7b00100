//! The wrappers a drink can be decorated with; each adds a description suffix
//! and a surcharge to the beverage it wraps.

pub mod mocha;
pub mod soy;
pub mod steamed_milk;
pub mod whip;

pub use mocha::Mocha;
pub use soy::Soy;
pub use steamed_milk::SteamedMilk;
pub use whip::Whip;
