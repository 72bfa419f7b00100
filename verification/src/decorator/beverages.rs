//! The base drinks a composition starts from.

pub mod dark_roast;
pub mod decaf;
pub mod espresso;
pub mod house_blend;
pub mod stub;

pub use dark_roast::DarkRoast;
pub use decaf::Decaf;
pub use espresso::Espresso;
pub use house_blend::HouseBlend;
pub use stub::Stub;
