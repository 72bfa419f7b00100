//! Decorated beverages: a base drink wrapped in any number of condiments,
//! each adding its own description suffix and surcharge. The cost and the
//! description of every composition are pinned exactly by the contracts.

pub mod beverages;
pub mod condiments;

use vstd::prelude::*;

verus! {

/// A drink with a description and a cost in cents. Base beverages state both
/// outright; condiments wrap another beverage and add their own suffix and
/// surcharge to it.
pub trait Beverage {
    /// The characters of this beverage's description.
    spec fn spec_description(&self) -> Seq<char>;

    /// This beverage's cost in cents.
    spec fn spec_cost(&self) -> nat;

    fn get_description(&self) -> (r: String)
        ensures
            r@ == self.spec_description(),
    ;

    fn cost(&self) -> (r: u64)
        requires
            self.spec_cost() <= u64::MAX,
        ensures
            r as nat == self.spec_cost(),
    ;
}

} // verus!
