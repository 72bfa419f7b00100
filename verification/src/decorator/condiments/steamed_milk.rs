use vstd::prelude::*;

use crate::decorator::Beverage;
use vstd::string::StringExecFns;

verus! {

/// Steamed milk for the drink. Appends ", Steamed Milk" to the wrapped beverage's
/// description and adds 10 cents to its cost.
pub struct SteamedMilk<B: Beverage>(B);

impl<B: Beverage> SteamedMilk<B> {
    /// Wraps `beverage` in steamed milk.
    pub fn with_box(beverage: Box<B>) -> (r: Box<SteamedMilk<B>>)
        ensures
            r.spec_description() == beverage.spec_description() + ", Steamed Milk"@,
            r.spec_cost() == beverage.spec_cost() + 10,
    {
        Box::new(SteamedMilk(*beverage))
    }
}

impl<B: Beverage> Beverage for SteamedMilk<B> {
    closed spec fn spec_description(&self) -> Seq<char> {
        self.0.spec_description() + ", Steamed Milk"@
    }

    closed spec fn spec_cost(&self) -> nat {
        self.0.spec_cost() + 10
    }

    fn get_description(&self) -> String {
        self.0.get_description().concat(", Steamed Milk")
    }

    fn cost(&self) -> u64 {
        self.0.cost() + 10
    }
}

} // verus!
