use vstd::prelude::*;

use crate::decorator::Beverage;
use vstd::string::StringExecFns;

verus! {

/// Soy milk for the drink. Appends ", Soy" to the wrapped beverage's
/// description and adds 15 cents to its cost.
pub struct Soy<B: Beverage>(B);

impl<B: Beverage> Soy<B> {
    /// Wraps `beverage` in soy.
    pub fn with_box(beverage: Box<B>) -> (r: Box<Soy<B>>)
        ensures
            r.spec_description() == beverage.spec_description() + ", Soy"@,
            r.spec_cost() == beverage.spec_cost() + 15,
    {
        Box::new(Soy(*beverage))
    }
}

impl<B: Beverage> Beverage for Soy<B> {
    closed spec fn spec_description(&self) -> Seq<char> {
        self.0.spec_description() + ", Soy"@
    }

    closed spec fn spec_cost(&self) -> nat {
        self.0.spec_cost() + 15
    }

    fn get_description(&self) -> String {
        self.0.get_description().concat(", Soy")
    }

    fn cost(&self) -> u64 {
        self.0.cost() + 15
    }
}

} // verus!
