use vstd::prelude::*;

use crate::decorator::Beverage;
use vstd::string::StringExecFns;

verus! {

/// Chocolate for the drink. Appends ", Mocha" to the wrapped beverage's
/// description and adds 20 cents to its cost.
pub struct Mocha<B: Beverage>(B);

impl<B: Beverage> Mocha<B> {
    /// Wraps `beverage` in mocha.
    pub fn with_box(beverage: Box<B>) -> (r: Box<Mocha<B>>)
        ensures
            r.spec_description() == beverage.spec_description() + ", Mocha"@,
            r.spec_cost() == beverage.spec_cost() + 20,
    {
        Box::new(Mocha(*beverage))
    }
}

impl<B: Beverage> Beverage for Mocha<B> {
    closed spec fn spec_description(&self) -> Seq<char> {
        self.0.spec_description() + ", Mocha"@
    }

    closed spec fn spec_cost(&self) -> nat {
        self.0.spec_cost() + 20
    }

    fn get_description(&self) -> String {
        self.0.get_description().concat(", Mocha")
    }

    fn cost(&self) -> u64 {
        self.0.cost() + 20
    }
}

} // verus!
