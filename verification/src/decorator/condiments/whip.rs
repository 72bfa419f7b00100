use vstd::prelude::*;

use crate::decorator::Beverage;
use vstd::string::StringExecFns;

verus! {

/// Whipped cream on top. Appends ", Whip" to the wrapped beverage's
/// description and adds 10 cents to its cost.
pub struct Whip<B: Beverage>(B);

impl<B: Beverage> Whip<B> {
    /// Wraps `beverage` in whip.
    pub fn with_box(beverage: Box<B>) -> (r: Box<Whip<B>>)
        ensures
            r.spec_description() == beverage.spec_description() + ", Whip"@,
            r.spec_cost() == beverage.spec_cost() + 10,
    {
        Box::new(Whip(*beverage))
    }
}

impl<B: Beverage> Beverage for Whip<B> {
    closed spec fn spec_description(&self) -> Seq<char> {
        self.0.spec_description() + ", Whip"@
    }

    closed spec fn spec_cost(&self) -> nat {
        self.0.spec_cost() + 10
    }

    fn get_description(&self) -> String {
        self.0.get_description().concat(", Whip")
    }

    fn cost(&self) -> u64 {
        self.0.cost() + 10
    }
}

} // verus!
