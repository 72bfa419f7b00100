use vstd::prelude::*;

use crate::decorator::Beverage;
use vstd::string::StringExecFns;

verus! {

/// A placeholder drink for exercising condiments: a fixed description and a
/// cost of zero, so a wrapped stub shows exactly the condiment's surcharge.
pub struct Stub {
    description: &'static str,
    cost: u64,
}

impl Stub {
    /// A boxed stub beverage: description "Stub", cost zero.
    pub fn with_box() -> (b: Box<Stub>)
        ensures
            b.spec_description() == "Stub"@,
            b.spec_cost() == 0,
    {
        Box::new(Stub { description: "Stub", cost: 0 })
    }
}

impl Beverage for Stub {
    closed spec fn spec_description(&self) -> Seq<char> {
        self.description@
    }

    closed spec fn spec_cost(&self) -> nat {
        self.cost as nat
    }

    fn get_description(&self) -> String {
        String::from_str(self.description)
    }

    fn cost(&self) -> u64 {
        self.cost
    }
}

} // verus!
