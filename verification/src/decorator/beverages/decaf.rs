use vstd::prelude::*;

use crate::decorator::Beverage;
use vstd::string::StringExecFns;

verus! {

/// A decaffeinated coffee.
pub struct Decaf;

impl Decaf {
    /// A boxed decaf: description "Decaf", cost 105 cents.
    pub fn with_box() -> (b: Box<Decaf>)
        ensures
            b.spec_description() == "Decaf"@,
            b.spec_cost() == 105,
    {
        Box::new(Decaf)
    }
}

impl Beverage for Decaf {
    open spec fn spec_description(&self) -> Seq<char> {
        "Decaf"@
    }

    open spec fn spec_cost(&self) -> nat {
        105
    }

    fn get_description(&self) -> String {
        String::from_str("Decaf")
    }

    fn cost(&self) -> u64 {
        105
    }
}

} // verus!
