use vstd::prelude::*;

use crate::decorator::Beverage;
use vstd::string::StringExecFns;

verus! {

/// A straight espresso shot.
pub struct Espresso;

impl Espresso {
    /// A boxed espresso: description "Espresso", cost 199 cents.
    pub fn with_box() -> (b: Box<Espresso>)
        ensures
            b.spec_description() == "Espresso"@,
            b.spec_cost() == 199,
    {
        Box::new(Espresso)
    }
}

impl Beverage for Espresso {
    open spec fn spec_description(&self) -> Seq<char> {
        "Espresso"@
    }

    open spec fn spec_cost(&self) -> nat {
        199
    }

    fn get_description(&self) -> String {
        String::from_str("Espresso")
    }

    fn cost(&self) -> u64 {
        199
    }
}

} // verus!
