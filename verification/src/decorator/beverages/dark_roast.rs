use vstd::prelude::*;

use crate::decorator::Beverage;
use vstd::string::StringExecFns;

verus! {

/// A dark roast coffee.
pub struct DarkRoast;

impl DarkRoast {
    /// A boxed dark roast: description "Dark Roast", cost 99 cents.
    pub fn with_box() -> (b: Box<DarkRoast>)
        ensures
            b.spec_description() == "Dark Roast"@,
            b.spec_cost() == 99,
    {
        Box::new(DarkRoast)
    }
}

impl Beverage for DarkRoast {
    open spec fn spec_description(&self) -> Seq<char> {
        "Dark Roast"@
    }

    open spec fn spec_cost(&self) -> nat {
        99
    }

    fn get_description(&self) -> String {
        String::from_str("Dark Roast")
    }

    fn cost(&self) -> u64 {
        99
    }
}

} // verus!
