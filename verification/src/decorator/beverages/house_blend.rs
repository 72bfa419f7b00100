use vstd::prelude::*;

use crate::decorator::Beverage;
use vstd::string::StringExecFns;

verus! {

/// The house blend coffee.
pub struct HouseBlend;

impl HouseBlend {
    /// A boxed house blend: description "House Blend", cost 89 cents.
    pub fn with_box() -> (b: Box<HouseBlend>)
        ensures
            b.spec_description() == "House Blend"@,
            b.spec_cost() == 89,
    {
        Box::new(HouseBlend)
    }
}

impl Beverage for HouseBlend {
    open spec fn spec_description(&self) -> Seq<char> {
        "House Blend"@
    }

    open spec fn spec_cost(&self) -> nat {
        89
    }

    fn get_description(&self) -> String {
        String::from_str("House Blend")
    }

    fn cost(&self) -> u64 {
        89
    }
}

} // verus!
