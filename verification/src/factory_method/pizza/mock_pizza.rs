use vstd::prelude::*;

use crate::factory_method::pizza::{Cut, Data, Pizza, Status, Variety};

verus! {

/// A stand-in pizza with a mock recipe, for exercising stores.
#[derive(Debug)]
pub struct MockPizza(Data);

impl Default for MockPizza {
    fn default() -> (p: Self)
        ensures
            p.spec_data().variety == Variety::Cheese,
            p.spec_data().name@ == "Mock Pizza"@,
            p.spec_data().dough@ == "Mock Dough"@,
            p.spec_data().sauce@ == "Mock Sauce"@,
            p.spec_data().toppings@.map_values(|t: &str| t@) =~= seq!["Mock Topping"@],
            p.spec_data().status == Status::unprocessed(),
    {
        MockPizza(
            Data {
                variety: Variety::Cheese,
                name: "Mock Pizza",
                dough: "Mock Dough",
                sauce: "Mock Sauce",
                toppings: vec!["Mock Topping"],
                status: Status::default(),
            },
        )
    }
}

impl Pizza for MockPizza {
    closed spec fn spec_data(&self) -> Data {
        self.0
    }

    fn get_data(&self) -> &Data {
        &self.0
    }

    fn prepare(&mut self) {
        self.0.status.is_prepared = true
    }

    fn bake(&mut self) {
        self.0.status.is_baked = true
    }

    fn cut(&mut self) {
        self.0.status.cut = Some(Cut::Slice)
    }

    fn package(&mut self) {
        self.0.status.is_packaged = true
    }
}

} // verus!
