use vstd::prelude::*;

use crate::abstract_factory::ingredients::factory::Factory;
use crate::abstract_factory::ingredients::Ingredients;
use crate::abstract_factory::pizzas::pizza::{Cut, Data, Pizza, Status, Variety};

verus! {

/// A cheese pizza: its recipe asks the factory for dough, sauce and cheese.
#[derive(Debug)]
pub struct Cheese(Data);

impl Default for Cheese {
    fn default() -> (p: Self)
        ensures
            p.spec_variety() == Variety::Cheese,
            p.spec_data().name@ == ""@,
            p.spec_data().status == Status::unprocessed(),
            p.spec_data().ingredients.is_empty(),
    {
        Cheese(Data { name: "", status: Status::default(), ingredients: Ingredients::default() })
    }
}

impl Pizza for Cheese {
    closed spec fn spec_data(&self) -> Data {
        self.0
    }

    open spec fn spec_variety(&self) -> Variety {
        Variety::Cheese
    }

    fn get_data(&self) -> &Data {
        &self.0
    }

    fn get_variety(&self) -> Variety {
        proof {
            assert(self.spec_variety() == Variety::Cheese);
        }
        Variety::Cheese
    }

    fn prepare<F: Factory>(&mut self, ingredient_factory: &F) {
        self.0.ingredients.dough = Some(ingredient_factory.create_dough());
        self.0.ingredients.sauce = Some(ingredient_factory.create_sauce());
        self.0.ingredients.cheese = Some(ingredient_factory.create_cheese());
    }

    fn bake(&mut self) {
        self.0.status.is_baked = true
    }

    fn cut(&mut self) {
        self.0.status.cut = Some(Cut::Slice)
    }

    fn package(&mut self) {
        self.0.status.is_packaged = true
    }
}

} // verus!
