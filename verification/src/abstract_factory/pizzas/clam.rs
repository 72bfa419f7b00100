use vstd::prelude::*;

use crate::abstract_factory::ingredients::factory::Factory;
use crate::abstract_factory::ingredients::Ingredients;
use crate::abstract_factory::pizzas::pizza::{Cut, Data, Pizza, Status, Variety};

verus! {

/// A clam pizza: its recipe asks the factory for dough, sauce, cheese and clam.
#[derive(Debug)]
pub struct Clam(Data);

impl Default for Clam {
    fn default() -> (p: Self)
        ensures
            p.spec_variety() == Variety::Clam,
            p.spec_data().name@ == ""@,
            p.spec_data().status == Status::unprocessed(),
            p.spec_data().ingredients.is_empty(),
    {
        Clam(Data { name: "", status: Status::default(), ingredients: Ingredients::default() })
    }
}

impl Pizza for Clam {
    closed spec fn spec_data(&self) -> Data {
        self.0
    }

    open spec fn spec_variety(&self) -> Variety {
        Variety::Clam
    }

    fn get_data(&self) -> &Data {
        &self.0
    }

    fn get_variety(&self) -> Variety {
        proof {
            assert(self.spec_variety() == Variety::Clam);
        }
        Variety::Clam
    }

    fn prepare<F: Factory>(&mut self, ingredient_factory: &F) {
        self.0.ingredients.dough = Some(ingredient_factory.create_dough());
        self.0.ingredients.sauce = Some(ingredient_factory.create_sauce());
        self.0.ingredients.cheese = Some(ingredient_factory.create_cheese());
        self.0.ingredients.clam = Some(ingredient_factory.create_clam());
    }

    fn bake(&mut self) {
        self.0.status.is_baked = true
    }

    fn cut(&mut self) {
        self.0.status.cut = Some(Cut::Slice)
    }

    fn package(&mut self) {
        self.0.status.is_packaged = true
    }
}

} // verus!
