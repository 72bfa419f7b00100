use vstd::prelude::*;

pub mod mock_pizza_store;

use crate::abstract_factory::ingredients::factory::Factory;
use crate::abstract_factory::ingredients::Ingredients;
use crate::abstract_factory::pizzas::cheese::Cheese;
use crate::abstract_factory::pizzas::clam::Clam;
use crate::abstract_factory::pizzas::pizza::{prepared_from, Data, Pizza, Status, Variety};

verus! {

/// A pizza as a store hands it out: one of the kinds on the menu.
#[derive(Debug)]
pub enum MenuPizza {
    Cheese(Cheese),
    Clam(Clam),
}

impl Pizza for MenuPizza {
    open spec fn spec_data(&self) -> Data {
        match self {
            MenuPizza::Cheese(p) => p.spec_data(),
            MenuPizza::Clam(p) => p.spec_data(),
        }
    }

    open spec fn spec_variety(&self) -> Variety {
        match self {
            MenuPizza::Cheese(_) => Variety::Cheese,
            MenuPizza::Clam(_) => Variety::Clam,
        }
    }

    fn get_data(&self) -> &Data {
        match self {
            MenuPizza::Cheese(p) => p.get_data(),
            MenuPizza::Clam(p) => p.get_data(),
        }
    }

    fn get_variety(&self) -> Variety {
        match self {
            MenuPizza::Cheese(p) => p.get_variety(),
            MenuPizza::Clam(p) => p.get_variety(),
        }
    }

    fn prepare<F: Factory>(&mut self, ingredient_factory: &F) {
        match self {
            MenuPizza::Cheese(p) => p.prepare(ingredient_factory),
            MenuPizza::Clam(p) => p.prepare(ingredient_factory),
        }
    }

    fn bake(&mut self) {
        match self {
            MenuPizza::Cheese(p) => p.bake(),
            MenuPizza::Clam(p) => p.bake(),
        }
    }

    fn cut(&mut self) {
        match self {
            MenuPizza::Cheese(p) => p.cut(),
            MenuPizza::Clam(p) => p.cut(),
        }
    }

    fn package(&mut self) {
        match self {
            MenuPizza::Cheese(p) => p.package(),
            MenuPizza::Clam(p) => p.package(),
        }
    }
}

/// What an ordered pizza's ingredient record looks like: the variety's recipe
/// filled with the factory's names, nothing else added. Only cheese and clam
/// pizzas are on any menu here.
pub open spec fn menu_ingredients<F: Factory>(ing: Ingredients, variety: Variety, f: F) -> bool {
    match variety {
        Variety::Cheese => (ing.dough matches Some(d) && d@ == f.spec_dough())
            && (ing.sauce matches Some(s) && s@ == f.spec_sauce()) && (ing.cheese matches Some(c)
            && c@ == f.spec_cheese()) && ing.veggies@.len() == 0 && ing.pepperoni is None
            && ing.clam is None,
        Variety::Clam => (ing.dough matches Some(d) && d@ == f.spec_dough())
            && (ing.sauce matches Some(s) && s@ == f.spec_sauce()) && (ing.cheese matches Some(c)
            && c@ == f.spec_cheese()) && (ing.clam matches Some(l) && l@ == f.spec_clam())
            && ing.veggies@.len() == 0 && ing.pepperoni is None,
        _ => true,
    }
}

/// A store: it owns an ingredient factory, creates fresh pizzas off its menu,
/// and orders run a fresh pizza through the whole pipeline — prepared from
/// the factory, baked, cut into slices and packaged.
pub trait Store {
    type F: Factory;

    /// The ingredient factory this store cooks with.
    spec fn spec_factory(&self) -> Self::F;

    /// Which varieties this store can make.
    spec fn can_create(&self, pizza_variety: Variety) -> bool;

    /// Which variety the store actually makes for a request.
    spec fn created_variety(&self, pizza_variety: Variety) -> Variety;

    fn get_ingredient_factory(&self) -> (f: &Self::F)
        ensures
            *f == self.spec_factory(),
    ;

    fn create_pizza(&self, pizza_variety: Variety) -> (p: MenuPizza)
        requires
            self.can_create(pizza_variety),
        ensures
            p.spec_variety() == self.created_variety(pizza_variety),
            p.spec_data().status == Status::unprocessed(),
            p.spec_data().ingredients.is_empty(),
    ;

    fn order_pizza(&self, variety: Variety) -> (p: MenuPizza)
        requires
            self.can_create(variety),
        ensures
            p.spec_variety() == self.created_variety(variety),
            p.spec_data().status == Status::processed(),
            menu_ingredients(p.spec_data().ingredients, p.spec_variety(), self.spec_factory()),
    {
        let mut pizza = self.create_pizza(variety);
        let ingredient_factory = self.get_ingredient_factory();
        pizza.prepare(ingredient_factory);
        pizza.bake();
        pizza.cut();
        pizza.package();
        pizza
    }
}

} // verus!
