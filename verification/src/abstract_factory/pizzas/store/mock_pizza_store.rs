use vstd::prelude::*;

use crate::abstract_factory::ingredients::factory::mock::MockIngredientFactory;
use crate::abstract_factory::pizzas::cheese::Cheese;
use crate::abstract_factory::pizzas::pizza::Variety;
use crate::abstract_factory::pizzas::store::{MenuPizza, Store};

verus! {

/// A store over the mock factory; it makes a cheese pizza whatever it is
/// asked for.
#[derive(Debug)]
pub struct MockPizzaStore(Box<MockIngredientFactory>);

impl Default for MockPizzaStore {
    fn default() -> (s: Self)
        ensures
            s.spec_factory() == (MockIngredientFactory),
    {
        MockPizzaStore(Box::new(MockIngredientFactory))
    }
}

impl Store for MockPizzaStore {
    type F = MockIngredientFactory;

    closed spec fn spec_factory(&self) -> MockIngredientFactory {
        *self.0
    }

    open spec fn can_create(&self, pizza_variety: Variety) -> bool {
        true
    }

    open spec fn created_variety(&self, pizza_variety: Variety) -> Variety {
        Variety::Cheese
    }

    fn get_ingredient_factory(&self) -> &MockIngredientFactory {
        &self.0
    }

    fn create_pizza(&self, _pizza_type: Variety) -> MenuPizza {
        MenuPizza::Cheese(Cheese::default())
    }
}

} // verus!
