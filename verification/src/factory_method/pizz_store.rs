use vstd::prelude::*;

use crate::factory_method::pizzas::{MockPizza, Pizza, PizzaStatus, PizzaType};

verus! {

/// A store that creates its own kind of pizza and can run a fresh one through
/// the whole pipeline: an ordered pizza is prepared, baked, cut and packaged,
/// a merely created one has nothing done to it yet.
pub trait PizzaStore {
    type P: Pizza;

    /// Which pizza kinds this store can make.
    spec fn can_create(&self, pizza_type: PizzaType) -> bool;

    fn create_pizza(&self, pizza_type: PizzaType) -> (p: Self::P)
        requires
            self.can_create(pizza_type),
        ensures
            p.spec_data().spec_status() == PizzaStatus::unprocessed(),
    ;

    fn order_pizza(&self, pizza_type: PizzaType) -> (p: Self::P)
        requires
            self.can_create(pizza_type),
        ensures
            p.spec_data().spec_status() == PizzaStatus::processed(),
    {
        let mut pizza = self.create_pizza(pizza_type);
        pizza.prepare();
        pizza.bake();
        pizza.cut();
        pizza.package();
        pizza
    }
}

/// A store that makes a mock pizza whatever it is asked for.
pub struct MockPizzaStore;

impl PizzaStore for MockPizzaStore {
    type P = MockPizza;

    open spec fn can_create(&self, pizza_type: PizzaType) -> bool {
        true
    }

    fn create_pizza(&self, _pizza_type: PizzaType) -> MockPizza {
        MockPizza::default()
    }
}

} // verus!
