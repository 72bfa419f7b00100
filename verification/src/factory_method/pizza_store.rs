use vstd::prelude::*;

pub mod mock_pizza_store;

use crate::factory_method::pizza::{Pizza, Status, Variety};

verus! {

/// A store that creates its own kind of pizza and can run a fresh one through
/// the whole pipeline: an ordered pizza is prepared, baked, cut into slices
/// and packaged, a merely created one has nothing done to it yet.
pub trait PizzaStore {
    type P: Pizza;

    /// Which varieties this store can make.
    spec fn can_create(&self, pizza_type: Variety) -> bool;

    fn create_pizza(&self, pizza_type: Variety) -> (p: Self::P)
        requires
            self.can_create(pizza_type),
        ensures
            p.spec_data().status == Status::unprocessed(),
    ;

    fn order_pizza(&self, pizza_type: Variety) -> (p: Self::P)
        requires
            self.can_create(pizza_type),
        ensures
            p.spec_data().status == Status::processed(),
    {
        let mut pizza = self.create_pizza(pizza_type);
        pizza.prepare();
        pizza.bake();
        pizza.cut();
        pizza.package();
        pizza
    }
}

} // verus!
