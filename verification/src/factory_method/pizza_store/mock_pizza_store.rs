use vstd::prelude::*;

use crate::factory_method::pizza::mock_pizza::MockPizza;
use crate::factory_method::pizza::Variety;
use crate::factory_method::pizza_store::PizzaStore;

verus! {

/// A store that makes a mock pizza whatever variety it is asked for.
pub struct MockPizzaStore;

impl PizzaStore for MockPizzaStore {
    type P = MockPizza;

    open spec fn can_create(&self, pizza_type: Variety) -> bool {
        true
    }

    fn create_pizza(&self, _pizza_type: Variety) -> MockPizza {
        MockPizza::default()
    }
}

} // verus!
