use vstd::prelude::*;

use crate::factory_method::pizz_store::PizzaStore;
use crate::factory_method::pizzas::{Pizza, PizzaData, PizzaStatus, PizzaType};

verus! {

/// The New York store: it makes only its cheese pizza, so asking for any
/// other kind is left out of the contract.
pub struct NyStylePizzaStore;

impl PizzaStore for NyStylePizzaStore {
    type P = NyStyleCheesePizza;

    open spec fn can_create(&self, pizza_type: PizzaType) -> bool {
        pizza_type == PizzaType::Cheese
    }

    fn create_pizza(&self, _pizza_type: PizzaType) -> NyStyleCheesePizza {
        NyStyleCheesePizza::default()
    }
}

/// The New York cheese pizza: thin crust, marinara sauce, grated reggiano.
#[derive(Debug)]
pub struct NyStyleCheesePizza {
    data: PizzaData,
}

impl Default for NyStyleCheesePizza {
    fn default() -> (p: Self)
        ensures
            p.spec_data().spec_name() == "NY Style Sauce and Cheese Pizza"@,
            p.spec_data().spec_dough() == "Thin Crust Dough"@,
            p.spec_data().spec_sauce() == "Marinara Sauce"@,
            p.spec_data().spec_toppings() =~= seq!["Grated Reggiano Cheese"@],
            p.spec_data().spec_status() == PizzaStatus::unprocessed(),
    {
        NyStyleCheesePizza {
            data: PizzaData::new(
                "NY Style Sauce and Cheese Pizza",
                "Thin Crust Dough",
                "Marinara Sauce",
                vec!["Grated Reggiano Cheese"],
                PizzaStatus::default(),
            ),
        }
    }
}

impl Pizza for NyStyleCheesePizza {
    closed spec fn spec_data(&self) -> PizzaData {
        self.data
    }

    fn get_data(&self) -> &PizzaData {
        &self.data
    }

    fn prepare(&mut self) {
        self.data.set_prepared()
    }

    fn bake(&mut self) {
        self.data.set_baked()
    }

    fn cut(&mut self) {
        self.data.set_cut()
    }

    fn package(&mut self) {
        self.data.set_packaged()
    }
}

} // verus!
