use vstd::prelude::*;

use crate::factory_method::pizz_store::PizzaStore;
use crate::factory_method::pizzas::{Pizza, PizzaData, PizzaStatus, PizzaType};

verus! {

/// The New York store with a full menu. Every kind on the menu is made from
/// the same New York recipe, so one pizza type serves all four.
pub struct NyStylePizzaStore;

impl PizzaStore for NyStylePizzaStore {
    type P = NyStylePizza;

    open spec fn can_create(&self, pizza_type: PizzaType) -> bool {
        true
    }

    fn create_pizza(&self, pizza_type: PizzaType) -> NyStylePizza {
        match pizza_type {
            PizzaType::Cheese => NyStylePizza::default(),
            PizzaType::Veggie => NyStylePizza::default(),
            PizzaType::Clam => NyStylePizza::default(),
            PizzaType::Pepperoni => NyStylePizza::default(),
        }
    }
}

/// A pizza from the full-menu New York store: thin crust, marinara sauce,
/// grated reggiano, whatever the kind asked for.
#[derive(Debug)]
pub struct NyStylePizza {
    data: PizzaData,
}

impl Default for NyStylePizza {
    fn default() -> (p: Self)
        ensures
            p.spec_data().spec_name() == "NY Style Sauce and Cheese Pizza"@,
            p.spec_data().spec_dough() == "Thin Crust Dough"@,
            p.spec_data().spec_sauce() == "Marinara Sauce"@,
            p.spec_data().spec_toppings() =~= seq!["Grated Reggiano Cheese"@],
            p.spec_data().spec_status() == PizzaStatus::unprocessed(),
    {
        NyStylePizza {
            data: PizzaData::new(
                "NY Style Sauce and Cheese Pizza",
                "Thin Crust Dough",
                "Marinara Sauce",
                vec!["Grated Reggiano Cheese"],
                PizzaStatus::default(),
            ),
        }
    }
}

impl Pizza for NyStylePizza {
    closed spec fn spec_data(&self) -> PizzaData {
        self.data
    }

    fn get_data(&self) -> &PizzaData {
        &self.data
    }

    fn prepare(&mut self) {
        self.data.set_prepared()
    }

    fn bake(&mut self) {
        self.data.set_baked()
    }

    fn cut(&mut self) {
        self.data.set_cut()
    }

    fn package(&mut self) {
        self.data.set_packaged()
    }
}

} // verus!
