use vstd::prelude::*;

use crate::factory_method::pizza::{Data, Pizza, Status, Variety};
use crate::factory_method::pizza_store::PizzaStore;

verus! {

/// The Chicago store: it makes only its deep dish cheese pizza, so asking for
/// any other variety is left out of the contract.
pub struct ChicagoStylePizzaStore;

impl PizzaStore for ChicagoStylePizzaStore {
    type P = ChicagoStyleCheesePizza;

    open spec fn can_create(&self, pizza_type: Variety) -> bool {
        pizza_type == Variety::Cheese
    }

    fn create_pizza(&self, _pizza_type: Variety) -> ChicagoStyleCheesePizza {
        ChicagoStyleCheesePizza::default()
    }
}

/// The Chicago cheese pizza: extra thick crust, plum tomato sauce, shredded
/// mozzarella.
#[derive(Debug)]
pub struct ChicagoStyleCheesePizza {
    data: Data,
}

impl Default for ChicagoStyleCheesePizza {
    fn default() -> (p: Self)
        ensures
            p.spec_data().variety == Variety::Cheese,
            p.spec_data().name@ == "Chicago Style Deep Dish Cheese Pizza"@,
            p.spec_data().dough@ == "Extra Thick Crust Dough"@,
            p.spec_data().sauce@ == "Plum Tmoato Sauce"@,
            p.spec_data().toppings@.map_values(|t: &str| t@) =~= seq!["Shredded Mozzarella Cheese"@],
            p.spec_data().status == Status::unprocessed(),
    {
        ChicagoStyleCheesePizza {
            data: Data {
                variety: Variety::Cheese,
                name: "Chicago Style Deep Dish Cheese Pizza",
                dough: "Extra Thick Crust Dough",
                sauce: "Plum Tmoato Sauce",
                toppings: vec!["Shredded Mozzarella Cheese"],
                status: Status::default(),
            },
        }
    }
}

impl Pizza for ChicagoStyleCheesePizza {
    closed spec fn spec_data(&self) -> Data {
        self.data
    }

    fn get_data(&self) -> &Data {
        &self.data
    }

    fn prepare(&mut self) {
        self.data.status.is_prepared = true
    }

    fn bake(&mut self) {
        self.data.status.is_baked = true
    }

    fn cut(&mut self) {
        self.data.status.cut = Some(crate::factory_method::pizza::Cut::Slice)
    }

    fn package(&mut self) {
        self.data.status.is_packaged = true
    }
}

} // verus!
