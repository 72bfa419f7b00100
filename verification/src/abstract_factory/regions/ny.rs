use vstd::prelude::*;

use crate::abstract_factory::ingredients::factory::Factory;
use crate::abstract_factory::pizzas::cheese::Cheese;
use crate::abstract_factory::pizzas::clam::Clam;
use crate::abstract_factory::pizzas::pizza::Variety;
use crate::abstract_factory::pizzas::store::{MenuPizza, Store};

verus! {

/// The New York ingredient factory: thin crust, marinara, reggiano, four
/// vegetables, sliced pepperoni and fresh clams.
#[derive(Debug)]
pub struct IngredientFactory;

impl Default for IngredientFactory {
    fn default() -> (f: Self)
        ensures
            f == (IngredientFactory),
    {
        IngredientFactory
    }
}

impl Factory for IngredientFactory {
    open spec fn spec_dough(&self) -> Seq<char> {
        "Thin Crust Dough"@
    }

    open spec fn spec_sauce(&self) -> Seq<char> {
        "Marinara Sauce"@
    }

    open spec fn spec_cheese(&self) -> Seq<char> {
        "Reggiano Cheese"@
    }

    open spec fn spec_veggies(&self) -> Seq<Seq<char>> {
        seq!["Garlic"@, "Onion"@, "Mushroom"@, "Red Pepper"@]
    }

    open spec fn spec_pepperoni(&self) -> Seq<char> {
        "Sliced Pepperoni"@
    }

    open spec fn spec_clam(&self) -> Seq<char> {
        "Fresh Clam"@
    }

    fn create_dough(&self) -> &'static str {
        "Thin Crust Dough"
    }

    fn create_sauce(&self) -> &'static str {
        "Marinara Sauce"
    }

    fn create_cheese(&self) -> &'static str {
        "Reggiano Cheese"
    }

    fn create_veggies(&self) -> (r: Vec<&'static str>) {
        let r: Vec<&'static str> = vec!["Garlic", "Onion", "Mushroom", "Red Pepper"];
        assert(r@.map_values(|t: &str| t@) =~= self.spec_veggies());
        r
    }

    fn create_pepperoni(&self) -> &'static str {
        "Sliced Pepperoni"
    }

    fn create_clam(&self) -> &'static str {
        "Fresh Clam"
    }
}

/// The New York store: cheese and clam pizzas, cooked from the New York
/// ingredient factory.
#[derive(Debug)]
pub struct PizzaStore(Box<IngredientFactory>);

impl Default for PizzaStore {
    fn default() -> (s: Self)
        ensures
            s.spec_factory() == (IngredientFactory),
    {
        PizzaStore(Box::new(IngredientFactory))
    }
}

impl Store for PizzaStore {
    type F = IngredientFactory;

    closed spec fn spec_factory(&self) -> IngredientFactory {
        *self.0
    }

    open spec fn can_create(&self, pizza_variety: Variety) -> bool {
        pizza_variety == Variety::Cheese || pizza_variety == Variety::Clam
    }

    open spec fn created_variety(&self, pizza_variety: Variety) -> Variety {
        pizza_variety
    }

    fn get_ingredient_factory(&self) -> &IngredientFactory {
        &self.0
    }

    fn create_pizza(&self, pizza_variety: Variety) -> MenuPizza {
        match pizza_variety {
            Variety::Cheese => MenuPizza::Cheese(Cheese::default()),
            Variety::Clam => MenuPizza::Clam(Clam::default()),
            Variety::Veggie => unreached(),
            Variety::Pepperoni => unreached(),
        }
    }
}

} // verus!
