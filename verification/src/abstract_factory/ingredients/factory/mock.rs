use vstd::prelude::*;

use crate::abstract_factory::ingredients::factory::Factory;

verus! {

/// A factory whose every ingredient is the mock one — except vegetables, of
/// which it supplies none.
#[derive(Debug)]
pub struct MockIngredientFactory;

impl Default for MockIngredientFactory {
    fn default() -> (f: Self)
        ensures
            f == (MockIngredientFactory),
    {
        MockIngredientFactory
    }
}

impl Factory for MockIngredientFactory {
    open spec fn spec_dough(&self) -> Seq<char> {
        "Mock Ingredient"@
    }

    open spec fn spec_sauce(&self) -> Seq<char> {
        "Mock Ingredient"@
    }

    open spec fn spec_cheese(&self) -> Seq<char> {
        "Mock Ingredient"@
    }

    open spec fn spec_veggies(&self) -> Seq<Seq<char>> {
        Seq::empty()
    }

    open spec fn spec_pepperoni(&self) -> Seq<char> {
        "Mock Ingredient"@
    }

    open spec fn spec_clam(&self) -> Seq<char> {
        "Mock Ingredient"@
    }

    fn create_dough(&self) -> &'static str {
        "Mock Ingredient"
    }

    fn create_sauce(&self) -> &'static str {
        "Mock Ingredient"
    }

    fn create_cheese(&self) -> &'static str {
        "Mock Ingredient"
    }

    fn create_veggies(&self) -> (r: Vec<&'static str>) {
        Vec::new()
    }

    fn create_pepperoni(&self) -> &'static str {
        "Mock Ingredient"
    }

    fn create_clam(&self) -> &'static str {
        "Mock Ingredient"
    }
}

} // verus!
