use vstd::prelude::*;

use crate::abstract_factory::ingredients::{Cheese, Clam, Dough, Pepperoni, Sauce, Veggie};

verus! {

/// A stand-in that can pass for an ingredient of any family.
#[derive(Clone, Copy, Debug, Default, PartialEq, Eq)]
pub struct MockIngredient;

impl Dough for MockIngredient {

}

impl Sauce for MockIngredient {

}

impl Cheese for MockIngredient {

}

impl Veggie for MockIngredient {

}

impl Pepperoni for MockIngredient {

}

impl Clam for MockIngredient {

}

} // verus!
