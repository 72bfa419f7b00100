use vstd::prelude::*;

pub mod factory;
pub mod mock_ingredient;

verus! {

/// The ingredients a pizza has been given so far, each recorded by the name
/// its factory gave it; a fresh pizza has none.
#[derive(Debug)]
pub struct Ingredients {
    pub dough: Option<&'static str>,
    pub sauce: Option<&'static str>,
    pub cheese: Option<&'static str>,
    pub veggies: Vec<&'static str>,
    pub pepperoni: Option<&'static str>,
    pub clam: Option<&'static str>,
}

impl Ingredients {
    /// No ingredient has been added yet.
    pub open spec fn is_empty(&self) -> bool {
        self.dough is None && self.sauce is None && self.cheese is None && self.veggies@.len()
            == 0 && self.pepperoni is None && self.clam is None
    }
}

impl Default for Ingredients {
    fn default() -> (i: Self)
        ensures
            i.is_empty(),
    {
        Ingredients {
            dough: None,
            sauce: None,
            cheese: None,
            veggies: Vec::new(),
            pepperoni: None,
            clam: None,
        }
    }
}

/// A dough an ingredient factory can supply.
pub trait Dough {

}

/// A sauce an ingredient factory can supply.
pub trait Sauce {

}

/// A cheese an ingredient factory can supply.
pub trait Cheese {

}

/// A vegetable an ingredient factory can supply.
pub trait Veggie {

}

/// A pepperoni an ingredient factory can supply.
pub trait Pepperoni {

}

/// A clam an ingredient factory can supply.
pub trait Clam {

}

} // verus!
