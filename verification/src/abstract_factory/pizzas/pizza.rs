use vstd::prelude::*;

use crate::abstract_factory::ingredients::factory::Factory;
use crate::abstract_factory::ingredients::Ingredients;

verus! {

/// The varieties a store can be asked for.
#[derive(Clone, Copy, Debug, PartialEq, Eq)]
pub enum Variety {
    Cheese,
    Veggie,
    Clam,
    Pepperoni,
}

/// How a pizza has been cut, once it has been.
#[derive(Clone, Copy, Debug, PartialEq, Eq, Default)]
pub enum Cut {
    #[default]
    Slice,
    Square,
    Spiral,
}

/// How far a pizza has come through the processing pipeline; an uncut pizza
/// carries no cut style yet.
#[derive(Clone, Copy, Debug, PartialEq, Eq)]
pub struct Status {
    pub is_baked: bool,
    pub cut: Option<Cut>,
    pub is_packaged: bool,
}

impl Status {
    /// The status of a pizza fresh out of the factory: nothing done yet.
    pub open spec fn unprocessed() -> Status {
        Status { is_baked: false, cut: None, is_packaged: false }
    }

    /// The status of an ordered pizza: baked, cut into slices and packaged.
    pub open spec fn processed() -> Status {
        Status { is_baked: true, cut: Some(Cut::Slice), is_packaged: true }
    }
}

impl Default for Status {
    fn default() -> (s: Self)
        ensures
            s == Status::unprocessed(),
    {
        Status { is_baked: false, cut: None, is_packaged: false }
    }
}

/// What makes up one pizza: its name, its status, and the ingredients it has
/// been given so far.
#[derive(Debug)]
pub struct Data {
    pub name: &'static str,
    pub status: Status,
    pub ingredients: Ingredients,
}

/// What preparing does: the variety's own recipe of ingredient families is
/// filled from the factory's names, everything else — the name, the status
/// and the families outside the recipe — stays as it was. Only cheese and
/// clam pizzas exist here.
pub open spec fn prepared_from<F: Factory>(pre: Data, post: Data, variety: Variety, f: F) -> bool {
    match variety {
        Variety::Cheese => post.name == pre.name && post.status == pre.status
            && (post.ingredients.dough matches Some(d) && d@ == f.spec_dough())
            && (post.ingredients.sauce matches Some(s) && s@ == f.spec_sauce())
            && (post.ingredients.cheese matches Some(c) && c@ == f.spec_cheese())
            && post.ingredients.veggies == pre.ingredients.veggies
            && post.ingredients.pepperoni == pre.ingredients.pepperoni
            && post.ingredients.clam == pre.ingredients.clam,
        Variety::Clam => post.name == pre.name && post.status == pre.status
            && (post.ingredients.dough matches Some(d) && d@ == f.spec_dough())
            && (post.ingredients.sauce matches Some(s) && s@ == f.spec_sauce())
            && (post.ingredients.cheese matches Some(c) && c@ == f.spec_cheese())
            && (post.ingredients.clam matches Some(l) && l@ == f.spec_clam())
            && post.ingredients.veggies == pre.ingredients.veggies
            && post.ingredients.pepperoni == pre.ingredients.pepperoni,
        _ => true,
    }
}

/// A pizza: preparing fills its recipe's ingredient families from a factory,
/// and the three later steps each update exactly their own part of the
/// status, leaving everything else alone.
pub trait Pizza {
    /// The pizza's data.
    spec fn spec_data(&self) -> Data;

    /// The pizza's variety.
    spec fn spec_variety(&self) -> Variety;

    fn get_data(&self) -> (d: &Data)
        ensures
            *d == self.spec_data(),
    ;

    fn get_variety(&self) -> (v: Variety)
        ensures
            v == self.spec_variety(),
    ;

    fn get_status(&self) -> (r: &Status)
        ensures
            *r == self.spec_data().status,
    {
        &self.get_data().status
    }

    fn get_ingredients(&self) -> (r: &Ingredients)
        ensures
            *r == self.spec_data().ingredients,
    {
        &self.get_data().ingredients
    }

    fn prepare<F: Factory>(&mut self, ingredient_factory: &F)
        ensures
            final(self).spec_variety() == old(self).spec_variety(),
            prepared_from(
                old(self).spec_data(),
                final(self).spec_data(),
                old(self).spec_variety(),
                *ingredient_factory,
            ),
    ;

    fn bake(&mut self)
        ensures
            final(self).spec_variety() == old(self).spec_variety(),
            final(self).spec_data() == (Data {
                status: (Status { is_baked: true, ..old(self).spec_data().status }),
                ..old(self).spec_data()
            }),
    ;

    fn cut(&mut self)
        ensures
            final(self).spec_variety() == old(self).spec_variety(),
            final(self).spec_data() == (Data {
                status: (Status { cut: Some(Cut::Slice), ..old(self).spec_data().status }),
                ..old(self).spec_data()
            }),
    ;

    fn package(&mut self)
        ensures
            final(self).spec_variety() == old(self).spec_variety(),
            final(self).spec_data() == (Data {
                status: (Status { is_packaged: true, ..old(self).spec_data().status }),
                ..old(self).spec_data()
            }),
    ;
}

} // verus!
