use vstd::prelude::*;

pub mod mock;

verus! {

/// One region's source of ingredients. Each method hands out the name of the
/// ingredient the factory supplies for that family, and the spec functions
/// pin those names per factory.
pub trait Factory {
    /// The name of this factory's dough.
    spec fn spec_dough(&self) -> Seq<char>;

    /// The name of this factory's sauce.
    spec fn spec_sauce(&self) -> Seq<char>;

    /// The name of this factory's cheese.
    spec fn spec_cheese(&self) -> Seq<char>;

    /// The names of this factory's vegetables, in order.
    spec fn spec_veggies(&self) -> Seq<Seq<char>>;

    /// The name of this factory's pepperoni.
    spec fn spec_pepperoni(&self) -> Seq<char>;

    /// The name of this factory's clam.
    spec fn spec_clam(&self) -> Seq<char>;

    fn create_dough(&self) -> (r: &'static str)
        ensures
            r@ == self.spec_dough(),
    ;

    fn create_sauce(&self) -> (r: &'static str)
        ensures
            r@ == self.spec_sauce(),
    ;

    fn create_cheese(&self) -> (r: &'static str)
        ensures
            r@ == self.spec_cheese(),
    ;

    fn create_veggies(&self) -> (r: Vec<&'static str>)
        ensures
            r@.map_values(|t: &str| t@) =~= self.spec_veggies(),
    ;

    fn create_pepperoni(&self) -> (r: &'static str)
        ensures
            r@ == self.spec_pepperoni(),
    ;

    fn create_clam(&self) -> (r: &'static str)
        ensures
            r@ == self.spec_clam(),
    ;
}

} // verus!
