use vstd::prelude::*;

verus! {

/// The kinds of pizza a store can be asked for.
#[derive(Clone, Copy, Debug, PartialEq, Eq)]
pub enum PizzaType {
    Cheese,
    Veggie,
    Clam,
    Pepperoni,
}

/// How far a pizza has come through the processing pipeline.
#[derive(Clone, Copy, Debug, PartialEq, Eq)]
pub struct PizzaStatus {
    pub is_prepared: bool,
    pub is_baked: bool,
    pub is_cut: bool,
    pub is_packaged: bool,
}

impl PizzaStatus {
    /// The status of a pizza fresh out of the factory: nothing done yet.
    pub open spec fn unprocessed() -> PizzaStatus {
        PizzaStatus { is_prepared: false, is_baked: false, is_cut: false, is_packaged: false }
    }

    /// The status of an ordered pizza: prepared, baked, cut and packaged.
    pub open spec fn processed() -> PizzaStatus {
        PizzaStatus { is_prepared: true, is_baked: true, is_cut: true, is_packaged: true }
    }
}

impl Default for PizzaStatus {
    fn default() -> (s: Self)
        ensures
            s == PizzaStatus::unprocessed(),
    {
        PizzaStatus { is_prepared: false, is_baked: false, is_cut: false, is_packaged: false }
    }
}

/// What makes up one pizza: its fixed recipe and its processing status.
#[derive(Debug)]
pub struct PizzaData {
    name: &'static str,
    dough: &'static str,
    sauce: &'static str,
    toppings: Vec<&'static str>,
    status: PizzaStatus,
}

/// `post` is `pre` with its status replaced by `status` and the recipe —
/// name, dough, sauce and toppings — untouched.
pub open spec fn same_but_status(pre: PizzaData, post: PizzaData, status: PizzaStatus) -> bool {
    post.spec_name() == pre.spec_name() && post.spec_dough() == pre.spec_dough()
        && post.spec_sauce() == pre.spec_sauce() && post.spec_toppings() == pre.spec_toppings()
        && post.spec_status() == status
}

impl PizzaData {
    /// The characters of the pizza's name.
    pub closed spec fn spec_name(&self) -> Seq<char> {
        self.name@
    }

    /// The characters of the dough's name.
    pub closed spec fn spec_dough(&self) -> Seq<char> {
        self.dough@
    }

    /// The characters of the sauce's name.
    pub closed spec fn spec_sauce(&self) -> Seq<char> {
        self.sauce@
    }

    /// The topping names, in order.
    pub closed spec fn spec_toppings(&self) -> Seq<Seq<char>> {
        self.toppings@.map_values(|t: &str| t@)
    }

    /// The processing status.
    pub closed spec fn spec_status(&self) -> PizzaStatus {
        self.status
    }

    /// A pizza with the given recipe and status.
    pub fn new(
        name: &'static str,
        dough: &'static str,
        sauce: &'static str,
        toppings: Vec<&'static str>,
        status: PizzaStatus,
    ) -> (d: PizzaData)
        ensures
            d.spec_name() == name@,
            d.spec_dough() == dough@,
            d.spec_sauce() == sauce@,
            d.spec_toppings() == toppings@.map_values(|t: &str| t@),
            d.spec_status() == status,
    {
        PizzaData { name, dough, sauce, toppings, status }
    }

    /// The pizza's name.
    pub fn name(&self) -> (r: &str)
        ensures
            r@ == self.spec_name(),
    {
        self.name
    }

    /// The pizza's processing status.
    pub fn status(&self) -> (r: &PizzaStatus)
        ensures
            *r == self.spec_status(),
    {
        &self.status
    }

    pub fn set_prepared(&mut self)
        ensures
            same_but_status(
                *old(self),
                *final(self),
                (PizzaStatus { is_prepared: true, ..old(self).spec_status() }),
            ),
    {
        self.status.is_prepared = true;
    }

    pub fn set_baked(&mut self)
        ensures
            same_but_status(
                *old(self),
                *final(self),
                (PizzaStatus { is_baked: true, ..old(self).spec_status() }),
            ),
    {
        self.status.is_baked = true;
    }

    pub fn set_cut(&mut self)
        ensures
            same_but_status(
                *old(self),
                *final(self),
                (PizzaStatus { is_cut: true, ..old(self).spec_status() }),
            ),
    {
        self.status.is_cut = true;
    }

    pub fn set_packaged(&mut self)
        ensures
            same_but_status(
                *old(self),
                *final(self),
                (PizzaStatus { is_packaged: true, ..old(self).spec_status() }),
            ),
    {
        self.status.is_packaged = true;
    }
}

/// A pizza: its data can be observed, and the four processing steps each set
/// exactly their own status flag and leave the recipe alone.
pub trait Pizza {
    /// The pizza's data.
    spec fn spec_data(&self) -> PizzaData;

    fn get_data(&self) -> (d: &PizzaData)
        ensures
            *d == self.spec_data(),
    ;

    fn get_name(&self) -> (r: &str)
        ensures
            r@ == self.spec_data().spec_name(),
    {
        self.get_data().name()
    }

    fn get_status(&self) -> (r: &PizzaStatus)
        ensures
            *r == self.spec_data().spec_status(),
    {
        self.get_data().status()
    }

    fn prepare(&mut self)
        ensures
            same_but_status(
                old(self).spec_data(),
                final(self).spec_data(),
                (PizzaStatus { is_prepared: true, ..old(self).spec_data().spec_status() }),
            ),
    ;

    fn bake(&mut self)
        ensures
            same_but_status(
                old(self).spec_data(),
                final(self).spec_data(),
                (PizzaStatus { is_baked: true, ..old(self).spec_data().spec_status() }),
            ),
    ;

    fn cut(&mut self)
        ensures
            same_but_status(
                old(self).spec_data(),
                final(self).spec_data(),
                (PizzaStatus { is_cut: true, ..old(self).spec_data().spec_status() }),
            ),
    ;

    fn package(&mut self)
        ensures
            same_but_status(
                old(self).spec_data(),
                final(self).spec_data(),
                (PizzaStatus { is_packaged: true, ..old(self).spec_data().spec_status() }),
            ),
    ;
}

/// A stand-in pizza with a mock recipe, for exercising stores.
#[derive(Debug)]
pub struct MockPizza(PizzaData);

impl Default for MockPizza {
    fn default() -> (p: Self)
        ensures
            p.spec_data().spec_name() == "Mock Pizza"@,
            p.spec_data().spec_dough() == "Mock Dough"@,
            p.spec_data().spec_sauce() == "Mock Sauce"@,
            p.spec_data().spec_toppings() =~= seq!["Mock Topping"@],
            p.spec_data().spec_status() == PizzaStatus::unprocessed(),
    {
        MockPizza(
            PizzaData::new(
                "Mock Pizza",
                "Mock Dough",
                "Mock Sauce",
                vec!["Mock Topping"],
                PizzaStatus::default(),
            ),
        )
    }
}

impl Pizza for MockPizza {
    closed spec fn spec_data(&self) -> PizzaData {
        self.0
    }

    fn get_data(&self) -> &PizzaData {
        &self.0
    }

    fn prepare(&mut self) {
        self.0.set_prepared()
    }

    fn bake(&mut self) {
        self.0.set_baked()
    }

    fn cut(&mut self) {
        self.0.set_cut()
    }

    fn package(&mut self) {
        self.0.set_packaged()
    }
}

} // verus!
