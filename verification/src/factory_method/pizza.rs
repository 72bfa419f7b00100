use vstd::prelude::*;

pub mod mock_pizza;

verus! {

/// The varieties a store can be asked for.
#[derive(Clone, Copy, Debug, PartialEq, Eq)]
pub enum Variety {
    Cheese,
    Veggie,
    Clam,
    Pepperoni,
}

/// How a pizza has been cut, once it has been.
#[derive(Clone, Copy, Debug, PartialEq, Eq, Default)]
pub enum Cut {
    #[default]
    Slice,
    Square,
    Spiral,
}

/// How far a pizza has come through the processing pipeline; an uncut pizza
/// carries no cut style yet.
#[derive(Clone, Copy, Debug, PartialEq, Eq)]
pub struct Status {
    pub is_prepared: bool,
    pub is_baked: bool,
    pub cut: Option<Cut>,
    pub is_packaged: bool,
}

impl Status {
    /// The status of a pizza fresh out of the factory: nothing done yet.
    pub open spec fn unprocessed() -> Status {
        Status { is_prepared: false, is_baked: false, cut: None, is_packaged: false }
    }

    /// The status of an ordered pizza: prepared, baked, cut into slices and
    /// packaged.
    pub open spec fn processed() -> Status {
        Status { is_prepared: true, is_baked: true, cut: Some(Cut::Slice), is_packaged: true }
    }
}

impl Default for Status {
    fn default() -> (s: Self)
        ensures
            s == Status::unprocessed(),
    {
        Status { is_prepared: false, is_baked: false, cut: None, is_packaged: false }
    }
}

/// What makes up one pizza: its variety, its fixed recipe and its status.
#[derive(Debug)]
pub struct Data {
    pub variety: Variety,
    pub name: &'static str,
    pub dough: &'static str,
    pub sauce: &'static str,
    pub toppings: Vec<&'static str>,
    pub status: Status,
}

/// A pizza: its data can be observed, and the four processing steps each
/// update exactly their own part of the status and leave the rest alone.
pub trait Pizza {
    /// The pizza's data.
    spec fn spec_data(&self) -> Data;

    fn get_data(&self) -> (d: &Data)
        ensures
            *d == self.spec_data(),
    ;

    fn get_variety(&self) -> (v: &Variety)
        ensures
            *v == self.spec_data().variety,
    {
        &self.get_data().variety
    }

    fn get_name(&self) -> (r: &str)
        ensures
            r@ == self.spec_data().name@,
    {
        self.get_data().name
    }

    fn get_status(&self) -> (r: &Status)
        ensures
            *r == self.spec_data().status,
    {
        &self.get_data().status
    }

    fn prepare(&mut self)
        ensures
            final(self).spec_data() == (Data {
                status: (Status { is_prepared: true, ..old(self).spec_data().status }),
                ..old(self).spec_data()
            }),
    ;

    fn bake(&mut self)
        ensures
            final(self).spec_data() == (Data {
                status: (Status { is_baked: true, ..old(self).spec_data().status }),
                ..old(self).spec_data()
            }),
    ;

    fn cut(&mut self)
        ensures
            final(self).spec_data() == (Data {
                status: (Status { cut: Some(Cut::Slice), ..old(self).spec_data().status }),
                ..old(self).spec_data()
            }),
    ;

    fn package(&mut self)
        ensures
            final(self).spec_data() == (Data {
                status: (Status { is_packaged: true, ..old(self).spec_data().status }),
                ..old(self).spec_data()
            }),
    ;
}

} // verus!
