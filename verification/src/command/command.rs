use vstd::prelude::*;

use core::cell::RefCell;
use std::rc::Rc;

verus! {

/// An action that can be stored now and fired later.
///
/// A command acts on state it shares with its owner through a reference-
/// counted cell, so its effect lives in that cell, not in the command value:
/// nothing more can be said of `execute` here.
pub trait Command {
    fn execute(&mut self);
}

/// A light that is either on or off.
#[derive(Clone, Copy, Debug)]
pub struct Light(pub bool);

/// `core::cell::RefCell`, the shared mutable cell the commands write through.
/// Verus sees the cell as an opaque value: what it holds at any moment is not
/// a function of that value, so no contract speaks of its contents.
#[verifier::external_type_specification]
#[verifier::external_body]
#[verifier::reject_recursive_types(T)]
pub struct ExRefCell<T: ?Sized>(RefCell<T>);

/// Relies on `RefCell::new`: wraps a value in a fresh cell.
pub assume_specification<T>[ RefCell::<T>::new ](value: T) -> RefCell<T>;

/// Relies on `Rc::clone`: returns another handle to the same allocation, so
/// the clone is the same shared value.
#[verifier::external_body]
fn clone_rc<T>(rc: &Rc<T>) -> (r: Rc<T>)
    ensures
        r == *rc,
{
    Rc::clone(rc)
}

/// Relies on `RefCell::borrow_mut`: switches the shared light on in place.
#[verifier::external_body]
fn turn_light_on(cell: &Rc<RefCell<Light>>) {
    cell.borrow_mut().0 = true;
}

impl Light {
    pub fn is_on(&self) -> (r: bool)
        ensures
            r == self.0,
    {
        self.0
    }

    pub fn is_off(&self) -> (r: bool)
        ensures
            r == !self.0,
    {
        !self.0
    }

    /// A fresh light, off, behind a shared cell with interior mutability, as
    /// the commands hold it.
    pub fn for_int_mut() -> Rc<RefCell<Light>> {
        Rc::new(RefCell::new(Light::default()))
    }
}

impl Default for Light {
    fn default() -> (l: Self)
        ensures
            !l.0,
    {
        Light(false)
    }
}

/// Switches its light on.
pub struct LightOn(Rc<RefCell<Light>>);

impl LightOn {
    /// The cell this command acts on.
    pub closed spec fn spec_cell(&self) -> Rc<RefCell<Light>> {
        self.0
    }

    /// A command that will switch on the light behind `light`.
    pub fn new(light: &Rc<RefCell<Light>>) -> (c: LightOn)
        ensures
            c.spec_cell() == *light,
    {
        LightOn(clone_rc(light))
    }
}

impl Command for LightOn {
    fn execute(&mut self) {
        turn_light_on(&self.0);
    }
}

} // verus!
