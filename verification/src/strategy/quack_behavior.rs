use vstd::prelude::*;

verus! {

/// A way of quacking; `quack` reports it as a fixed message.
pub trait QuackBehavior {
    /// The characters of the message `quack` reports.
    spec fn spec_quack(&self) -> Seq<char>;

    fn quack(&self) -> (r: &'static str)
        ensures
            r@ == self.spec_quack(),
    ;
}

#[derive(Clone, Copy, Debug, Default)]
pub struct Quack;

impl QuackBehavior for Quack {
    open spec fn spec_quack(&self) -> Seq<char> {
        "Quack"@
    }

    fn quack(&self) -> &'static str {
        "Quack"
    }
}

#[derive(Clone, Copy, Debug, Default)]
pub struct MuteQuack;

impl QuackBehavior for MuteQuack {
    open spec fn spec_quack(&self) -> Seq<char> {
        "<< Silence >>"@
    }

    fn quack(&self) -> &'static str {
        "<< Silence >>"
    }
}

#[derive(Clone, Copy, Debug, Default)]
pub struct Squeak;

impl QuackBehavior for Squeak {
    open spec fn spec_quack(&self) -> Seq<char> {
        "Squeak"@
    }

    fn quack(&self) -> &'static str {
        "Squeak"
    }
}

/// A quacking behavior picked at run time, for ducks whose behavior can be
/// swapped after construction.
#[derive(Clone, Copy, Debug)]
pub enum QuackStrategy {
    Quack(Quack),
    MuteQuack(MuteQuack),
    Squeak(Squeak),
}

impl QuackBehavior for QuackStrategy {
    open spec fn spec_quack(&self) -> Seq<char> {
        match self {
            QuackStrategy::Quack(b) => b.spec_quack(),
            QuackStrategy::MuteQuack(b) => b.spec_quack(),
            QuackStrategy::Squeak(b) => b.spec_quack(),
        }
    }

    fn quack(&self) -> &'static str {
        match self {
            QuackStrategy::Quack(b) => b.quack(),
            QuackStrategy::MuteQuack(b) => b.quack(),
            QuackStrategy::Squeak(b) => b.quack(),
        }
    }
}

} // verus!
