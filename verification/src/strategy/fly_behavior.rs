use vstd::prelude::*;

verus! {

/// A way of flying; `fly` reports it as a fixed message.
pub trait FlyBehavior {
    /// The characters of the message `fly` reports.
    spec fn spec_fly(&self) -> Seq<char>;

    fn fly(&self) -> (r: &'static str)
        ensures
            r@ == self.spec_fly(),
    ;
}

#[derive(Clone, Copy, Debug, Default)]
pub struct FlyWithWings;

impl FlyBehavior for FlyWithWings {
    open spec fn spec_fly(&self) -> Seq<char> {
        "I'm flying!"@
    }

    fn fly(&self) -> &'static str {
        "I'm flying!"
    }
}

#[derive(Clone, Copy, Debug, Default)]
pub struct FlyNoWay;

impl FlyBehavior for FlyNoWay {
    open spec fn spec_fly(&self) -> Seq<char> {
        "I can't fly"@
    }

    fn fly(&self) -> &'static str {
        "I can't fly"
    }
}

#[derive(Clone, Copy, Debug, Default)]
pub struct FlyRocketPowered;

impl FlyBehavior for FlyRocketPowered {
    open spec fn spec_fly(&self) -> Seq<char> {
        "I'm flying with a rocket!"@
    }

    fn fly(&self) -> &'static str {
        "I'm flying with a rocket!"
    }
}

/// A flying behavior picked at run time, for ducks whose behavior can be
/// swapped after construction.
#[derive(Clone, Copy, Debug)]
pub enum FlyStrategy {
    WithWings(FlyWithWings),
    NoWay(FlyNoWay),
    RocketPowered(FlyRocketPowered),
}

impl FlyBehavior for FlyStrategy {
    open spec fn spec_fly(&self) -> Seq<char> {
        match self {
            FlyStrategy::WithWings(b) => b.spec_fly(),
            FlyStrategy::NoWay(b) => b.spec_fly(),
            FlyStrategy::RocketPowered(b) => b.spec_fly(),
        }
    }

    fn fly(&self) -> &'static str {
        match self {
            FlyStrategy::WithWings(b) => b.fly(),
            FlyStrategy::NoWay(b) => b.fly(),
            FlyStrategy::RocketPowered(b) => b.fly(),
        }
    }
}

} // verus!
