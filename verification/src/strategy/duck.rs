use vstd::prelude::*;

use crate::strategy::fly_behavior::{FlyBehavior, FlyNoWay, FlyStrategy, FlyWithWings};
use crate::strategy::quack_behavior::{Quack, QuackBehavior, QuackStrategy};

verus! {

/// A duck delegates flying and quacking to its behavior values and describes
/// itself with a fixed message; swimming is the same for every duck.
pub trait Duck {
    type Fly: FlyBehavior;

    type Quack: QuackBehavior;

    /// The flying behavior this duck currently delegates to.
    spec fn spec_fly_behavior(&self) -> Self::Fly;

    /// The quacking behavior this duck currently delegates to.
    spec fn spec_quack_behavior(&self) -> Self::Quack;

    /// The characters of this duck's self-description.
    spec fn spec_display(&self) -> Seq<char>;

    fn get_fly_behavior(&self) -> (b: &Self::Fly)
        ensures
            *b == self.spec_fly_behavior(),
    ;

    fn get_quack_behavior(&self) -> (b: &Self::Quack)
        ensures
            *b == self.spec_quack_behavior(),
    ;

    /// How this duck reads when printed.
    fn display(&self) -> (r: &'static str)
        ensures
            r@ == self.spec_display(),
    ;

    fn quack(&self) -> (r: &'static str)
        ensures
            r@ == self.spec_quack_behavior().spec_quack(),
    {
        self.get_quack_behavior().quack()
    }

    fn fly(&self) -> (r: &'static str)
        ensures
            r@ == self.spec_fly_behavior().spec_fly(),
    {
        self.get_fly_behavior().fly()
    }

    fn swim(&self) -> (r: &'static str)
        ensures
            r@ == "All ducks float, even decoys!"@,
    {
        "All ducks float, even decoys!"
    }
}

/// A real mallard: its behaviors are fixed by its type and cannot be replaced.
#[derive(Clone, Copy, Debug)]
pub struct MallardDuck {
    fly_behavior: FlyWithWings,
    quack_behavior: Quack,
}

impl Default for MallardDuck {
    fn default() -> (d: Self)
        ensures
            d.spec_fly_behavior() == FlyWithWings,
            d.spec_quack_behavior() == Quack,
    {
        MallardDuck { fly_behavior: FlyWithWings, quack_behavior: Quack }
    }
}

impl Duck for MallardDuck {
    type Fly = FlyWithWings;

    type Quack = Quack;

    closed spec fn spec_fly_behavior(&self) -> FlyWithWings {
        self.fly_behavior
    }

    closed spec fn spec_quack_behavior(&self) -> Quack {
        self.quack_behavior
    }

    open spec fn spec_display(&self) -> Seq<char> {
        "I'm a real Mallard duck"@
    }

    fn get_fly_behavior(&self) -> &FlyWithWings {
        &self.fly_behavior
    }

    fn get_quack_behavior(&self) -> &Quack {
        &self.quack_behavior
    }

    fn display(&self) -> &'static str {
        "I'm a real Mallard duck"
    }
}

/// A model duck: its behaviors are strategy values that can be replaced at
/// run time, so the fields are public.
#[derive(Clone, Copy, Debug)]
pub struct ModelDuck {
    pub fly_behavior: FlyStrategy,
    pub quack_behavior: QuackStrategy,
}

impl Default for ModelDuck {
    fn default() -> (d: Self)
        ensures
            d.spec_fly_behavior() == FlyStrategy::NoWay(FlyNoWay),
            d.spec_quack_behavior() == QuackStrategy::Quack(Quack),
    {
        ModelDuck {
            fly_behavior: FlyStrategy::NoWay(FlyNoWay),
            quack_behavior: QuackStrategy::Quack(Quack),
        }
    }
}

impl Duck for ModelDuck {
    type Fly = FlyStrategy;

    type Quack = QuackStrategy;

    open spec fn spec_fly_behavior(&self) -> FlyStrategy {
        self.fly_behavior
    }

    open spec fn spec_quack_behavior(&self) -> QuackStrategy {
        self.quack_behavior
    }

    open spec fn spec_display(&self) -> Seq<char> {
        "I'm a model duck"@
    }

    fn get_fly_behavior(&self) -> &FlyStrategy {
        &self.fly_behavior
    }

    fn get_quack_behavior(&self) -> &QuackStrategy {
        &self.quack_behavior
    }

    fn display(&self) -> &'static str {
        "I'm a model duck"
    }
}

} // verus!
