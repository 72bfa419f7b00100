use patterns::strategy::duck::{Duck, MallardDuck, ModelDuck};
use patterns::strategy::fly_behavior::{
    FlyBehavior, FlyNoWay, FlyRocketPowered, FlyStrategy, FlyWithWings,
};
use patterns::strategy::quack_behavior::{MuteQuack, Quack, QuackBehavior, Squeak};

#[test]
fn strategy_mallard_duck() {
    let duck = MallardDuck::default();
    assert_eq!(duck.fly(), "I'm flying!");
    assert_eq!(duck.quack(), "Quack");
    assert_eq!(duck.swim(), "All ducks float, even decoys!");
    assert_eq!(duck.display(), "I'm a real Mallard duck");
}

#[test]
fn strategy_model_duck() {
    let duck = ModelDuck::default();
    assert_eq!(duck.fly(), "I can't fly");
    assert_eq!(duck.quack(), "Quack");
    assert_eq!(duck.swim(), "All ducks float, even decoys!");
    assert_eq!(duck.display(), "I'm a model duck");
}

#[test]
fn strategy_replaceable_behaviors() {
    let mut duck = ModelDuck::default();
    assert_eq!(duck.fly(), "I can't fly");
    duck.fly_behavior = FlyStrategy::RocketPowered(FlyRocketPowered);
    assert_eq!(duck.fly(), "I'm flying with a rocket!");
}

#[test]
fn strategy_fly_with_wings() {
    let fly_behavior = FlyWithWings::default();
    assert_eq!(fly_behavior.fly(), "I'm flying!");
}

#[test]
fn strategy_fly_no_way() {
    let fly_behavior = FlyNoWay::default();
    assert_eq!(fly_behavior.fly(), "I can't fly");
}

#[test]
fn strategy_fly_rocket_powered() {
    let fly_behavior = FlyRocketPowered::default();
    assert_eq!(fly_behavior.fly(), "I'm flying with a rocket!");
}

#[test]
fn strategy_quack() {
    let quack_behavior = Quack::default();
    assert_eq!(quack_behavior.quack(), "Quack")
}

#[test]
fn strategy_mute_quack() {
    let quack_behavior = MuteQuack::default();
    assert_eq!(quack_behavior.quack(), "<< Silence >>")
}

#[test]
fn strategy_squeak() {
    let quack_behavior = Squeak::default();
    assert_eq!(quack_behavior.quack(), "Squeak")
}

#[test]
fn duck_mallard_duck() {
    let duck = MallardDuck::default();
    assert_eq!(duck.fly(), "I'm flying!");
    assert_eq!(duck.quack(), "Quack");
    assert_eq!(duck.swim(), "All ducks float, even decoys!");
    assert_eq!(duck.display(), "I'm a real Mallard duck");
}

#[test]
fn duck_model_duck() {
    let duck = ModelDuck::default();
    assert_eq!(duck.fly(), "I can't fly");
    assert_eq!(duck.quack(), "Quack");
    assert_eq!(duck.swim(), "All ducks float, even decoys!");
    assert_eq!(duck.display(), "I'm a model duck");
}

#[test]
fn duck_replaceable_behaviors() {
    let mut duck = ModelDuck::default();
    assert_eq!(duck.fly(), "I can't fly");
    duck.fly_behavior = FlyStrategy::RocketPowered(FlyRocketPowered);
    assert_eq!(duck.fly(), "I'm flying with a rocket!");
}

#[test]
fn fly_behavior_fly_with_wings() {
    let fly_behavior = FlyWithWings::default();
    assert_eq!(fly_behavior.fly(), "I'm flying!");
}

#[test]
fn fly_behavior_fly_no_way() {
    let fly_behavior = FlyNoWay::default();
    assert_eq!(fly_behavior.fly(), "I can't fly");
}

#[test]
fn fly_behavior_fly_rocket_powered() {
    let fly_behavior = FlyRocketPowered::default();
    assert_eq!(fly_behavior.fly(), "I'm flying with a rocket!");
}

#[test]
fn quack_behavior_quack() {
    let quack_behavior = Quack::default();
    assert_eq!(quack_behavior.quack(), "Quack")
}

#[test]
fn quack_behavior_mute_quack() {
    let quack_behavior = MuteQuack::default();
    assert_eq!(quack_behavior.quack(), "<< Silence >>")
}

#[test]
fn quack_behavior_squeak() {
    let quack_behavior = Squeak::default();
    assert_eq!(quack_behavior.quack(), "Squeak")
}

#[test]
fn quack_strategy_delegates() {
    let strategy = patterns::strategy::quack_behavior::QuackStrategy::Squeak(Squeak);
    assert_eq!(strategy.quack(), "Squeak");
    let strategy = patterns::strategy::quack_behavior::QuackStrategy::MuteQuack(MuteQuack);
    assert_eq!(strategy.quack(), "<< Silence >>");
}
