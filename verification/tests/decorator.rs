use patterns::decorator::beverages::{DarkRoast, Decaf, Espresso, HouseBlend, Stub};
use patterns::decorator::condiments::{Mocha, Soy, SteamedMilk, Whip};
use patterns::decorator::Beverage;

#[test]
fn get_description() {
    let beverage = Stub::with_box();
    assert_eq!(beverage.get_description(), "Stub");
}

#[test]
fn get_cost() {
    let beverage = Stub::with_box();
    assert_eq!(beverage.cost(), 0);
}

#[test]
fn lib_get_description() {
    assert_eq!(Stub::with_box().get_description(), "Stub");
    assert_eq!(Espresso::with_box().get_description(), "Espresso");
    assert_eq!(HouseBlend::with_box().get_description(), "House Blend");
    assert_eq!(DarkRoast::with_box().get_description(), "Dark Roast");
    assert_eq!(Decaf::with_box().get_description(), "Decaf");
    assert_eq!(
        Mocha::with_box(Stub::with_box()).get_description(),
        "Stub, Mocha"
    );
    assert_eq!(
        Soy::with_box(Stub::with_box()).get_description(),
        "Stub, Soy"
    );
    assert_eq!(
        Whip::with_box(Stub::with_box()).get_description(),
        "Stub, Whip"
    );
    assert_eq!(
        SteamedMilk::with_box(Stub::with_box()).get_description(),
        "Stub, Steamed Milk"
    );
}

#[test]
fn lib_cost() {
    assert_eq!(Espresso::with_box().cost(), 199);
    assert_eq!(HouseBlend::with_box().cost(), 89);
    assert_eq!(DarkRoast::with_box().cost(), 99);
    assert_eq!(Decaf::with_box().cost(), 105);
    assert_eq!(Mocha::with_box(Stub::with_box()).cost(), 20);
    assert_eq!(Soy::with_box(Stub::with_box()).cost(), 15);
    assert_eq!(Whip::with_box(Stub::with_box()).cost(), 10);
    assert_eq!(SteamedMilk::with_box(Stub::with_box()).cost(), 10);
}

#[test]
fn espresso_with_steamed_milk() {
    let beverage = Espresso::with_box();
    let beverage = SteamedMilk::with_box(beverage);
    assert_eq!(beverage.get_description(), "Espresso, Steamed Milk");
    assert_eq!(beverage.cost(), 209);
}

#[test]
fn double_mocha_dark_roast_with_whip() {
    let beverage = DarkRoast::with_box();
    let beverage = Mocha::with_box(beverage);
    let beverage = Mocha::with_box(beverage);
    let beverage = Whip::with_box(beverage);
    assert_eq!(beverage.get_description(), "Dark Roast, Mocha, Mocha, Whip");
    assert_eq!(beverage.cost(), 149);
}

#[test]
fn soy_mocha_house_blend_with_whip() {
    let beverage = HouseBlend::with_box();
    let beverage = Soy::with_box(beverage);
    let beverage = Mocha::with_box(beverage);
    let beverage = Whip::with_box(beverage);
    assert_eq!(beverage.get_description(), "House Blend, Soy, Mocha, Whip");
    assert_eq!(beverage.cost(), 134);
}

#[test]
fn decaf_with_a_lotta_whip() {
    let beverage = Decaf::with_box();
    let beverage = Whip::with_box(beverage);
    let beverage = Whip::with_box(beverage);
    let beverage = Whip::with_box(beverage);
    assert_eq!(beverage.get_description(), "Decaf, Whip, Whip, Whip");
    assert_eq!(beverage.cost(), 135);
}
