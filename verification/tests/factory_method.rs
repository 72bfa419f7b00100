use patterns::factory_method::chicago_style_pizza_store::{
    ChicagoStyleCheesePizza, ChicagoStylePizzaStore,
};
use patterns::factory_method::pizza as pizza_model;
use patterns::factory_method::pizza::mock_pizza::MockPizza as ModelMockPizza;
use patterns::factory_method::pizza::Pizza as ModelPizza;
use patterns::factory_method::pizza_store::mock_pizza_store::MockPizzaStore as ModelMockPizzaStore;
use patterns::factory_method::pizza_store::PizzaStore as ModelPizzaStore;
use patterns::factory_method::pizz_store::{MockPizzaStore, PizzaStore};
use patterns::factory_method::pizzas::{MockPizza, Pizza, PizzaType};

#[test]
fn lib_order_pizza() {
    let pizza_store = MockPizzaStore;
    let pizza = pizza_store.order_pizza(PizzaType::Cheese);
    let status = pizza.get_status();
    assert!(status.is_prepared);
    assert!(status.is_baked);
    assert!(status.is_cut);
    assert!(status.is_packaged);
}

#[test]
fn lib_create_pizza() {
    let pizza_store = MockPizzaStore;
    let pizza = pizza_store.create_pizza(PizzaType::Cheese);
    let status = pizza.get_status();
    assert!(!status.is_prepared);
    assert!(!status.is_baked);
    assert!(!status.is_cut);
    assert!(!status.is_packaged);
}

#[test]
fn pizz_store_order_pizza() {
    let pizza_store = MockPizzaStore;
    let pizza = pizza_store.order_pizza(PizzaType::Clam);
    let status = pizza.get_status();
    assert!(status.is_prepared);
    assert!(status.is_baked);
    assert!(status.is_cut);
    assert!(status.is_packaged);
}

#[test]
fn pizz_store_create_pizza() {
    let pizza_store = MockPizzaStore;
    let pizza = pizza_store.create_pizza(PizzaType::Clam);
    let status = pizza.get_status();
    assert!(!status.is_prepared);
    assert!(!status.is_baked);
    assert!(!status.is_cut);
    assert!(!status.is_packaged);
}

#[test]
fn lib_get_name() {
    let pizza = MockPizza::default();
    assert_eq!(pizza.get_name(), pizza.get_data().name());
    assert_eq!(pizza.get_name(), "Mock Pizza");
}

#[test]
fn lib_prepare() {
    let mut pizza = MockPizza::default();
    assert!(!pizza.get_status().is_prepared);
    pizza.prepare();
    assert!(pizza.get_status().is_prepared);
}

#[test]
fn lib_bake() {
    let mut pizza = MockPizza::default();
    assert!(!pizza.get_status().is_baked);
    pizza.bake();
    assert!(pizza.get_status().is_baked);
}

#[test]
fn lib_cut() {
    let mut pizza = MockPizza::default();
    assert!(!pizza.get_status().is_cut);
    pizza.cut();
    assert!(pizza.get_status().is_cut);
}

#[test]
fn lib_package() {
    let mut pizza = MockPizza::default();
    assert!(!pizza.get_status().is_packaged);
    pizza.package();
    assert!(pizza.get_status().is_packaged);
}

#[test]
fn get_variety() {
    let pizza = ModelMockPizza::default();
    assert_eq!(*pizza.get_variety(), pizza_model::Variety::Cheese);
}

#[test]
fn pizza_get_name() {
    let pizza = ModelMockPizza::default();
    assert_eq!(pizza.get_name(), pizza.get_data().name);
}

#[test]
fn pizza_prepare() {
    let mut pizza = ModelMockPizza::default();
    assert!(!pizza.get_status().is_prepared);
    pizza.prepare();
    assert!(pizza.get_status().is_prepared);
}

#[test]
fn pizza_bake() {
    let mut pizza = ModelMockPizza::default();
    assert!(!pizza.get_status().is_baked);
    pizza.bake();
    assert!(pizza.get_status().is_baked);
}

#[test]
fn pizza_cut() {
    let mut pizza = ModelMockPizza::default();
    assert_eq!(pizza.get_status().cut, None);
    pizza.cut();
    assert_eq!(pizza.get_status().cut, Some(pizza_model::Cut::Slice));
}

#[test]
fn pizza_package() {
    let mut pizza = ModelMockPizza::default();
    assert!(!pizza.get_status().is_packaged);
    pizza.package();
    assert!(pizza.get_status().is_packaged);
}

#[test]
fn pizza_store_order_pizza() {
    let pizza_store = ModelMockPizzaStore;
    let pizza = pizza_store.order_pizza(pizza_model::Variety::Cheese);
    let status = pizza.get_status();
    assert!(status.is_prepared);
    assert!(status.is_baked);
    assert_eq!(status.cut, Some(pizza_model::Cut::Slice));
    assert!(status.is_packaged);
}

#[test]
fn pizza_store_create_pizza() {
    let pizza_store = ModelMockPizzaStore;
    let pizza = pizza_store.create_pizza(pizza_model::Variety::Cheese);
    let status = pizza.get_status();
    assert!(!status.is_prepared);
    assert!(!status.is_baked);
    assert_eq!(status.cut, None);
    assert!(!status.is_packaged);
}

#[test]
fn create_cheese_pizza() {
    let pizza_store = ChicagoStylePizzaStore;
    let pizza = pizza_store.create_pizza(pizza_model::Variety::Cheese);
    assert_eq!(*pizza.get_variety(), pizza_model::Variety::Cheese);
}

#[test]
fn chicago_style_cheese_pizza() {
    let pizza = ChicagoStyleCheesePizza::default();
    assert_eq!(*pizza.get_variety(), pizza_model::Variety::Cheese);
}

#[test]
fn ny_pizza_store_orders_cheese() {
    let pizza_store = patterns::factory_method::ny_pizza_store::NyStylePizzaStore;
    let pizza = pizza_store.order_pizza(PizzaType::Cheese);
    assert_eq!(pizza.get_name(), "NY Style Sauce and Cheese Pizza");
    let status = pizza.get_status();
    assert!(status.is_prepared);
    assert!(status.is_baked);
    assert!(status.is_cut);
    assert!(status.is_packaged);
}

#[test]
fn ny_style_pizza_store_full_menu() {
    let pizza_store = patterns::factory_method::ny_style_pizza_store::NyStylePizzaStore;
    let pizza = pizza_store.create_pizza(PizzaType::Pepperoni);
    assert_eq!(pizza.get_name(), "NY Style Sauce and Cheese Pizza");
    assert!(!pizza.get_status().is_prepared);
    let pizza = pizza_store.order_pizza(PizzaType::Veggie);
    assert!(pizza.get_status().is_packaged);
}
