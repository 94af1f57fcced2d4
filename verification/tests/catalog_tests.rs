//! The food catalog: listing, updating in place, and the promise that an
//! update never touches existing orders' escrowed price.

use food_delivery::Error;
use food_delivery::FoodDelivery;
use food_delivery::OrderStatus;

const MANAGER: u64 = 100;
const CUSTOMER: u64 = 1;
const RESTAURANT: u64 = 2;

fn setup() -> FoodDelivery {
    let mut fd = FoodDelivery::new(MANAGER);
    fd.add_customer(
        CUSTOMER,
        "Carol".to_string(),
        "1 Main St".to_string(),
        "555-0001".to_string(),
    )
    .unwrap();
    fd.add_restaurant(
        MANAGER,
        RESTAURANT,
        "Roma".to_string(),
        "2 High St".to_string(),
        "555-0002".to_string(),
    )
    .unwrap();
    fd
}

#[test]
fn add_food_records_and_notifies() {
    let mut fd = setup();
    let (food, ev) = fd
        .add_food(
            RESTAURANT,
            1000,
            "Pizza".to_string(),
            "Margherita".to_string(),
            100,
            30,
        )
        .unwrap();
    assert_eq!(food.food_name, "Pizza");
    assert_eq!(food.restaurant_id, 1);
    assert_eq!(food.price, 100);
    assert_eq!(food.eta, 30);
    assert_eq!(food.timestamp, 1000);
    assert_eq!(ev.food_id, 1);
    assert_eq!(ev.price, 100);

    assert_eq!(
        fd.add_food(999, 1000, "Cake".to_string(), "Sweet".to_string(), 5, 3).err(),
        Some(Error::Unauthorized)
    );
    assert_eq!(
        fd.add_food(RESTAURANT, 1000, "".to_string(), "Sweet".to_string(), 5, 3).err(),
        Some(Error::EmptyField)
    );
    assert_eq!(
        fd.add_food(RESTAURANT, 1000, "Cake".to_string(), "".to_string(), 5, 3).err(),
        Some(Error::EmptyField)
    );
}

#[test]
fn update_food_replaces_fields_in_place() {
    let mut fd = setup();
    fd.add_food(
        RESTAURANT,
        1000,
        "Pizza".to_string(),
        "Margherita".to_string(),
        100,
        30,
    )
    .unwrap();
    let (food, ev) = fd
        .update_food(
            RESTAURANT,
            1200,
            1,
            "Pizza Bianca".to_string(),
            "No tomato".to_string(),
            120,
            25,
        )
        .unwrap();
    assert_eq!(food.food_name, "Pizza Bianca");
    assert_eq!(food.price, 120);
    assert_eq!(food.eta, 25);
    assert_eq!(food.timestamp, 1200);
    assert_eq!(food.restaurant_id, 1);
    assert_eq!(ev.food_id, 1);

    let stored = fd.get_food_from_id(1).unwrap();
    assert_eq!(stored.food_name, "Pizza Bianca");
    assert_eq!(stored.price, 120);
    assert_eq!(stored.restaurant_id, 1);
}

#[test]
fn update_food_guards_identity_ownership_and_fields() {
    let mut fd = setup();
    fd.add_food(
        RESTAURANT,
        1000,
        "Pizza".to_string(),
        "Margherita".to_string(),
        100,
        30,
    )
    .unwrap();
    assert_eq!(
        fd.update_food(999, 1200, 1, "X".to_string(), "Y".to_string(), 1, 1).err(),
        Some(Error::Unauthorized)
    );
    assert_eq!(
        fd.update_food(RESTAURANT, 1200, 9, "X".to_string(), "Y".to_string(), 1, 1).err(),
        Some(Error::NotFound)
    );
    fd.add_restaurant(
        MANAGER,
        5,
        "Lyon".to_string(),
        "6 Hill St".to_string(),
        "555-0005".to_string(),
    )
    .unwrap();
    assert_eq!(
        fd.update_food(5, 1200, 1, "X".to_string(), "Y".to_string(), 1, 1).err(),
        Some(Error::Unauthorized)
    );
    assert_eq!(
        fd.update_food(RESTAURANT, 1200, 1, "".to_string(), "Y".to_string(), 1, 1).err(),
        Some(Error::EmptyField)
    );
}

#[test]
fn update_food_never_touches_existing_orders() {
    let mut fd = setup();
    fd.add_food(
        RESTAURANT,
        1000,
        "Pizza".to_string(),
        "Margherita".to_string(),
        100,
        30,
    )
    .unwrap();
    fd.submit_order(CUSTOMER, 100, 1005, 1, "4 Door Ln".to_string())
        .unwrap();
    fd.update_food(
        RESTAURANT,
        1200,
        1,
        "Pizza".to_string(),
        "Margherita".to_string(),
        200,
        30,
    )
    .unwrap();
    // The existing order keeps the price it escrowed at submission.
    let order = fd.get_order_from_id(1).unwrap();
    assert_eq!(order.price, 100);
    assert_eq!(order.status, OrderStatus::Submitted);
    // A new order must pay the new price.
    assert_eq!(
        fd.submit_order(CUSTOMER, 100, 1300, 1, "4 Door Ln".to_string()).err(),
        Some(Error::PriceMismatch)
    );
    assert!(fd.submit_order(CUSTOMER, 200, 1300, 1, "4 Door Ln".to_string()).is_ok());
}
