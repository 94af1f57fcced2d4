//! Read accessors: the eta countdown, per-owner listings, range queries and
//! the escrow split's exact values.

use food_delivery::DeliveryStatus;
use food_delivery::Error;
use food_delivery::FoodDelivery;
use food_delivery::Settlement;

const MANAGER: u64 = 100;
const CUSTOMER: u64 = 1;
const RESTAURANT: u64 = 2;
const COURIER: u64 = 3;

fn setup(price: u128, eta: u64) -> FoodDelivery {
    let mut fd = FoodDelivery::new(MANAGER);
    fd.add_customer(
        CUSTOMER,
        "Carol".to_string(),
        "1 Main St".to_string(),
        "555-0001".to_string(),
    )
    .unwrap();
    fd.add_restaurant(
        MANAGER,
        RESTAURANT,
        "Roma".to_string(),
        "2 High St".to_string(),
        "555-0002".to_string(),
    )
    .unwrap();
    fd.add_courier(
        MANAGER,
        COURIER,
        "Kim".to_string(),
        "3 Low Rd".to_string(),
        "555-0003".to_string(),
    )
    .unwrap();
    fd.add_food(
        RESTAURANT,
        1000,
        "Pizza".to_string(),
        "Margherita".to_string(),
        price,
        eta,
    )
    .unwrap();
    fd
}

/// Drives one order of the given price through the whole lifecycle and
/// returns the settlement it ends in.
fn settle(price: u128) -> Settlement {
    let mut fd = setup(price, 30);
    fd.submit_order(CUSTOMER, price, 1005, 1, "4 Door Ln".to_string())
        .unwrap();
    fd.confirm_order(RESTAURANT, 1).unwrap();
    fd.deliver_order(RESTAURANT, 1010, 1).unwrap();
    fd.pickup_delivery(COURIER, 1).unwrap();
    let (settlement, _) = fd.confirm_delivery(CUSTOMER, 1).unwrap();
    settlement
}

#[test]
fn escrow_split_is_exact_for_every_price() {
    let s = settle(101);
    assert_eq!(s.courier_amount, 10);
    assert_eq!(s.restaurant_amount, 91);

    let s = settle(100);
    assert_eq!(s.courier_amount, 10);
    assert_eq!(s.restaurant_amount, 90);

    let s = settle(9);
    assert_eq!(s.courier_amount, 0);
    assert_eq!(s.restaurant_amount, 9);

    let s = settle(0);
    assert_eq!(s.courier_amount, 0);
    assert_eq!(s.restaurant_amount, 0);
}

#[test]
fn get_eta_counts_down_and_floors_at_zero() {
    let mut fd = setup(100, 30);
    fd.submit_order(CUSTOMER, 100, 1005, 1, "4 Door Ln".to_string())
        .unwrap();
    // Before confirmation the order's eta is still 0.
    assert_eq!(fd.get_eta(1005, 1), Ok(0));
    fd.confirm_order(RESTAURANT, 1).unwrap();
    // The order was submitted at 1005; the countdown starts there.
    assert_eq!(fd.get_eta(1005, 1), Ok(30));
    assert_eq!(fd.get_eta(1015, 1), Ok(20));
    assert_eq!(fd.get_eta(1035, 1), Ok(0));
    assert_eq!(fd.get_eta(9999, 1), Ok(0));
    assert_eq!(fd.get_eta(1005, 9).err(), Some(Error::NotFound));
}

#[test]
fn range_queries_clamp_at_the_live_counter() {
    let mut fd = setup(100, 30);
    for _ in 0..3 {
        fd.submit_order(CUSTOMER, 100, 1005, 1, "4 Door Ln".to_string())
            .unwrap();
    }
    // Three orders live: ids 1, 2, 3; the counter stands at 4.
    let all = fd.get_order_all(1, 999).unwrap();
    let clamped = fd.get_order_all(1, 4).unwrap();
    assert_eq!(all.len(), 3);
    assert_eq!(all.len(), clamped.len());
    for i in 0..all.len() {
        assert_eq!(all[i].food_id, clamped[i].food_id);
        assert_eq!(all[i].price, clamped[i].price);
        assert_eq!(all[i].timestamp, clamped[i].timestamp);
    }
    // Identifier 0 was never allocated.
    assert_eq!(fd.get_order_all(0, 2).err(), Some(Error::NotFound));
    // An empty range is fine, even from 0.
    assert!(fd.get_order_all(2, 2).unwrap().is_empty());
    assert!(fd.get_order_all(0, 0).unwrap().is_empty());
    assert!(fd.get_order_all(5, 9).unwrap().is_empty());
    // A partial range returns records in ascending identifier order.
    let some = fd.get_order_all(2, 4).unwrap();
    assert_eq!(some.len(), 2);

    assert_eq!(fd.get_food_all(1, 999).unwrap().len(), 1);
    assert_eq!(fd.get_food_all(0, 1).err(), Some(Error::NotFound));
    assert_eq!(fd.get_restaurant_all(1, 999).unwrap().len(), 1);
    assert_eq!(fd.get_restaurant_all(1, 999).unwrap()[0].restaurant_name, "Roma");
    assert!(fd.get_delivery_all(1, 999).unwrap().is_empty());
}

#[test]
fn listings_come_back_in_insertion_order() {
    let mut fd = setup(100, 30);
    fd.add_food(
        RESTAURANT,
        1001,
        "Cake".to_string(),
        "Sweet".to_string(),
        50,
        10,
    )
    .unwrap();
    fd.submit_order(CUSTOMER, 100, 1005, 1, "4 Door Ln".to_string())
        .unwrap();
    fd.submit_order(CUSTOMER, 50, 1006, 2, "4 Door Ln".to_string())
        .unwrap();

    let foods = fd.get_food_from_restaurant(1).unwrap();
    assert_eq!(foods.len(), 2);
    assert_eq!(foods[0].food_name, "Pizza");
    assert_eq!(foods[1].food_name, "Cake");

    let orders = fd.get_order_from_restaurant(1).unwrap();
    assert_eq!(orders.len(), 2);
    assert_eq!(orders[0].food_id, 1);
    assert_eq!(orders[1].food_id, 2);

    let orders = fd.get_order_from_customer(1).unwrap();
    assert_eq!(orders.len(), 2);
    assert_eq!(orders[0].price, 100);
    assert_eq!(orders[1].price, 50);

    assert_eq!(fd.get_order_from_restaurant(9).err(), Some(Error::NotFound));
    assert_eq!(fd.get_order_from_customer(9).err(), Some(Error::NotFound));
    assert_eq!(fd.get_food_from_restaurant(9).err(), Some(Error::NotFound));
}

#[test]
fn delivery_listings_follow_the_indices() {
    let mut fd = setup(100, 30);
    fd.submit_order(CUSTOMER, 100, 1005, 1, "4 Door Ln".to_string())
        .unwrap();
    fd.confirm_order(RESTAURANT, 1).unwrap();
    fd.deliver_order(RESTAURANT, 1010, 1).unwrap();

    let ds = fd.get_delivery_from_restaurant(1).unwrap();
    assert_eq!(ds.len(), 1);
    assert_eq!(ds[0].order_id, 1);
    assert_eq!(ds[0].status, DeliveryStatus::Waiting);
    let ds = fd.get_delivery_from_customer(1).unwrap();
    assert_eq!(ds.len(), 1);
    let ds = fd.get_delivery_all(1, 999).unwrap();
    assert_eq!(ds.len(), 1);
    assert_eq!(ds[0].order_id, 1);

    // Deliveries are recorded under the unassigned courier value 0 at
    // creation and never re-recorded, so a courier's own listing is empty
    // even after pickup.
    fd.pickup_delivery(COURIER, 1).unwrap();
    assert!(fd.get_delivery_from_courier(1).unwrap().is_empty());
    assert_eq!(fd.get_delivery_from_courier(9).err(), Some(Error::NotFound));

    assert_eq!(fd.get_delivery_from_restaurant(9).err(), Some(Error::NotFound));
    assert_eq!(fd.get_delivery_from_customer(9).err(), Some(Error::NotFound));
}

#[test]
fn single_record_lookups_fail_on_unknown_ids() {
    let fd = FoodDelivery::new(MANAGER);
    assert_eq!(fd.get_order_from_id(1).err(), Some(Error::NotFound));
    assert_eq!(fd.get_food_from_id(1).err(), Some(Error::NotFound));
    assert_eq!(fd.get_delivery_from_id(1).err(), Some(Error::NotFound));
}
