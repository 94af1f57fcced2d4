//! The full order/delivery lifecycle, driven as the surrounding runtime
//! would drive it: callers, times and attached values handed in as plain
//! arguments.

use food_delivery::DeliveryStatus;
use food_delivery::Error;
use food_delivery::FoodDelivery;
use food_delivery::OrderStatus;
use food_delivery::settlement_result;

const MANAGER: u64 = 100;
const CUSTOMER: u64 = 1;
const RESTAURANT: u64 = 2;
const COURIER: u64 = 3;

/// Registers one customer, one restaurant and one courier, and lists one
/// food at the given price with the given eta. Returns the ledger.
fn setup(price: u128, eta: u64) -> FoodDelivery {
    let mut fd = FoodDelivery::new(MANAGER);
    fd.add_customer(
        CUSTOMER,
        "Carol".to_string(),
        "1 Main St".to_string(),
        "555-0001".to_string(),
    )
    .unwrap();
    fd.add_restaurant(
        MANAGER,
        RESTAURANT,
        "Roma".to_string(),
        "2 High St".to_string(),
        "555-0002".to_string(),
    )
    .unwrap();
    fd.add_courier(
        MANAGER,
        COURIER,
        "Kim".to_string(),
        "3 Low Rd".to_string(),
        "555-0003".to_string(),
    )
    .unwrap();
    fd.add_food(
        RESTAURANT,
        1000,
        "Pizza".to_string(),
        "Margherita".to_string(),
        price,
        eta,
    )
    .unwrap();
    fd
}

#[test]
fn end_to_end() {
    let mut fd = setup(100, 30);

    let (order, ev) = fd
        .submit_order(CUSTOMER, 100, 1005, 1, "4 Door Ln".to_string())
        .unwrap();
    assert_eq!(order.status, OrderStatus::Submitted);
    assert_eq!(order.price, 100);
    assert_eq!(order.food_id, 1);
    assert_eq!(order.restaurant_id, 1);
    assert_eq!(order.customer_id, 1);
    assert_eq!(order.courier_id, 0);
    assert_eq!(order.eta, 0);
    assert_eq!(ev.order_id, 1);
    assert_eq!(ev.phone_number, "555-0001");
    assert_eq!(ev.delivery_address, "4 Door Ln");

    let cev = fd.confirm_order(RESTAURANT, 1).unwrap();
    assert_eq!(cev.eta, 30);
    let order = fd.get_order_from_id(1).unwrap();
    assert_eq!(order.status, OrderStatus::Confirmed);
    assert_eq!(order.eta, 30);

    let (delivery, dev) = fd.deliver_order(RESTAURANT, 1010, 1).unwrap();
    assert_eq!(delivery.status, DeliveryStatus::Waiting);
    assert_eq!(delivery.order_id, 1);
    assert_eq!(delivery.courier_id, 0);
    assert_eq!(delivery.delivery_address, "4 Door Ln");
    assert_eq!(dev.order_id, 1);
    assert_eq!(fd.get_order_from_id(1).unwrap().status, OrderStatus::WaitingDeliver);

    let pev = fd.pickup_delivery(COURIER, 1).unwrap();
    assert_eq!(pev.delivery_id, 1);
    let order = fd.get_order_from_id(1).unwrap();
    assert_eq!(order.status, OrderStatus::Delivered);
    assert_eq!(order.courier_id, 1);
    let delivery = fd.get_delivery_from_id(1).unwrap();
    assert_eq!(delivery.status, DeliveryStatus::PickedUp);
    assert_eq!(delivery.courier_id, 1);

    let (settlement, aev) = fd.confirm_delivery(CUSTOMER, 1).unwrap();
    assert_eq!(fd.get_order_from_id(1).unwrap().status, OrderStatus::Accepted);
    assert_eq!(fd.get_delivery_from_id(1).unwrap().status, DeliveryStatus::Accepted);
    assert_eq!(settlement.courier_amount, 10);
    assert_eq!(settlement.restaurant_amount, 90);
    assert_eq!(settlement.courier_account, COURIER);
    assert_eq!(settlement.restaurant_account, RESTAURANT);
    assert_eq!(aev.delivery_id, 1);
    assert_eq!(aev.order_id, 1);
    assert!(settlement_result(true, true));
}

#[test]
fn submit_order_price_must_match() {
    let mut fd = setup(100, 30);
    let r = fd.submit_order(CUSTOMER, 99, 1005, 1, "4 Door Ln".to_string());
    assert_eq!(r.err(), Some(Error::PriceMismatch));
    assert_eq!(fd.get_order_from_id(1).err(), Some(Error::NotFound));
    let r = fd.submit_order(CUSTOMER, 101, 1005, 1, "4 Door Ln".to_string());
    assert_eq!(r.err(), Some(Error::PriceMismatch));
    let (order, _) = fd
        .submit_order(CUSTOMER, 100, 1005, 1, "4 Door Ln".to_string())
        .unwrap();
    assert_eq!(order.status, OrderStatus::Submitted);
}

#[test]
fn transitions_never_skip_or_go_back() {
    let mut fd = setup(100, 30);
    fd.submit_order(CUSTOMER, 100, 1005, 1, "4 Door Ln".to_string())
        .unwrap();

    // A submitted order cannot be dispatched before confirmation.
    assert_eq!(fd.deliver_order(RESTAURANT, 1006, 1).err(), Some(Error::InvalidTransition));

    fd.confirm_order(RESTAURANT, 1).unwrap();
    // A confirmed order cannot be confirmed again.
    assert_eq!(fd.confirm_order(RESTAURANT, 1).err(), Some(Error::InvalidTransition));

    fd.deliver_order(RESTAURANT, 1010, 1).unwrap();
    // A dispatched order cannot be accepted before pickup.
    assert_eq!(fd.confirm_delivery(CUSTOMER, 1).err(), Some(Error::InvalidTransition));

    fd.pickup_delivery(COURIER, 1).unwrap();
    // A delivered order cannot be confirmed again.
    assert_eq!(fd.confirm_order(RESTAURANT, 1).err(), Some(Error::InvalidTransition));

    fd.confirm_delivery(CUSTOMER, 1).unwrap();
    // The terminal state admits no further transition.
    assert_eq!(fd.confirm_delivery(CUSTOMER, 1).err(), Some(Error::InvalidTransition));
    assert_eq!(fd.deliver_order(RESTAURANT, 1020, 1).err(), Some(Error::InvalidTransition));
}

#[test]
fn pickup_delivery_second_call_fails_and_changes_nothing() {
    let mut fd = setup(100, 30);
    fd.submit_order(CUSTOMER, 100, 1005, 1, "4 Door Ln".to_string())
        .unwrap();
    fd.confirm_order(RESTAURANT, 1).unwrap();
    fd.deliver_order(RESTAURANT, 1010, 1).unwrap();

    // Register a second courier; the first pickup wins.
    fd.add_courier(
        MANAGER,
        4,
        "Lee".to_string(),
        "5 Side St".to_string(),
        "555-0004".to_string(),
    )
    .unwrap();
    fd.pickup_delivery(COURIER, 1).unwrap();

    assert_eq!(fd.pickup_delivery(4, 1).err(), Some(Error::AlreadyPickedUp));
    assert_eq!(fd.pickup_delivery(COURIER, 1).err(), Some(Error::AlreadyPickedUp));

    let delivery = fd.get_delivery_from_id(1).unwrap();
    assert_eq!(delivery.status, DeliveryStatus::PickedUp);
    assert_eq!(delivery.courier_id, 1);
    let order = fd.get_order_from_id(1).unwrap();
    assert_eq!(order.status, OrderStatus::Delivered);
    assert_eq!(order.courier_id, 1);
}

#[test]
fn unauthorized_caller_changes_nothing() {
    let mut fd = setup(100, 30);
    fd.submit_order(CUSTOMER, 100, 1005, 1, "4 Door Ln".to_string())
        .unwrap();

    // 999 holds no role at all.
    assert_eq!(fd.confirm_order(999, 1).err(), Some(Error::Unauthorized));
    let order = fd.get_order_from_id(1).unwrap();
    assert_eq!(order.status, OrderStatus::Submitted);
    assert_eq!(order.eta, 0);

    // A registered restaurant that does not own the order's food fails too.
    fd.add_restaurant(
        MANAGER,
        5,
        "Lyon".to_string(),
        "6 Hill St".to_string(),
        "555-0005".to_string(),
    )
    .unwrap();
    assert_eq!(fd.confirm_order(5, 1).err(), Some(Error::Unauthorized));
    assert_eq!(fd.get_order_from_id(1).unwrap().status, OrderStatus::Submitted);

    assert_eq!(fd.pickup_delivery(999, 1).err(), Some(Error::Unauthorized));
    assert_eq!(fd.confirm_delivery(999, 1).err(), Some(Error::Unauthorized));
    assert_eq!(fd.deliver_order(999, 1006, 1).err(), Some(Error::Unauthorized));
}

#[test]
fn submit_order_validates_caller_food_and_address() {
    let mut fd = setup(100, 30);
    assert_eq!(
        fd.submit_order(999, 100, 1005, 1, "4 Door Ln".to_string()).err(),
        Some(Error::Unauthorized)
    );
    assert_eq!(
        fd.submit_order(CUSTOMER, 100, 1005, 7, "4 Door Ln".to_string()).err(),
        Some(Error::NotFound)
    );
    assert_eq!(
        fd.submit_order(CUSTOMER, 100, 1005, 1, "".to_string()).err(),
        Some(Error::EmptyField)
    );
}

#[test]
fn ownership_is_checked_before_status() {
    let mut fd = setup(100, 30);
    fd.submit_order(CUSTOMER, 100, 1005, 1, "4 Door Ln".to_string())
        .unwrap();

    // A registered restaurant that does not own the order gets Unauthorized
    // even though the order is not Confirmed either.
    fd.add_restaurant(
        MANAGER,
        5,
        "Lyon".to_string(),
        "6 Hill St".to_string(),
        "555-0005".to_string(),
    )
    .unwrap();
    assert_eq!(fd.deliver_order(5, 1006, 1).err(), Some(Error::Unauthorized));

    fd.confirm_order(RESTAURANT, 1).unwrap();
    fd.deliver_order(RESTAURANT, 1010, 1).unwrap();

    // A registered customer who does not own the order gets Unauthorized
    // even though the order is not Delivered yet either.
    fd.add_customer(
        6,
        "Dana".to_string(),
        "7 Park Av".to_string(),
        "555-0006".to_string(),
    )
    .unwrap();
    assert_eq!(fd.confirm_delivery(6, 1).err(), Some(Error::Unauthorized));
    // The owner at the wrong stage gets InvalidTransition.
    assert_eq!(fd.confirm_delivery(CUSTOMER, 1).err(), Some(Error::InvalidTransition));
}

#[test]
fn settlement_result_is_conjunction_of_transfers() {
    assert!(settlement_result(true, true));
    assert!(!settlement_result(false, true));
    assert!(!settlement_result(true, false));
    assert!(!settlement_result(false, false));
}
