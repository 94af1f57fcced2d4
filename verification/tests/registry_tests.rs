//! The identity and role registry: self-service customer registration,
//! manager-gated restaurant and courier registration, and the manager
//! handover.

use food_delivery::Error;
use food_delivery::FoodDelivery;

const MANAGER: u64 = 100;

#[test]
fn add_customer_returns_the_record() {
    let mut fd = FoodDelivery::new(MANAGER);
    let c = fd
        .add_customer(1, "Carol".to_string(), "1 Main St".to_string(), "555-0001".to_string())
        .unwrap();
    assert_eq!(c.customer_account, 1);
    assert_eq!(c.customer_name, "Carol");
    assert_eq!(c.customer_address, "1 Main St");
    assert_eq!(c.phone_number, "555-0001");
}

#[test]
fn add_customer_rejects_duplicates_and_blanks() {
    let mut fd = FoodDelivery::new(MANAGER);
    fd.add_customer(1, "Carol".to_string(), "1 Main St".to_string(), "555-0001".to_string())
        .unwrap();
    assert_eq!(
        fd.add_customer(1, "Carol".to_string(), "1 Main St".to_string(), "555-0001".to_string())
            .err(),
        Some(Error::DuplicateAccount)
    );
    assert_eq!(
        fd.add_customer(2, "".to_string(), "1 Main St".to_string(), "555-0001".to_string()).err(),
        Some(Error::EmptyField)
    );
    assert_eq!(
        fd.add_customer(2, "Dan".to_string(), "".to_string(), "555-0001".to_string()).err(),
        Some(Error::EmptyField)
    );
    assert_eq!(
        fd.add_customer(2, "Dan".to_string(), "1 Main St".to_string(), "".to_string()).err(),
        Some(Error::EmptyField)
    );
}

#[test]
fn add_restaurant_is_manager_only() {
    let mut fd = FoodDelivery::new(MANAGER);
    assert_eq!(
        fd.add_restaurant(
            1,
            2,
            "Roma".to_string(),
            "2 High St".to_string(),
            "555-0002".to_string(),
        )
        .err(),
        Some(Error::Unauthorized)
    );
    let (r, ev) = fd
        .add_restaurant(
            MANAGER,
            2,
            "Roma".to_string(),
            "2 High St".to_string(),
            "555-0002".to_string(),
        )
        .unwrap();
    assert_eq!(r.restaurant_account, 2);
    assert_eq!(ev.restaurant_id, 1);
    assert_eq!(ev.restaurant_name, "Roma");
    assert_eq!(
        fd.add_restaurant(
            MANAGER,
            2,
            "Roma".to_string(),
            "2 High St".to_string(),
            "555-0002".to_string(),
        )
        .err(),
        Some(Error::DuplicateAccount)
    );
    assert_eq!(
        fd.add_restaurant(
            MANAGER,
            3,
            "".to_string(),
            "2 High St".to_string(),
            "555-0002".to_string(),
        )
        .err(),
        Some(Error::EmptyField)
    );
}

#[test]
fn add_courier_is_manager_only() {
    let mut fd = FoodDelivery::new(MANAGER);
    assert_eq!(
        fd.add_courier(1, 3, "Kim".to_string(), "3 Low Rd".to_string(), "555-0003".to_string())
            .err(),
        Some(Error::Unauthorized)
    );
    let (c, ev) = fd
        .add_courier(
            MANAGER,
            3,
            "Kim".to_string(),
            "3 Low Rd".to_string(),
            "555-0003".to_string(),
        )
        .unwrap();
    assert_eq!(c.courier_account, 3);
    assert_eq!(ev.courier_id, 1);
    assert_eq!(
        fd.add_courier(
            MANAGER,
            3,
            "Kim".to_string(),
            "3 Low Rd".to_string(),
            "555-0003".to_string(),
        )
        .err(),
        Some(Error::DuplicateAccount)
    );
    assert_eq!(
        fd.add_courier(MANAGER, 4, "Lee".to_string(), "".to_string(), "555-0004".to_string())
            .err(),
        Some(Error::EmptyField)
    );
}

#[test]
fn change_manager_hands_the_role_over_immediately() {
    let mut fd = FoodDelivery::new(MANAGER);
    assert_eq!(fd.change_manager(1, 200).err(), Some(Error::Unauthorized));
    assert_eq!(fd.change_manager(MANAGER, 200), Ok(true));
    // The old manager may no longer register restaurants; the new one may.
    assert_eq!(
        fd.add_restaurant(
            MANAGER,
            2,
            "Roma".to_string(),
            "2 High St".to_string(),
            "555-0002".to_string(),
        )
        .err(),
        Some(Error::Unauthorized)
    );
    assert!(fd
        .add_restaurant(
            200,
            2,
            "Roma".to_string(),
            "2 High St".to_string(),
            "555-0002".to_string(),
        )
        .is_ok());
}
