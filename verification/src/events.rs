//! Notification records. The runtime's event sink is an external
//! collaborator: each mutating operation returns the record it asks the
//! runtime to emit, ordered after the state mutation it describes.

use vstd::prelude::*;
use crate::types::Balance;
use crate::types::CourierId;
use crate::types::CustomerId;
use crate::types::DeliveryId;
use crate::types::FoodId;
use crate::types::OrderId;
use crate::types::RestaurantId;

verus! {

/// A customer submitted an order.
pub struct SubmitOrderEvent {
    pub order_id: OrderId,
    pub food_id: FoodId,
    pub restaurant_id: RestaurantId,
    pub customer_id: CustomerId,
    pub delivery_address: String,
    pub phone_number: String,
}

/// A customer accepted a delivery.
pub struct AcceptDeliveryEvent {
    pub delivery_id: DeliveryId,
    pub order_id: OrderId,
}

/// A restaurant added a food.
pub struct AddFoodEvent {
    pub food_id: FoodId,
    pub food_name: String,
    pub restaurant_id: RestaurantId,
    pub description: String,
    pub price: Balance,
    pub eta: u64,
}

/// A restaurant updated a food's information.
pub struct UpdateFoodEvent {
    pub food_id: FoodId,
    pub food_name: String,
    pub description: String,
    pub price: Balance,
    pub eta: u64,
}

/// A restaurant confirmed a customer's order.
pub struct ConfirmOrderEvent {
    pub order_id: OrderId,
    pub eta: u64,
}

/// A restaurant dispatched an order for delivery.
pub struct DeliverOrderEvent {
    pub order_id: OrderId,
    pub restaurant_id: RestaurantId,
    pub customer_id: CustomerId,
    pub delivery_address: String,
}

/// A courier picked a delivery up.
pub struct PickupDeliveryEvent {
    pub delivery_id: DeliveryId,
}

/// The manager registered a new courier.
pub struct AddCourierEvent {
    pub courier_id: CourierId,
    pub courier_name: String,
    pub courier_address: String,
    pub phone_number: String,
}

/// The manager registered a new restaurant.
pub struct AddRestaurantEvent {
    pub restaurant_id: RestaurantId,
    pub restaurant_name: String,
    pub restaurant_address: String,
    pub phone_number: String,
}

} // verus!
