//! Identifiers, records, status enums, errors, and the notification records
//! that mutating operations hand back to the runtime for emission.

use vstd::prelude::*;

verus! {

/// Reference to an external account, as the runtime reports it.
pub type AccountId = u64;

/// A non-negative fixed-point amount of value.
pub type Balance = u128;

/// A point in time, as the runtime's clock reports it.
pub type Timestamp = u64;

pub type FoodId = u64;

pub type OrderId = u64;

pub type DeliveryId = u64;

pub type CustomerId = u64;

pub type RestaurantId = u64;

pub type CourierId = u64;

/// Why an operation rejected a call. Every error leaves the state unchanged.
#[derive(Debug, Clone, Copy, PartialEq, Eq, Structural)]
pub enum Error {
    /// The account already holds the role it is being registered for.
    DuplicateAccount,
    /// A required text field is blank.
    EmptyField,
    /// No record exists under the given identifier.
    NotFound,
    /// The caller lacks the required role, or does not own the target record.
    Unauthorized,
    /// The order is not in the state the transition starts from.
    InvalidTransition,
    /// The value attached to the call differs from the food's price.
    PriceMismatch,
    /// The delivery has already been picked up by a courier.
    AlreadyPickedUp,
}

/// Lifecycle of an order; transitions only ever advance one step forward.
#[derive(Debug, Clone, Copy, PartialEq, Eq, Structural)]
pub enum OrderStatus {
    Submitted,
    Confirmed,
    WaitingDeliver,
    Delivered,
    Accepted,
}

/// Lifecycle of a delivery record, mirroring the owning order's
/// `WaitingDeliver`, `Delivered` and `Accepted` states.
#[derive(Debug, Clone, Copy, PartialEq, Eq, Structural)]
pub enum DeliveryStatus {
    Waiting,
    PickedUp,
    Accepted,
}

/// The one-step forward relation of the order lifecycle. Every transition an
/// operation commits moves an order along exactly one of these edges: no
/// state is ever skipped, and none is ever revisited.
pub open spec fn order_step(pre: OrderStatus, post: OrderStatus) -> bool {
    ||| (pre == OrderStatus::Submitted && post == OrderStatus::Confirmed)
    ||| (pre == OrderStatus::Confirmed && post == OrderStatus::WaitingDeliver)
    ||| (pre == OrderStatus::WaitingDeliver && post == OrderStatus::Delivered)
    ||| (pre == OrderStatus::Delivered && post == OrderStatus::Accepted)
}

/// The one-step forward relation of the delivery lifecycle, mirroring the
/// last three order states.
pub open spec fn delivery_step(pre: DeliveryStatus, post: DeliveryStatus) -> bool {
    ||| (pre == DeliveryStatus::Waiting && post == DeliveryStatus::PickedUp)
    ||| (pre == DeliveryStatus::PickedUp && post == DeliveryStatus::Accepted)
}

pub struct Customer {
    pub customer_account: AccountId,
    pub customer_name: String,
    pub customer_address: String,
    pub phone_number: String,
}

impl Clone for Customer {
    fn clone(&self) -> (r: Self)
        ensures
            r == *self,
    {
        Customer {
            customer_account: self.customer_account,
            customer_name: self.customer_name.clone(),
            customer_address: self.customer_address.clone(),
            phone_number: self.phone_number.clone(),
        }
    }
}

pub struct Restaurant {
    pub restaurant_account: AccountId,
    pub restaurant_name: String,
    pub restaurant_address: String,
    pub phone_number: String,
}

impl Clone for Restaurant {
    fn clone(&self) -> (r: Self)
        ensures
            r == *self,
    {
        Restaurant {
            restaurant_account: self.restaurant_account,
            restaurant_name: self.restaurant_name.clone(),
            restaurant_address: self.restaurant_address.clone(),
            phone_number: self.phone_number.clone(),
        }
    }
}

pub struct Courier {
    pub courier_account: AccountId,
    pub courier_name: String,
    pub courier_address: String,
    pub phone_number: String,
}

impl Clone for Courier {
    fn clone(&self) -> (r: Self)
        ensures
            r == *self,
    {
        Courier {
            courier_account: self.courier_account,
            courier_name: self.courier_name.clone(),
            courier_address: self.courier_address.clone(),
            phone_number: self.phone_number.clone(),
        }
    }
}

pub struct Food {
    pub food_name: String,
    pub restaurant_id: RestaurantId,
    pub description: String,
    pub price: Balance,
    pub eta: u64,
    pub timestamp: Timestamp,
}

impl Clone for Food {
    fn clone(&self) -> (r: Self)
        ensures
            r == *self,
    {
        Food {
            food_name: self.food_name.clone(),
            restaurant_id: self.restaurant_id,
            description: self.description.clone(),
            price: self.price,
            eta: self.eta,
            timestamp: self.timestamp,
        }
    }
}

pub struct Order {
    pub food_id: FoodId,
    pub restaurant_id: RestaurantId,
    pub customer_id: CustomerId,
    /// 0 until a courier picks the paired delivery up.
    pub courier_id: CourierId,
    pub delivery_address: String,
    pub status: OrderStatus,
    pub timestamp: Timestamp,
    /// The escrowed amount: the food's price at submission time.
    pub price: Balance,
    /// 0 until the restaurant confirms the order.
    pub eta: u64,
}

impl Clone for Order {
    fn clone(&self) -> (r: Self)
        ensures
            r == *self,
    {
        Order {
            food_id: self.food_id,
            restaurant_id: self.restaurant_id,
            customer_id: self.customer_id,
            courier_id: self.courier_id,
            delivery_address: self.delivery_address.clone(),
            status: self.status,
            timestamp: self.timestamp,
            price: self.price,
            eta: self.eta,
        }
    }
}

pub struct Delivery {
    pub order_id: OrderId,
    pub restaurant_id: RestaurantId,
    pub customer_id: CustomerId,
    /// 0 until a courier picks the delivery up; immutable afterwards.
    pub courier_id: CourierId,
    pub delivery_address: String,
    pub status: DeliveryStatus,
    pub timestamp: Timestamp,
}

impl Clone for Delivery {
    fn clone(&self) -> (r: Self)
        ensures
            r == *self,
    {
        Delivery {
            order_id: self.order_id,
            restaurant_id: self.restaurant_id,
            customer_id: self.customer_id,
            courier_id: self.courier_id,
            delivery_address: self.delivery_address.clone(),
            status: self.status,
            timestamp: self.timestamp,
        }
    }
}

} // verus!
