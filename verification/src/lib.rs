//! A marketplace ledger for food delivery: customers submit orders against a
//! restaurant catalog, restaurants confirm and dispatch them, couriers pick
//! them up, and the escrowed payment is split between courier and restaurant
//! when the customer accepts the delivery.
//!
//! The surrounding runtime supplies the caller's account, the current time,
//! the value attached to a call, and the transfer primitive; every operation
//! here takes those as plain arguments and returns the notification record it
//! asks the runtime to emit.

pub mod account_map;
pub mod catalog;
pub mod deliveries;
pub mod events;
pub mod id_index;
pub mod indexing;
pub mod orders;
pub mod queries;
pub mod registry;
pub mod settlement;
pub mod state;
pub mod types;

pub use types::AccountId;
pub use types::Balance;
pub use types::Timestamp;
pub use types::Error;
pub use types::OrderStatus;
pub use types::DeliveryStatus;
pub use types::Customer;
pub use types::Restaurant;
pub use types::Courier;
pub use types::Food;
pub use types::Order;
pub use types::Delivery;
pub use state::FoodDelivery;
pub use settlement::Settlement;
pub use settlement::settlement_result;
pub use events::SubmitOrderEvent;
pub use events::AcceptDeliveryEvent;
pub use events::AddFoodEvent;
pub use events::UpdateFoodEvent;
pub use events::ConfirmOrderEvent;
pub use events::DeliverOrderEvent;
pub use events::PickupDeliveryEvent;
pub use events::AddCourierEvent;
pub use events::AddRestaurantEvent;
