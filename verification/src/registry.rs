//! The identity and role registry: registering customers (self-service),
//! restaurants and couriers (manager only), and handing the manager role on.
//! The account -> identifier registries written here are the sole
//! authorization anchor for every other operation.

use vstd::prelude::*;
use crate::events::AddCourierEvent;
use crate::events::AddRestaurantEvent;
use crate::state::FoodDelivery;
use crate::state::arena_full;
use crate::state::couriers_unchanged;
use crate::state::customers_unchanged;
use crate::state::deliveries_unchanged;
use crate::state::foods_unchanged;
use crate::state::orders_unchanged;
use crate::state::restaurants_unchanged;
use crate::types::AccountId;
use crate::types::Courier;
use crate::types::Customer;
use crate::types::Error;
use crate::types::Restaurant;

verus! {

impl FoodDelivery {
    /// Registers the caller as a customer. Fails with `DuplicateAccount` when
    /// the account already holds the customer role, and with `EmptyField`
    /// when any of the text fields is blank.
    pub fn add_customer(
        &mut self,
        caller: AccountId,
        customer_name: String,
        customer_address: String,
        phone_number: String,
    ) -> (r: Result<Customer, Error>)
        requires
            old(self).wf(),
            !arena_full(old(self).customers@.len()),
        ensures
            final(self).wf(),
            match r {
                Err(e) => {
                    &&& *final(self) == *old(self)
                    &&& old(self).customer_account_id@.contains_key(caller)
                        || customer_name@.len() == 0 || customer_address@.len() == 0
                        || phone_number@.len() == 0
                    &&& (e == Error::DuplicateAccount <==> old(
                        self,
                    ).customer_account_id@.contains_key(caller))
                    &&& (e == Error::EmptyField <==> !old(self).customer_account_id@.contains_key(
                        caller,
                    ) && (customer_name@.len() == 0 || customer_address@.len() == 0
                        || phone_number@.len() == 0))
                },
                Ok(c) => {
                    &&& !old(self).customer_account_id@.contains_key(caller)
                    &&& customer_name@.len() > 0 && customer_address@.len() > 0
                        && phone_number@.len() > 0
                    &&& c.customer_account == caller
                    &&& c.customer_name@ == customer_name@
                    &&& c.customer_address@ == customer_address@
                    &&& c.phone_number@ == phone_number@
                    &&& final(self).customers@ == old(self).customers@.push(c)
                    &&& final(self).customer_account_id@ == old(
                        self,
                    ).customer_account_id@.insert(caller, (old(self).customers@.len() + 1) as u64)
                    &&& final(self).manager == old(self).manager
                    &&& restaurants_unchanged(*old(self), *final(self))
                    &&& couriers_unchanged(*old(self), *final(self))
                    &&& foods_unchanged(*old(self), *final(self))
                    &&& orders_unchanged(*old(self), *final(self))
                    &&& deliveries_unchanged(*old(self), *final(self))
                },
            },
    {
        if self.customer_account_id.contains(caller) {
            return Err(Error::DuplicateAccount);
        }
        if customer_name.as_str().is_empty() || customer_address.as_str().is_empty()
            || phone_number.as_str().is_empty() {
            return Err(Error::EmptyField);
        }
        let customer = Customer {
            customer_account: caller,
            customer_name,
            customer_address,
            phone_number,
        };
        self.customers.push(customer.clone());
        self.customer_account_id.insert(caller, self.customers.len() as u64);
        Ok(customer)
    }

    /// Registers a restaurant under `restaurant_account`. Only the manager
    /// may call this; fails with `DuplicateAccount` when the account already
    /// holds the restaurant role, and with `EmptyField` on blank fields.
    pub fn add_restaurant(
        &mut self,
        caller: AccountId,
        restaurant_account: AccountId,
        restaurant_name: String,
        restaurant_address: String,
        phone_number: String,
    ) -> (r: Result<(Restaurant, AddRestaurantEvent), Error>)
        requires
            old(self).wf(),
            !arena_full(old(self).restaurants@.len()),
        ensures
            final(self).wf(),
            match r {
                Err(e) => {
                    &&& *final(self) == *old(self)
                    &&& caller != old(self).manager
                        || old(self).restaurant_account_id@.contains_key(restaurant_account)
                        || restaurant_name@.len() == 0 || restaurant_address@.len() == 0
                        || phone_number@.len() == 0
                    &&& (e == Error::Unauthorized <==> caller != old(self).manager)
                    &&& (e == Error::DuplicateAccount <==> caller == old(self).manager && old(
                        self,
                    ).restaurant_account_id@.contains_key(restaurant_account))
                    &&& (e == Error::EmptyField <==> caller == old(self).manager && !old(
                        self,
                    ).restaurant_account_id@.contains_key(restaurant_account) && (
                    restaurant_name@.len() == 0 || restaurant_address@.len() == 0
                        || phone_number@.len() == 0))
                },
                Ok((rest, ev)) => {
                    &&& caller == old(self).manager
                    &&& !old(self).restaurant_account_id@.contains_key(restaurant_account)
                    &&& restaurant_name@.len() > 0 && restaurant_address@.len() > 0
                        && phone_number@.len() > 0
                    &&& rest.restaurant_account == restaurant_account
                    &&& rest.restaurant_name@ == restaurant_name@
                    &&& rest.restaurant_address@ == restaurant_address@
                    &&& rest.phone_number@ == phone_number@
                    &&& final(self).restaurants@ == old(self).restaurants@.push(rest)
                    &&& final(self).restaurant_account_id@ == old(
                        self,
                    ).restaurant_account_id@.insert(
                        restaurant_account,
                        (old(self).restaurants@.len() + 1) as u64,
                    )
                    &&& ev.restaurant_id == old(self).restaurants@.len() + 1
                    &&& ev.restaurant_name@ == restaurant_name@
                    &&& ev.restaurant_address@ == restaurant_address@
                    &&& ev.phone_number@ == phone_number@
                    &&& final(self).manager == old(self).manager
                    &&& customers_unchanged(*old(self), *final(self))
                    &&& couriers_unchanged(*old(self), *final(self))
                    &&& foods_unchanged(*old(self), *final(self))
                    &&& orders_unchanged(*old(self), *final(self))
                    &&& deliveries_unchanged(*old(self), *final(self))
                },
            },
    {
        if caller != self.manager {
            return Err(Error::Unauthorized);
        }
        if self.restaurant_account_id.contains(restaurant_account) {
            return Err(Error::DuplicateAccount);
        }
        if restaurant_name.as_str().is_empty() || restaurant_address.as_str().is_empty()
            || phone_number.as_str().is_empty() {
            return Err(Error::EmptyField);
        }
        let restaurant = Restaurant {
            restaurant_account,
            restaurant_name,
            restaurant_address,
            phone_number,
        };
        self.restaurants.push(restaurant.clone());
        let restaurant_id = self.restaurants.len() as u64;
        self.restaurant_account_id.insert(restaurant_account, restaurant_id);
        let ev = AddRestaurantEvent {
            restaurant_id,
            restaurant_name: restaurant.restaurant_name.clone(),
            restaurant_address: restaurant.restaurant_address.clone(),
            phone_number: restaurant.phone_number.clone(),
        };
        Ok((restaurant, ev))
    }

    /// Registers a courier under `courier_account`. Only the manager may call
    /// this; fails with `DuplicateAccount` when the account already holds the
    /// courier role, and with `EmptyField` on blank fields.
    pub fn add_courier(
        &mut self,
        caller: AccountId,
        courier_account: AccountId,
        courier_name: String,
        courier_address: String,
        phone_number: String,
    ) -> (r: Result<(Courier, AddCourierEvent), Error>)
        requires
            old(self).wf(),
            !arena_full(old(self).couriers@.len()),
        ensures
            final(self).wf(),
            match r {
                Err(e) => {
                    &&& *final(self) == *old(self)
                    &&& caller != old(self).manager
                        || old(self).courier_account_id@.contains_key(courier_account)
                        || courier_name@.len() == 0 || courier_address@.len() == 0
                        || phone_number@.len() == 0
                    &&& (e == Error::Unauthorized <==> caller != old(self).manager)
                    &&& (e == Error::DuplicateAccount <==> caller == old(self).manager && old(
                        self,
                    ).courier_account_id@.contains_key(courier_account))
                    &&& (e == Error::EmptyField <==> caller == old(self).manager && !old(
                        self,
                    ).courier_account_id@.contains_key(courier_account) && (courier_name@.len()
                        == 0 || courier_address@.len() == 0 || phone_number@.len() == 0))
                },
                Ok((courier, ev)) => {
                    &&& caller == old(self).manager
                    &&& !old(self).courier_account_id@.contains_key(courier_account)
                    &&& courier_name@.len() > 0 && courier_address@.len() > 0
                        && phone_number@.len() > 0
                    &&& courier.courier_account == courier_account
                    &&& courier.courier_name@ == courier_name@
                    &&& courier.courier_address@ == courier_address@
                    &&& courier.phone_number@ == phone_number@
                    &&& final(self).couriers@ == old(self).couriers@.push(courier)
                    &&& final(self).courier_account_id@ == old(self).courier_account_id@.insert(
                        courier_account,
                        (old(self).couriers@.len() + 1) as u64,
                    )
                    &&& ev.courier_id == old(self).couriers@.len() + 1
                    &&& ev.courier_name@ == courier_name@
                    &&& ev.courier_address@ == courier_address@
                    &&& ev.phone_number@ == phone_number@
                    &&& final(self).manager == old(self).manager
                    &&& customers_unchanged(*old(self), *final(self))
                    &&& restaurants_unchanged(*old(self), *final(self))
                    &&& foods_unchanged(*old(self), *final(self))
                    &&& orders_unchanged(*old(self), *final(self))
                    &&& deliveries_unchanged(*old(self), *final(self))
                },
            },
    {
        if caller != self.manager {
            return Err(Error::Unauthorized);
        }
        if self.courier_account_id.contains(courier_account) {
            return Err(Error::DuplicateAccount);
        }
        if courier_name.as_str().is_empty() || courier_address.as_str().is_empty()
            || phone_number.as_str().is_empty() {
            return Err(Error::EmptyField);
        }
        let courier = Courier { courier_account, courier_name, courier_address, phone_number };
        self.couriers.push(courier.clone());
        let courier_id = self.couriers.len() as u64;
        self.courier_account_id.insert(courier_account, courier_id);
        let ev = AddCourierEvent {
            courier_id,
            courier_name: courier.courier_name.clone(),
            courier_address: courier.courier_address.clone(),
            phone_number: courier.phone_number.clone(),
        };
        Ok((courier, ev))
    }

    /// Hands the manager role to `new_account`, effective immediately. Only
    /// the current manager may call this.
    pub fn change_manager(&mut self, caller: AccountId, new_account: AccountId) -> (r: Result<
        bool,
        Error,
    >)
        requires
            old(self).wf(),
        ensures
            final(self).wf(),
            match r {
                Err(e) => {
                    &&& *final(self) == *old(self)
                    &&& e == Error::Unauthorized
                    &&& caller != old(self).manager
                },
                Ok(b) => {
                    &&& b == true
                    &&& caller == old(self).manager
                    &&& final(self).manager == new_account
                    &&& customers_unchanged(*old(self), *final(self))
                    &&& restaurants_unchanged(*old(self), *final(self))
                    &&& couriers_unchanged(*old(self), *final(self))
                    &&& foods_unchanged(*old(self), *final(self))
                    &&& orders_unchanged(*old(self), *final(self))
                    &&& deliveries_unchanged(*old(self), *final(self))
                },
            },
    {
        if caller != self.manager {
            return Err(Error::Unauthorized);
        }
        self.manager = new_account;
        Ok(true)
    }
}

} // verus!
