//! The restaurant-owned food catalog: listing a food and updating it in
//! place. A food's identifier and owning restaurant never change; updates
//! replace the other fields and refresh the timestamp.

use vstd::prelude::*;
use crate::events::AddFoodEvent;
use crate::events::UpdateFoodEvent;
use crate::id_index::index_seq;
use crate::indexing::ids_matching;
use crate::indexing::valid_id;
use crate::state::FoodDelivery;
use crate::state::arena_full;
use crate::state::couriers_unchanged;
use crate::state::customers_unchanged;
use crate::state::deliveries_unchanged;
use crate::state::orders_unchanged;
use crate::state::restaurants_unchanged;
use crate::types::AccountId;
use crate::types::Balance;
use crate::types::Error;
use crate::types::Food;
use crate::types::FoodId;
use crate::types::Timestamp;

verus! {

impl FoodDelivery {
    /// Lists a new food for the caller's restaurant, stamped with the current
    /// time. Fails with `Unauthorized` when the caller is not a registered
    /// restaurant, and with `EmptyField` when the name or description is
    /// blank.
    pub fn add_food(
        &mut self,
        caller: AccountId,
        now: Timestamp,
        food_name: String,
        description: String,
        price: Balance,
        eta: u64,
    ) -> (r: Result<(Food, AddFoodEvent), Error>)
        requires
            old(self).wf(),
            !arena_full(old(self).food_data@.len()),
        ensures
            final(self).wf(),
            match r {
                Err(e) => {
                    &&& *final(self) == *old(self)
                    &&& !old(self).restaurant_account_id@.contains_key(caller)
                        || food_name@.len() == 0 || description@.len() == 0
                    &&& (e == Error::Unauthorized <==> !old(
                        self,
                    ).restaurant_account_id@.contains_key(caller))
                    &&& (e == Error::EmptyField <==> old(self).restaurant_account_id@.contains_key(
                        caller,
                    ) && (food_name@.len() == 0 || description@.len() == 0))
                },
                Ok((food, ev)) => {
                    let rid = old(self).restaurant_account_id@[caller];
                    let fid = (old(self).food_data@.len() + 1) as u64;
                    &&& old(self).restaurant_account_id@.contains_key(caller)
                    &&& food_name@.len() > 0 && description@.len() > 0
                    &&& food.food_name@ == food_name@
                    &&& food.restaurant_id == rid
                    &&& food.description@ == description@
                    &&& food.price == price
                    &&& food.eta == eta
                    &&& food.timestamp == now
                    &&& final(self).food_data@ == old(self).food_data@.push(food)
                    &&& final(self).restaurant_food_data@ == old(
                        self,
                    ).restaurant_food_data@.insert(
                        rid,
                        index_seq(old(self).restaurant_food_data@, rid).push(fid),
                    )
                    &&& ev.food_id == fid
                    &&& ev.food_name@ == food_name@
                    &&& ev.restaurant_id == rid
                    &&& ev.description@ == description@
                    &&& ev.price == price
                    &&& ev.eta == eta
                    &&& final(self).manager == old(self).manager
                    &&& customers_unchanged(*old(self), *final(self))
                    &&& restaurants_unchanged(*old(self), *final(self))
                    &&& couriers_unchanged(*old(self), *final(self))
                    &&& orders_unchanged(*old(self), *final(self))
                    &&& deliveries_unchanged(*old(self), *final(self))
                },
            },
    {
        let restaurant_id = match self.restaurant_account_id.get(caller) {
            Some(id) => id,
            None => {
                return Err(Error::Unauthorized);
            },
        };
        if food_name.as_str().is_empty() || description.as_str().is_empty() {
            return Err(Error::EmptyField);
        }
        let food = Food {
            food_name,
            restaurant_id,
            description,
            price,
            eta,
            timestamp: now,
        };
        self.food_data.push(food.clone());
        let food_id = self.food_data.len() as u64;
        self.restaurant_food_data.append(restaurant_id, food_id);
        proof {
            let pre = *old(self);
            assert(self.food_owner_keys() =~= pre.food_owner_keys().push(restaurant_id));
            assert forall|k: u64| #[trigger] index_seq(self.restaurant_food_data@, k)
                == ids_matching(self.food_owner_keys(), k) by {
                crate::indexing::lemma_ids_matching_push(pre.food_owner_keys(), k, restaurant_id);
                assert(index_seq(pre.restaurant_food_data@, k) == ids_matching(
                    pre.food_owner_keys(),
                    k,
                ));
                assert(index_seq(pre.restaurant_food_data@, restaurant_id) == ids_matching(
                    pre.food_owner_keys(),
                    restaurant_id,
                ));
            }
        }
        let ev = AddFoodEvent {
            food_id,
            food_name: food.food_name.clone(),
            restaurant_id,
            description: food.description.clone(),
            price,
            eta,
        };
        Ok((food, ev))
    }

    /// Replaces the mutable fields of a food and refreshes its timestamp; the
    /// identifier and the owning restaurant are unchanged. Only the owning
    /// restaurant may call this; fails with `NotFound` when the identifier is
    /// unknown, and existing orders keep the price they were submitted at.
    pub fn update_food(
        &mut self,
        caller: AccountId,
        now: Timestamp,
        food_id: FoodId,
        food_name: String,
        description: String,
        price: Balance,
        eta: u64,
    ) -> (r: Result<(Food, UpdateFoodEvent), Error>)
        requires
            old(self).wf(),
        ensures
            final(self).wf(),
            match r {
                Err(e) => {
                    let registered = old(self).restaurant_account_id@.contains_key(caller);
                    let exists = valid_id(food_id, old(self).food_data@.len());
                    let owns = exists && old(self).food_data@[food_id - 1].restaurant_id == old(
                        self,
                    ).restaurant_account_id@[caller];
                    &&& *final(self) == *old(self)
                    &&& !(registered && exists && owns && food_name@.len() > 0
                        && description@.len() > 0)
                    &&& (e == Error::Unauthorized <==> !registered || (registered && exists
                        && !owns))
                    &&& (e == Error::NotFound <==> registered && !exists)
                    &&& (e == Error::EmptyField <==> registered && exists && owns && (
                    food_name@.len() == 0 || description@.len() == 0))
                },
                Ok((food, ev)) => {
                    let rid = old(self).restaurant_account_id@[caller];
                    &&& old(self).restaurant_account_id@.contains_key(caller)
                    &&& valid_id(food_id, old(self).food_data@.len())
                    &&& old(self).food_data@[food_id - 1].restaurant_id == rid
                    &&& food_name@.len() > 0 && description@.len() > 0
                    &&& food.food_name@ == food_name@
                    &&& food.restaurant_id == rid
                    &&& food.description@ == description@
                    &&& food.price == price
                    &&& food.eta == eta
                    &&& food.timestamp == now
                    &&& final(self).food_data@ == old(self).food_data@.update(food_id - 1, food)
                    &&& final(self).restaurant_food_data@ == old(self).restaurant_food_data@
                    &&& ev.food_id == food_id
                    &&& ev.food_name@ == food_name@
                    &&& ev.description@ == description@
                    &&& ev.price == price
                    &&& ev.eta == eta
                    &&& final(self).manager == old(self).manager
                    &&& customers_unchanged(*old(self), *final(self))
                    &&& restaurants_unchanged(*old(self), *final(self))
                    &&& couriers_unchanged(*old(self), *final(self))
                    &&& orders_unchanged(*old(self), *final(self))
                    &&& deliveries_unchanged(*old(self), *final(self))
                },
            },
    {
        let restaurant_id = match self.restaurant_account_id.get(caller) {
            Some(id) => id,
            None => {
                return Err(Error::Unauthorized);
            },
        };
        if food_id < 1 || food_id > self.food_data.len() as u64 {
            return Err(Error::NotFound);
        }
        let idx = (food_id - 1) as usize;
        if self.food_data[idx].restaurant_id != restaurant_id {
            return Err(Error::Unauthorized);
        }
        if food_name.as_str().is_empty() || description.as_str().is_empty() {
            return Err(Error::EmptyField);
        }
        let food = Food {
            food_name,
            restaurant_id,
            description,
            price,
            eta,
            timestamp: now,
        };
        self.food_data[idx] = food.clone();
        proof {
            let pre = *old(self);
            assert(self.food_owner_keys() =~= pre.food_owner_keys());
        }
        let ev = UpdateFoodEvent {
            food_id,
            food_name: food.food_name.clone(),
            description: food.description.clone(),
            price,
            eta,
        };
        Ok((food, ev))
    }
}

} // verus!
