//! The order state machine: submission with escrow of the attached value,
//! restaurant confirmation, and dispatch for delivery. Statuses only ever
//! advance one step along `Submitted -> Confirmed -> WaitingDeliver ->
//! Delivered -> Accepted`.

use vstd::prelude::*;
use crate::events::ConfirmOrderEvent;
use crate::events::DeliverOrderEvent;
use crate::events::SubmitOrderEvent;
use crate::id_index::index_seq;
use crate::indexing::id_sequence;
use crate::indexing::ids_matching;
use crate::indexing::lemma_ids_matching_push;
use crate::indexing::valid_id;
use crate::state::FoodDelivery;
use crate::state::arena_full;
use crate::state::couriers_unchanged;
use crate::state::customers_unchanged;
use crate::state::deliveries_unchanged;
use crate::state::foods_unchanged;
use crate::state::restaurants_unchanged;
use crate::types::AccountId;
use crate::types::Balance;
use crate::types::Delivery;
use crate::types::DeliveryStatus;
use crate::types::Error;
use crate::types::FoodId;
use crate::types::Order;
use crate::types::OrderId;
use crate::types::OrderStatus;
use crate::types::order_step;
use crate::types::Timestamp;

verus! {

impl FoodDelivery {
    /// Submits an order for `food_id`, escrowing `value`, the amount attached
    /// to the call. The caller must be a registered customer, the food must
    /// exist, the address must not be blank, and `value` must equal the
    /// food's current price exactly (`PriceMismatch` otherwise); that price
    /// is copied onto the order, so later food price changes never affect it.
    pub fn submit_order(
        &mut self,
        caller: AccountId,
        value: Balance,
        now: Timestamp,
        food_id: FoodId,
        delivery_address: String,
    ) -> (r: Result<(Order, SubmitOrderEvent), Error>)
        requires
            old(self).wf(),
            !arena_full(old(self).order_data@.len()),
        ensures
            final(self).wf(),
            match r {
                Err(e) => {
                    let registered = old(self).customer_account_id@.contains_key(caller);
                    let exists = valid_id(food_id, old(self).food_data@.len());
                    let addr_ok = delivery_address@.len() > 0;
                    let priced = exists && value == old(self).food_data@[food_id - 1].price;
                    &&& *final(self) == *old(self)
                    &&& !(registered && exists && addr_ok && priced)
                    &&& (e == Error::Unauthorized <==> !registered)
                    &&& (e == Error::NotFound <==> registered && !exists)
                    &&& (e == Error::EmptyField <==> registered && exists && !addr_ok)
                    &&& (e == Error::PriceMismatch <==> registered && exists && addr_ok
                        && !priced)
                },
                Ok((order, ev)) => {
                    let cid = old(self).customer_account_id@[caller];
                    let rid = old(self).food_data@[food_id - 1].restaurant_id;
                    let oid = (old(self).order_data@.len() + 1) as u64;
                    &&& old(self).customer_account_id@.contains_key(caller)
                    &&& valid_id(food_id, old(self).food_data@.len())
                    &&& delivery_address@.len() > 0
                    &&& value == old(self).food_data@[food_id - 1].price
                    &&& order.food_id == food_id
                    &&& order.restaurant_id == rid
                    &&& order.customer_id == cid
                    &&& order.courier_id == 0
                    &&& order.delivery_address@ == delivery_address@
                    &&& order.status == OrderStatus::Submitted
                    &&& order.timestamp == now
                    &&& order.price == value
                    &&& order.eta == 0
                    &&& final(self).order_data@ == old(self).order_data@.push(order)
                    &&& final(self).customer_order_data@ == old(self).customer_order_data@.insert(
                        cid,
                        index_seq(old(self).customer_order_data@, cid).push(oid),
                    )
                    &&& final(self).restaurant_order_data@ == old(
                        self,
                    ).restaurant_order_data@.insert(
                        rid,
                        index_seq(old(self).restaurant_order_data@, rid).push(oid),
                    )
                    &&& ev.order_id == oid
                    &&& ev.food_id == food_id
                    &&& ev.restaurant_id == rid
                    &&& ev.customer_id == cid
                    &&& ev.delivery_address@ == delivery_address@
                    &&& ev.phone_number@ == old(self).customers@[cid - 1].phone_number@
                    &&& final(self).manager == old(self).manager
                    &&& customers_unchanged(*old(self), *final(self))
                    &&& restaurants_unchanged(*old(self), *final(self))
                    &&& couriers_unchanged(*old(self), *final(self))
                    &&& foods_unchanged(*old(self), *final(self))
                    &&& deliveries_unchanged(*old(self), *final(self))
                },
            },
    {
        let customer_id = match self.customer_account_id.get(caller) {
            Some(id) => id,
            None => {
                return Err(Error::Unauthorized);
            },
        };
        if food_id < 1 || food_id > self.food_data.len() as u64 {
            return Err(Error::NotFound);
        }
        if delivery_address.as_str().is_empty() {
            return Err(Error::EmptyField);
        }
        let fidx = (food_id - 1) as usize;
        if self.food_data[fidx].price != value {
            return Err(Error::PriceMismatch);
        }
        let restaurant_id = self.food_data[fidx].restaurant_id;
        proof {
            assert(self.customers@.len() == self.customers.len());
        }
        let cidx = (customer_id - 1) as usize;
        let phone_number = self.customers[cidx].phone_number.clone();
        let order = Order {
            food_id,
            restaurant_id,
            customer_id,
            courier_id: 0,
            delivery_address,
            status: OrderStatus::Submitted,
            timestamp: now,
            price: value,
            eta: 0,
        };
        self.order_data.push(order.clone());
        let order_id = self.order_data.len() as u64;
        self.customer_order_data.append(customer_id, order_id);
        self.restaurant_order_data.append(restaurant_id, order_id);
        proof {
            let pre = *old(self);
            assert(self.order_restaurant_keys() =~= pre.order_restaurant_keys().push(
                restaurant_id,
            ));
            assert(self.order_customer_keys() =~= pre.order_customer_keys().push(customer_id));
            assert forall|k: u64| #[trigger] index_seq(self.restaurant_order_data@, k)
                == ids_matching(self.order_restaurant_keys(), k) by {
                lemma_ids_matching_push(pre.order_restaurant_keys(), k, restaurant_id);
                assert(index_seq(pre.restaurant_order_data@, k) == ids_matching(
                    pre.order_restaurant_keys(),
                    k,
                ));
                assert(index_seq(pre.restaurant_order_data@, restaurant_id) == ids_matching(
                    pre.order_restaurant_keys(),
                    restaurant_id,
                ));
            }
            assert forall|k: u64| #[trigger] index_seq(self.customer_order_data@, k)
                == ids_matching(self.order_customer_keys(), k) by {
                lemma_ids_matching_push(pre.order_customer_keys(), k, customer_id);
                assert(index_seq(pre.customer_order_data@, k) == ids_matching(
                    pre.order_customer_keys(),
                    k,
                ));
                assert(index_seq(pre.customer_order_data@, customer_id) == ids_matching(
                    pre.order_customer_keys(),
                    customer_id,
                ));
            }
        }
        let ev = SubmitOrderEvent {
            order_id,
            food_id,
            restaurant_id,
            customer_id,
            delivery_address: order.delivery_address.clone(),
            phone_number,
        };
        Ok((order, ev))
    }

    /// Confirms a submitted order: the caller must be the restaurant owning
    /// the order's food, and the order must be `Submitted` (else
    /// `InvalidTransition`). Sets the order's eta from the food's estimated
    /// preparation time.
    pub fn confirm_order(&mut self, caller: AccountId, order_id: OrderId) -> (r: Result<
        ConfirmOrderEvent,
        Error,
    >)
        requires
            old(self).wf(),
        ensures
            final(self).wf(),
            match r {
                Err(e) => {
                    let registered = old(self).restaurant_account_id@.contains_key(caller);
                    let exists = valid_id(order_id, old(self).order_data@.len());
                    let owns = exists && old(self).order_data@[order_id - 1].restaurant_id == old(
                        self,
                    ).restaurant_account_id@[caller];
                    let submitted = exists && old(self).order_data@[order_id - 1].status
                        == OrderStatus::Submitted;
                    &&& *final(self) == *old(self)
                    &&& !(registered && exists && owns && submitted)
                    &&& (e == Error::Unauthorized <==> !registered || (registered && exists
                        && !owns))
                    &&& (e == Error::NotFound <==> registered && !exists)
                    &&& (e == Error::InvalidTransition <==> registered && exists && owns
                        && !submitted)
                },
                Ok(ev) => {
                    let pre_order = old(self).order_data@[order_id - 1];
                    let eta = old(self).food_data@[pre_order.food_id - 1].eta;
                    &&& old(self).restaurant_account_id@.contains_key(caller)
                    &&& valid_id(order_id, old(self).order_data@.len())
                    &&& pre_order.restaurant_id == old(self).restaurant_account_id@[caller]
                    &&& pre_order.status == OrderStatus::Submitted
                    &&& final(self).order_data@ == old(self).order_data@.update(
                        order_id - 1,
                        (Order { status: OrderStatus::Confirmed, eta, ..pre_order }),
                    )
                    &&& order_step(pre_order.status, final(self).order_data@[order_id - 1].status)
                    &&& ev.order_id == order_id
                    &&& ev.eta == eta
                    &&& final(self).restaurant_order_data@ == old(self).restaurant_order_data@
                    &&& final(self).customer_order_data@ == old(self).customer_order_data@
                    &&& final(self).manager == old(self).manager
                    &&& customers_unchanged(*old(self), *final(self))
                    &&& restaurants_unchanged(*old(self), *final(self))
                    &&& couriers_unchanged(*old(self), *final(self))
                    &&& foods_unchanged(*old(self), *final(self))
                    &&& deliveries_unchanged(*old(self), *final(self))
                },
            },
    {
        let restaurant_id = match self.restaurant_account_id.get(caller) {
            Some(id) => id,
            None => {
                return Err(Error::Unauthorized);
            },
        };
        if order_id < 1 || order_id > self.order_data.len() as u64 {
            return Err(Error::NotFound);
        }
        let oidx = (order_id - 1) as usize;
        proof {
            assert(self.order_ok(self.order_data@[oidx as int]));
        }
        let food_id = self.order_data[oidx].food_id;
        proof {
            assert(self.food_data@.len() == self.food_data.len());
        }
        let fidx = (food_id - 1) as usize;
        if self.food_data[fidx].restaurant_id != restaurant_id {
            return Err(Error::Unauthorized);
        }
        if self.order_data[oidx].status != OrderStatus::Submitted {
            return Err(Error::InvalidTransition);
        }
        let eta = self.food_data[fidx].eta;
        let mut order = self.order_data[oidx].clone();
        order.status = OrderStatus::Confirmed;
        order.eta = eta;
        self.order_data[oidx] = order;
        proof {
            let pre = *old(self);
            assert(self.order_restaurant_keys() =~= pre.order_restaurant_keys());
            assert(self.order_customer_keys() =~= pre.order_customer_keys());
            assert forall|i: int| 0 <= i < self.delivery_data@.len() implies self.delivery_ok(
                #[trigger] self.delivery_data@[i],
            ) by {
                assert(pre.delivery_ok(pre.delivery_data@[i]));
            }
        }
        Ok(ConfirmOrderEvent { order_id, eta })
    }

    /// Dispatches a confirmed order: the caller must be the restaurant owning
    /// the order's food, and the order must be `Confirmed` (else
    /// `InvalidTransition`). Moves the order to `WaitingDeliver` and creates
    /// the paired `Waiting` delivery record with the order's parties and
    /// address, recorded under the restaurant's, the customer's, and the
    /// unassigned courier's (0) delivery indices.
    pub fn deliver_order(&mut self, caller: AccountId, now: Timestamp, order_id: OrderId) -> (r:
        Result<(Delivery, DeliverOrderEvent), Error>)
        requires
            old(self).wf(),
            !arena_full(old(self).delivery_data@.len()),
        ensures
            final(self).wf(),
            match r {
                Err(e) => {
                    let registered = old(self).restaurant_account_id@.contains_key(caller);
                    let exists = valid_id(order_id, old(self).order_data@.len());
                    let confirmed = exists && old(self).order_data@[order_id - 1].status
                        == OrderStatus::Confirmed;
                    let owns = exists && old(self).order_data@[order_id - 1].restaurant_id == old(
                        self,
                    ).restaurant_account_id@[caller];
                    &&& *final(self) == *old(self)
                    &&& !(registered && exists && owns && confirmed)
                    &&& (e == Error::Unauthorized <==> !registered || (registered && exists
                        && !owns))
                    &&& (e == Error::NotFound <==> registered && !exists)
                    &&& (e == Error::InvalidTransition <==> registered && exists && owns
                        && !confirmed)
                },
                Ok((delivery, ev)) => {
                    let pre_order = old(self).order_data@[order_id - 1];
                    let did = (old(self).delivery_data@.len() + 1) as u64;
                    &&& old(self).restaurant_account_id@.contains_key(caller)
                    &&& valid_id(order_id, old(self).order_data@.len())
                    &&& pre_order.status == OrderStatus::Confirmed
                    &&& pre_order.restaurant_id == old(self).restaurant_account_id@[caller]
                    &&& final(self).order_data@ == old(self).order_data@.update(
                        order_id - 1,
                        (Order { status: OrderStatus::WaitingDeliver, ..pre_order }),
                    )
                    &&& delivery.order_id == order_id
                    &&& delivery.restaurant_id == pre_order.restaurant_id
                    &&& delivery.customer_id == pre_order.customer_id
                    &&& delivery.courier_id == 0
                    &&& delivery.delivery_address@ == pre_order.delivery_address@
                    &&& delivery.status == DeliveryStatus::Waiting
                    &&& delivery.timestamp == now
                    &&& final(self).delivery_data@ == old(self).delivery_data@.push(delivery)
                    &&& final(self).restaurant_delivery_data@ == old(
                        self,
                    ).restaurant_delivery_data@.insert(
                        pre_order.restaurant_id,
                        index_seq(
                            old(self).restaurant_delivery_data@,
                            pre_order.restaurant_id,
                        ).push(did),
                    )
                    &&& final(self).customer_delivery_data@ == old(
                        self,
                    ).customer_delivery_data@.insert(
                        pre_order.customer_id,
                        index_seq(old(self).customer_delivery_data@, pre_order.customer_id).push(
                            did,
                        ),
                    )
                    &&& final(self).courier_delivery_data@ == old(
                        self,
                    ).courier_delivery_data@.insert(
                        0,
                        index_seq(old(self).courier_delivery_data@, 0).push(did),
                    )
                    &&& order_step(pre_order.status, final(self).order_data@[order_id - 1].status)
                    &&& ev.order_id == order_id
                    &&& ev.restaurant_id == pre_order.restaurant_id
                    &&& ev.customer_id == pre_order.customer_id
                    &&& ev.delivery_address@ == pre_order.delivery_address@
                    &&& final(self).restaurant_order_data@ == old(self).restaurant_order_data@
                    &&& final(self).customer_order_data@ == old(self).customer_order_data@
                    &&& final(self).manager == old(self).manager
                    &&& customers_unchanged(*old(self), *final(self))
                    &&& restaurants_unchanged(*old(self), *final(self))
                    &&& couriers_unchanged(*old(self), *final(self))
                    &&& foods_unchanged(*old(self), *final(self))
                },
            },
    {
        let restaurant_id = match self.restaurant_account_id.get(caller) {
            Some(id) => id,
            None => {
                return Err(Error::Unauthorized);
            },
        };
        if order_id < 1 || order_id > self.order_data.len() as u64 {
            return Err(Error::NotFound);
        }
        let oidx = (order_id - 1) as usize;
        proof {
            assert(self.order_ok(self.order_data@[oidx as int]));
        }
        let food_id = self.order_data[oidx].food_id;
        proof {
            assert(self.food_data@.len() == self.food_data.len());
        }
        let fidx = (food_id - 1) as usize;
        if self.food_data[fidx].restaurant_id != restaurant_id {
            return Err(Error::Unauthorized);
        }
        if self.order_data[oidx].status != OrderStatus::Confirmed {
            return Err(Error::InvalidTransition);
        }
        let mut order = self.order_data[oidx].clone();
        order.status = OrderStatus::WaitingDeliver;
        let customer_id = order.customer_id;
        let delivery = Delivery {
            order_id,
            restaurant_id: order.restaurant_id,
            customer_id,
            courier_id: 0,
            delivery_address: order.delivery_address.clone(),
            status: DeliveryStatus::Waiting,
            timestamp: now,
        };
        self.order_data[oidx] = order;
        self.delivery_data.push(delivery.clone());
        let delivery_id = self.delivery_data.len() as u64;
        self.restaurant_delivery_data.append(restaurant_id, delivery_id);
        self.customer_delivery_data.append(customer_id, delivery_id);
        self.courier_delivery_data.append(0, delivery_id);
        proof {
            let pre = *old(self);
            let n = pre.delivery_data@.len();
            assert(self.order_restaurant_keys() =~= pre.order_restaurant_keys());
            assert(self.order_customer_keys() =~= pre.order_customer_keys());
            assert(self.delivery_restaurant_keys() =~= pre.delivery_restaurant_keys().push(
                restaurant_id,
            ));
            assert(self.delivery_customer_keys() =~= pre.delivery_customer_keys().push(
                customer_id,
            ));
            assert(id_sequence(n + 1) =~= id_sequence(n).push((n + 1) as u64));
            assert forall|k: u64| #[trigger] index_seq(self.restaurant_delivery_data@, k)
                == ids_matching(self.delivery_restaurant_keys(), k) by {
                lemma_ids_matching_push(pre.delivery_restaurant_keys(), k, restaurant_id);
                assert(index_seq(pre.restaurant_delivery_data@, k) == ids_matching(
                    pre.delivery_restaurant_keys(),
                    k,
                ));
                assert(index_seq(pre.restaurant_delivery_data@, restaurant_id) == ids_matching(
                    pre.delivery_restaurant_keys(),
                    restaurant_id,
                ));
            }
            assert forall|k: u64| #[trigger] index_seq(self.customer_delivery_data@, k)
                == ids_matching(self.delivery_customer_keys(), k) by {
                lemma_ids_matching_push(pre.delivery_customer_keys(), k, customer_id);
                assert(index_seq(pre.customer_delivery_data@, k) == ids_matching(
                    pre.delivery_customer_keys(),
                    k,
                ));
                assert(index_seq(pre.customer_delivery_data@, customer_id) == ids_matching(
                    pre.delivery_customer_keys(),
                    customer_id,
                ));
            }
            assert forall|k: u64| #[trigger] index_seq(self.courier_delivery_data@, k) == (
            if k == 0 {
                id_sequence(self.delivery_data@.len())
            } else {
                Seq::<u64>::empty()
            }) by {
                assert(index_seq(pre.courier_delivery_data@, k) == (if k == 0 {
                    id_sequence(pre.delivery_data@.len())
                } else {
                    Seq::<u64>::empty()
                }));
                assert(index_seq(pre.courier_delivery_data@, 0) == id_sequence(
                    pre.delivery_data@.len(),
                ));
            }
            assert forall|i: int| 0 <= i < self.delivery_data@.len() implies self.delivery_ok(
                #[trigger] self.delivery_data@[i],
            ) by {
                if i < n {
                    assert(pre.delivery_ok(pre.delivery_data@[i]));
                }
            }
            assert forall|i: int, j: int| 0 <= i < j < self.delivery_data@.len() implies
                (#[trigger] self.delivery_data@[i]).order_id
                    != (#[trigger] self.delivery_data@[j]).order_id by {
                if j == n {
                    assert(pre.delivery_ok(pre.delivery_data@[i]));
                }
            }
        }
        let ev = DeliverOrderEvent {
            order_id,
            restaurant_id,
            customer_id,
            delivery_address: delivery.delivery_address.clone(),
        };
        Ok((delivery, ev))
    }
}

} // verus!
