//! The delivery ledger: courier pickup (first come, first served) and the
//! customer's final acceptance, which settles the escrowed price. Delivery
//! statuses advance along `Waiting -> PickedUp -> Accepted`, mirroring the
//! owning order's `WaitingDeliver -> Delivered -> Accepted`.

use vstd::prelude::*;
use crate::events::AcceptDeliveryEvent;
use crate::events::PickupDeliveryEvent;
use crate::indexing::valid_id;
use crate::settlement::Settlement;
use crate::settlement::courier_share;
use crate::settlement::restaurant_share;
use crate::state::FoodDelivery;
use crate::state::couriers_unchanged;
use crate::state::customers_unchanged;
use crate::state::foods_unchanged;
use crate::state::restaurants_unchanged;
use crate::types::AccountId;
use crate::types::Delivery;
use crate::types::DeliveryId;
use crate::types::DeliveryStatus;
use crate::types::Error;
use crate::types::Order;
use crate::types::OrderStatus;
use crate::types::delivery_step;
use crate::types::order_step;

verus! {

impl FoodDelivery {
    /// Picks a waiting delivery up: the caller must be a registered courier,
    /// and whichever courier's call finds the delivery still `Waiting` wins
    /// (`AlreadyPickedUp` afterwards, with nothing changed). Assigns the
    /// courier to the delivery and to the paired order, which moves to
    /// `Delivered`, in one step; the assignment is immutable afterwards.
    pub fn pickup_delivery(&mut self, caller: AccountId, delivery_id: DeliveryId) -> (r: Result<
        PickupDeliveryEvent,
        Error,
    >)
        requires
            old(self).wf(),
        ensures
            final(self).wf(),
            match r {
                Err(e) => {
                    let registered = old(self).courier_account_id@.contains_key(caller);
                    let exists = valid_id(delivery_id, old(self).delivery_data@.len());
                    let waiting = exists && old(self).delivery_data@[delivery_id - 1].status
                        == DeliveryStatus::Waiting;
                    &&& *final(self) == *old(self)
                    &&& !(registered && exists && waiting)
                    &&& (e == Error::Unauthorized <==> !registered)
                    &&& (e == Error::NotFound <==> registered && !exists)
                    &&& (e == Error::AlreadyPickedUp <==> registered && exists && !waiting)
                },
                Ok(ev) => {
                    let courier = old(self).courier_account_id@[caller];
                    let pre_delivery = old(self).delivery_data@[delivery_id - 1];
                    let pre_order = old(self).order_data@[pre_delivery.order_id - 1];
                    &&& old(self).courier_account_id@.contains_key(caller)
                    &&& valid_id(delivery_id, old(self).delivery_data@.len())
                    &&& pre_delivery.status == DeliveryStatus::Waiting
                    &&& final(self).delivery_data@ == old(self).delivery_data@.update(
                        delivery_id - 1,
                        (Delivery {
                            courier_id: courier,
                            status: DeliveryStatus::PickedUp,
                            ..pre_delivery
                        }),
                    )
                    &&& final(self).order_data@ == old(self).order_data@.update(
                        pre_delivery.order_id - 1,
                        (Order { courier_id: courier, status: OrderStatus::Delivered, ..pre_order
                        }),
                    )
                    &&& order_step(
                        pre_order.status,
                        final(self).order_data@[pre_delivery.order_id - 1].status,
                    )
                    &&& delivery_step(
                        pre_delivery.status,
                        final(self).delivery_data@[delivery_id - 1].status,
                    )
                    &&& ev.delivery_id == delivery_id
                    &&& final(self).restaurant_order_data@ == old(self).restaurant_order_data@
                    &&& final(self).customer_order_data@ == old(self).customer_order_data@
                    &&& final(self).restaurant_delivery_data@ == old(
                        self,
                    ).restaurant_delivery_data@
                    &&& final(self).customer_delivery_data@ == old(self).customer_delivery_data@
                    &&& final(self).courier_delivery_data@ == old(self).courier_delivery_data@
                    &&& final(self).manager == old(self).manager
                    &&& customers_unchanged(*old(self), *final(self))
                    &&& restaurants_unchanged(*old(self), *final(self))
                    &&& couriers_unchanged(*old(self), *final(self))
                    &&& foods_unchanged(*old(self), *final(self))
                },
            },
    {
        let courier_id = match self.courier_account_id.get(caller) {
            Some(id) => id,
            None => {
                return Err(Error::Unauthorized);
            },
        };
        if delivery_id < 1 || delivery_id > self.delivery_data.len() as u64 {
            return Err(Error::NotFound);
        }
        let didx = (delivery_id - 1) as usize;
        proof {
            assert(self.delivery_ok(self.delivery_data@[didx as int]));
        }
        if self.delivery_data[didx].status != DeliveryStatus::Waiting {
            return Err(Error::AlreadyPickedUp);
        }
        let mut delivery = self.delivery_data[didx].clone();
        delivery.courier_id = courier_id;
        delivery.status = DeliveryStatus::PickedUp;
        let order_id = delivery.order_id;
        proof {
            assert(self.order_data@.len() == self.order_data.len());
        }
        let oidx = (order_id - 1) as usize;
        let mut order = self.order_data[oidx].clone();
        order.status = OrderStatus::Delivered;
        order.courier_id = courier_id;
        self.delivery_data[didx] = delivery;
        self.order_data[oidx] = order;
        proof {
            let pre = *old(self);
            assert(self.order_restaurant_keys() =~= pre.order_restaurant_keys());
            assert(self.order_customer_keys() =~= pre.order_customer_keys());
            assert(self.delivery_restaurant_keys() =~= pre.delivery_restaurant_keys());
            assert(self.delivery_customer_keys() =~= pre.delivery_customer_keys());
            assert forall|i: int| 0 <= i < self.delivery_data@.len() implies self.delivery_ok(
                #[trigger] self.delivery_data@[i],
            ) by {
                assert(pre.delivery_ok(pre.delivery_data@[i]));
                if i != didx as int {
                    assert(pre.delivery_data@[i].order_id != pre.delivery_data@[
                        didx as int
                    ].order_id);
                }
            }
            assert forall|i: int, j: int| 0 <= i < j < self.delivery_data@.len() implies
                (#[trigger] self.delivery_data@[i]).order_id
                    != (#[trigger] self.delivery_data@[j]).order_id by {
                assert(pre.delivery_data@[i].order_id != pre.delivery_data@[j].order_id);
            }
        }
        Ok(PickupDeliveryEvent { delivery_id })
    }

    /// Accepts a delivered order: the caller must be the customer owning the
    /// referenced order (`Unauthorized` otherwise), and the order must be
    /// `Delivered` (else `InvalidTransition`).
    /// Moves both order and delivery to their terminal `Accepted` state and
    /// returns the settlement: the escrowed price split between the courier
    /// (a tenth, rounded down) and the restaurant (the rest), together with
    /// their payout accounts. The runtime performs the two transfers; a
    /// failed transfer is reported but never rolls the acceptance back.
    pub fn confirm_delivery(&mut self, caller: AccountId, delivery_id: DeliveryId) -> (r: Result<
        (Settlement, AcceptDeliveryEvent),
        Error,
    >)
        requires
            old(self).wf(),
        ensures
            final(self).wf(),
            match r {
                Err(e) => {
                    let registered = old(self).customer_account_id@.contains_key(caller);
                    let exists = valid_id(delivery_id, old(self).delivery_data@.len());
                    let pre_delivery = old(self).delivery_data@[delivery_id - 1];
                    let pre_order = old(self).order_data@[pre_delivery.order_id - 1];
                    let delivered = exists && pre_order.status == OrderStatus::Delivered;
                    let owns = exists && pre_order.customer_id == old(
                        self,
                    ).customer_account_id@[caller];
                    &&& *final(self) == *old(self)
                    &&& !(registered && exists && owns && delivered)
                    &&& (e == Error::Unauthorized <==> !registered || (registered && exists
                        && !owns))
                    &&& (e == Error::NotFound <==> registered && !exists)
                    &&& (e == Error::InvalidTransition <==> registered && exists && owns
                        && !delivered)
                },
                Ok((s, ev)) => {
                    let pre_delivery = old(self).delivery_data@[delivery_id - 1];
                    let pre_order = old(self).order_data@[pre_delivery.order_id - 1];
                    &&& old(self).customer_account_id@.contains_key(caller)
                    &&& valid_id(delivery_id, old(self).delivery_data@.len())
                    &&& pre_order.status == OrderStatus::Delivered
                    &&& pre_order.customer_id == old(self).customer_account_id@[caller]
                    &&& final(self).order_data@ == old(self).order_data@.update(
                        pre_delivery.order_id - 1,
                        (Order { status: OrderStatus::Accepted, ..pre_order }),
                    )
                    &&& final(self).delivery_data@ == old(self).delivery_data@.update(
                        delivery_id - 1,
                        (Delivery { status: DeliveryStatus::Accepted, ..pre_delivery }),
                    )
                    &&& s.courier_amount == courier_share(pre_order.price as int)
                    &&& s.restaurant_amount == restaurant_share(pre_order.price as int)
                    &&& s.courier_account == old(self).couriers@[pre_delivery.courier_id
                        - 1].courier_account
                    &&& s.restaurant_account == old(self).restaurants@[pre_delivery.restaurant_id
                        - 1].restaurant_account
                    &&& order_step(
                        pre_order.status,
                        final(self).order_data@[pre_delivery.order_id - 1].status,
                    )
                    &&& delivery_step(
                        pre_delivery.status,
                        final(self).delivery_data@[delivery_id - 1].status,
                    )
                    &&& ev.delivery_id == delivery_id
                    &&& ev.order_id == pre_delivery.order_id
                    &&& final(self).restaurant_order_data@ == old(self).restaurant_order_data@
                    &&& final(self).customer_order_data@ == old(self).customer_order_data@
                    &&& final(self).restaurant_delivery_data@ == old(
                        self,
                    ).restaurant_delivery_data@
                    &&& final(self).customer_delivery_data@ == old(self).customer_delivery_data@
                    &&& final(self).courier_delivery_data@ == old(self).courier_delivery_data@
                    &&& final(self).manager == old(self).manager
                    &&& customers_unchanged(*old(self), *final(self))
                    &&& restaurants_unchanged(*old(self), *final(self))
                    &&& couriers_unchanged(*old(self), *final(self))
                    &&& foods_unchanged(*old(self), *final(self))
                },
            },
    {
        let customer_id = match self.customer_account_id.get(caller) {
            Some(id) => id,
            None => {
                return Err(Error::Unauthorized);
            },
        };
        if delivery_id < 1 || delivery_id > self.delivery_data.len() as u64 {
            return Err(Error::NotFound);
        }
        let didx = (delivery_id - 1) as usize;
        proof {
            assert(self.delivery_ok(self.delivery_data@[didx as int]));
            assert(self.order_data@.len() == self.order_data.len());
        }
        let order_id = self.delivery_data[didx].order_id;
        let oidx = (order_id - 1) as usize;
        if self.order_data[oidx].customer_id != customer_id {
            return Err(Error::Unauthorized);
        }
        if self.order_data[oidx].status != OrderStatus::Delivered {
            return Err(Error::InvalidTransition);
        }
        proof {
            assert(self.order_ok(self.order_data@[oidx as int]));
            assert(self.couriers@.len() == self.couriers.len());
            assert(self.restaurants@.len() == self.restaurants.len());
        }
        let mut order = self.order_data[oidx].clone();
        order.status = OrderStatus::Accepted;
        let mut delivery = self.delivery_data[didx].clone();
        delivery.status = DeliveryStatus::Accepted;
        let price = order.price;
        let courier_idx = (delivery.courier_id - 1) as usize;
        let restaurant_idx = (delivery.restaurant_id - 1) as usize;
        let courier_account = self.couriers[courier_idx].courier_account;
        let restaurant_account = self.restaurants[restaurant_idx].restaurant_account;
        self.order_data[oidx] = order;
        self.delivery_data[didx] = delivery;
        proof {
            let pre = *old(self);
            assert(self.order_restaurant_keys() =~= pre.order_restaurant_keys());
            assert(self.order_customer_keys() =~= pre.order_customer_keys());
            assert(self.delivery_restaurant_keys() =~= pre.delivery_restaurant_keys());
            assert(self.delivery_customer_keys() =~= pre.delivery_customer_keys());
            assert forall|i: int| 0 <= i < self.delivery_data@.len() implies self.delivery_ok(
                #[trigger] self.delivery_data@[i],
            ) by {
                assert(pre.delivery_ok(pre.delivery_data@[i]));
                if i != didx as int {
                    assert(pre.delivery_data@[i].order_id != pre.delivery_data@[
                        didx as int
                    ].order_id);
                }
            }
            assert forall|i: int, j: int| 0 <= i < j < self.delivery_data@.len() implies
                (#[trigger] self.delivery_data@[i]).order_id
                    != (#[trigger] self.delivery_data@[j]).order_id by {
                assert(pre.delivery_data@[i].order_id != pre.delivery_data@[j].order_id);
            }
            crate::settlement::lemma_escrow_split_exact(price as int);
        }
        let courier_amount = price / 10;
        let restaurant_amount = price - courier_amount;
        let settlement = Settlement {
            courier_account,
            courier_amount,
            restaurant_account,
            restaurant_amount,
        };
        let ev = AcceptDeliveryEvent { delivery_id, order_id };
        Ok((settlement, ev))
    }
}

} // verus!
