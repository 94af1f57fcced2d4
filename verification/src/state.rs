//! The ledger state: primary record arenas, the account registries that
//! anchor authorization, and the append-only ownership indices, together with
//! the well-formedness invariant every operation preserves.

use vstd::prelude::*;
use crate::account_map::AccountMap;
use crate::id_index::IdIndex;
use crate::id_index::index_seq;
use crate::indexing::id_sequence;
use crate::indexing::ids_matching;
use crate::indexing::valid_id;
use crate::types::AccountId;
use crate::types::Courier;
use crate::types::Customer;
use crate::types::Delivery;
use crate::types::DeliveryStatus;
use crate::types::Food;
use crate::types::Order;
use crate::types::OrderStatus;
use crate::types::Restaurant;

verus! {

/// The whole marketplace ledger. Records are held in arenas: the record with
/// identifier `i` (identifiers start at 1) sits at position `i - 1`, and the
/// next identifier to be allocated is the arena's length plus one.
pub struct FoodDelivery {
    /// The account allowed to register restaurants and couriers.
    pub manager: AccountId,
    pub customers: Vec<Customer>,
    pub restaurants: Vec<Restaurant>,
    pub couriers: Vec<Courier>,
    pub food_data: Vec<Food>,
    pub order_data: Vec<Order>,
    pub delivery_data: Vec<Delivery>,
    pub restaurant_food_data: IdIndex,
    pub restaurant_order_data: IdIndex,
    pub restaurant_delivery_data: IdIndex,
    pub customer_order_data: IdIndex,
    pub customer_delivery_data: IdIndex,
    /// Deliveries are recorded here under the courier identifier they carry
    /// at creation, which is always 0, the unassigned value; the entry is
    /// never rewritten when a courier later picks a delivery up.
    pub courier_delivery_data: IdIndex,
    pub customer_account_id: AccountMap,
    pub restaurant_account_id: AccountMap,
    pub courier_account_id: AccountMap,
}

/// The most records an arena may hold: one less than the identifier space,
/// so that allocating the next identifier cannot overflow.
pub open spec fn arena_full(len: nat) -> bool {
    len >= u64::MAX - 1
}

pub open spec fn customers_unchanged(pre: FoodDelivery, post: FoodDelivery) -> bool {
    &&& post.customers@ == pre.customers@
    &&& post.customer_account_id@ == pre.customer_account_id@
}

pub open spec fn restaurants_unchanged(pre: FoodDelivery, post: FoodDelivery) -> bool {
    &&& post.restaurants@ == pre.restaurants@
    &&& post.restaurant_account_id@ == pre.restaurant_account_id@
}

pub open spec fn couriers_unchanged(pre: FoodDelivery, post: FoodDelivery) -> bool {
    &&& post.couriers@ == pre.couriers@
    &&& post.courier_account_id@ == pre.courier_account_id@
}

pub open spec fn foods_unchanged(pre: FoodDelivery, post: FoodDelivery) -> bool {
    &&& post.food_data@ == pre.food_data@
    &&& post.restaurant_food_data@ == pre.restaurant_food_data@
}

pub open spec fn orders_unchanged(pre: FoodDelivery, post: FoodDelivery) -> bool {
    &&& post.order_data@ == pre.order_data@
    &&& post.restaurant_order_data@ == pre.restaurant_order_data@
    &&& post.customer_order_data@ == pre.customer_order_data@
}

pub open spec fn deliveries_unchanged(pre: FoodDelivery, post: FoodDelivery) -> bool {
    &&& post.delivery_data@ == pre.delivery_data@
    &&& post.restaurant_delivery_data@ == pre.restaurant_delivery_data@
    &&& post.customer_delivery_data@ == pre.customer_delivery_data@
    &&& post.courier_delivery_data@ == pre.courier_delivery_data@
}

impl FoodDelivery {
    /// The owner key of each food, read off the arena in order.
    pub open spec fn food_owner_keys(self) -> Seq<u64> {
        self.food_data@.map_values(|f: Food| f.restaurant_id)
    }

    pub open spec fn order_restaurant_keys(self) -> Seq<u64> {
        self.order_data@.map_values(|o: Order| o.restaurant_id)
    }

    pub open spec fn order_customer_keys(self) -> Seq<u64> {
        self.order_data@.map_values(|o: Order| o.customer_id)
    }

    pub open spec fn delivery_restaurant_keys(self) -> Seq<u64> {
        self.delivery_data@.map_values(|d: Delivery| d.restaurant_id)
    }

    pub open spec fn delivery_customer_keys(self) -> Seq<u64> {
        self.delivery_data@.map_values(|d: Delivery| d.customer_id)
    }

    /// The account registry and the customer arena are mutually inverse.
    pub open spec fn wf_customers(self) -> bool {
        &&& self.customer_account_id.wf()
        &&& forall|a: u64| #[trigger] self.customer_account_id@.contains_key(a) ==> {
                &&& valid_id(self.customer_account_id@[a], self.customers@.len())
                &&& self.customers@[self.customer_account_id@[a] - 1].customer_account == a
            }
        &&& forall|i: int| 0 <= i < self.customers@.len() ==> {
                &&& self.customer_account_id@.contains_key(
                    (#[trigger] self.customers@[i]).customer_account,
                )
                &&& self.customer_account_id@[self.customers@[i].customer_account] == i + 1
            }
    }

    pub open spec fn wf_restaurants(self) -> bool {
        &&& self.restaurant_account_id.wf()
        &&& forall|a: u64| #[trigger] self.restaurant_account_id@.contains_key(a) ==> {
                &&& valid_id(self.restaurant_account_id@[a], self.restaurants@.len())
                &&& self.restaurants@[self.restaurant_account_id@[a] - 1].restaurant_account == a
            }
        &&& forall|i: int| 0 <= i < self.restaurants@.len() ==> {
                &&& self.restaurant_account_id@.contains_key(
                    (#[trigger] self.restaurants@[i]).restaurant_account,
                )
                &&& self.restaurant_account_id@[self.restaurants@[i].restaurant_account] == i + 1
            }
    }

    pub open spec fn wf_couriers(self) -> bool {
        &&& self.courier_account_id.wf()
        &&& forall|a: u64| #[trigger] self.courier_account_id@.contains_key(a) ==> {
                &&& valid_id(self.courier_account_id@[a], self.couriers@.len())
                &&& self.couriers@[self.courier_account_id@[a] - 1].courier_account == a
            }
        &&& forall|i: int| 0 <= i < self.couriers@.len() ==> {
                &&& self.courier_account_id@.contains_key(
                    (#[trigger] self.couriers@[i]).courier_account,
                )
                &&& self.courier_account_id@[self.couriers@[i].courier_account] == i + 1
            }
    }

    /// Every food is owned by a registered restaurant.
    pub open spec fn wf_foods(self) -> bool {
        forall|i: int|
            0 <= i < self.food_data@.len() ==> valid_id(
                (#[trigger] self.food_data@[i]).restaurant_id,
                self.restaurants@.len(),
            )
    }

    /// An order references an existing food, carries that food's restaurant,
    /// an existing customer, and a courier exactly from `Delivered` onwards.
    pub open spec fn order_ok(self, o: Order) -> bool {
        &&& valid_id(o.food_id, self.food_data@.len())
        &&& o.restaurant_id == self.food_data@[o.food_id - 1].restaurant_id
        &&& valid_id(o.customer_id, self.customers@.len())
        &&& (o.status == OrderStatus::Submitted || o.status == OrderStatus::Confirmed
            || o.status == OrderStatus::WaitingDeliver) ==> o.courier_id == 0
        &&& (o.status == OrderStatus::Delivered || o.status == OrderStatus::Accepted)
            ==> valid_id(o.courier_id, self.couriers@.len())
    }

    pub open spec fn wf_orders(self) -> bool {
        forall|i: int|
            0 <= i < self.order_data@.len() ==> self.order_ok(#[trigger] self.order_data@[i])
    }

    /// A delivery mirrors its order: same parties and address, and the two
    /// statuses stay in the allowed joint states, with the courier assigned
    /// exactly from pickup onwards and immutable afterwards.
    pub open spec fn delivery_ok(self, d: Delivery) -> bool {
        &&& valid_id(d.order_id, self.order_data@.len())
        &&& {
            let o = self.order_data@[d.order_id - 1];
            &&& d.restaurant_id == o.restaurant_id
            &&& d.customer_id == o.customer_id
            &&& d.delivery_address@ == o.delivery_address@
            &&& match d.status {
                DeliveryStatus::Waiting => o.status == OrderStatus::WaitingDeliver
                    && d.courier_id == 0,
                DeliveryStatus::PickedUp => o.status == OrderStatus::Delivered && d.courier_id
                    == o.courier_id,
                DeliveryStatus::Accepted => o.status == OrderStatus::Accepted && d.courier_id
                    == o.courier_id,
            }
        }
    }

    /// Order and delivery are 1:1: no two deliveries reference one order.
    pub open spec fn wf_deliveries(self) -> bool {
        &&& forall|i: int|
            0 <= i < self.delivery_data@.len() ==> self.delivery_ok(
                #[trigger] self.delivery_data@[i],
            )
        &&& forall|i: int, j: int|
            0 <= i < j < self.delivery_data@.len()
                ==> (#[trigger] self.delivery_data@[i]).order_id
                    != (#[trigger] self.delivery_data@[j]).order_id
    }

    /// Each ownership index holds, for every owner, exactly the identifiers
    /// of that owner's records, in ascending (that is, insertion) order. The
    /// courier index is keyed by the courier identifier at creation, always
    /// the unassigned value 0.
    pub open spec fn wf_indices(self) -> bool {
        &&& self.restaurant_food_data.wf()
        &&& self.restaurant_order_data.wf()
        &&& self.restaurant_delivery_data.wf()
        &&& self.customer_order_data.wf()
        &&& self.customer_delivery_data.wf()
        &&& self.courier_delivery_data.wf()
        &&& forall|k: u64| #[trigger] index_seq(self.restaurant_food_data@, k) == ids_matching(
            self.food_owner_keys(),
            k,
        )
        &&& forall|k: u64| #[trigger] index_seq(self.restaurant_order_data@, k) == ids_matching(
            self.order_restaurant_keys(),
            k,
        )
        &&& forall|k: u64| #[trigger] index_seq(self.customer_order_data@, k) == ids_matching(
            self.order_customer_keys(),
            k,
        )
        &&& forall|k: u64| #[trigger] index_seq(self.restaurant_delivery_data@, k) == ids_matching(
            self.delivery_restaurant_keys(),
            k,
        )
        &&& forall|k: u64| #[trigger] index_seq(self.customer_delivery_data@, k) == ids_matching(
            self.delivery_customer_keys(),
            k,
        )
        &&& forall|k: u64| #[trigger] index_seq(self.courier_delivery_data@, k) == if k == 0 {
            id_sequence(self.delivery_data@.len())
        } else {
            Seq::<u64>::empty()
        }
    }

    /// The invariant every public operation requires and preserves.
    pub open spec fn wf(self) -> bool {
        &&& self.wf_customers()
        &&& self.wf_restaurants()
        &&& self.wf_couriers()
        &&& self.wf_foods()
        &&& self.wf_orders()
        &&& self.wf_deliveries()
        &&& self.wf_indices()
    }

    /// A fresh ledger, owned by its deployer: the caller's account becomes
    /// the manager, and every arena, registry and index starts empty.
    pub fn new(manager: AccountId) -> (r: FoodDelivery)
        ensures
            r.wf(),
            r.manager == manager,
            r.customers@.len() == 0,
            r.restaurants@.len() == 0,
            r.couriers@.len() == 0,
            r.food_data@.len() == 0,
            r.order_data@.len() == 0,
            r.delivery_data@.len() == 0,
            r.customer_account_id@ == Map::<u64, u64>::empty(),
            r.restaurant_account_id@ == Map::<u64, u64>::empty(),
            r.courier_account_id@ == Map::<u64, u64>::empty(),
    {
        let r = FoodDelivery {
            manager,
            customers: Vec::new(),
            restaurants: Vec::new(),
            couriers: Vec::new(),
            food_data: Vec::new(),
            order_data: Vec::new(),
            delivery_data: Vec::new(),
            restaurant_food_data: IdIndex::new(),
            restaurant_order_data: IdIndex::new(),
            restaurant_delivery_data: IdIndex::new(),
            customer_order_data: IdIndex::new(),
            customer_delivery_data: IdIndex::new(),
            courier_delivery_data: IdIndex::new(),
            customer_account_id: AccountMap::new(),
            restaurant_account_id: AccountMap::new(),
            courier_account_id: AccountMap::new(),
        };
        proof {
            assert(id_sequence(0) =~= Seq::<u64>::empty());
            assert(r.food_owner_keys() =~= Seq::<u64>::empty());
            assert(r.order_restaurant_keys() =~= Seq::<u64>::empty());
            assert(r.order_customer_keys() =~= Seq::<u64>::empty());
            assert(r.delivery_restaurant_keys() =~= Seq::<u64>::empty());
            assert(r.delivery_customer_keys() =~= Seq::<u64>::empty());
        }
        r
    }
}

} // verus!
