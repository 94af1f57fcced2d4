//! Read accessors: the eta countdown, single-record lookups, per-owner
//! listings in insertion order, and range queries over `[from, to)` that
//! clamp the upper bound at the live identifier counter.

use vstd::prelude::*;
use crate::id_index::index_seq;
use crate::indexing::ids_matching;
use crate::indexing::lemma_ids_matching_props;
use crate::indexing::valid_id;
use crate::state::FoodDelivery;
use crate::types::CourierId;
use crate::types::CustomerId;
use crate::types::Delivery;
use crate::types::Error;
use crate::types::Food;
use crate::types::FoodId;
use crate::types::DeliveryId;
use crate::types::Order;
use crate::types::OrderId;
use crate::types::Restaurant;
use crate::types::RestaurantId;
use crate::types::Timestamp;

verus! {

/// What is left of an order's eta at time `now`: the eta counts down from
/// the order's timestamp and floors at 0, never negative. Before the order's
/// own timestamp (which a monotonic clock never reports) nothing has elapsed.
pub open spec fn remaining_eta(eta: u64, start: u64, now: u64) -> u64 {
    if now <= start {
        eta
    } else if now - start <= eta {
        (eta - (now - start)) as u64
    } else {
        0
    }
}

/// Law: for a fixed order, the eta countdown never increases as time
/// passes, and being unsigned it never drops below zero.
pub proof fn lemma_eta_monotone(eta: u64, start: u64, t1: u64, t2: u64)
    requires
        t1 <= t2,
    ensures
        remaining_eta(eta, start, t2) <= remaining_eta(eta, start, t1),
        remaining_eta(eta, start, t2) >= 0,
{
}

/// Where a range query `[from, to)` stops: at `to`, clamped at the live
/// counter (the next identifier to be allocated, one past the last record).
pub open spec fn clamped_end(to: u64, counter: int) -> int {
    if to < counter {
        to as int
    } else {
        counter
    }
}

/// How many records a range query `[from, to)` returns.
pub open spec fn range_len(from: u64, end: int) -> int {
    if from < end {
        end - from
    } else {
        0
    }
}

/// Law: a range query's upper bound only matters up to the live counter: any
/// two bounds at or beyond it clamp to the same end, so the query returns
/// the same records for `to` beyond the counter as for `to` equal to it.
pub proof fn lemma_range_clamp(to1: u64, to2: u64, counter: int)
    requires
        to1 >= counter,
        to2 >= counter,
    ensures
        clamped_end(to1, counter) == clamped_end(to2, counter),
{
}

impl FoodDelivery {
    /// The countdown to an order's estimated delivery: its eta minus the
    /// time elapsed since its timestamp, floored at 0; `NotFound` when the
    /// order is unknown. Derived and non-authoritative: it never mutates
    /// state nor expires an order.
    pub fn get_eta(&self, now: Timestamp, order_id: OrderId) -> (r: Result<u64, Error>)
        ensures
            match r {
                Err(e) => {
                    &&& e == Error::NotFound
                    &&& !valid_id(order_id, self.order_data@.len())
                },
                Ok(v) => {
                    &&& valid_id(order_id, self.order_data@.len())
                    &&& v == remaining_eta(
                        self.order_data@[order_id - 1].eta,
                        self.order_data@[order_id - 1].timestamp,
                        now,
                    )
                },
            },
    {
        if order_id < 1 || order_id > self.order_data.len() as u64 {
            return Err(Error::NotFound);
        }
        let idx = (order_id - 1) as usize;
        let eta = self.order_data[idx].eta;
        let start = self.order_data[idx].timestamp;
        if now <= start {
            Ok(eta)
        } else {
            let elapsed = now - start;
            if elapsed <= eta {
                Ok(eta - elapsed)
            } else {
                Ok(0)
            }
        }
    }

    /// The order stored under `order_id`; `NotFound` when unknown.
    pub fn get_order_from_id(&self, order_id: OrderId) -> (r: Result<Order, Error>)
        ensures
            match r {
                Err(e) => {
                    &&& e == Error::NotFound
                    &&& !valid_id(order_id, self.order_data@.len())
                },
                Ok(o) => {
                    &&& valid_id(order_id, self.order_data@.len())
                    &&& o == self.order_data@[order_id - 1]
                },
            },
    {
        if order_id < 1 || order_id > self.order_data.len() as u64 {
            return Err(Error::NotFound);
        }
        let idx = (order_id - 1) as usize;
        Ok(self.order_data[idx].clone())
    }

    /// The food stored under `food_id`; `NotFound` when unknown.
    pub fn get_food_from_id(&self, food_id: FoodId) -> (r: Result<Food, Error>)
        ensures
            match r {
                Err(e) => {
                    &&& e == Error::NotFound
                    &&& !valid_id(food_id, self.food_data@.len())
                },
                Ok(f) => {
                    &&& valid_id(food_id, self.food_data@.len())
                    &&& f == self.food_data@[food_id - 1]
                },
            },
    {
        if food_id < 1 || food_id > self.food_data.len() as u64 {
            return Err(Error::NotFound);
        }
        let idx = (food_id - 1) as usize;
        Ok(self.food_data[idx].clone())
    }

    /// The delivery stored under `delivery_id`; `NotFound` when unknown.
    pub fn get_delivery_from_id(&self, delivery_id: DeliveryId) -> (r: Result<Delivery, Error>)
        ensures
            match r {
                Err(e) => {
                    &&& e == Error::NotFound
                    &&& !valid_id(delivery_id, self.delivery_data@.len())
                },
                Ok(d) => {
                    &&& valid_id(delivery_id, self.delivery_data@.len())
                    &&& d == self.delivery_data@[delivery_id - 1]
                },
            },
    {
        if delivery_id < 1 || delivery_id > self.delivery_data.len() as u64 {
            return Err(Error::NotFound);
        }
        let idx = (delivery_id - 1) as usize;
        Ok(self.delivery_data[idx].clone())
    }

    /// All orders placed at a restaurant, in insertion order; `NotFound`
    /// when the restaurant itself is unregistered.
    #[verifier::loop_isolation(false)]
    pub fn get_order_from_restaurant(&self, restaurant_id: RestaurantId) -> (r: Result<
        Vec<Order>,
        Error,
    >)
        requires
            self.wf(),
        ensures
            match r {
                Err(e) => {
                    &&& e == Error::NotFound
                    &&& !valid_id(restaurant_id, self.restaurants@.len())
                },
                Ok(v) => {
                    let ids = ids_matching(self.order_restaurant_keys(), restaurant_id);
                    &&& valid_id(restaurant_id, self.restaurants@.len())
                    &&& v@.len() == ids.len()
                    &&& forall|j: int|
                        0 <= j < ids.len() ==> #[trigger] v@[j] == self.order_data@[ids[j] - 1]
                },
            },
    {
        if restaurant_id < 1 || restaurant_id > self.restaurants.len() as u64 {
            return Err(Error::NotFound);
        }
        let ids = self.restaurant_order_data.get_ids(restaurant_id);
        let ghost gids = ids_matching(self.order_restaurant_keys(), restaurant_id);
        proof {
            assert(self.order_data@.len() == self.order_data.len());
            lemma_ids_matching_props(self.order_restaurant_keys(), restaurant_id);
        }
        let mut out: Vec<Order> = Vec::new();
        let n = ids.len();
        let mut i: usize = 0;
        while i < n
            invariant
                n == ids@.len(),
                0 <= i <= n,
                out@.len() == i,
                forall|j: int| 0 <= j < i ==> #[trigger] out@[j] == self.order_data@[ids@[j] - 1],
            decreases n - i,
        {
            proof {
                assert(ids@[i as int] == gids[i as int]);
            }
            let id = ids[i];
            let idx = (id - 1) as usize;
            out.push(self.order_data[idx].clone());
            i = i + 1;
        }
        Ok(out)
    }

    /// All orders a customer placed, in insertion order; `NotFound` when the
    /// customer itself is unregistered.
    #[verifier::loop_isolation(false)]
    pub fn get_order_from_customer(&self, customer_id: CustomerId) -> (r: Result<
        Vec<Order>,
        Error,
    >)
        requires
            self.wf(),
        ensures
            match r {
                Err(e) => {
                    &&& e == Error::NotFound
                    &&& !valid_id(customer_id, self.customers@.len())
                },
                Ok(v) => {
                    let ids = ids_matching(self.order_customer_keys(), customer_id);
                    &&& valid_id(customer_id, self.customers@.len())
                    &&& v@.len() == ids.len()
                    &&& forall|j: int|
                        0 <= j < ids.len() ==> #[trigger] v@[j] == self.order_data@[ids[j] - 1]
                },
            },
    {
        if customer_id < 1 || customer_id > self.customers.len() as u64 {
            return Err(Error::NotFound);
        }
        let ids = self.customer_order_data.get_ids(customer_id);
        let ghost gids = ids_matching(self.order_customer_keys(), customer_id);
        proof {
            assert(self.order_data@.len() == self.order_data.len());
            lemma_ids_matching_props(self.order_customer_keys(), customer_id);
        }
        let mut out: Vec<Order> = Vec::new();
        let n = ids.len();
        let mut i: usize = 0;
        while i < n
            invariant
                n == ids@.len(),
                0 <= i <= n,
                out@.len() == i,
                forall|j: int| 0 <= j < i ==> #[trigger] out@[j] == self.order_data@[ids@[j] - 1],
            decreases n - i,
        {
            proof {
                assert(ids@[i as int] == gids[i as int]);
            }
            let id = ids[i];
            let idx = (id - 1) as usize;
            out.push(self.order_data[idx].clone());
            i = i + 1;
        }
        Ok(out)
    }

    /// All foods a restaurant listed, in insertion order; `NotFound` when
    /// the restaurant itself is unregistered.
    #[verifier::loop_isolation(false)]
    pub fn get_food_from_restaurant(&self, restaurant_id: RestaurantId) -> (r: Result<
        Vec<Food>,
        Error,
    >)
        requires
            self.wf(),
        ensures
            match r {
                Err(e) => {
                    &&& e == Error::NotFound
                    &&& !valid_id(restaurant_id, self.restaurants@.len())
                },
                Ok(v) => {
                    let ids = ids_matching(self.food_owner_keys(), restaurant_id);
                    &&& valid_id(restaurant_id, self.restaurants@.len())
                    &&& v@.len() == ids.len()
                    &&& forall|j: int|
                        0 <= j < ids.len() ==> #[trigger] v@[j] == self.food_data@[ids[j] - 1]
                },
            },
    {
        if restaurant_id < 1 || restaurant_id > self.restaurants.len() as u64 {
            return Err(Error::NotFound);
        }
        let ids = self.restaurant_food_data.get_ids(restaurant_id);
        let ghost gids = ids_matching(self.food_owner_keys(), restaurant_id);
        proof {
            assert(self.food_data@.len() == self.food_data.len());
            lemma_ids_matching_props(self.food_owner_keys(), restaurant_id);
        }
        let mut out: Vec<Food> = Vec::new();
        let n = ids.len();
        let mut i: usize = 0;
        while i < n
            invariant
                n == ids@.len(),
                0 <= i <= n,
                out@.len() == i,
                forall|j: int| 0 <= j < i ==> #[trigger] out@[j] == self.food_data@[ids@[j] - 1],
            decreases n - i,
        {
            proof {
                assert(ids@[i as int] == gids[i as int]);
            }
            let id = ids[i];
            let idx = (id - 1) as usize;
            out.push(self.food_data[idx].clone());
            i = i + 1;
        }
        Ok(out)
    }

    /// All deliveries a restaurant dispatched, in insertion order;
    /// `NotFound` when the restaurant itself is unregistered.
    #[verifier::loop_isolation(false)]
    pub fn get_delivery_from_restaurant(&self, restaurant_id: RestaurantId) -> (r: Result<
        Vec<Delivery>,
        Error,
    >)
        requires
            self.wf(),
        ensures
            match r {
                Err(e) => {
                    &&& e == Error::NotFound
                    &&& !valid_id(restaurant_id, self.restaurants@.len())
                },
                Ok(v) => {
                    let ids = ids_matching(self.delivery_restaurant_keys(), restaurant_id);
                    &&& valid_id(restaurant_id, self.restaurants@.len())
                    &&& v@.len() == ids.len()
                    &&& forall|j: int|
                        0 <= j < ids.len() ==> #[trigger] v@[j] == self.delivery_data@[ids[j] - 1]
                },
            },
    {
        if restaurant_id < 1 || restaurant_id > self.restaurants.len() as u64 {
            return Err(Error::NotFound);
        }
        let ids = self.restaurant_delivery_data.get_ids(restaurant_id);
        let ghost gids = ids_matching(self.delivery_restaurant_keys(), restaurant_id);
        proof {
            assert(self.delivery_data@.len() == self.delivery_data.len());
            lemma_ids_matching_props(self.delivery_restaurant_keys(), restaurant_id);
        }
        let mut out: Vec<Delivery> = Vec::new();
        let n = ids.len();
        let mut i: usize = 0;
        while i < n
            invariant
                n == ids@.len(),
                0 <= i <= n,
                out@.len() == i,
                forall|j: int|
                    0 <= j < i ==> #[trigger] out@[j] == self.delivery_data@[ids@[j] - 1],
            decreases n - i,
        {
            proof {
                assert(ids@[i as int] == gids[i as int]);
            }
            let id = ids[i];
            let idx = (id - 1) as usize;
            out.push(self.delivery_data[idx].clone());
            i = i + 1;
        }
        Ok(out)
    }

    /// All deliveries recorded to a customer, in insertion order; `NotFound`
    /// when the customer itself is unregistered.
    #[verifier::loop_isolation(false)]
    pub fn get_delivery_from_customer(&self, customer_id: CustomerId) -> (r: Result<
        Vec<Delivery>,
        Error,
    >)
        requires
            self.wf(),
        ensures
            match r {
                Err(e) => {
                    &&& e == Error::NotFound
                    &&& !valid_id(customer_id, self.customers@.len())
                },
                Ok(v) => {
                    let ids = ids_matching(self.delivery_customer_keys(), customer_id);
                    &&& valid_id(customer_id, self.customers@.len())
                    &&& v@.len() == ids.len()
                    &&& forall|j: int|
                        0 <= j < ids.len() ==> #[trigger] v@[j] == self.delivery_data@[ids[j] - 1]
                },
            },
    {
        if customer_id < 1 || customer_id > self.customers.len() as u64 {
            return Err(Error::NotFound);
        }
        let ids = self.customer_delivery_data.get_ids(customer_id);
        let ghost gids = ids_matching(self.delivery_customer_keys(), customer_id);
        proof {
            assert(self.delivery_data@.len() == self.delivery_data.len());
            lemma_ids_matching_props(self.delivery_customer_keys(), customer_id);
        }
        let mut out: Vec<Delivery> = Vec::new();
        let n = ids.len();
        let mut i: usize = 0;
        while i < n
            invariant
                n == ids@.len(),
                0 <= i <= n,
                out@.len() == i,
                forall|j: int|
                    0 <= j < i ==> #[trigger] out@[j] == self.delivery_data@[ids@[j] - 1],
            decreases n - i,
        {
            proof {
                assert(ids@[i as int] == gids[i as int]);
            }
            let id = ids[i];
            let idx = (id - 1) as usize;
            out.push(self.delivery_data[idx].clone());
            i = i + 1;
        }
        Ok(out)
    }

    /// The deliveries recorded under a courier's identifier; `NotFound` when
    /// the courier itself is unregistered. Deliveries are recorded under the
    /// courier identifier they carry at creation, always 0, and the entry is
    /// never rewritten on pickup, so a registered courier's listing is empty.
    pub fn get_delivery_from_courier(&self, courier_id: CourierId) -> (r: Result<
        Vec<Delivery>,
        Error,
    >)
        requires
            self.wf(),
        ensures
            match r {
                Err(e) => {
                    &&& e == Error::NotFound
                    &&& !valid_id(courier_id, self.couriers@.len())
                },
                Ok(v) => {
                    let ids = index_seq(self.courier_delivery_data@, courier_id);
                    &&& valid_id(courier_id, self.couriers@.len())
                    &&& v@.len() == ids.len()
                    &&& forall|j: int|
                        0 <= j < ids.len() ==> #[trigger] v@[j] == self.delivery_data@[ids[j] - 1]
                },
            },
    {
        if courier_id < 1 || courier_id > self.couriers.len() as u64 {
            return Err(Error::NotFound);
        }
        let ids = self.courier_delivery_data.get_ids(courier_id);
        proof {
            assert(index_seq(self.courier_delivery_data@, courier_id) =~= Seq::<u64>::empty());
        }
        let out: Vec<Delivery> = Vec::new();
        Ok(out)
    }

    /// The orders with identifiers in `[from, to)`, `to` clamped at the live
    /// order counter; `NotFound` when the range asks for identifier 0, the
    /// only identifier never allocated (records are never deleted).
    #[verifier::loop_isolation(false)]
    pub fn get_order_all(&self, from: u64, to: u64) -> (r: Result<Vec<Order>, Error>)
        ensures
            ({
                let end = clamped_end(to, self.order_data@.len() as int + 1);
                match r {
                    Err(e) => {
                        &&& e == Error::NotFound
                        &&& from == 0 && from < end
                    },
                    Ok(v) => {
                        &&& !(from == 0 && from < end)
                        &&& v@.len() == range_len(from, end)
                        &&& forall|j: int|
                            0 <= j < v@.len() ==> #[trigger] v@[j] == self.order_data@[from + j
                                - 1]
                    },
                }
            }),
    {
        let len = self.order_data.len() as u64;
        if from == 0 && to >= 1 {
            return Err(Error::NotFound);
        }
        let ghost end = clamped_end(to, self.order_data@.len() as int + 1);
        let cnt: u64 = if from >= to || from > len {
            0
        } else if to - from <= len - from + 1 {
            to - from
        } else {
            len - from + 1
        };
        proof {
            assert(cnt == range_len(from, end));
        }
        let mut out: Vec<Order> = Vec::new();
        let mut j: u64 = 0;
        while j < cnt
            invariant
                0 <= j <= cnt,
                out@.len() == j,
                forall|k: int|
                    0 <= k < out@.len() ==> #[trigger] out@[k] == self.order_data@[from + k - 1],
            decreases cnt - j,
        {
            let idx = (from + j - 1) as usize;
            out.push(self.order_data[idx].clone());
            j = j + 1;
        }
        Ok(out)
    }

    /// The foods with identifiers in `[from, to)`, `to` clamped at the live
    /// food counter; `NotFound` when the range asks for identifier 0.
    #[verifier::loop_isolation(false)]
    pub fn get_food_all(&self, from: u64, to: u64) -> (r: Result<Vec<Food>, Error>)
        ensures
            ({
                let end = clamped_end(to, self.food_data@.len() as int + 1);
                match r {
                    Err(e) => {
                        &&& e == Error::NotFound
                        &&& from == 0 && from < end
                    },
                    Ok(v) => {
                        &&& !(from == 0 && from < end)
                        &&& v@.len() == range_len(from, end)
                        &&& forall|j: int|
                            0 <= j < v@.len() ==> #[trigger] v@[j] == self.food_data@[from + j - 1]
                    },
                }
            }),
    {
        let len = self.food_data.len() as u64;
        if from == 0 && to >= 1 {
            return Err(Error::NotFound);
        }
        let ghost end = clamped_end(to, self.food_data@.len() as int + 1);
        let cnt: u64 = if from >= to || from > len {
            0
        } else if to - from <= len - from + 1 {
            to - from
        } else {
            len - from + 1
        };
        proof {
            assert(cnt == range_len(from, end));
        }
        let mut out: Vec<Food> = Vec::new();
        let mut j: u64 = 0;
        while j < cnt
            invariant
                0 <= j <= cnt,
                out@.len() == j,
                forall|k: int|
                    0 <= k < out@.len() ==> #[trigger] out@[k] == self.food_data@[from + k - 1],
            decreases cnt - j,
        {
            let idx = (from + j - 1) as usize;
            out.push(self.food_data[idx].clone());
            j = j + 1;
        }
        Ok(out)
    }

    /// The deliveries with identifiers in `[from, to)`, `to` clamped at the
    /// live delivery counter; `NotFound` when the range asks for
    /// identifier 0.
    #[verifier::loop_isolation(false)]
    pub fn get_delivery_all(&self, from: u64, to: u64) -> (r: Result<Vec<Delivery>, Error>)
        ensures
            ({
                let end = clamped_end(to, self.delivery_data@.len() as int + 1);
                match r {
                    Err(e) => {
                        &&& e == Error::NotFound
                        &&& from == 0 && from < end
                    },
                    Ok(v) => {
                        &&& !(from == 0 && from < end)
                        &&& v@.len() == range_len(from, end)
                        &&& forall|j: int|
                            0 <= j < v@.len() ==> #[trigger] v@[j] == self.delivery_data@[from + j
                                - 1]
                    },
                }
            }),
    {
        let len = self.delivery_data.len() as u64;
        if from == 0 && to >= 1 {
            return Err(Error::NotFound);
        }
        let ghost end = clamped_end(to, self.delivery_data@.len() as int + 1);
        let cnt: u64 = if from >= to || from > len {
            0
        } else if to - from <= len - from + 1 {
            to - from
        } else {
            len - from + 1
        };
        proof {
            assert(cnt == range_len(from, end));
        }
        let mut out: Vec<Delivery> = Vec::new();
        let mut j: u64 = 0;
        while j < cnt
            invariant
                0 <= j <= cnt,
                out@.len() == j,
                forall|k: int|
                    0 <= k < out@.len() ==> #[trigger] out@[k] == self.delivery_data@[from + k - 1],
            decreases cnt - j,
        {
            let idx = (from + j - 1) as usize;
            out.push(self.delivery_data[idx].clone());
            j = j + 1;
        }
        Ok(out)
    }

    /// The restaurants with identifiers in `[from, to)`, `to` clamped at the
    /// live restaurant counter; `NotFound` when the range asks for
    /// identifier 0.
    #[verifier::loop_isolation(false)]
    pub fn get_restaurant_all(&self, from: u64, to: u64) -> (r: Result<Vec<Restaurant>, Error>)
        ensures
            ({
                let end = clamped_end(to, self.restaurants@.len() as int + 1);
                match r {
                    Err(e) => {
                        &&& e == Error::NotFound
                        &&& from == 0 && from < end
                    },
                    Ok(v) => {
                        &&& !(from == 0 && from < end)
                        &&& v@.len() == range_len(from, end)
                        &&& forall|j: int|
                            0 <= j < v@.len() ==> #[trigger] v@[j] == self.restaurants@[from + j
                                - 1]
                    },
                }
            }),
    {
        let len = self.restaurants.len() as u64;
        if from == 0 && to >= 1 {
            return Err(Error::NotFound);
        }
        let ghost end = clamped_end(to, self.restaurants@.len() as int + 1);
        let cnt: u64 = if from >= to || from > len {
            0
        } else if to - from <= len - from + 1 {
            to - from
        } else {
            len - from + 1
        };
        proof {
            assert(cnt == range_len(from, end));
        }
        let mut out: Vec<Restaurant> = Vec::new();
        let mut j: u64 = 0;
        while j < cnt
            invariant
                0 <= j <= cnt,
                out@.len() == j,
                forall|k: int|
                    0 <= k < out@.len() ==> #[trigger] out@[k] == self.restaurants@[from + k - 1],
            decreases cnt - j,
        {
            let idx = (from + j - 1) as usize;
            out.push(self.restaurants[idx].clone());
            j = j + 1;
        }
        Ok(out)
    }
}

} // verus!
