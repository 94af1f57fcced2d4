//! Escrow settlement: how an accepted order's escrowed price is split
//! between the courier and the restaurant. The transfers themselves are the
//! runtime's transfer primitive; `confirm_delivery` returns a `Settlement`
//! naming the two payouts, and the runtime reports each transfer's outcome.

use vstd::prelude::*;
use crate::types::AccountId;
use crate::types::Balance;

verus! {

/// The courier's cut: a tenth of the escrowed price, rounded down.
pub open spec fn courier_share(price: int) -> int {
    price / 10
}

/// The restaurant's cut: whatever the courier's cut leaves of the price, so
/// that the two shares always sum to the price exactly.
pub open spec fn restaurant_share(price: int) -> int {
    price - price / 10
}

/// Law: for every non-negative price the two shares are non-negative and sum
/// to the price exactly, whatever the rounding of the courier's tenth.
pub proof fn lemma_escrow_split_exact(price: int)
    requires
        price >= 0,
    ensures
        courier_share(price) + restaurant_share(price) == price,
        0 <= courier_share(price) <= price,
        0 <= restaurant_share(price) <= price,
{
    assert(0 <= price / 10 <= price) by (nonlinear_arith)
        requires
            price >= 0,
    ;
}

/// The two payouts owed once a delivery is accepted: courier first, then
/// restaurant, as two independent transfers.
pub struct Settlement {
    pub courier_account: AccountId,
    pub courier_amount: Balance,
    pub restaurant_account: AccountId,
    pub restaurant_amount: Balance,
}

/// The overall result a settlement reports: the conjunction of the two
/// transfer outcomes. A failed leg does not roll the accepted status back.
pub fn settlement_result(courier_ok: bool, restaurant_ok: bool) -> (r: bool)
    ensures
        r == (courier_ok && restaurant_ok),
{
    courier_ok && restaurant_ok
}

} // verus!
