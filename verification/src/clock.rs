//! Read-time clock: the one place the library reads the wall clock.  Every
//! flow that derives a cook status takes the reading as an argument, so the
//! derivation is verified for every possible time.

use vstd::prelude::*;
use crate::models::{spec_order_response, Order, OrderResponse};

verus! {

/// Relies on chrono's `Utc::now` and `DateTime::timestamp`: the current
/// wall-clock time in whole seconds since the Unix epoch.  The source
/// refuses pre-epoch clocks, so the reading is non-negative.
#[verifier::external_body]
fn now_timestamp() -> (r: i64)
    ensures
        0 <= r,
{
    chrono::Utc::now().timestamp()
}

/// Response of one order read at the clock's current time.  The status is
/// derived anew on every call, never cached or stored.
pub fn order_response_now(order: &Order) -> (r: OrderResponse)
    ensures
        exists|now: int| 0 <= now && r == spec_order_response(*order, now),
{
    let now = now_timestamp();
    let r = order.to_response(now);
    proof {
        assert(r == spec_order_response(*order, now as int));
    }
    r
}

} // verus!
