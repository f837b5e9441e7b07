//! Plain order records for the limit-order-book bindings.

use vstd::prelude::*;

verus! {

/// A resting limit order: integer identifiers, side, size, price level and
/// time of arrival.
#[derive(Clone, Copy, Debug)]
pub struct PyOrder {
    /// Unique order identifier.
    pub order_id: u64,
    /// True for a buy order, false for a sell order.
    pub is_buy: bool,
    /// Number of shares.
    pub shares: u64,
    /// Limit price level.
    pub limit: u64,
    /// Arrival timestamp.
    pub timestamp: u64,
}

impl PyOrder {
    /// Builds an order from its five fields.
    pub fn new(order_id: u64, is_buy: bool, shares: u64, limit: u64, timestamp: u64) -> (r:
        PyOrder)
        ensures
            r.order_id == order_id,
            r.is_buy == is_buy,
            r.shares == shares,
            r.limit == limit,
            r.timestamp == timestamp,
    {
        PyOrder { order_id, is_buy, shares, limit, timestamp }
    }
}

} // verus!
