//! Domain entities as the store hands them back: plain values, one struct
//! per row shape the session reads.

use vstd::prelude::*;

verus! {

/// One package row of a list view.
#[derive(Debug, Clone, Copy, PartialEq, Eq, Structural)]
pub struct Package {
    pub tracking_number: i64,
    pub weight_grams: u64,
}

/// One shipping guide row of a list view.
#[derive(Debug, Clone, Copy, PartialEq, Eq, Structural)]
pub struct ShippingGuide {
    pub guide_id: i64,
    pub package_count: i64,
}

/// The payment committed for a shipping guide.
#[derive(Debug, Clone, Copy, PartialEq, Eq, Structural)]
pub struct Payment {
    pub payment_id: i64,
    pub amount_cents: u64,
}

/// A locker joined with its country and warehouse, plus the derived count
/// and weight of the packages it holds.
#[derive(Debug, Clone)]
pub struct Locker {
    pub locker_id: i64,
    /// Username of the client the locker belongs to.
    pub owner: String,
    pub country_id: i32,
    pub warehouse_id: i32,
    pub package_count: i64,
    pub package_weight_grams: u64,
}

} // verus!
