//! Session core of a terminal client for a logistics platform.
//!
//! The crate models the session aggregate of the client — screens, popups,
//! input buffers, role data and list views — and verifies the navigation
//! engine and the event dispatcher that mutate it.  Terminal drawing, key
//! decoding and the store / route-service I/O live outside; they hand the
//! session plain values and take plain values back.

use vstd::prelude::*;

pub mod app;
pub mod common;
pub mod db_obj;
pub mod events;
pub mod filters;
pub mod graph;
pub mod update;

verus! {

/// A locker may hold at most this many packages before an order into it is
/// refused.
pub const MAX_LOCKER_PACKAGES: i64 = 5;

/// A locker may hold at most this total weight, in grams, before an order
/// into it is refused.
pub const MAX_LOCKER_WEIGHT_GRAMS: u64 = 500_000;

} // verus!
