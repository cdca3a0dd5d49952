//! The cross-service route fetch: plain models of what the route service
//! and the branch rows report, the query URL built through the url crate,
//! and the branch validation of the flow.
//!
//! The HTTP round trip itself is blocking I/O and lives outside; the event
//! loop builds the URL here, performs the request, and hands the decoded
//! body to `App::commit_route`.

use vstd::prelude::*;
use crate::common::GetDBErr;

verus! {

/// One stop of a route, as the route service reports it.
#[derive(Debug, Clone, PartialEq)]
pub struct WarehouseNode {
    pub id: i32,
    pub building: String,
    pub city: String,
    pub country: String,
    pub region: String,
}

/// The body of a successful route service answer: a distance and the
/// stops along the way.
#[derive(Debug, Clone, PartialEq)]
pub struct RouteResponse {
    pub distance: i64,
    pub nodes: Vec<WarehouseNode>,
}

/// A branch row as the route flow reads it.
#[derive(Debug, Clone, Copy, PartialEq, Eq, Structural)]
pub struct BranchInfo {
    pub branch_id: i32,
    pub warehouse_id: i32,
    /// Connector distance from the branch to its own warehouse.
    pub route_distance: i64,
}

/// The branch pair a route is asked for: the administrator's home branch
/// and the typed destination.
#[derive(Debug, Clone, Copy, PartialEq, Eq, Structural)]
pub struct RouteQuery {
    pub from_branch: i32,
    pub to_branch: i32,
}

/// The query URL the url crate writes for a base URL and a warehouse
/// pair.
pub uninterp spec fn route_url_of(base: Seq<char>, from_id: int, to_id: int) -> Seq<char>;

/// Whether url's `Url::parse` accepts a string; a function of the string
/// alone.
pub uninterp spec fn url_parses(base: Seq<char>) -> bool;

/// Relies on url's `Url::parse`, `Url::query_pairs_mut` and the
/// serializer's `append_pair`: appending the `fromId` and `toId` pairs to
/// a base URL depends on the arguments alone, and fails exactly when the
/// base itself does not parse as a URL.
#[verifier::external_body]
fn append_route_pairs(base: &str, from_id: i32, to_id: i32) -> (r: Option<String>)
    ensures
        r is Some <==> url_parses(base@),
        r matches Some(u) ==> u@ == route_url_of(base@, from_id as int, to_id as int),
{
    match url::Url::parse(base) {
        Ok(mut u) => {
            u.query_pairs_mut()
                .append_pair("fromId", &from_id.to_string())
                .append_pair("toId", &to_id.to_string());
            Some(u.as_str().to_owned())
        },
        Err(_) => None,
    }
}

/// The URL to ask the route service for the route between two warehouses;
/// `None` exactly when the configured base URL does not parse.
pub fn route_request_url(base: &str, from_warehouse: i32, to_warehouse: i32) -> (r: Option<String>)
    ensures
        r is Some <==> url_parses(base@),
        r matches Some(u) ==> u@ == route_url_of(base@, from_warehouse as int, to_warehouse as int),
{
    append_route_pairs(base, from_warehouse, to_warehouse)
}

/// Resolves the branch row a branch id named.  A missing row is the
/// domain failure "invalid branch" — a recoverable rejection, never a
/// commit of partial data.
pub fn validate_branch_lookup(found: Option<BranchInfo>) -> (r: Result<BranchInfo, GetDBErr>)
    ensures
        match found {
            Option::Some(b) => r == Ok::<BranchInfo, GetDBErr>(b),
            Option::None => r == Err::<BranchInfo, GetDBErr>(GetDBErr::InvalidUserBranch),
        },
{
    match found {
        Some(b) => Ok(b),
        None => Err(GetDBErr::InvalidUserBranch),
    }
}

} // verus!
