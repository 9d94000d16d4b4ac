//! A small CRUD API gateway for four resource kinds (users, tickets, ticket
//! types, ticket statuses), backed by in-memory resource stores.
//!
//! The library holds everything that can be stated and proved: the entity
//! model, the per-kind stores with their id-uniqueness invariants, the
//! resource handlers with their exact request/response contracts, and the
//! router that maps an HTTP method and path to a handler. The HTTP plumbing
//! (listening, JSON encoding and decoding) lives outside the library.

pub mod api;
pub mod laws;
pub mod lookup;
pub mod model;
pub mod numerals;
pub mod router;
pub mod store;
pub mod ticket_statuses;
pub mod ticket_types;
pub mod tickets;
pub mod users;

use vstd::prelude::*;

verus! {

/// Banner served at the root path.
pub fn root_banner() -> (r: &'static str)
    ensures
        r@ == "Agilus"@,
{
    "Agilus"
}

/// Body of the liveness probe.
pub fn healthcheck_body() -> (r: &'static str)
    ensures
        r@ == "OK"@,
{
    "OK"
}

} // verus!
