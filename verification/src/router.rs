//! The route table: which HTTP method and path reach which handler, and how
//! the `:id` path parameter is read.
//!
//! Creation paths carry a trailing slash (`/api/v1/users/`), collection and
//! single-item paths do not; the table keeps this asymmetry on purpose, as it
//! is part of the external contract. A path whose id segment is not a decimal
//! `u64` numeral is reported as a malformed id; a method or path outside the
//! table, or a path with more segments than the table knows, matches nothing.

use vstd::prelude::*;
use crate::numerals::{all_digits, dec_val, parse_u64};

verus! {

/// The HTTP methods the table distinguishes; anything else matches no route.
#[derive(Clone, Copy, PartialEq, Eq, Structural, Debug)]
pub enum Method {
    Get,
    Post,
    Put,
    Delete,
    Other,
}

/// The four resource kinds the gateway serves.
#[derive(Clone, Copy, PartialEq, Eq, Structural, Debug)]
pub enum ResourceKind {
    Users,
    Tickets,
    TicketTypes,
    TicketStatuses,
}

/// A matched route: the handler to run, with the id read from the path where
/// the route addresses a single entity.
#[derive(Clone, Copy, PartialEq, Eq, Structural, Debug)]
pub enum Route {
    Root,
    Healthcheck,
    CreateUser,
    ListUsers,
    GetUser(u64),
    UpdateUser(u64),
    DeleteUser(u64),
    CreateTicket,
    ListTickets,
    GetTicket(u64),
    UpdateTicket(u64),
    DeleteTicket(u64),
    CreateTicketType,
    ListTicketTypes,
    GetTicketType(u64),
    UpdateTicketType(u64),
    DeleteTicketType(u64),
    CreateTicketStatus,
    ListTicketStatuses,
    GetTicketStatus(u64),
    UpdateTicketStatus(u64),
    DeleteTicketStatus(u64),
}

/// Whether a route creates an entity.
pub open spec fn is_create(r: Route) -> bool {
    r == Route::CreateUser || r == Route::CreateTicket || r == Route::CreateTicketType
        || r == Route::CreateTicketStatus
}

impl Route {
    /// The status code of this route's successful answer: a creation answers
    /// 201, everything else 200.
    pub fn success_status(&self) -> (r: u16)
        ensures
            r == (if is_create(*self) {
                201u16
            } else {
                200u16
            }),
    {
        match self {
            Route::CreateUser => 201,
            Route::CreateTicket => 201,
            Route::CreateTicketType => 201,
            Route::CreateTicketStatus => 201,
            _ => 200,
        }
    }
}

/// Why a request matched no route.
#[derive(Clone, Copy, PartialEq, Eq, Structural, Debug)]
pub enum RouteError {
    /// No row of the table has this method and path.
    UnknownPath,
    /// The path names a single entity, but its id segment is not a decimal
    /// `u64` numeral.
    MalformedId,
}

/// The creation route of a kind.
pub open spec fn create_route(kind: ResourceKind) -> Route {
    match kind {
        ResourceKind::Users => Route::CreateUser,
        ResourceKind::Tickets => Route::CreateTicket,
        ResourceKind::TicketTypes => Route::CreateTicketType,
        ResourceKind::TicketStatuses => Route::CreateTicketStatus,
    }
}

/// The single-entity fetch route of a kind.
pub open spec fn get_route(kind: ResourceKind, id: u64) -> Route {
    match kind {
        ResourceKind::Users => Route::GetUser(id),
        ResourceKind::Tickets => Route::GetTicket(id),
        ResourceKind::TicketTypes => Route::GetTicketType(id),
        ResourceKind::TicketStatuses => Route::GetTicketStatus(id),
    }
}

/// The update route of a kind.
pub open spec fn update_route(kind: ResourceKind, id: u64) -> Route {
    match kind {
        ResourceKind::Users => Route::UpdateUser(id),
        ResourceKind::Tickets => Route::UpdateTicket(id),
        ResourceKind::TicketTypes => Route::UpdateTicketType(id),
        ResourceKind::TicketStatuses => Route::UpdateTicketStatus(id),
    }
}

/// The delete route of a kind.
pub open spec fn delete_route(kind: ResourceKind, id: u64) -> Route {
    match kind {
        ResourceKind::Users => Route::DeleteUser(id),
        ResourceKind::Tickets => Route::DeleteTicket(id),
        ResourceKind::TicketTypes => Route::DeleteTicketType(id),
        ResourceKind::TicketStatuses => Route::DeleteTicketStatus(id),
    }
}

/// The list route of a kind.
pub open spec fn list_route(kind: ResourceKind) -> Route {
    match kind {
        ResourceKind::Users => Route::ListUsers,
        ResourceKind::Tickets => Route::ListTickets,
        ResourceKind::TicketTypes => Route::ListTicketTypes,
        ResourceKind::TicketStatuses => Route::ListTicketStatuses,
    }
}

/// Whether `pre` is a prefix of `p`.
pub open spec fn is_prefix(p: Seq<char>, pre: Seq<char>) -> bool {
    pre.len() <= p.len() && p.subrange(0, pre.len() as int) == pre
}

/// What comes of what follows a kind's creation prefix: nothing (the creation
/// path itself, POST only), a well-formed id (GET, PUT or DELETE on one
/// entity), a lone malformed id segment, or a deeper path that matches
/// nothing.
pub open spec fn spec_id_tail(m: Method, kind: ResourceKind, rest: Seq<char>) -> Result<
    Route,
    RouteError,
> {
    if rest.len() == 0 {
        if m == Method::Post {
            Ok(create_route(kind))
        } else {
            Err(RouteError::UnknownPath)
        }
    } else if all_digits(rest) && dec_val(rest) <= u64::MAX as nat {
        match m {
            Method::Get => Ok(get_route(kind, dec_val(rest) as u64)),
            Method::Put => Ok(update_route(kind, dec_val(rest) as u64)),
            Method::Delete => Ok(delete_route(kind, dec_val(rest) as u64)),
            _ => Err(RouteError::UnknownPath),
        }
    } else if rest.contains('/') {
        Err(RouteError::UnknownPath)
    } else {
        Err(RouteError::MalformedId)
    }
}

/// The route table: what a method and path match.
pub open spec fn spec_route(m: Method, p: Seq<char>) -> Result<Route, RouteError> {
    if p == "/"@ {
        if m == Method::Get {
            Ok(Route::Root)
        } else {
            Err(RouteError::UnknownPath)
        }
    } else if p == "/healthcheck"@ {
        if m == Method::Get {
            Ok(Route::Healthcheck)
        } else {
            Err(RouteError::UnknownPath)
        }
    } else if p == "/api/v1/users"@ {
        if m == Method::Get {
            Ok(Route::ListUsers)
        } else {
            Err(RouteError::UnknownPath)
        }
    } else if is_prefix(p, "/api/v1/users/"@) {
        spec_id_tail(m, ResourceKind::Users, p.skip("/api/v1/users/"@.len() as int))
    } else if p == "/api/v1/tickets"@ {
        if m == Method::Get {
            Ok(Route::ListTickets)
        } else {
            Err(RouteError::UnknownPath)
        }
    } else if is_prefix(p, "/api/v1/tickets/"@) {
        spec_id_tail(m, ResourceKind::Tickets, p.skip("/api/v1/tickets/"@.len() as int))
    } else if p == "/api/v1/ticket_types"@ {
        if m == Method::Get {
            Ok(Route::ListTicketTypes)
        } else {
            Err(RouteError::UnknownPath)
        }
    } else if is_prefix(p, "/api/v1/ticket_types/"@) {
        spec_id_tail(m, ResourceKind::TicketTypes, p.skip("/api/v1/ticket_types/"@.len() as int))
    } else if p == "/api/v1/ticket_statuses"@ {
        if m == Method::Get {
            Ok(Route::ListTicketStatuses)
        } else {
            Err(RouteError::UnknownPath)
        }
    } else if is_prefix(p, "/api/v1/ticket_statuses/"@) {
        spec_id_tail(
            m,
            ResourceKind::TicketStatuses,
            p.skip("/api/v1/ticket_statuses/"@.len() as int),
        )
    } else {
        Err(RouteError::UnknownPath)
    }
}

/// Whether two texts hold the same characters.
fn str_eq(a: &str, b: &str) -> (r: bool)
    ensures
        r == (a@ == b@),
{
    let na = a.unicode_len();
    let nb = b.unicode_len();
    if na != nb {
        return false;
    }
    let mut i: usize = 0;
    while i < na
        invariant
            na == a@.len(),
            na == b@.len(),
            i <= na,
            forall|j: int| 0 <= j < i ==> a@[j] == b@[j],
        decreases na - i,
    {
        if a.get_char(i) != b.get_char(i) {
            return false;
        }
        i = i + 1;
    }
    proof {
        assert(a@ =~= b@);
    }
    true
}

/// Whether `pre`'s characters open `s`.
fn has_prefix(s: &str, pre: &str) -> (r: bool)
    ensures
        r == is_prefix(s@, pre@),
{
    let n = s.unicode_len();
    let np = pre.unicode_len();
    if np > n {
        return false;
    }
    let mut i: usize = 0;
    while i < np
        invariant
            n == s@.len(),
            np == pre@.len(),
            np <= n,
            i <= np,
            forall|j: int| 0 <= j < i ==> s@[j] == pre@[j],
        decreases np - i,
    {
        if s.get_char(i) != pre.get_char(i) {
            proof {
                assert(s@.subrange(0, np as int)[i as int] != pre@[i as int]);
            }
            return false;
        }
        i = i + 1;
    }
    proof {
        assert(s@.subrange(0, np as int) =~= pre@);
    }
    true
}

/// Whether the text holds a slash.
fn contains_slash(s: &str) -> (r: bool)
    ensures
        r == s@.contains('/'),
{
    let n = s.unicode_len();
    let mut i: usize = 0;
    while i < n
        invariant
            n == s@.len(),
            i <= n,
            forall|j: int| 0 <= j < i ==> s@[j] != '/',
        decreases n - i,
    {
        if s.get_char(i) == '/' {
            return true;
        }
        i = i + 1;
    }
    false
}

/// Matches what follows a kind's creation prefix.
fn route_id_tail(m: Method, kind: ResourceKind, rest: &str) -> (r: Result<Route, RouteError>)
    ensures
        r == spec_id_tail(m, kind, rest@),
{
    if rest.unicode_len() == 0 {
        if m == Method::Post {
            return Ok(
                match kind {
                    ResourceKind::Users => Route::CreateUser,
                    ResourceKind::Tickets => Route::CreateTicket,
                    ResourceKind::TicketTypes => Route::CreateTicketType,
                    ResourceKind::TicketStatuses => Route::CreateTicketStatus,
                },
            );
        }
        return Err(RouteError::UnknownPath);
    }
    match parse_u64(rest) {
        Some(id) => match m {
            Method::Get => Ok(
                match kind {
                    ResourceKind::Users => Route::GetUser(id),
                    ResourceKind::Tickets => Route::GetTicket(id),
                    ResourceKind::TicketTypes => Route::GetTicketType(id),
                    ResourceKind::TicketStatuses => Route::GetTicketStatus(id),
                },
            ),
            Method::Put => Ok(
                match kind {
                    ResourceKind::Users => Route::UpdateUser(id),
                    ResourceKind::Tickets => Route::UpdateTicket(id),
                    ResourceKind::TicketTypes => Route::UpdateTicketType(id),
                    ResourceKind::TicketStatuses => Route::UpdateTicketStatus(id),
                },
            ),
            Method::Delete => Ok(
                match kind {
                    ResourceKind::Users => Route::DeleteUser(id),
                    ResourceKind::Tickets => Route::DeleteTicket(id),
                    ResourceKind::TicketTypes => Route::DeleteTicketType(id),
                    ResourceKind::TicketStatuses => Route::DeleteTicketStatus(id),
                },
            ),
            _ => Err(RouteError::UnknownPath),
        },
        None => {
            if contains_slash(rest) {
                Err(RouteError::UnknownPath)
            } else {
                Err(RouteError::MalformedId)
            }
        },
    }
}

/// Matches a method and path against the route table.
pub fn match_route(m: Method, path: &str) -> (r: Result<Route, RouteError>)
    ensures
        r == spec_route(m, path@),
{
    if str_eq(path, "/") {
        if m == Method::Get {
            Ok(Route::Root)
        } else {
            Err(RouteError::UnknownPath)
        }
    } else if str_eq(path, "/healthcheck") {
        if m == Method::Get {
            Ok(Route::Healthcheck)
        } else {
            Err(RouteError::UnknownPath)
        }
    } else if str_eq(path, "/api/v1/users") {
        if m == Method::Get {
            Ok(Route::ListUsers)
        } else {
            Err(RouteError::UnknownPath)
        }
    } else if has_prefix(path, "/api/v1/users/") {
        let pre = "/api/v1/users/";
        let rest = path.substring_char(pre.unicode_len(), path.unicode_len());
        proof {
            assert(rest@ =~= path@.skip(pre@.len() as int));
        }
        route_id_tail(m, ResourceKind::Users, rest)
    } else if str_eq(path, "/api/v1/tickets") {
        if m == Method::Get {
            Ok(Route::ListTickets)
        } else {
            Err(RouteError::UnknownPath)
        }
    } else if has_prefix(path, "/api/v1/tickets/") {
        let pre = "/api/v1/tickets/";
        let rest = path.substring_char(pre.unicode_len(), path.unicode_len());
        proof {
            assert(rest@ =~= path@.skip(pre@.len() as int));
        }
        route_id_tail(m, ResourceKind::Tickets, rest)
    } else if str_eq(path, "/api/v1/ticket_types") {
        if m == Method::Get {
            Ok(Route::ListTicketTypes)
        } else {
            Err(RouteError::UnknownPath)
        }
    } else if has_prefix(path, "/api/v1/ticket_types/") {
        let pre = "/api/v1/ticket_types/";
        let rest = path.substring_char(pre.unicode_len(), path.unicode_len());
        proof {
            assert(rest@ =~= path@.skip(pre@.len() as int));
        }
        route_id_tail(m, ResourceKind::TicketTypes, rest)
    } else if str_eq(path, "/api/v1/ticket_statuses") {
        if m == Method::Get {
            Ok(Route::ListTicketStatuses)
        } else {
            Err(RouteError::UnknownPath)
        }
    } else if has_prefix(path, "/api/v1/ticket_statuses/") {
        let pre = "/api/v1/ticket_statuses/";
        let rest = path.substring_char(pre.unicode_len(), path.unicode_len());
        proof {
            assert(rest@ =~= path@.skip(pre@.len() as int));
        }
        route_id_tail(m, ResourceKind::TicketStatuses, rest)
    } else {
        Err(RouteError::UnknownPath)
    }
}

} // verus!
