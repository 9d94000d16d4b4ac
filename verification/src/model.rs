//! Entity types of the four resource kinds and the request payloads that
//! create or update them.

use vstd::prelude::*;

verus! {

/// A registered user. `id` is assigned by the user store on creation.
pub struct User {
    pub id: u64,
    pub name: String,
}

/// A category a ticket can belong to. `id` is assigned by its store.
pub struct TicketType {
    pub id: u64,
    pub name: String,
}

/// A workflow state a ticket can be in. `id` is assigned by its store.
pub struct TicketStatus {
    pub id: u64,
    pub name: String,
}

/// A ticket. `id` is assigned by the ticket store; the four reference fields
/// name entities of the other kinds (no referential check is made here).
pub struct Ticket {
    pub id: u64,
    pub title: String,
    pub description: String,
    pub type_id: u64,
    pub status_id: u64,
    pub author_id: u64,
    pub assignee_id: u64,
}

impl Clone for User {
    fn clone(&self) -> (r: Self)
        ensures
            r == *self,
    {
        User { id: self.id, name: self.name.clone() }
    }
}

impl Clone for TicketType {
    fn clone(&self) -> (r: Self)
        ensures
            r == *self,
    {
        TicketType { id: self.id, name: self.name.clone() }
    }
}

impl Clone for TicketStatus {
    fn clone(&self) -> (r: Self)
        ensures
            r == *self,
    {
        TicketStatus { id: self.id, name: self.name.clone() }
    }
}

impl Clone for Ticket {
    fn clone(&self) -> (r: Self)
        ensures
            r == *self,
    {
        Ticket {
            id: self.id,
            title: self.title.clone(),
            description: self.description.clone(),
            type_id: self.type_id,
            status_id: self.status_id,
            author_id: self.author_id,
            assignee_id: self.assignee_id,
        }
    }
}

/// The fields of a ticket apart from its id, as handed to the ticket store
/// on insertion; the store assigns the id.
pub struct TicketFields {
    pub title: String,
    pub description: String,
    pub type_id: u64,
    pub status_id: u64,
    pub author_id: u64,
    pub assignee_id: u64,
}

impl TicketFields {
    /// The ticket these fields make under the given id.
    pub open spec fn with_id(self, id: u64) -> Ticket {
        Ticket {
            id,
            title: self.title,
            description: self.description,
            type_id: self.type_id,
            status_id: self.status_id,
            author_id: self.author_id,
            assignee_id: self.assignee_id,
        }
    }
}

/// Payload of a user creation request.
pub struct CreateUser {
    pub name: String,
}

/// Payload of a user update request (full replacement).
pub struct UpdateUser {
    pub name: String,
}

/// Payload of a ticket-type creation request.
pub struct CreateTicketType {
    pub name: String,
}

/// Payload of a ticket-type update request (full replacement).
pub struct UpdateTicketType {
    pub name: String,
}

/// Payload of a ticket-status creation request.
pub struct CreateTicketStatus {
    pub name: String,
}

/// Payload of a ticket-status update request (full replacement).
pub struct UpdateTicketStatus {
    pub name: String,
}

/// Payload of a ticket creation request. On the wire `assignee_id` is
/// optional, but a valid ticket needs one: a payload without it is rejected.
pub struct CreateTicket {
    pub title: String,
    pub description: String,
    pub type_id: u64,
    pub status_id: u64,
    pub author_id: u64,
    pub assignee_id: Option<u64>,
}

/// Payload of a ticket update request. Every field is optional: a field left
/// out keeps its stored value (patch semantics).
pub struct UpdateTicket {
    pub title: Option<String>,
    pub description: Option<String>,
    pub type_id: Option<u64>,
    pub status_id: Option<u64>,
    pub author_id: Option<u64>,
    pub assignee_id: Option<u64>,
}

impl CreateUser {
    /// A creation payload is valid when the required name is non-empty.
    pub open spec fn valid(&self) -> bool {
        self.name@.len() > 0
    }
}

impl CreateTicketType {
    /// A creation payload is valid when the required name is non-empty.
    pub open spec fn valid(&self) -> bool {
        self.name@.len() > 0
    }
}

impl CreateTicketStatus {
    /// A creation payload is valid when the required name is non-empty.
    pub open spec fn valid(&self) -> bool {
        self.name@.len() > 0
    }
}

impl CreateTicket {
    /// A creation payload is valid when the required title is non-empty and
    /// an assignee was given. The description may be empty.
    pub open spec fn valid(&self) -> bool {
        self.title@.len() > 0 && self.assignee_id is Some
    }
}

impl UpdateTicket {
    /// The entity a patch produces: each given field replaces the stored one,
    /// each omitted field keeps it; the id is never touched.
    pub open spec fn merged(self, cur: Ticket) -> Ticket {
        Ticket {
            id: cur.id,
            title: match self.title {
                Some(t) => t,
                None => cur.title,
            },
            description: match self.description {
                Some(d) => d,
                None => cur.description,
            },
            type_id: match self.type_id {
                Some(t) => t,
                None => cur.type_id,
            },
            status_id: match self.status_id {
                Some(s) => s,
                None => cur.status_id,
            },
            author_id: match self.author_id {
                Some(a) => a,
                None => cur.author_id,
            },
            assignee_id: match self.assignee_id {
                Some(a) => a,
                None => cur.assignee_id,
            },
        }
    }
}

/// A patch that gives only a new title changes only the title: the id and
/// every other field of the merged ticket keep their stored values.
pub proof fn lemma_patch_title_only(cur: Ticket, p: UpdateTicket)
    requires
        p.title is Some,
        p.description is None,
        p.type_id is None,
        p.status_id is None,
        p.author_id is None,
        p.assignee_id is None,
    ensures
        p.merged(cur).title == p.title.unwrap(),
        p.merged(cur).id == cur.id,
        p.merged(cur).description == cur.description,
        p.merged(cur).type_id == cur.type_id,
        p.merged(cur).status_id == cur.status_id,
        p.merged(cur).author_id == cur.author_id,
        p.merged(cur).assignee_id == cur.assignee_id,
{
}

} // verus!
