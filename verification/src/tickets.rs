//! Handlers for the ticket resource.

use vstd::prelude::*;
use crate::api::ApiError;
use crate::model::{Ticket, TicketFields, CreateTicket, UpdateTicket};
use crate::numerals::{dec_digits, u64_to_string};
use crate::store::TicketStore;

verus! {

/// Creates a ticket from a valid payload, under a fresh id the store assigns;
/// answered with 201. A payload with an empty title, or one that leaves the
/// assignee out, is refused as unprocessable; a store failure is reported as
/// internal. A refused request leaves the store as it was.
pub fn create_ticket(store: &mut TicketStore, payload: CreateTicket) -> (r: Result<
    Ticket,
    ApiError,
>)
    ensures
        r is Ok <==> payload.valid() && old(store).next() < u64::MAX,
        r matches Ok(t) ==> t == (Ticket {
            id: old(store).next(),
            title: payload.title,
            description: payload.description,
            type_id: payload.type_id,
            status_id: payload.status_id,
            author_id: payload.author_id,
            assignee_id: payload.assignee_id.unwrap(),
        }) && final(store).entities() == old(store).entities().push(t) && final(store).next()
            == old(store).next() + 1,
        !payload.valid() ==> r == Err::<Ticket, ApiError>(ApiError::Unprocessable),
        payload.valid() && old(store).next() == u64::MAX ==> r == Err::<Ticket, ApiError>(
            ApiError::Internal,
        ),
        r is Err ==> *final(store) == *old(store),
        old(store).wf_view(),
        final(store).wf_view(),
{
    store.observe();
    let assignee_id = match payload.assignee_id {
        Some(a) => a,
        None => {
            return Err(ApiError::Unprocessable);
        },
    };
    if payload.title.as_str().unicode_len() == 0 {
        return Err(ApiError::Unprocessable);
    }
    let fields = TicketFields {
        title: payload.title,
        description: payload.description,
        type_id: payload.type_id,
        status_id: payload.status_id,
        author_id: payload.author_id,
        assignee_id,
    };
    match store.insert(fields) {
        Ok(t) => Ok(t),
        Err(_) => Err(ApiError::Internal),
    }
}

/// Lists every ticket, in insertion order; answered with 200. An empty store
/// yields an empty list.
pub fn list_tickets(store: &TicketStore) -> (r: Vec<Ticket>)
    ensures
        r@ == store.entities(),
        store.wf_view(),
{
    store.list_all()
}

/// Fetches the ticket carrying `id`; answered with 200, or 404 when no ticket
/// carries it.
pub fn get_ticket(store: &TicketStore, id: u64) -> (r: Result<Ticket, ApiError>)
    ensures
        store.spec_find(id) matches Some(t) ==> r == Ok::<Ticket, ApiError>(t),
        store.spec_find(id) is None ==> r == Err::<Ticket, ApiError>(ApiError::NotFound),
        store.wf_view(),
{
    store.observe();
    match store.find_by_id(id) {
        Some(t) => Ok(t),
        None => Err(ApiError::NotFound),
    }
}

/// Patches the ticket carrying `id`: each field the payload gives replaces
/// the stored one, each field it leaves out keeps its stored value, and the
/// id is never touched. Answers 200 with the patched ticket, or 404 when no
/// ticket carries the id, leaving the store as it was.
pub fn update_ticket(store: &mut TicketStore, id: u64, payload: UpdateTicket) -> (r: Result<
    Ticket,
    ApiError,
>)
    ensures
        old(store).spec_find(id) matches Some(cur) ==> r == Ok::<Ticket, ApiError>(
            payload.merged(cur),
        ) && final(store).entities() == old(store).spec_replace(id, payload.merged(cur))
            && final(store).next() == old(store).next(),
        old(store).spec_find(id) is None ==> r == Err::<Ticket, ApiError>(ApiError::NotFound)
            && *final(store) == *old(store),
        old(store).wf_view(),
        final(store).wf_view(),
{
    store.observe();
    match store.find_by_id(id) {
        Some(cur) => {
            proof {
                assert(cur.id == id);
            }
            let merged = Ticket {
                id: cur.id,
                title: match payload.title {
                    Some(t) => t,
                    None => cur.title,
                },
                description: match payload.description {
                    Some(d) => d,
                    None => cur.description,
                },
                type_id: match payload.type_id {
                    Some(t) => t,
                    None => cur.type_id,
                },
                status_id: match payload.status_id {
                    Some(s) => s,
                    None => cur.status_id,
                },
                author_id: match payload.author_id {
                    Some(a) => a,
                    None => cur.author_id,
                },
                assignee_id: match payload.assignee_id {
                    Some(a) => a,
                    None => cur.assignee_id,
                },
            };
            match store.replace(id, merged) {
                Ok(t) => Ok(t),
                Err(_) => Err(ApiError::NotFound),
            }
        },
        None => Err(ApiError::NotFound),
    }
}

/// Removes the ticket carrying `id` and answers 200 with a confirmation
/// message naming the id, or 404 when no ticket carries it, leaving the store
/// as it was. The entities that stay keep their order.
pub fn delete_ticket(store: &mut TicketStore, id: u64) -> (r: Result<String, ApiError>)
    ensures
        old(store).spec_has(id) ==> (r matches Ok(msg) && msg@ == "Deleted ticket "@ + dec_digits(
            id as nat,
        ) && final(store).entities() == old(store).spec_remove(id) && final(store).next() == old(store).next()),
        !old(store).spec_has(id) ==> r == Err::<String, ApiError>(ApiError::NotFound) && *final(store) == *old(store),
        old(store).wf_view(),
        final(store).wf_view(),
{
    store.observe();
    match store.remove(id) {
        Ok(_) => {
            let mut msg = "Deleted ticket ".to_owned();
            msg.append(u64_to_string(id).as_str());
            Ok(msg)
        },
        Err(_) => Err(ApiError::NotFound),
    }
}

} // verus!
