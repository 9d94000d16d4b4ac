//! Handlers for the ticket status resource.

use vstd::prelude::*;
use crate::api::ApiError;
use crate::model::{TicketStatus, CreateTicketStatus, UpdateTicketStatus};
use crate::numerals::{dec_digits, u64_to_string};
use crate::store::TicketStatusStore;

verus! {

/// Creates a ticket status from a valid payload, under a fresh id the store assigns;
/// answered with 201. An empty name is refused as unprocessable; a store
/// failure is reported as internal. A refused request leaves the store as it
/// was.
pub fn create_ticket_status(store: &mut TicketStatusStore, payload: CreateTicketStatus) -> (r: Result<TicketStatus, ApiError>)
    ensures
        r is Ok <==> payload.valid() && old(store).next() < u64::MAX,
        r matches Ok(u) ==> u == (TicketStatus { id: old(store).next(), name: payload.name })
            && final(store).entities() == old(store).entities().push(u) && final(store).next()
            == old(store).next() + 1,
        !payload.valid() ==> r == Err::<TicketStatus, ApiError>(ApiError::Unprocessable),
        payload.valid() && old(store).next() == u64::MAX ==> r == Err::<TicketStatus, ApiError>(
            ApiError::Internal,
        ),
        r is Err ==> *final(store) == *old(store),
        old(store).wf_view(),
        final(store).wf_view(),
{
    store.observe();
    if payload.name.as_str().unicode_len() == 0 {
        return Err(ApiError::Unprocessable);
    }
    match store.insert(payload.name) {
        Ok(u) => Ok(u),
        Err(_) => Err(ApiError::Internal),
    }
}

/// Lists every ticket status, in insertion order; answered with 200. An empty store
/// yields an empty list.
pub fn list_ticket_statuses(store: &TicketStatusStore) -> (r: Vec<TicketStatus>)
    ensures
        r@ == store.entities(),
        store.wf_view(),
{
    store.list_all()
}

/// Fetches the ticket status carrying `id`; answered with 200, or 404 when no ticket status
/// carries it.
pub fn get_ticket_status(store: &TicketStatusStore, id: u64) -> (r: Result<TicketStatus, ApiError>)
    ensures
        store.spec_find(id) matches Some(u) ==> r == Ok::<TicketStatus, ApiError>(u),
        store.spec_find(id) is None ==> r == Err::<TicketStatus, ApiError>(ApiError::NotFound),
        store.wf_view(),
{
    store.observe();
    match store.find_by_id(id) {
        Some(u) => Ok(u),
        None => Err(ApiError::NotFound),
    }
}

/// Replaces the ticket status carrying `id` with one built from the payload — a full
/// replacement, the id kept — and answers 200 with the stored entity, or 404
/// when no ticket status carries the id, leaving the store as it was.
pub fn update_ticket_status(store: &mut TicketStatusStore, id: u64, payload: UpdateTicketStatus) -> (r: Result<
    TicketStatus,
    ApiError,
>)
    ensures
        old(store).spec_has(id) ==> r == Ok::<TicketStatus, ApiError>(
            (TicketStatus { id, name: payload.name }),
        ) && final(store).entities() == old(store).spec_replace(
            id,
            (TicketStatus { id, name: payload.name }),
        ) && final(store).next() == old(store).next(),
        !old(store).spec_has(id) ==> r == Err::<TicketStatus, ApiError>(ApiError::NotFound) && *final(store) == *old(store),
        old(store).wf_view(),
        final(store).wf_view(),
{
    store.observe();
    match store.find_by_id(id) {
        Some(_current) => {
            let updated = TicketStatus { id, name: payload.name };
            match store.replace(id, updated) {
                Ok(u) => Ok(u),
                Err(_) => Err(ApiError::NotFound),
            }
        },
        None => Err(ApiError::NotFound),
    }
}

/// Removes the ticket status carrying `id` and answers 200 with a confirmation message
/// naming the id, or 404 when no ticket status carries it, leaving the store as it
/// was. The entities that stay keep their order.
pub fn delete_ticket_status(store: &mut TicketStatusStore, id: u64) -> (r: Result<String, ApiError>)
    ensures
        old(store).spec_has(id) ==> (r matches Ok(msg) && msg@ == "Deleted ticket status "@ + dec_digits(
            id as nat,
        ) && final(store).entities() == old(store).spec_remove(id) && final(store).next() == old(store).next()),
        !old(store).spec_has(id) ==> r == Err::<String, ApiError>(ApiError::NotFound) && *final(store) == *old(store),
        old(store).wf_view(),
        final(store).wf_view(),
{
    store.observe();
    match store.remove(id) {
        Ok(_) => {
            let mut msg = "Deleted ticket status ".to_owned();
            msg.append(u64_to_string(id).as_str());
            Ok(msg)
        },
        Err(_) => Err(ApiError::NotFound),
    }
}

} // verus!
