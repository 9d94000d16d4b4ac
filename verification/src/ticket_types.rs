//! Handlers for the ticket type resource.

use vstd::prelude::*;
use crate::api::ApiError;
use crate::model::{TicketType, CreateTicketType, UpdateTicketType};
use crate::numerals::{dec_digits, u64_to_string};
use crate::store::TicketTypeStore;

verus! {

/// Creates a ticket type from a valid payload, under a fresh id the store assigns;
/// answered with 201. An empty name is refused as unprocessable; a store
/// failure is reported as internal. A refused request leaves the store as it
/// was.
pub fn create_ticket_type(store: &mut TicketTypeStore, payload: CreateTicketType) -> (r: Result<TicketType, ApiError>)
    ensures
        r is Ok <==> payload.valid() && old(store).next() < u64::MAX,
        r matches Ok(u) ==> u == (TicketType { id: old(store).next(), name: payload.name })
            && final(store).entities() == old(store).entities().push(u) && final(store).next()
            == old(store).next() + 1,
        !payload.valid() ==> r == Err::<TicketType, ApiError>(ApiError::Unprocessable),
        payload.valid() && old(store).next() == u64::MAX ==> r == Err::<TicketType, ApiError>(
            ApiError::Internal,
        ),
        r is Err ==> *final(store) == *old(store),
        old(store).wf_view(),
        final(store).wf_view(),
{
    store.observe();
    if payload.name.as_str().unicode_len() == 0 {
        return Err(ApiError::Unprocessable);
    }
    match store.insert(payload.name) {
        Ok(u) => Ok(u),
        Err(_) => Err(ApiError::Internal),
    }
}

/// Lists every ticket type, in insertion order; answered with 200. An empty store
/// yields an empty list.
pub fn list_ticket_types(store: &TicketTypeStore) -> (r: Vec<TicketType>)
    ensures
        r@ == store.entities(),
        store.wf_view(),
{
    store.list_all()
}

/// Fetches the ticket type carrying `id`; answered with 200, or 404 when no ticket type
/// carries it.
pub fn get_ticket_type(store: &TicketTypeStore, id: u64) -> (r: Result<TicketType, ApiError>)
    ensures
        store.spec_find(id) matches Some(u) ==> r == Ok::<TicketType, ApiError>(u),
        store.spec_find(id) is None ==> r == Err::<TicketType, ApiError>(ApiError::NotFound),
        store.wf_view(),
{
    store.observe();
    match store.find_by_id(id) {
        Some(u) => Ok(u),
        None => Err(ApiError::NotFound),
    }
}

/// Replaces the ticket type carrying `id` with one built from the payload — a full
/// replacement, the id kept — and answers 200 with the stored entity, or 404
/// when no ticket type carries the id, leaving the store as it was.
pub fn update_ticket_type(store: &mut TicketTypeStore, id: u64, payload: UpdateTicketType) -> (r: Result<
    TicketType,
    ApiError,
>)
    ensures
        old(store).spec_has(id) ==> r == Ok::<TicketType, ApiError>(
            (TicketType { id, name: payload.name }),
        ) && final(store).entities() == old(store).spec_replace(
            id,
            (TicketType { id, name: payload.name }),
        ) && final(store).next() == old(store).next(),
        !old(store).spec_has(id) ==> r == Err::<TicketType, ApiError>(ApiError::NotFound) && *final(store) == *old(store),
        old(store).wf_view(),
        final(store).wf_view(),
{
    store.observe();
    match store.find_by_id(id) {
        Some(_current) => {
            let updated = TicketType { id, name: payload.name };
            match store.replace(id, updated) {
                Ok(u) => Ok(u),
                Err(_) => Err(ApiError::NotFound),
            }
        },
        None => Err(ApiError::NotFound),
    }
}

/// Removes the ticket type carrying `id` and answers 200 with a confirmation message
/// naming the id, or 404 when no ticket type carries it, leaving the store as it
/// was. The entities that stay keep their order.
pub fn delete_ticket_type(store: &mut TicketTypeStore, id: u64) -> (r: Result<String, ApiError>)
    ensures
        old(store).spec_has(id) ==> (r matches Ok(msg) && msg@ == "Deleted ticket type "@ + dec_digits(
            id as nat,
        ) && final(store).entities() == old(store).spec_remove(id) && final(store).next() == old(store).next()),
        !old(store).spec_has(id) ==> r == Err::<String, ApiError>(ApiError::NotFound) && *final(store) == *old(store),
        old(store).wf_view(),
        final(store).wf_view(),
{
    store.observe();
    match store.remove(id) {
        Ok(_) => {
            let mut msg = "Deleted ticket type ".to_owned();
            msg.append(u64_to_string(id).as_str());
            Ok(msg)
        },
        Err(_) => Err(ApiError::NotFound),
    }
}

} // verus!
