//! Handlers for the user resource.

use vstd::prelude::*;
use crate::api::ApiError;
use crate::model::{User, CreateUser, UpdateUser};
use crate::numerals::{dec_digits, u64_to_string};
use crate::store::UserStore;

verus! {

/// Creates a user from a valid payload, under a fresh id the store assigns;
/// answered with 201. An empty name is refused as unprocessable; a store
/// failure is reported as internal. A refused request leaves the store as it
/// was.
pub fn create_user(store: &mut UserStore, payload: CreateUser) -> (r: Result<User, ApiError>)
    ensures
        r is Ok <==> payload.valid() && old(store).next() < u64::MAX,
        r matches Ok(u) ==> u == (User { id: old(store).next(), name: payload.name })
            && final(store).entities() == old(store).entities().push(u) && final(store).next()
            == old(store).next() + 1,
        !payload.valid() ==> r == Err::<User, ApiError>(ApiError::Unprocessable),
        payload.valid() && old(store).next() == u64::MAX ==> r == Err::<User, ApiError>(
            ApiError::Internal,
        ),
        r is Err ==> *final(store) == *old(store),
        old(store).wf_view(),
        final(store).wf_view(),
{
    store.observe();
    if payload.name.as_str().unicode_len() == 0 {
        return Err(ApiError::Unprocessable);
    }
    match store.insert(payload.name) {
        Ok(u) => Ok(u),
        Err(_) => Err(ApiError::Internal),
    }
}

/// Lists every user, in insertion order; answered with 200. An empty store
/// yields an empty list.
pub fn list_users(store: &UserStore) -> (r: Vec<User>)
    ensures
        r@ == store.entities(),
        store.wf_view(),
{
    store.list_all()
}

/// Fetches the user carrying `id`; answered with 200, or 404 when no user
/// carries it.
pub fn get_user(store: &UserStore, id: u64) -> (r: Result<User, ApiError>)
    ensures
        store.spec_find(id) matches Some(u) ==> r == Ok::<User, ApiError>(u),
        store.spec_find(id) is None ==> r == Err::<User, ApiError>(ApiError::NotFound),
        store.wf_view(),
{
    store.observe();
    match store.find_by_id(id) {
        Some(u) => Ok(u),
        None => Err(ApiError::NotFound),
    }
}

/// Replaces the user carrying `id` with one built from the payload — a full
/// replacement, the id kept — and answers 200 with the stored entity, or 404
/// when no user carries the id, leaving the store as it was.
pub fn update_user(store: &mut UserStore, id: u64, payload: UpdateUser) -> (r: Result<
    User,
    ApiError,
>)
    ensures
        old(store).spec_has(id) ==> r == Ok::<User, ApiError>(
            (User { id, name: payload.name }),
        ) && final(store).entities() == old(store).spec_replace(
            id,
            (User { id, name: payload.name }),
        ) && final(store).next() == old(store).next(),
        !old(store).spec_has(id) ==> r == Err::<User, ApiError>(ApiError::NotFound) && *final(store) == *old(store),
        old(store).wf_view(),
        final(store).wf_view(),
{
    store.observe();
    match store.find_by_id(id) {
        Some(_current) => {
            let updated = User { id, name: payload.name };
            match store.replace(id, updated) {
                Ok(u) => Ok(u),
                Err(_) => Err(ApiError::NotFound),
            }
        },
        None => Err(ApiError::NotFound),
    }
}

/// Removes the user carrying `id` and answers 200 with a confirmation message
/// naming the id, or 404 when no user carries it, leaving the store as it
/// was. The entities that stay keep their order.
pub fn delete_user(store: &mut UserStore, id: u64) -> (r: Result<String, ApiError>)
    ensures
        old(store).spec_has(id) ==> (r matches Ok(msg) && msg@ == "Deleted user "@ + dec_digits(
            id as nat,
        ) && final(store).entities() == old(store).spec_remove(id) && final(store).next() == old(store).next()),
        !old(store).spec_has(id) ==> r == Err::<String, ApiError>(ApiError::NotFound) && *final(store) == *old(store),
        old(store).wf_view(),
        final(store).wf_view(),
{
    store.observe();
    match store.remove(id) {
        Ok(_) => {
            let mut msg = "Deleted user ".to_owned();
            msg.append(u64_to_string(id).as_str());
            Ok(msg)
        },
        Err(_) => Err(ApiError::NotFound),
    }
}

} // verus!
