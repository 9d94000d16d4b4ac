//! The gateway's cross-call laws, composed against the store contracts.
//!
//! They are written out for the user store; the other three stores state
//! their contracts in exactly the same shape, over their own entity type and
//! id reader, and the generic lemmas of `lookup` apply to them unchanged.

use vstd::prelude::*;
use crate::lookup::{find_by_id, lemma_absent_after_remove, lemma_find_after_push,
    lemma_fresh_id_absent};
use crate::model::User;
use crate::store::{user_id_fn, UserStore};

verus! {

/// An id the store never assigned is absent, so a get, an update and a delete
/// on it all answer 404: every id ever assigned lies below the counter, so an
/// id at or above it was never inserted.
pub proof fn law_never_inserted_not_found(s: UserStore, id: u64)
    requires
        s.wf_view(),
        id >= s.next(),
    ensures
        s.spec_find(id) is None,
        !s.spec_has(id),
{
    lemma_fresh_id_absent(s.entities(), user_id_fn(), s.next(), id);
}

/// A create followed by a get of the assigned id yields exactly the created
/// entity: after an insert under the fresh id the counter holds, the new
/// entity is found under that id.
pub proof fn law_create_then_get(s: UserStore, u: User)
    requires
        s.wf_view(),
        u.id == s.next(),
    ensures
        find_by_id(s.entities().push(u), user_id_fn(), u.id) == Some(u),
{
    lemma_fresh_id_absent(s.entities(), user_id_fn(), s.next(), u.id);
    lemma_find_after_push(s.entities(), user_id_fn(), u);
}

/// After a successful delete the id is gone, so the same delete done again
/// answers 404; a delete of an id that is already absent answers 404 every
/// time, leaving the store as it was.
pub proof fn law_delete_idempotent(s: UserStore, id: u64)
    requires
        s.wf_view(),
        s.spec_has(id),
    ensures
        find_by_id(s.spec_remove(id), user_id_fn(), id) is None,
{
    lemma_absent_after_remove(s.entities(), user_id_fn(), id);
}

} // verus!
