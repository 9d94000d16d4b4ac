//! Lookup of an entity by its numeric id in a sequence of entities, stated
//! once for every entity kind: a kind supplies the function that reads an
//! entity's id.
//!
//! The lemmas at the end are the store-independent laws of the gateway: a
//! fresh id is absent from the store, an entity just inserted is found under
//! its id, and a removed id stays absent, so a repeated delete keeps
//! reporting "not found".

use vstd::prelude::*;

verus! {

/// Every id in `s` (as read by `id_of`) lies below `bound`.
pub open spec fn ids_below<T>(s: Seq<T>, id_of: spec_fn(T) -> u64, bound: u64) -> bool {
    forall|i: int| 0 <= i < s.len() ==> #[trigger] id_of(s[i]) < bound
}

/// No two entities of `s` share an id.
pub open spec fn unique_ids<T>(s: Seq<T>, id_of: spec_fn(T) -> u64) -> bool {
    forall|i: int, j: int|
        #![trigger id_of(s[i]), id_of(s[j])]
        0 <= i < s.len() && 0 <= j < s.len() && i != j ==> id_of(s[i]) != id_of(s[j])
}

/// Some entity of `s` carries the id `id`.
pub open spec fn has_id<T>(s: Seq<T>, id_of: spec_fn(T) -> u64, id: u64) -> bool {
    exists|i: int| 0 <= i < s.len() && id_of(#[trigger] s[i]) == id
}

/// An index at which `s` carries the id `id` (meaningful only under
/// `has_id`; unique under `unique_ids`).
pub open spec fn idx_of<T>(s: Seq<T>, id_of: spec_fn(T) -> u64, id: u64) -> int {
    choose|i: int| 0 <= i < s.len() && id_of(#[trigger] s[i]) == id
}

/// The entity of `s` carrying `id`, if any.
pub open spec fn find_by_id<T>(s: Seq<T>, id_of: spec_fn(T) -> u64, id: u64) -> Option<T> {
    if has_id(s, id_of, id) {
        Some(s[idx_of(s, id_of, id)])
    } else {
        None
    }
}

/// `s` with the entity carrying `id` replaced by `v`.
pub open spec fn replace_by_id<T>(s: Seq<T>, id_of: spec_fn(T) -> u64, id: u64, v: T) -> Seq<T> {
    s.update(idx_of(s, id_of, id), v)
}

/// `s` with the entity carrying `id` removed; the order of the rest is kept.
pub open spec fn remove_by_id<T>(s: Seq<T>, id_of: spec_fn(T) -> u64, id: u64) -> Seq<T> {
    s.remove(idx_of(s, id_of, id))
}

/// An id at or above the store's counter was never assigned, so it is absent:
/// a get, update or delete on it reports "not found".
pub proof fn lemma_fresh_id_absent<T>(s: Seq<T>, id_of: spec_fn(T) -> u64, bound: u64, id: u64)
    requires
        ids_below(s, id_of, bound),
        id >= bound,
    ensures
        !has_id(s, id_of, id),
        find_by_id(s, id_of, id) is None,
{
}

/// An entity pushed under an id that was absent is afterwards found under
/// that id, exactly as it was pushed: a create followed by a get on the
/// assigned id yields the created entity.
pub proof fn lemma_find_after_push<T>(s: Seq<T>, id_of: spec_fn(T) -> u64, v: T)
    requires
        !has_id(s, id_of, id_of(v)),
    ensures
        find_by_id(s.push(v), id_of, id_of(v)) == Some(v),
{
    let s2 = s.push(v);
    assert(id_of(s2[s.len() as int]) == id_of(v));
    assert(has_id(s2, id_of, id_of(v)));
    let i = idx_of(s2, id_of, id_of(v));
    assert(0 <= i < s2.len() && id_of(s2[i]) == id_of(v));
    if i < s.len() {
        assert(id_of(s[i]) == id_of(v));
        assert(false);
    }
}

/// After the entity carrying `id` is removed, `id` is absent: the delete that
/// follows a delete of the same id reports "not found".
pub proof fn lemma_absent_after_remove<T>(s: Seq<T>, id_of: spec_fn(T) -> u64, id: u64)
    requires
        unique_ids(s, id_of),
        has_id(s, id_of, id),
    ensures
        !has_id(remove_by_id(s, id_of, id), id_of, id),
        find_by_id(remove_by_id(s, id_of, id), id_of, id) is None,
{
    let i = idx_of(s, id_of, id);
    assert(0 <= i < s.len() && id_of(s[i]) == id);
    let s2 = remove_by_id(s, id_of, id);
    if has_id(s2, id_of, id) {
        let j = choose|j: int| 0 <= j < s2.len() && id_of(#[trigger] s2[j]) == id;
        if j < i {
            assert(s2[j] == s[j]);
            assert(id_of(s[j]) == id_of(s[i]));
        } else {
            assert(s2[j] == s[j + 1]);
            assert(id_of(s[j + 1]) == id_of(s[i]));
        }
        assert(false);
    }
}

} // verus!
