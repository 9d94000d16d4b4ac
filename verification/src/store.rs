//! In-memory resource stores, one per entity kind.
//!
//! A store owns id assignment: ids are handed out from a counter that starts
//! at 1 and never goes back, so an id is unique among all entities of the
//! kind ever created, not only among those currently stored. Listing returns
//! the entities in insertion order.

use vstd::prelude::*;
use crate::lookup::{ids_below, unique_ids, has_id, idx_of, find_by_id, replace_by_id,
    remove_by_id};
use crate::model::{User, Ticket, TicketType, TicketStatus, TicketFields};

verus! {

/// Failure of a store operation.
#[derive(Clone, Copy, PartialEq, Eq, Structural, Debug)]
pub enum StoreError {
    /// No entity of the kind carries the requested id.
    NotFound,
    /// The id counter has reached its ceiling; nothing can be inserted.
    IdsExhausted,
}

/// Reads a user's id, in the form the lookup functions take.
pub open spec fn user_id_fn() -> spec_fn(User) -> u64 {
    |u: User| u.id
}

/// The store of users.
pub struct UserStore {
    next_id: u64,
    entries: Vec<User>,
}

impl UserStore {
    /// The stored entities, in insertion order.
    pub closed spec fn entities(&self) -> Seq<User> {
        self.entries@
    }

    /// The id the next successful insertion will assign.
    pub closed spec fn next(&self) -> u64 {
        self.next_id
    }

    #[verifier::type_invariant]
    spec fn inv(&self) -> bool {
        &&& self.next_id >= 1
        &&& ids_below(self.entries@, user_id_fn(), self.next_id)
        &&& unique_ids(self.entries@, user_id_fn())
    }

    /// What every store state satisfies: stored ids lie below the counter and
    /// no two entities share an id.
    pub open spec fn wf_view(&self) -> bool {
        &&& self.next() >= 1
        &&& ids_below(self.entities(), user_id_fn(), self.next())
        &&& unique_ids(self.entities(), user_id_fn())
    }

    /// The stored entity carrying `id`, if any.
    pub open spec fn spec_find(&self, id: u64) -> Option<User> {
        find_by_id(self.entities(), user_id_fn(), id)
    }

    /// Whether some stored entity carries `id`.
    pub open spec fn spec_has(&self, id: u64) -> bool {
        has_id(self.entities(), user_id_fn(), id)
    }

    /// The entities after the one carrying `id` is replaced by `v`.
    pub open spec fn spec_replace(&self, id: u64, v: User) -> Seq<User> {
        replace_by_id(self.entities(), user_id_fn(), id, v)
    }

    /// The entities after the one carrying `id` is removed.
    pub open spec fn spec_remove(&self, id: u64) -> Seq<User> {
        remove_by_id(self.entities(), user_id_fn(), id)
    }

    /// An empty store; the first insertion will assign id 1.
    pub fn new() -> (r: Self)
        ensures
            r.entities() == Seq::<User>::empty(),
            r.next() == 1,
            r.wf_view(),
    {
        let r = UserStore { next_id: 1, entries: Vec::new() };
        proof {
            use_type_invariant(&r);
        }
        r
    }

    /// Makes the store's standing facts available to a caller's proof: the
    /// ids currently stored lie below the counter and are pairwise distinct.
    pub fn observe(&self)
        ensures
            self.wf_view(),
    {
        proof {
            use_type_invariant(&*self);
        }
    }

    /// Assigns a fresh id, stores the entity built from the given fields, and
    /// returns it. Fails only when the id counter is exhausted, leaving the
    /// store unchanged.
    pub fn insert(&mut self, name: String) -> (r: Result<User, StoreError>)
        ensures
            old(self).next() < u64::MAX ==> r == Ok::<User, StoreError>(
                (User { id: old(self).next(), name }),
            ) && final(self).entities() == old(self).entities().push(
                (User { id: old(self).next(), name }),
            ) && final(self).next() == old(self).next() + 1,
            old(self).next() == u64::MAX ==> r == Err::<User, StoreError>(
                StoreError::IdsExhausted,
            ) && *final(self) == *old(self),
            old(self).wf_view(),
            final(self).wf_view(),
    {
        proof {
            use_type_invariant(&*self);
        }
        if self.next_id == u64::MAX {
            return Err(StoreError::IdsExhausted);
        }
        let id = self.next_id;
        self.next_id = id + 1;
        let u = User { id, name };
        let r = u.clone();
        let mut entries: Vec<User> = Vec::new();
        std::mem::swap(&mut entries, &mut self.entries);
        entries.push(u);
        self.entries = entries;
        proof {
            use_type_invariant(&*self);
        }
        Ok(r)
    }

    /// The index of the entity carrying `id`, if any.
    fn index_of(&self, id: u64) -> (r: Option<usize>)
        ensures
            match r {
                Some(i) => i < self.entities().len() && user_id_fn()(self.entities()[i as int])
                    == id,
                None => !self.spec_has(id),
            },
    {
        let n = self.entries.len();
        let mut i: usize = 0;
        while i < n
            invariant
                n == self.entries@.len(),
                i <= n,
                forall|j: int| 0 <= j < i ==> user_id_fn()(#[trigger] self.entries@[j]) != id,
            decreases n - i,
        {
            if self.entries[i].id == id {
                return Some(i);
            }
            i = i + 1;
        }
        None
    }

    /// Looks the entity up by its id; the store is not changed.
    pub fn find_by_id(&self, id: u64) -> (r: Option<User>)
        ensures
            r == self.spec_find(id),
            self.wf_view(),
    {
        proof {
            use_type_invariant(&*self);
        }
        match self.index_of(id) {
            Some(i) => {
                proof {
                    let s = self.entities();
                    let f = user_id_fn();
                    assert(has_id(s, f, id));
                    let k = idx_of(s, f, id);
                    assert(0 <= k < s.len() && f(s[k]) == id);
                    assert(k == i as int);
                }
                Some(self.entries[i].clone())
            },
            None => None,
        }
    }

    /// All stored entities, in insertion order. An empty store yields an
    /// empty sequence.
    pub fn list_all(&self) -> (r: Vec<User>)
        ensures
            r@ == self.entities(),
            self.wf_view(),
    {
        proof {
            use_type_invariant(&*self);
        }
        let n = self.entries.len();
        let mut out: Vec<User> = Vec::new();
        let mut i: usize = 0;
        while i < n
            invariant
                n == self.entries@.len(),
                i <= n,
                out@ == self.entries@.subrange(0, i as int),
            decreases n - i,
        {
            out.push(self.entries[i].clone());
            proof {
                assert(out@ =~= self.entries@.subrange(0, i + 1 as int));
            }
            i = i + 1;
        }
        proof {
            assert(self.entries@.subrange(0, n as int) =~= self.entries@);
        }
        out
    }

    /// Stores `v` in place of the entity carrying `id` and returns the stored
    /// entity; the id is kept, as ids are immutable once assigned. Fails when
    /// no entity carries `id`, leaving the store unchanged.
    pub fn replace(&mut self, id: u64, v: User) -> (r: Result<User, StoreError>)
        requires
            v.id == id,
        ensures
            old(self).spec_has(id) ==> r == Ok::<User, StoreError>(v) && final(self).entities()
                == old(self).spec_replace(id, v) && final(self).next() == old(self).next(),
            !old(self).spec_has(id) ==> r == Err::<User, StoreError>(StoreError::NotFound)
                && *final(self) == *old(self),
            old(self).wf_view(),
            final(self).wf_view(),
    {
        proof {
            use_type_invariant(&*self);
        }
        match self.index_of(id) {
            Some(i) => {
                let ghost s = self.entries@;
                let ghost f = user_id_fn();
                proof {
                    assert(has_id(s, f, id));
                    let k = idx_of(s, f, id);
                    assert(0 <= k < s.len() && f(s[k]) == id);
                    assert(k == i as int);
                }
                let r = v.clone();
                let mut entries: Vec<User> = Vec::new();
                std::mem::swap(&mut entries, &mut self.entries);
                entries.remove(i);
                entries.insert(i, v);
                proof {
                    assert(entries@ =~= s.update(i as int, v));
                    assert(forall|j: int| 0 <= j < s.len() ==> user_id_fn()(
                        #[trigger] s.update(i as int, v)[j],
                    ) == user_id_fn()(s[j]));
                }
                self.entries = entries;
                proof {
                    use_type_invariant(&*self);
                }
                Ok(r)
            },
            None => Err(StoreError::NotFound),
        }
    }

    /// Removes the entity carrying `id`; the order of the rest is kept.
    /// Fails when no entity carries `id`, leaving the store unchanged.
    pub fn remove(&mut self, id: u64) -> (r: Result<(), StoreError>)
        ensures
            old(self).spec_has(id) ==> r == Ok::<(), StoreError>(()) && final(self).entities()
                == old(self).spec_remove(id) && final(self).next() == old(self).next(),
            !old(self).spec_has(id) ==> r == Err::<(), StoreError>(StoreError::NotFound)
                && *final(self) == *old(self),
            old(self).wf_view(),
            final(self).wf_view(),
    {
        proof {
            use_type_invariant(&*self);
        }
        match self.index_of(id) {
            Some(i) => {
                let ghost s = self.entries@;
                let ghost f = user_id_fn();
                proof {
                    assert(has_id(s, f, id));
                    let k = idx_of(s, f, id);
                    assert(0 <= k < s.len() && f(s[k]) == id);
                    assert(k == i as int);
                }
                let mut entries: Vec<User> = Vec::new();
                std::mem::swap(&mut entries, &mut self.entries);
                entries.remove(i);
                proof {
                    assert(forall|j: int| 0 <= j < entries@.len() ==> user_id_fn()(
                        #[trigger] entries@[j],
                    ) == user_id_fn()(if j < i { s[j] } else { s[j + 1] }));
                }
                self.entries = entries;
                proof {
                    use_type_invariant(&*self);
                }
                Ok(())
            },
            None => Err(StoreError::NotFound),
        }
    }
}

/// Reads a ticket type's id, in the form the lookup functions take.
pub open spec fn ticket_type_id_fn() -> spec_fn(TicketType) -> u64 {
    |u: TicketType| u.id
}

/// The store of ticket types.
pub struct TicketTypeStore {
    next_id: u64,
    entries: Vec<TicketType>,
}

impl TicketTypeStore {
    /// The stored entities, in insertion order.
    pub closed spec fn entities(&self) -> Seq<TicketType> {
        self.entries@
    }

    /// The id the next successful insertion will assign.
    pub closed spec fn next(&self) -> u64 {
        self.next_id
    }

    #[verifier::type_invariant]
    spec fn inv(&self) -> bool {
        &&& self.next_id >= 1
        &&& ids_below(self.entries@, ticket_type_id_fn(), self.next_id)
        &&& unique_ids(self.entries@, ticket_type_id_fn())
    }

    /// What every store state satisfies: stored ids lie below the counter and
    /// no two entities share an id.
    pub open spec fn wf_view(&self) -> bool {
        &&& self.next() >= 1
        &&& ids_below(self.entities(), ticket_type_id_fn(), self.next())
        &&& unique_ids(self.entities(), ticket_type_id_fn())
    }

    /// The stored entity carrying `id`, if any.
    pub open spec fn spec_find(&self, id: u64) -> Option<TicketType> {
        find_by_id(self.entities(), ticket_type_id_fn(), id)
    }

    /// Whether some stored entity carries `id`.
    pub open spec fn spec_has(&self, id: u64) -> bool {
        has_id(self.entities(), ticket_type_id_fn(), id)
    }

    /// The entities after the one carrying `id` is replaced by `v`.
    pub open spec fn spec_replace(&self, id: u64, v: TicketType) -> Seq<TicketType> {
        replace_by_id(self.entities(), ticket_type_id_fn(), id, v)
    }

    /// The entities after the one carrying `id` is removed.
    pub open spec fn spec_remove(&self, id: u64) -> Seq<TicketType> {
        remove_by_id(self.entities(), ticket_type_id_fn(), id)
    }

    /// An empty store; the first insertion will assign id 1.
    pub fn new() -> (r: Self)
        ensures
            r.entities() == Seq::<TicketType>::empty(),
            r.next() == 1,
            r.wf_view(),
    {
        let r = TicketTypeStore { next_id: 1, entries: Vec::new() };
        proof {
            use_type_invariant(&r);
        }
        r
    }

    /// Makes the store's standing facts available to a caller's proof: the
    /// ids currently stored lie below the counter and are pairwise distinct.
    pub fn observe(&self)
        ensures
            self.wf_view(),
    {
        proof {
            use_type_invariant(&*self);
        }
    }

    /// Assigns a fresh id, stores the entity built from the given fields, and
    /// returns it. Fails only when the id counter is exhausted, leaving the
    /// store unchanged.
    pub fn insert(&mut self, name: String) -> (r: Result<TicketType, StoreError>)
        ensures
            old(self).next() < u64::MAX ==> r == Ok::<TicketType, StoreError>(
                (TicketType { id: old(self).next(), name }),
            ) && final(self).entities() == old(self).entities().push(
                (TicketType { id: old(self).next(), name }),
            ) && final(self).next() == old(self).next() + 1,
            old(self).next() == u64::MAX ==> r == Err::<TicketType, StoreError>(
                StoreError::IdsExhausted,
            ) && *final(self) == *old(self),
            old(self).wf_view(),
            final(self).wf_view(),
    {
        proof {
            use_type_invariant(&*self);
        }
        if self.next_id == u64::MAX {
            return Err(StoreError::IdsExhausted);
        }
        let id = self.next_id;
        self.next_id = id + 1;
        let u = TicketType { id, name };
        let r = u.clone();
        let mut entries: Vec<TicketType> = Vec::new();
        std::mem::swap(&mut entries, &mut self.entries);
        entries.push(u);
        self.entries = entries;
        proof {
            use_type_invariant(&*self);
        }
        Ok(r)
    }

    /// The index of the entity carrying `id`, if any.
    fn index_of(&self, id: u64) -> (r: Option<usize>)
        ensures
            match r {
                Some(i) => i < self.entities().len() && ticket_type_id_fn()(self.entities()[i as int])
                    == id,
                None => !self.spec_has(id),
            },
    {
        let n = self.entries.len();
        let mut i: usize = 0;
        while i < n
            invariant
                n == self.entries@.len(),
                i <= n,
                forall|j: int| 0 <= j < i ==> ticket_type_id_fn()(#[trigger] self.entries@[j]) != id,
            decreases n - i,
        {
            if self.entries[i].id == id {
                return Some(i);
            }
            i = i + 1;
        }
        None
    }

    /// Looks the entity up by its id; the store is not changed.
    pub fn find_by_id(&self, id: u64) -> (r: Option<TicketType>)
        ensures
            r == self.spec_find(id),
            self.wf_view(),
    {
        proof {
            use_type_invariant(&*self);
        }
        match self.index_of(id) {
            Some(i) => {
                proof {
                    let s = self.entities();
                    let f = ticket_type_id_fn();
                    assert(has_id(s, f, id));
                    let k = idx_of(s, f, id);
                    assert(0 <= k < s.len() && f(s[k]) == id);
                    assert(k == i as int);
                }
                Some(self.entries[i].clone())
            },
            None => None,
        }
    }

    /// All stored entities, in insertion order. An empty store yields an
    /// empty sequence.
    pub fn list_all(&self) -> (r: Vec<TicketType>)
        ensures
            r@ == self.entities(),
            self.wf_view(),
    {
        proof {
            use_type_invariant(&*self);
        }
        let n = self.entries.len();
        let mut out: Vec<TicketType> = Vec::new();
        let mut i: usize = 0;
        while i < n
            invariant
                n == self.entries@.len(),
                i <= n,
                out@ == self.entries@.subrange(0, i as int),
            decreases n - i,
        {
            out.push(self.entries[i].clone());
            proof {
                assert(out@ =~= self.entries@.subrange(0, i + 1 as int));
            }
            i = i + 1;
        }
        proof {
            assert(self.entries@.subrange(0, n as int) =~= self.entries@);
        }
        out
    }

    /// Stores `v` in place of the entity carrying `id` and returns the stored
    /// entity; the id is kept, as ids are immutable once assigned. Fails when
    /// no entity carries `id`, leaving the store unchanged.
    pub fn replace(&mut self, id: u64, v: TicketType) -> (r: Result<TicketType, StoreError>)
        requires
            v.id == id,
        ensures
            old(self).spec_has(id) ==> r == Ok::<TicketType, StoreError>(v) && final(self).entities()
                == old(self).spec_replace(id, v) && final(self).next() == old(self).next(),
            !old(self).spec_has(id) ==> r == Err::<TicketType, StoreError>(StoreError::NotFound)
                && *final(self) == *old(self),
            old(self).wf_view(),
            final(self).wf_view(),
    {
        proof {
            use_type_invariant(&*self);
        }
        match self.index_of(id) {
            Some(i) => {
                let ghost s = self.entries@;
                let ghost f = ticket_type_id_fn();
                proof {
                    assert(has_id(s, f, id));
                    let k = idx_of(s, f, id);
                    assert(0 <= k < s.len() && f(s[k]) == id);
                    assert(k == i as int);
                }
                let r = v.clone();
                let mut entries: Vec<TicketType> = Vec::new();
                std::mem::swap(&mut entries, &mut self.entries);
                entries.remove(i);
                entries.insert(i, v);
                proof {
                    assert(entries@ =~= s.update(i as int, v));
                    assert(forall|j: int| 0 <= j < s.len() ==> ticket_type_id_fn()(
                        #[trigger] s.update(i as int, v)[j],
                    ) == ticket_type_id_fn()(s[j]));
                }
                self.entries = entries;
                proof {
                    use_type_invariant(&*self);
                }
                Ok(r)
            },
            None => Err(StoreError::NotFound),
        }
    }

    /// Removes the entity carrying `id`; the order of the rest is kept.
    /// Fails when no entity carries `id`, leaving the store unchanged.
    pub fn remove(&mut self, id: u64) -> (r: Result<(), StoreError>)
        ensures
            old(self).spec_has(id) ==> r == Ok::<(), StoreError>(()) && final(self).entities()
                == old(self).spec_remove(id) && final(self).next() == old(self).next(),
            !old(self).spec_has(id) ==> r == Err::<(), StoreError>(StoreError::NotFound)
                && *final(self) == *old(self),
            old(self).wf_view(),
            final(self).wf_view(),
    {
        proof {
            use_type_invariant(&*self);
        }
        match self.index_of(id) {
            Some(i) => {
                let ghost s = self.entries@;
                let ghost f = ticket_type_id_fn();
                proof {
                    assert(has_id(s, f, id));
                    let k = idx_of(s, f, id);
                    assert(0 <= k < s.len() && f(s[k]) == id);
                    assert(k == i as int);
                }
                let mut entries: Vec<TicketType> = Vec::new();
                std::mem::swap(&mut entries, &mut self.entries);
                entries.remove(i);
                proof {
                    assert(forall|j: int| 0 <= j < entries@.len() ==> ticket_type_id_fn()(
                        #[trigger] entries@[j],
                    ) == ticket_type_id_fn()(if j < i { s[j] } else { s[j + 1] }));
                }
                self.entries = entries;
                proof {
                    use_type_invariant(&*self);
                }
                Ok(())
            },
            None => Err(StoreError::NotFound),
        }
    }
}

/// Reads a ticket status's id, in the form the lookup functions take.
pub open spec fn ticket_status_id_fn() -> spec_fn(TicketStatus) -> u64 {
    |u: TicketStatus| u.id
}

/// The store of ticket statuses.
pub struct TicketStatusStore {
    next_id: u64,
    entries: Vec<TicketStatus>,
}

impl TicketStatusStore {
    /// The stored entities, in insertion order.
    pub closed spec fn entities(&self) -> Seq<TicketStatus> {
        self.entries@
    }

    /// The id the next successful insertion will assign.
    pub closed spec fn next(&self) -> u64 {
        self.next_id
    }

    #[verifier::type_invariant]
    spec fn inv(&self) -> bool {
        &&& self.next_id >= 1
        &&& ids_below(self.entries@, ticket_status_id_fn(), self.next_id)
        &&& unique_ids(self.entries@, ticket_status_id_fn())
    }

    /// What every store state satisfies: stored ids lie below the counter and
    /// no two entities share an id.
    pub open spec fn wf_view(&self) -> bool {
        &&& self.next() >= 1
        &&& ids_below(self.entities(), ticket_status_id_fn(), self.next())
        &&& unique_ids(self.entities(), ticket_status_id_fn())
    }

    /// The stored entity carrying `id`, if any.
    pub open spec fn spec_find(&self, id: u64) -> Option<TicketStatus> {
        find_by_id(self.entities(), ticket_status_id_fn(), id)
    }

    /// Whether some stored entity carries `id`.
    pub open spec fn spec_has(&self, id: u64) -> bool {
        has_id(self.entities(), ticket_status_id_fn(), id)
    }

    /// The entities after the one carrying `id` is replaced by `v`.
    pub open spec fn spec_replace(&self, id: u64, v: TicketStatus) -> Seq<TicketStatus> {
        replace_by_id(self.entities(), ticket_status_id_fn(), id, v)
    }

    /// The entities after the one carrying `id` is removed.
    pub open spec fn spec_remove(&self, id: u64) -> Seq<TicketStatus> {
        remove_by_id(self.entities(), ticket_status_id_fn(), id)
    }

    /// An empty store; the first insertion will assign id 1.
    pub fn new() -> (r: Self)
        ensures
            r.entities() == Seq::<TicketStatus>::empty(),
            r.next() == 1,
            r.wf_view(),
    {
        let r = TicketStatusStore { next_id: 1, entries: Vec::new() };
        proof {
            use_type_invariant(&r);
        }
        r
    }

    /// Makes the store's standing facts available to a caller's proof: the
    /// ids currently stored lie below the counter and are pairwise distinct.
    pub fn observe(&self)
        ensures
            self.wf_view(),
    {
        proof {
            use_type_invariant(&*self);
        }
    }

    /// Assigns a fresh id, stores the entity built from the given fields, and
    /// returns it. Fails only when the id counter is exhausted, leaving the
    /// store unchanged.
    pub fn insert(&mut self, name: String) -> (r: Result<TicketStatus, StoreError>)
        ensures
            old(self).next() < u64::MAX ==> r == Ok::<TicketStatus, StoreError>(
                (TicketStatus { id: old(self).next(), name }),
            ) && final(self).entities() == old(self).entities().push(
                (TicketStatus { id: old(self).next(), name }),
            ) && final(self).next() == old(self).next() + 1,
            old(self).next() == u64::MAX ==> r == Err::<TicketStatus, StoreError>(
                StoreError::IdsExhausted,
            ) && *final(self) == *old(self),
            old(self).wf_view(),
            final(self).wf_view(),
    {
        proof {
            use_type_invariant(&*self);
        }
        if self.next_id == u64::MAX {
            return Err(StoreError::IdsExhausted);
        }
        let id = self.next_id;
        self.next_id = id + 1;
        let u = TicketStatus { id, name };
        let r = u.clone();
        let mut entries: Vec<TicketStatus> = Vec::new();
        std::mem::swap(&mut entries, &mut self.entries);
        entries.push(u);
        self.entries = entries;
        proof {
            use_type_invariant(&*self);
        }
        Ok(r)
    }

    /// The index of the entity carrying `id`, if any.
    fn index_of(&self, id: u64) -> (r: Option<usize>)
        ensures
            match r {
                Some(i) => i < self.entities().len() && ticket_status_id_fn()(self.entities()[i as int])
                    == id,
                None => !self.spec_has(id),
            },
    {
        let n = self.entries.len();
        let mut i: usize = 0;
        while i < n
            invariant
                n == self.entries@.len(),
                i <= n,
                forall|j: int| 0 <= j < i ==> ticket_status_id_fn()(#[trigger] self.entries@[j]) != id,
            decreases n - i,
        {
            if self.entries[i].id == id {
                return Some(i);
            }
            i = i + 1;
        }
        None
    }

    /// Looks the entity up by its id; the store is not changed.
    pub fn find_by_id(&self, id: u64) -> (r: Option<TicketStatus>)
        ensures
            r == self.spec_find(id),
            self.wf_view(),
    {
        proof {
            use_type_invariant(&*self);
        }
        match self.index_of(id) {
            Some(i) => {
                proof {
                    let s = self.entities();
                    let f = ticket_status_id_fn();
                    assert(has_id(s, f, id));
                    let k = idx_of(s, f, id);
                    assert(0 <= k < s.len() && f(s[k]) == id);
                    assert(k == i as int);
                }
                Some(self.entries[i].clone())
            },
            None => None,
        }
    }

    /// All stored entities, in insertion order. An empty store yields an
    /// empty sequence.
    pub fn list_all(&self) -> (r: Vec<TicketStatus>)
        ensures
            r@ == self.entities(),
            self.wf_view(),
    {
        proof {
            use_type_invariant(&*self);
        }
        let n = self.entries.len();
        let mut out: Vec<TicketStatus> = Vec::new();
        let mut i: usize = 0;
        while i < n
            invariant
                n == self.entries@.len(),
                i <= n,
                out@ == self.entries@.subrange(0, i as int),
            decreases n - i,
        {
            out.push(self.entries[i].clone());
            proof {
                assert(out@ =~= self.entries@.subrange(0, i + 1 as int));
            }
            i = i + 1;
        }
        proof {
            assert(self.entries@.subrange(0, n as int) =~= self.entries@);
        }
        out
    }

    /// Stores `v` in place of the entity carrying `id` and returns the stored
    /// entity; the id is kept, as ids are immutable once assigned. Fails when
    /// no entity carries `id`, leaving the store unchanged.
    pub fn replace(&mut self, id: u64, v: TicketStatus) -> (r: Result<TicketStatus, StoreError>)
        requires
            v.id == id,
        ensures
            old(self).spec_has(id) ==> r == Ok::<TicketStatus, StoreError>(v) && final(self).entities()
                == old(self).spec_replace(id, v) && final(self).next() == old(self).next(),
            !old(self).spec_has(id) ==> r == Err::<TicketStatus, StoreError>(StoreError::NotFound)
                && *final(self) == *old(self),
            old(self).wf_view(),
            final(self).wf_view(),
    {
        proof {
            use_type_invariant(&*self);
        }
        match self.index_of(id) {
            Some(i) => {
                let ghost s = self.entries@;
                let ghost f = ticket_status_id_fn();
                proof {
                    assert(has_id(s, f, id));
                    let k = idx_of(s, f, id);
                    assert(0 <= k < s.len() && f(s[k]) == id);
                    assert(k == i as int);
                }
                let r = v.clone();
                let mut entries: Vec<TicketStatus> = Vec::new();
                std::mem::swap(&mut entries, &mut self.entries);
                entries.remove(i);
                entries.insert(i, v);
                proof {
                    assert(entries@ =~= s.update(i as int, v));
                    assert(forall|j: int| 0 <= j < s.len() ==> ticket_status_id_fn()(
                        #[trigger] s.update(i as int, v)[j],
                    ) == ticket_status_id_fn()(s[j]));
                }
                self.entries = entries;
                proof {
                    use_type_invariant(&*self);
                }
                Ok(r)
            },
            None => Err(StoreError::NotFound),
        }
    }

    /// Removes the entity carrying `id`; the order of the rest is kept.
    /// Fails when no entity carries `id`, leaving the store unchanged.
    pub fn remove(&mut self, id: u64) -> (r: Result<(), StoreError>)
        ensures
            old(self).spec_has(id) ==> r == Ok::<(), StoreError>(()) && final(self).entities()
                == old(self).spec_remove(id) && final(self).next() == old(self).next(),
            !old(self).spec_has(id) ==> r == Err::<(), StoreError>(StoreError::NotFound)
                && *final(self) == *old(self),
            old(self).wf_view(),
            final(self).wf_view(),
    {
        proof {
            use_type_invariant(&*self);
        }
        match self.index_of(id) {
            Some(i) => {
                let ghost s = self.entries@;
                let ghost f = ticket_status_id_fn();
                proof {
                    assert(has_id(s, f, id));
                    let k = idx_of(s, f, id);
                    assert(0 <= k < s.len() && f(s[k]) == id);
                    assert(k == i as int);
                }
                let mut entries: Vec<TicketStatus> = Vec::new();
                std::mem::swap(&mut entries, &mut self.entries);
                entries.remove(i);
                proof {
                    assert(forall|j: int| 0 <= j < entries@.len() ==> ticket_status_id_fn()(
                        #[trigger] entries@[j],
                    ) == ticket_status_id_fn()(if j < i { s[j] } else { s[j + 1] }));
                }
                self.entries = entries;
                proof {
                    use_type_invariant(&*self);
                }
                Ok(())
            },
            None => Err(StoreError::NotFound),
        }
    }
}

/// Reads a ticket's id, in the form the lookup functions take.
pub open spec fn ticket_id_fn() -> spec_fn(Ticket) -> u64 {
    |u: Ticket| u.id
}

/// The store of tickets.
pub struct TicketStore {
    next_id: u64,
    entries: Vec<Ticket>,
}

impl TicketStore {
    /// The stored entities, in insertion order.
    pub closed spec fn entities(&self) -> Seq<Ticket> {
        self.entries@
    }

    /// The id the next successful insertion will assign.
    pub closed spec fn next(&self) -> u64 {
        self.next_id
    }

    #[verifier::type_invariant]
    spec fn inv(&self) -> bool {
        &&& self.next_id >= 1
        &&& ids_below(self.entries@, ticket_id_fn(), self.next_id)
        &&& unique_ids(self.entries@, ticket_id_fn())
    }

    /// What every store state satisfies: stored ids lie below the counter and
    /// no two entities share an id.
    pub open spec fn wf_view(&self) -> bool {
        &&& self.next() >= 1
        &&& ids_below(self.entities(), ticket_id_fn(), self.next())
        &&& unique_ids(self.entities(), ticket_id_fn())
    }

    /// The stored entity carrying `id`, if any.
    pub open spec fn spec_find(&self, id: u64) -> Option<Ticket> {
        find_by_id(self.entities(), ticket_id_fn(), id)
    }

    /// Whether some stored entity carries `id`.
    pub open spec fn spec_has(&self, id: u64) -> bool {
        has_id(self.entities(), ticket_id_fn(), id)
    }

    /// The entities after the one carrying `id` is replaced by `v`.
    pub open spec fn spec_replace(&self, id: u64, v: Ticket) -> Seq<Ticket> {
        replace_by_id(self.entities(), ticket_id_fn(), id, v)
    }

    /// The entities after the one carrying `id` is removed.
    pub open spec fn spec_remove(&self, id: u64) -> Seq<Ticket> {
        remove_by_id(self.entities(), ticket_id_fn(), id)
    }

    /// An empty store; the first insertion will assign id 1.
    pub fn new() -> (r: Self)
        ensures
            r.entities() == Seq::<Ticket>::empty(),
            r.next() == 1,
            r.wf_view(),
    {
        let r = TicketStore { next_id: 1, entries: Vec::new() };
        proof {
            use_type_invariant(&r);
        }
        r
    }

    /// Makes the store's standing facts available to a caller's proof: the
    /// ids currently stored lie below the counter and are pairwise distinct.
    pub fn observe(&self)
        ensures
            self.wf_view(),
    {
        proof {
            use_type_invariant(&*self);
        }
    }

    /// Assigns a fresh id, stores the entity built from the given fields, and
    /// returns it. Fails only when the id counter is exhausted, leaving the
    /// store unchanged.
    pub fn insert(&mut self, fields: TicketFields) -> (r: Result<Ticket, StoreError>)
        ensures
            old(self).next() < u64::MAX ==> r == Ok::<Ticket, StoreError>(
                fields.with_id(old(self).next()),
            ) && final(self).entities() == old(self).entities().push(
                fields.with_id(old(self).next()),
            ) && final(self).next() == old(self).next() + 1,
            old(self).next() == u64::MAX ==> r == Err::<Ticket, StoreError>(
                StoreError::IdsExhausted,
            ) && *final(self) == *old(self),
            old(self).wf_view(),
            final(self).wf_view(),
    {
        proof {
            use_type_invariant(&*self);
        }
        if self.next_id == u64::MAX {
            return Err(StoreError::IdsExhausted);
        }
        let id = self.next_id;
        self.next_id = id + 1;
        let u = Ticket {
            id,
            title: fields.title,
            description: fields.description,
            type_id: fields.type_id,
            status_id: fields.status_id,
            author_id: fields.author_id,
            assignee_id: fields.assignee_id,
        };
        let r = u.clone();
        let mut entries: Vec<Ticket> = Vec::new();
        std::mem::swap(&mut entries, &mut self.entries);
        entries.push(u);
        self.entries = entries;
        proof {
            use_type_invariant(&*self);
        }
        Ok(r)
    }

    /// The index of the entity carrying `id`, if any.
    fn index_of(&self, id: u64) -> (r: Option<usize>)
        ensures
            match r {
                Some(i) => i < self.entities().len() && ticket_id_fn()(self.entities()[i as int])
                    == id,
                None => !self.spec_has(id),
            },
    {
        let n = self.entries.len();
        let mut i: usize = 0;
        while i < n
            invariant
                n == self.entries@.len(),
                i <= n,
                forall|j: int| 0 <= j < i ==> ticket_id_fn()(#[trigger] self.entries@[j]) != id,
            decreases n - i,
        {
            if self.entries[i].id == id {
                return Some(i);
            }
            i = i + 1;
        }
        None
    }

    /// Looks the entity up by its id; the store is not changed.
    pub fn find_by_id(&self, id: u64) -> (r: Option<Ticket>)
        ensures
            r == self.spec_find(id),
            self.wf_view(),
    {
        proof {
            use_type_invariant(&*self);
        }
        match self.index_of(id) {
            Some(i) => {
                proof {
                    let s = self.entities();
                    let f = ticket_id_fn();
                    assert(has_id(s, f, id));
                    let k = idx_of(s, f, id);
                    assert(0 <= k < s.len() && f(s[k]) == id);
                    assert(k == i as int);
                }
                Some(self.entries[i].clone())
            },
            None => None,
        }
    }

    /// All stored entities, in insertion order. An empty store yields an
    /// empty sequence.
    pub fn list_all(&self) -> (r: Vec<Ticket>)
        ensures
            r@ == self.entities(),
            self.wf_view(),
    {
        proof {
            use_type_invariant(&*self);
        }
        let n = self.entries.len();
        let mut out: Vec<Ticket> = Vec::new();
        let mut i: usize = 0;
        while i < n
            invariant
                n == self.entries@.len(),
                i <= n,
                out@ == self.entries@.subrange(0, i as int),
            decreases n - i,
        {
            out.push(self.entries[i].clone());
            proof {
                assert(out@ =~= self.entries@.subrange(0, i + 1 as int));
            }
            i = i + 1;
        }
        proof {
            assert(self.entries@.subrange(0, n as int) =~= self.entries@);
        }
        out
    }

    /// Stores `v` in place of the entity carrying `id` and returns the stored
    /// entity; the id is kept, as ids are immutable once assigned. Fails when
    /// no entity carries `id`, leaving the store unchanged.
    pub fn replace(&mut self, id: u64, v: Ticket) -> (r: Result<Ticket, StoreError>)
        requires
            v.id == id,
        ensures
            old(self).spec_has(id) ==> r == Ok::<Ticket, StoreError>(v) && final(self).entities()
                == old(self).spec_replace(id, v) && final(self).next() == old(self).next(),
            !old(self).spec_has(id) ==> r == Err::<Ticket, StoreError>(StoreError::NotFound)
                && *final(self) == *old(self),
            old(self).wf_view(),
            final(self).wf_view(),
    {
        proof {
            use_type_invariant(&*self);
        }
        match self.index_of(id) {
            Some(i) => {
                let ghost s = self.entries@;
                let ghost f = ticket_id_fn();
                proof {
                    assert(has_id(s, f, id));
                    let k = idx_of(s, f, id);
                    assert(0 <= k < s.len() && f(s[k]) == id);
                    assert(k == i as int);
                }
                let r = v.clone();
                let mut entries: Vec<Ticket> = Vec::new();
                std::mem::swap(&mut entries, &mut self.entries);
                entries.remove(i);
                entries.insert(i, v);
                proof {
                    assert(entries@ =~= s.update(i as int, v));
                    assert(forall|j: int| 0 <= j < s.len() ==> ticket_id_fn()(
                        #[trigger] s.update(i as int, v)[j],
                    ) == ticket_id_fn()(s[j]));
                }
                self.entries = entries;
                proof {
                    use_type_invariant(&*self);
                }
                Ok(r)
            },
            None => Err(StoreError::NotFound),
        }
    }

    /// Removes the entity carrying `id`; the order of the rest is kept.
    /// Fails when no entity carries `id`, leaving the store unchanged.
    pub fn remove(&mut self, id: u64) -> (r: Result<(), StoreError>)
        ensures
            old(self).spec_has(id) ==> r == Ok::<(), StoreError>(()) && final(self).entities()
                == old(self).spec_remove(id) && final(self).next() == old(self).next(),
            !old(self).spec_has(id) ==> r == Err::<(), StoreError>(StoreError::NotFound)
                && *final(self) == *old(self),
            old(self).wf_view(),
            final(self).wf_view(),
    {
        proof {
            use_type_invariant(&*self);
        }
        match self.index_of(id) {
            Some(i) => {
                let ghost s = self.entries@;
                let ghost f = ticket_id_fn();
                proof {
                    assert(has_id(s, f, id));
                    let k = idx_of(s, f, id);
                    assert(0 <= k < s.len() && f(s[k]) == id);
                    assert(k == i as int);
                }
                let mut entries: Vec<Ticket> = Vec::new();
                std::mem::swap(&mut entries, &mut self.entries);
                entries.remove(i);
                proof {
                    assert(forall|j: int| 0 <= j < entries@.len() ==> ticket_id_fn()(
                        #[trigger] entries@[j],
                    ) == ticket_id_fn()(if j < i { s[j] } else { s[j + 1] }));
                }
                self.entries = entries;
                proof {
                    use_type_invariant(&*self);
                }
                Ok(())
            },
            None => Err(StoreError::NotFound),
        }
    }
}

} // verus!
