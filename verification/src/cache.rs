//! The cache of user snapshots.
//!
//! A snapshot is an immutable copy of a user row, shared by reference
//! count. The cache hands out at most one snapshot per identity: whoever
//! inserts second receives the snapshot that is already there. A snapshot is
//! never changed in place; a write to the row invalidates its entry, and the
//! next reader fetches the row anew.

use crate::model::{User, Uuid};
use std::collections::HashMap;
use std::sync::Arc;
use vstd::prelude::*;

verus! {

broadcast use vstd::std_specs::hash::group_hash_axioms;

/// The snapshots a cache holds, by identity.
pub type Snapshots = Map<Uuid, Arc<User>>;

/// What `get` finds for `id`.
pub open spec fn lookup(entries: Snapshots, id: Uuid) -> Option<Arc<User>> {
    if entries.contains_key(id) {
        Some(entries[id])
    } else {
        None
    }
}

/// The snapshot that `insert` hands back for `user`: the one already held
/// for that identity, or else a new one of `user` itself.
pub open spec fn snapshot(entries: Snapshots, user: User) -> Arc<User> {
    if entries.contains_key(user.id) {
        entries[user.id]
    } else {
        Arc::new(user)
    }
}

/// The entries after `insert` of `user`.
pub open spec fn inserted(entries: Snapshots, user: User) -> Snapshots {
    entries.insert(user.id, snapshot(entries, user))
}

/// The entries after `invalidate` of `id`.
pub open spec fn invalidated(entries: Snapshots, id: Uuid) -> Snapshots {
    entries.remove(id)
}

/// True if every snapshot is filed under its own identity.
pub open spec fn keyed(entries: Snapshots) -> bool {
    forall|id: Uuid| entries.contains_key(id) ==> (#[trigger] entries[id]).id == id
}

/// A store of user snapshots, keyed by identity.
pub struct Cache {
    users: HashMap<Uuid, Arc<User>>,
}

impl Cache {
    #[verifier::type_invariant]
    spec fn well_formed(self) -> bool {
        keyed(self.users@)
    }

    /// The snapshots held, by identity.
    pub closed spec fn view(&self) -> Snapshots {
        self.users@
    }

    /// An empty cache.
    pub fn new() -> (cache: Cache)
        ensures
            cache@ == Snapshots::empty(),
    {
        Cache { users: HashMap::new() }
    }

    /// The snapshot held for `id`, or `None` on a miss. The caller then
    /// fetches the row and calls `insert`.
    pub fn get(&self, id: Uuid) -> (r: Option<Arc<User>>)
        ensures
            r == lookup(self@, id),
            r matches Some(user) ==> user.id == id,
    {
        proof {
            use_type_invariant(self);
        }
        match self.users.get(&id) {
            Some(user) => Some(user.clone()),
            None => None,
        }
    }

    /// Stores a snapshot of `user` and returns it. If a snapshot is already
    /// held for that identity, that one is returned and `user` is dropped.
    pub fn insert(&mut self, user: User) -> (r: Arc<User>)
        ensures
            r == snapshot(old(self)@, user),
            final(self)@ == inserted(old(self)@, user),
            r.id == user.id,
    {
        proof {
            use_type_invariant(&*self);
        }
        let id = user.id;
        match self.users.get(&id) {
            Some(held) => {
                let held = held.clone();
                assert(self.users@ =~= inserted(self.users@, user));
                held
            },
            None => {
                let fresh = Arc::new(user);
                // The map is taken out while it changes, so that the
                // invariant holds of `self` at every call.
                let mut users = HashMap::new();
                std::mem::swap(&mut self.users, &mut users);
                users.insert(id, fresh.clone());
                self.users = users;
                fresh
            },
        }
    }

    /// Drops the snapshot held for `id`, if any, so that the next `get` of
    /// `id` misses.
    pub fn invalidate(&mut self, id: Uuid)
        ensures
            final(self)@ == invalidated(old(self)@, id),
    {
        proof {
            use_type_invariant(&*self);
        }
        let mut users = HashMap::new();
        std::mem::swap(&mut self.users, &mut users);
        users.remove(&id);
        self.users = users;
    }
}

/// Until it is invalidated, an identity keeps the snapshot that the first
/// `insert` gave it: every `get` returns that snapshot, and so does every
/// later `insert`, whatever it carries.
pub proof fn lemma_one_snapshot_per_identity(entries: Snapshots, user: User, later: User)
    requires
        later.id == user.id,
    ensures
        lookup(inserted(entries, user), user.id) == Some(snapshot(entries, user)),
        snapshot(inserted(entries, user), later) == snapshot(entries, user),
        inserted(inserted(entries, user), later) == inserted(entries, user),
{
    assert(inserted(inserted(entries, user), later) =~= inserted(entries, user));
}

/// What happens to one identity leaves the snapshot of every other as it
/// was.
pub proof fn lemma_identities_are_independent(entries: Snapshots, user: User, id: Uuid, other: Uuid)
    requires
        other != user.id,
        other != id,
    ensures
        lookup(inserted(entries, user), other) == lookup(entries, other),
        lookup(invalidated(entries, id), other) == lookup(entries, other),
{
}

/// After `invalidate`, `get` misses. The snapshot that was held is handed
/// out again only if it is inserted again.
pub proof fn lemma_invalidate_then_miss(entries: Snapshots, id: Uuid)
    ensures
        lookup(invalidated(entries, id), id) is None,
{
}

/// After `invalidate`, `insert` of the row as it now is makes `get` return
/// a snapshot of that row and not the one held before.
pub proof fn lemma_fresh_after_invalidate(entries: Snapshots, current: User)
    ensures
        lookup(inserted(invalidated(entries, current.id), current), current.id) == Some(
            Arc::new(current),
        ),
{
}

/// `insert` and `invalidate` keep every snapshot under its own identity.
pub proof fn lemma_keyed_is_kept(entries: Snapshots, user: User, id: Uuid)
    requires
        keyed(entries),
    ensures
        keyed(inserted(entries, user)),
        keyed(invalidated(entries, id)),
{
}

} // verus!
