//! The user entity and its command payloads, together with the
//! field-level semantics of creation and partial update.
//!
//! The entity's identity is a 128-bit value (the numeric form of a
//! UUID) and its timestamps are integer microseconds since the epoch;
//! both are produced by the datastore and handed in by the caller as
//! plain values.

use vstd::prelude::*;

verus! {

/// One row of the user table.
#[derive(Clone, Debug, PartialEq)]
pub struct User {
    pub id: u128,
    pub name: String,
    pub email: String,
    pub created_at: i64,
    pub updated_at: i64,
}

/// The payload of a create command: the datastore supplies identity and
/// timestamps.
#[derive(Clone, Debug, PartialEq)]
pub struct NewUser {
    pub name: String,
    pub email: String,
}

/// The payload of an update command. Only the fields that are present
/// are changed; an absent field leaves the stored value untouched.
#[derive(Clone, Debug, PartialEq)]
pub struct UpdateUser {
    pub name: Option<String>,
    pub email: Option<String>,
}

impl User {
    /// An exact copy of the row.
    pub fn duplicate(&self) -> (r: User)
        ensures
            r == *self,
    {
        User {
            id: self.id,
            name: self.name.clone(),
            email: self.email.clone(),
            created_at: self.created_at,
            updated_at: self.updated_at,
        }
    }
}

/// The row that a create command with payload `nu` inserts when the
/// datastore assigns it identity `id` at time `now`: both timestamps
/// start at `now`.
pub open spec fn fresh_user(nu: NewUser, id: u128, now: i64) -> User {
    User { id, name: nu.name, email: nu.email, created_at: now, updated_at: now }
}

/// The row that results from applying the partial update `up` to the
/// stored row `u` at time `now`: each present field replaces the stored
/// one, each absent field is kept, the identity and creation time never
/// change, and the update time becomes `now`.
pub open spec fn apply_update(u: User, up: UpdateUser, now: i64) -> User {
    User {
        id: u.id,
        name: match up.name {
            Some(n) => n,
            None => u.name,
        },
        email: match up.email {
            Some(e) => e,
            None => u.email,
        },
        created_at: u.created_at,
        updated_at: now,
    }
}

/// Builds the row a create command inserts.
pub fn make_fresh_user(nu: &NewUser, id: u128, now: i64) -> (r: User)
    ensures
        r == fresh_user(*nu, id, now),
{
    User {
        id,
        name: nu.name.clone(),
        email: nu.email.clone(),
        created_at: now,
        updated_at: now,
    }
}

/// Applies a partial update to a copy of the stored row.
pub fn make_updated_user(u: &User, up: &UpdateUser, now: i64) -> (r: User)
    ensures
        r == apply_update(*u, *up, now),
{
    let name: String = match &up.name {
        Some(n) => n.clone(),
        None => u.name.clone(),
    };
    let email: String = match &up.email {
        Some(e) => e.clone(),
        None => u.email.clone(),
    };
    User { id: u.id, name, email, created_at: u.created_at, updated_at: now }
}

/// A partial update changes nothing it does not mention: the identity
/// and creation time are always kept, and a field left unset in the
/// update keeps its stored value.
pub proof fn lemma_partial_update_preserves_unset(u: User, up: UpdateUser, now: i64)
    ensures
        apply_update(u, up, now).id == u.id,
        apply_update(u, up, now).created_at == u.created_at,
        up.name is None ==> apply_update(u, up, now).name == u.name,
        up.email is None ==> apply_update(u, up, now).email == u.email,
        apply_update(u, up, now).updated_at == now,
{
}

/// Partial update is idempotent on a row: applying the same partial
/// update twice at the same time yields the same row as applying it
/// once.
pub proof fn lemma_partial_update_idempotent(u: User, up: UpdateUser, now: i64)
    ensures
        apply_update(apply_update(u, up, now), up, now) == apply_update(u, up, now),
{
}

} // verus!
