//! The model of the datastore's user table: the rows a single-entity
//! CRUD command reads or writes, with identities unique and insertion
//! order kept.
//!
//! The specification functions walk the row sequence from the front, so
//! a lookup, update or delete acts on the first (under uniqueness: the
//! only) row carrying the requested identity.

use vstd::prelude::*;

use crate::model::{apply_update, User, UpdateUser};

verus! {

/// No two rows carry the same identity.
pub open spec fn ids_unique(t: Seq<User>) -> bool {
    forall|i: int, j: int| 0 <= i < j < t.len() ==> t[i].id != t[j].id
}

/// Some row carries identity `id`.
pub open spec fn table_contains(t: Seq<User>, id: u128) -> bool {
    exists|i: int| 0 <= i < t.len() && t[i].id == id
}

/// The first row from position `i` on that carries identity `id`.
pub open spec fn spec_get_from(t: Seq<User>, id: u128, i: int) -> Option<User>
    decreases t.len() - i,
{
    if i < 0 || i >= t.len() {
        None
    } else if t[i].id == id {
        Some(t[i])
    } else {
        spec_get_from(t, id, i + 1)
    }
}

/// The row carrying identity `id`, if any.
pub open spec fn spec_get(t: Seq<User>, id: u128) -> Option<User> {
    spec_get_from(t, id, 0)
}

/// The table with the first row carrying `id` from position `i` on
/// removed; unchanged when no row carries `id`.
pub open spec fn spec_delete_from(t: Seq<User>, id: u128, i: int) -> Seq<User>
    decreases t.len() - i,
{
    if i < 0 || i >= t.len() {
        t
    } else if t[i].id == id {
        t.remove(i)
    } else {
        spec_delete_from(t, id, i + 1)
    }
}

/// The table with the row carrying `id` removed; unchanged when no row
/// carries `id`.
pub open spec fn spec_delete(t: Seq<User>, id: u128) -> Seq<User> {
    spec_delete_from(t, id, 0)
}

/// The table with the partial update `up` applied at time `now` to the
/// first row carrying `id` from position `i` on; unchanged when no row
/// carries `id`.
pub open spec fn spec_update_from(t: Seq<User>, id: u128, up: UpdateUser, now: i64, i: int) -> Seq<
    User,
>
    decreases t.len() - i,
{
    if i < 0 || i >= t.len() {
        t
    } else if t[i].id == id {
        t.update(i, apply_update(t[i], up, now))
    } else {
        spec_update_from(t, id, up, now, i + 1)
    }
}

/// The table with the partial update `up` applied at time `now` to the
/// row carrying `id`; unchanged when no row carries `id`.
pub open spec fn spec_update(t: Seq<User>, id: u128, up: UpdateUser, now: i64) -> Seq<User> {
    spec_update_from(t, id, up, now, 0)
}

/// Skipping a prefix without a match leaves a front-recursive walk
/// unchanged.
proof fn lemma_skip_unmatched(t: Seq<User>, id: u128, up: UpdateUser, now: i64, j: int, i: int)
    requires
        0 <= j <= i <= t.len(),
        forall|k: int| j <= k < i ==> t[k].id != id,
    ensures
        spec_get_from(t, id, j) == spec_get_from(t, id, i),
        spec_delete_from(t, id, j) == spec_delete_from(t, id, i),
        spec_update_from(t, id, up, now, j) == spec_update_from(t, id, up, now, i),
    decreases i - j,
{
    if j < i {
        lemma_skip_unmatched(t, id, up, now, j + 1, i);
    }
}

/// A walk that starts at a matching position resolves there.
proof fn lemma_resolve_at_match(t: Seq<User>, id: u128, up: UpdateUser, now: i64, i: int)
    requires
        0 <= i < t.len(),
        t[i].id == id,
        forall|k: int| 0 <= k < i ==> t[k].id != id,
    ensures
        spec_get(t, id) == Some(t[i]),
        spec_delete(t, id) == t.remove(i),
        spec_update(t, id, up, now) == t.update(i, apply_update(t[i], up, now)),
{
    lemma_skip_unmatched(t, id, up, now, 0, i);
}

/// A walk over a table without a match resolves to "absent".
proof fn lemma_resolve_no_match(t: Seq<User>, id: u128, up: UpdateUser, now: i64)
    requires
        forall|k: int| 0 <= k < t.len() ==> t[k].id != id,
    ensures
        spec_get(t, id) == None::<User>,
        spec_delete(t, id) == t,
        spec_update(t, id, up, now) == t,
{
    lemma_skip_unmatched(t, id, up, now, 0, t.len() as int);
}

/// A lookup finds a row exactly when the table contains the identity.
pub proof fn lemma_get_some_iff_contains(t: Seq<User>, id: u128)
    ensures
        spec_get(t, id) is Some <==> table_contains(t, id),
        spec_get(t, id) matches Some(u) ==> u.id == id && t.contains(u),
{
    lemma_get_from_some_iff(t, id, 0);
}

proof fn lemma_get_from_some_iff(t: Seq<User>, id: u128, i: int)
    requires
        0 <= i <= t.len(),
    ensures
        spec_get_from(t, id, i) is Some <==> exists|k: int| i <= k < t.len() && t[k].id == id,
        spec_get_from(t, id, i) matches Some(u) ==> u.id == id && t.contains(u),
    decreases t.len() - i,
{
    if i < t.len() {
        lemma_get_from_some_iff(t, id, i + 1);
        if t[i].id == id {
            assert(t.contains(t[i]));
        }
    }
}

/// The in-memory user table: rows in insertion order, identities
/// unique.
pub struct UserTable {
    rows: Vec<User>,
}

impl UserTable {
    /// The rows of the table, in order.
    pub closed spec fn rows_seq(&self) -> Seq<User> {
        self.rows@
    }

    /// Well-formedness: identities are unique.
    pub open spec fn wf(&self) -> bool {
        ids_unique(self.rows_seq())
    }

    /// An empty table.
    pub fn new() -> (r: UserTable)
        ensures
            r.wf(),
            r.rows_seq() == Seq::<User>::empty(),
    {
        UserTable { rows: Vec::new() }
    }

    /// How many rows the table holds.
    pub fn len(&self) -> (r: usize)
        ensures
            r == self.rows_seq().len(),
    {
        self.rows.len()
    }

    /// The position of the row carrying `id`, if any.
    fn find_index(&self, id: u128) -> (r: Option<usize>)
        ensures
            r matches Some(i) ==> 0 <= i < self.rows_seq().len() && self.rows_seq()[i as int].id
                == id && (forall|k: int| 0 <= k < i ==> self.rows_seq()[k].id != id),
            r is None ==> forall|k: int|
                0 <= k < self.rows_seq().len() ==> self.rows_seq()[k].id != id,
    {
        let n = self.rows.len();
        let mut i: usize = 0;
        while i < n
            invariant
                n == self.rows_seq().len(),
                i <= n,
                forall|k: int| 0 <= k < i ==> self.rows_seq()[k].id != id,
            decreases n - i,
        {
            if self.rows[i].id == id {
                return Some(i);
            }
            i = i + 1;
        }
        None
    }

    /// Inserts a row. Succeeds exactly when no row already carries the
    /// row's identity; on a duplicate identity the table is unchanged.
    pub fn insert_row(&mut self, u: User) -> (r: bool)
        requires
            old(self).wf(),
        ensures
            final(self).wf(),
            r == !table_contains(old(self).rows_seq(), u.id),
            r ==> final(self).rows_seq() == old(self).rows_seq().push(u),
            !r ==> final(self).rows_seq() == old(self).rows_seq(),
    {
        match self.find_index(u.id) {
            Some(_) => {
                proof {
                    let t = self.rows_seq();
                    assert(table_contains(t, u.id));
                }
                false
            },
            None => {
                proof {
                    let t = self.rows_seq();
                    assert(!table_contains(t, u.id));
                    let t2 = t.push(u);
                    assert forall|i: int, j: int| 0 <= i < j < t2.len() implies t2[i].id
                        != t2[j].id by {
                        if j < t.len() {
                        } else {
                            assert(t2[j] == u);
                            assert(t2[i] == t[i]);
                        }
                    }
                }
                self.rows.push(u);
                true
            },
        }
    }

    /// The row carrying `id`, or nothing when the identity is absent.
    pub fn get_row(&self, id: u128) -> (r: Option<User>)
        ensures
            r == spec_get(self.rows_seq(), id),
    {
        match self.find_index(id) {
            Some(i) => {
                proof {
                    let up0 = UpdateUser { name: None, email: None };
                    lemma_resolve_at_match(self.rows_seq(), id, up0, 0, i as int);
                }
                Some(self.rows[i].duplicate())
            },
            None => {
                proof {
                    let up0 = UpdateUser { name: None, email: None };
                    lemma_resolve_no_match(self.rows_seq(), id, up0, 0);
                }
                None
            },
        }
    }

    /// Every row, in insertion order.
    pub fn all_rows(&self) -> (r: Vec<User>)
        ensures
            r@ == self.rows_seq(),
    {
        let n = self.rows.len();
        let mut out: Vec<User> = Vec::new();
        let mut i: usize = 0;
        while i < n
            invariant
                n == self.rows_seq().len(),
                i <= n,
                out@ == self.rows_seq().take(i as int),
            decreases n - i,
        {
            out.push(self.rows[i].duplicate());
            proof {
                assert(out@ =~= self.rows_seq().take((i + 1) as int));
            }
            i = i + 1;
        }
        proof {
            assert(out@ =~= self.rows_seq());
        }
        out
    }

    /// Applies the partial update `up` at time `now` to the row
    /// carrying `id` and returns the updated row, or changes nothing
    /// and returns nothing when the identity is absent.
    pub fn update_row(&mut self, id: u128, up: &UpdateUser, now: i64) -> (r: Option<User>)
        requires
            old(self).wf(),
        ensures
            final(self).wf(),
            final(self).rows_seq() == spec_update(old(self).rows_seq(), id, *up, now),
            r == match spec_get(old(self).rows_seq(), id) {
                Some(u) => Some(apply_update(u, *up, now)),
                None => None::<User>,
            },
    {
        match self.find_index(id) {
            Some(i) => {
                proof {
                    lemma_resolve_at_match(self.rows_seq(), id, *up, now, i as int);
                }
                let updated = crate::model::make_updated_user(&self.rows[i], up, now);
                let result = updated.duplicate();
                let ghost t_old = self.rows_seq();
                self.rows[i] = updated;
                proof {
                    let t_new = self.rows_seq();
                    assert(t_new == t_old.update(i as int, apply_update(t_old[i as int], *up, now)));
                    assert forall|a: int, b: int| 0 <= a < b < t_new.len() implies t_new[a].id
                        != t_new[b].id by {
                        assert(t_new[a].id == t_old[a].id);
                        assert(t_new[b].id == t_old[b].id);
                    }
                }
                Some(result)
            },
            None => {
                proof {
                    lemma_resolve_no_match(self.rows_seq(), id, *up, now);
                }
                None
            },
        }
    }

    /// Removes the row carrying `id`, keeping the order of the rest.
    /// Reports whether a row was removed; an absent identity leaves the
    /// table unchanged.
    pub fn delete_row(&mut self, id: u128) -> (r: bool)
        requires
            old(self).wf(),
        ensures
            final(self).wf(),
            final(self).rows_seq() == spec_delete(old(self).rows_seq(), id),
            r == table_contains(old(self).rows_seq(), id),
    {
        match self.find_index(id) {
            Some(i) => {
                proof {
                    let up0 = UpdateUser { name: None, email: None };
                    lemma_resolve_at_match(self.rows_seq(), id, up0, 0, i as int);
                    assert(table_contains(self.rows_seq(), id));
                }
                let ghost t_old = self.rows_seq();
                self.rows.remove(i);
                proof {
                    let t_new = self.rows_seq();
                    assert(t_new == t_old.remove(i as int));
                    assert forall|a: int, b: int| 0 <= a < b < t_new.len() implies t_new[a].id
                        != t_new[b].id by {
                        let a0 = if a < i as int { a } else { a + 1 };
                        let b0 = if b < i as int { b } else { b + 1 };
                        assert(t_new[a] == t_old[a0]);
                        assert(t_new[b] == t_old[b0]);
                    }
                }
                true
            },
            None => {
                proof {
                    let up0 = UpdateUser { name: None, email: None };
                    lemma_resolve_no_match(self.rows_seq(), id, up0, 0);
                }
                false
            },
        }
    }
}

/// Creation round-trip: inserting a row with a fresh identity and then
/// looking that identity up yields exactly the inserted row.
pub proof fn lemma_create_then_get_round_trip(t: Seq<User>, u: User)
    requires
        !table_contains(t, u.id),
    ensures
        spec_get(t.push(u), u.id) == Some(u),
{
    let t2 = t.push(u);
    assert forall|k: int| 0 <= k < t.len() implies t2[k].id != u.id by {
        assert(t2[k] == t[k]);
    }
    let up0 = UpdateUser { name: None, email: None };
    lemma_skip_unmatched(t2, u.id, up0, 0, 0, t.len() as int);
    assert(t2[t.len() as int] == u);
}

/// Partial-update idempotence on the table: applying the same partial
/// update twice at the same time yields the same table as applying it
/// once.
pub proof fn lemma_update_twice_same_table(t: Seq<User>, id: u128, up: UpdateUser, now: i64)
    requires
        ids_unique(t),
    ensures
        spec_update(spec_update(t, id, up, now), id, up, now) == spec_update(t, id, up, now),
{
    if exists|k: int| 0 <= k < t.len() && t[k].id == id {
        let i = choose|i: int| 0 <= i < t.len() && t[i].id == id;
        assert forall|k: int| 0 <= k < i implies t[k].id != id by {}
        lemma_resolve_at_match(t, id, up, now, i);
        let v = apply_update(t[i], up, now);
        let t1 = t.update(i, v);
        assert(t1[i].id == id);
        assert forall|k: int| 0 <= k < i implies t1[k].id != id by {
            assert(t1[k] == t[k]);
        }
        lemma_resolve_at_match(t1, id, up, now, i);
        crate::model::lemma_partial_update_idempotent(t[i], up, now);
        assert(spec_update(t1, id, up, now) == t1.update(i, v));
        assert(t1.update(i, v) =~= t1);
    } else {
        lemma_resolve_no_match(t, id, up, now);
        lemma_resolve_no_match(spec_update(t, id, up, now), id, up, now);
    }
}

} // verus!
