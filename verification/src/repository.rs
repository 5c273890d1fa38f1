//! The command executor for the user entity: one operation per CRUD
//! verb, each scoped around one pooled connection.
//!
//! Each operation acquires a connection from the pool, performs exactly
//! one command round-trip, and releases the connection on every exit
//! path — success or failure — so an operation never changes the number
//! of outstanding connections as seen by its caller. The caller drives
//! the operation with the outcomes of the outside world: how long the
//! blocking acquire has waited (`waited_ms`), whether the physical
//! round-trip reached the datastore (`link_ok`), and the identity and
//! clock values the datastore produced (`id`, `now`). The blocking wait
//! itself and the worker-thread offload that keeps it off the
//! event-driven threads live with the caller.
//!
//! A round-trip that never reached the datastore leaves the table
//! unchanged and surfaces `ConnectionLost`; the broken connection is
//! handed back to the pool as failed, which replaces it
//! (replace-on-error). Logical failures are classified per
//! `classify_failure`: a duplicate identity on create is a `Conflict`,
//! a missing identity on get or update is a `NotFound`.

use vstd::prelude::*;

use crate::errors::{classify_failure, CommandFailure, CoreError};
use crate::model::{apply_update, fresh_user, NewUser, UpdateUser, User};
use crate::pool::{get_connection, ConnectionPool};
use crate::table::{spec_delete, spec_get, spec_update, table_contains, UserTable};

verus! {

/// The executor of single-entity CRUD commands for the user resource.
pub struct UserRepository;

/// The pool-related preconditions shared by every operation: the pool
/// is well-formed and the blocking acquire has resolved, either because
/// a connection is free or because the configured timeout has elapsed.
pub open spec fn acquire_resolved(pool: ConnectionPool, waited_ms: u64) -> bool {
    pool.wf() && (pool.idle() > 0 || waited_ms >= pool.timeout_ms())
}

/// The pool-related postconditions shared by every operation: the pool
/// stays well-formed, keeps its configuration, and ends with exactly as
/// many connections outstanding as before — the acquired connection is
/// released on every exit path.
pub open spec fn pool_restored(before: ConnectionPool, after: ConnectionPool) -> bool {
    after.wf() && after.capacity() == before.capacity() && after.timeout_ms()
        == before.timeout_ms() && after.outstanding() == before.outstanding()
}

impl UserRepository {
    /// Inserts the row the datastore builds from `new_user` under the
    /// fresh identity `id` at time `now`, and returns that row. Fails
    /// with `Conflict` exactly when the identity already exists.
    pub fn create_user(
        pool: &mut ConnectionPool,
        table: &mut UserTable,
        waited_ms: u64,
        link_ok: bool,
        new_user: &NewUser,
        id: u128,
        now: i64,
    ) -> (r: Result<User, CoreError>)
        requires
            acquire_resolved(*old(pool), waited_ms),
            old(table).wf(),
        ensures
            pool_restored(*old(pool), *final(pool)),
            final(table).wf(),
            old(pool).idle() == 0 ==> r == Err::<User, CoreError>(CoreError::PoolExhausted)
                && final(table).rows_seq() == old(table).rows_seq(),
            old(pool).idle() > 0 && !link_ok ==> r == Err::<User, CoreError>(
                CoreError::ConnectionLost,
            ) && final(table).rows_seq() == old(table).rows_seq(),
            old(pool).idle() > 0 && link_ok && table_contains(old(table).rows_seq(), id) ==> r
                == Err::<User, CoreError>(CoreError::Conflict) && final(table).rows_seq() == old(
                table,
            ).rows_seq(),
            old(pool).idle() > 0 && link_ok && !table_contains(old(table).rows_seq(), id) ==> r
                == Ok::<User, CoreError>(fresh_user(*new_user, id, now)) && final(table).rows_seq()
                == old(table).rows_seq().push(fresh_user(*new_user, id, now)),
    {
        let conn = match get_connection(pool, waited_ms) {
            Ok(c) => c,
            Err(e) => {
                return Err(e);
            },
        };
        if !link_ok {
            pool.release(conn, true);
            return Err(classify_failure(CommandFailure::LinkLost));
        }
        let row = crate::model::make_fresh_user(new_user, id, now);
        let returned = row.duplicate();
        let inserted = table.insert_row(row);
        pool.release(conn, false);
        if inserted {
            Ok(returned)
        } else {
            Err(classify_failure(CommandFailure::UniqueViolation))
        }
    }

    /// Returns the row carrying `user_id`. Fails with `NotFound`
    /// exactly when the identity is absent.
    pub fn get_user_by_id(
        pool: &mut ConnectionPool,
        table: &UserTable,
        waited_ms: u64,
        link_ok: bool,
        user_id: u128,
    ) -> (r: Result<User, CoreError>)
        requires
            acquire_resolved(*old(pool), waited_ms),
        ensures
            pool_restored(*old(pool), *final(pool)),
            old(pool).idle() == 0 ==> r == Err::<User, CoreError>(CoreError::PoolExhausted),
            old(pool).idle() > 0 && !link_ok ==> r == Err::<User, CoreError>(
                CoreError::ConnectionLost,
            ),
            old(pool).idle() > 0 && link_ok ==> r == match spec_get(table.rows_seq(), user_id) {
                Some(u) => Ok::<User, CoreError>(u),
                None => Err::<User, CoreError>(CoreError::NotFound),
            },
    {
        let conn = match get_connection(pool, waited_ms) {
            Ok(c) => c,
            Err(e) => {
                return Err(e);
            },
        };
        if !link_ok {
            pool.release(conn, true);
            return Err(classify_failure(CommandFailure::LinkLost));
        }
        let found = table.get_row(user_id);
        pool.release(conn, false);
        match found {
            Some(u) => Ok(u),
            None => Err(classify_failure(CommandFailure::ZeroRowsAffected)),
        }
    }

    /// Returns every row, in insertion order.
    pub fn get_all_users(
        pool: &mut ConnectionPool,
        table: &UserTable,
        waited_ms: u64,
        link_ok: bool,
    ) -> (r: Result<Vec<User>, CoreError>)
        requires
            acquire_resolved(*old(pool), waited_ms),
        ensures
            pool_restored(*old(pool), *final(pool)),
            old(pool).idle() == 0 ==> r == Err::<Vec<User>, CoreError>(CoreError::PoolExhausted),
            old(pool).idle() > 0 && !link_ok ==> r == Err::<Vec<User>, CoreError>(
                CoreError::ConnectionLost,
            ),
            old(pool).idle() > 0 && link_ok ==> (r matches Ok(v) && v@ == table.rows_seq()),
    {
        let conn = match get_connection(pool, waited_ms) {
            Ok(c) => c,
            Err(e) => {
                return Err(e);
            },
        };
        if !link_ok {
            pool.release(conn, true);
            return Err(classify_failure(CommandFailure::LinkLost));
        }
        let rows = table.all_rows();
        pool.release(conn, false);
        Ok(rows)
    }

    /// Applies the partial update `update` at time `now` to the row
    /// carrying `user_id` and returns the updated row; fields the
    /// update leaves unset keep their stored values. Fails with
    /// `NotFound` exactly when the identity is absent, leaving the
    /// table unchanged.
    pub fn update_user(
        pool: &mut ConnectionPool,
        table: &mut UserTable,
        waited_ms: u64,
        link_ok: bool,
        user_id: u128,
        update: &UpdateUser,
        now: i64,
    ) -> (r: Result<User, CoreError>)
        requires
            acquire_resolved(*old(pool), waited_ms),
            old(table).wf(),
        ensures
            pool_restored(*old(pool), *final(pool)),
            final(table).wf(),
            old(pool).idle() == 0 ==> r == Err::<User, CoreError>(CoreError::PoolExhausted)
                && final(table).rows_seq() == old(table).rows_seq(),
            old(pool).idle() > 0 && !link_ok ==> r == Err::<User, CoreError>(
                CoreError::ConnectionLost,
            ) && final(table).rows_seq() == old(table).rows_seq(),
            old(pool).idle() > 0 && link_ok ==> final(table).rows_seq() == spec_update(
                old(table).rows_seq(),
                user_id,
                *update,
                now,
            ) && r == match spec_get(old(table).rows_seq(), user_id) {
                Some(u) => Ok::<User, CoreError>(apply_update(u, *update, now)),
                None => Err::<User, CoreError>(CoreError::NotFound),
            },
    {
        let conn = match get_connection(pool, waited_ms) {
            Ok(c) => c,
            Err(e) => {
                return Err(e);
            },
        };
        if !link_ok {
            pool.release(conn, true);
            return Err(classify_failure(CommandFailure::LinkLost));
        }
        let updated = table.update_row(user_id, update, now);
        pool.release(conn, false);
        match updated {
            Some(u) => Ok(u),
            None => Err(classify_failure(CommandFailure::ZeroRowsAffected)),
        }
    }

    /// Removes the row carrying `user_id` and reports whether a row was
    /// removed. A missing identity yields `Ok(false)` — never a
    /// failure: deletion of an absent row is not an error.
    pub fn delete_user(
        pool: &mut ConnectionPool,
        table: &mut UserTable,
        waited_ms: u64,
        link_ok: bool,
        user_id: u128,
    ) -> (r: Result<bool, CoreError>)
        requires
            acquire_resolved(*old(pool), waited_ms),
            old(table).wf(),
        ensures
            pool_restored(*old(pool), *final(pool)),
            final(table).wf(),
            old(pool).idle() == 0 ==> r == Err::<bool, CoreError>(CoreError::PoolExhausted)
                && final(table).rows_seq() == old(table).rows_seq(),
            old(pool).idle() > 0 && !link_ok ==> r == Err::<bool, CoreError>(
                CoreError::ConnectionLost,
            ) && final(table).rows_seq() == old(table).rows_seq(),
            old(pool).idle() > 0 && link_ok ==> final(table).rows_seq() == spec_delete(
                old(table).rows_seq(),
                user_id,
            ) && r == Ok::<bool, CoreError>(table_contains(old(table).rows_seq(), user_id)),
    {
        let conn = match get_connection(pool, waited_ms) {
            Ok(c) => c,
            Err(e) => {
                return Err(e);
            },
        };
        if !link_ok {
            pool.release(conn, true);
            return Err(classify_failure(CommandFailure::LinkLost));
        }
        let removed = table.delete_row(user_id);
        pool.release(conn, false);
        Ok(removed)
    }
}

} // verus!
