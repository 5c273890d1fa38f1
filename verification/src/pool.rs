//! The bounded connection pool: a fixed number of synchronous datastore
//! connections checked out and returned under a counting discipline.
//!
//! The pool here is the accounting and decision logic of that resource.
//! Physical connection establishment, the blocking wait for a free slot,
//! and the clock live with the caller, which drives `poll_acquire` with
//! the time it has already waited. All physical connections of the pool
//! are established when the pool is constructed (eager establishment,
//! not lazy first-use establishment). A connection reported as failed on
//! release is replaced by a fresh one at that moment (replace-on-error);
//! connections are never health-checked proactively.
//!
//! The pool's connections are disjoint from the dedicated listener
//! connection of the notification channel for the lifetime of the
//! process: a `PooledConnection` can only be produced by `poll_acquire`,
//! and the notification channel neither holds nor accepts one.

use vstd::prelude::*;

use crate::errors::CoreError;

verus! {

/// An exclusively-owned handle to one physical pooled connection. Owned
/// by exactly one in-flight command at a time; handed back to the pool
/// through `release` on every exit path.
#[derive(Debug)]
pub struct PooledConnection {
    conn_id: usize,
}

impl PooledConnection {
    /// The identity of the underlying physical connection.
    pub closed spec fn id(&self) -> int {
        self.conn_id as int
    }

    /// The identity of the underlying physical connection, for the
    /// caller that binds the handle to a real socket.
    pub fn conn_id(&self) -> (r: usize)
        ensures
            r as int == self.id(),
    {
        self.conn_id
    }
}

/// The outcome of one acquire poll.
#[derive(Debug)]
pub enum AcquireAttempt {
    /// A connection was free and is now checked out by the caller.
    Granted(PooledConnection),
    /// The pool is full and the timeout has not elapsed: keep waiting.
    Pending,
    /// The pool is full and the configured timeout has elapsed.
    Exhausted,
}

/// A bounded set of reusable datastore connections.
pub struct ConnectionPool {
    capacity: usize,
    idle_ids: Vec<usize>,
    next_fresh_id: usize,
    acquire_timeout_ms: u64,
}

impl ConnectionPool {
    /// The fixed capacity the pool was constructed with.
    pub closed spec fn capacity(&self) -> int {
        self.capacity as int
    }

    /// How many connections are currently idle in the pool.
    pub closed spec fn idle(&self) -> int {
        self.idle_ids@.len() as int
    }

    /// How many connections are currently checked out.
    pub open spec fn outstanding(&self) -> int {
        self.capacity() - self.idle()
    }

    /// The configured acquire timeout, in milliseconds.
    pub closed spec fn timeout_ms(&self) -> u64 {
        self.acquire_timeout_ms
    }

    /// Well-formedness: the capacity is positive and no more than
    /// `capacity` connections can ever be idle at once.
    pub open spec fn wf(&self) -> bool {
        1 <= self.capacity() && 0 <= self.idle() <= self.capacity()
    }

    /// Constructs a pool of `capacity` connections, all established and
    /// idle. A capacity of zero is rejected as a configuration error.
    pub fn new(capacity: usize, acquire_timeout_ms: u64) -> (r: Result<ConnectionPool, CoreError>)
        ensures
            capacity >= 1 ==> (r matches Ok(p) && p.wf() && p.capacity() == capacity
                && p.outstanding() == 0 && p.timeout_ms() == acquire_timeout_ms),
            capacity == 0 ==> r == Err::<ConnectionPool, CoreError>(CoreError::ConfigurationError),
    {
        if capacity == 0 {
            return Err(CoreError::ConfigurationError);
        }
        let mut idle_ids: Vec<usize> = Vec::new();
        let mut i: usize = 0;
        while i < capacity
            invariant
                i <= capacity,
                idle_ids@.len() == i,
            decreases capacity - i,
        {
            idle_ids.push(i);
            i = i + 1;
        }
        Ok(ConnectionPool { capacity, idle_ids, next_fresh_id: capacity, acquire_timeout_ms })
    }

    /// Reports whether a wait of `waited_ms` has exhausted the
    /// configured acquire timeout.
    pub fn wait_exhausted(&self, waited_ms: u64) -> (r: bool)
        ensures
            r == (waited_ms >= self.timeout_ms()),
    {
        waited_ms >= self.acquire_timeout_ms
    }

    /// One poll of a blocking acquire, `waited_ms` after the acquire
    /// began. While a connection is free the acquire is granted at once;
    /// under a full pool the caller is told to keep waiting until the
    /// configured timeout has elapsed, and only then does the acquire
    /// fail. No outcome ever creates an extra connection: the number
    /// checked out can grow only by the one granted handle, and never
    /// beyond capacity.
    pub fn poll_acquire(&mut self, waited_ms: u64) -> (r: AcquireAttempt)
        requires
            old(self).wf(),
        ensures
            final(self).wf(),
            final(self).capacity() == old(self).capacity(),
            final(self).timeout_ms() == old(self).timeout_ms(),
            old(self).idle() > 0 ==> (r is Granted
                && final(self).outstanding() == old(self).outstanding() + 1),
            old(self).idle() == 0 && waited_ms < old(self).timeout_ms() ==> (r is Pending
                && final(self).outstanding() == old(self).outstanding()),
            old(self).idle() == 0 && waited_ms >= old(self).timeout_ms() ==> (r is Exhausted
                && final(self).outstanding() == old(self).outstanding()),
            final(self).outstanding() <= final(self).capacity(),
    {
        match self.idle_ids.pop() {
            Some(conn_id) => AcquireAttempt::Granted(PooledConnection { conn_id }),
            None => {
                if waited_ms >= self.acquire_timeout_ms {
                    AcquireAttempt::Exhausted
                } else {
                    AcquireAttempt::Pending
                }
            },
        }
    }

    /// Returns a checked-out connection to the pool, making its capacity
    /// available again. When the command that used the connection failed
    /// in a way that may have broken the socket, the caller passes
    /// `failed`, and the returned slot is filled with a fresh physical
    /// connection instead of the broken one (replace-on-error).
    pub fn release(&mut self, c: PooledConnection, failed: bool)
        requires
            old(self).wf(),
            old(self).outstanding() > 0,
        ensures
            final(self).wf(),
            final(self).capacity() == old(self).capacity(),
            final(self).timeout_ms() == old(self).timeout_ms(),
            final(self).outstanding() == old(self).outstanding() - 1,
    {
        if failed {
            let replacement: usize = self.next_fresh_id;
            self.next_fresh_id = if self.next_fresh_id < usize::MAX {
                self.next_fresh_id + 1
            } else {
                0
            };
            self.idle_ids.push(replacement);
        } else {
            self.idle_ids.push(c.conn_id);
        }
    }
}

/// Over any sequence of `poll_acquire` and `release` calls, the number
/// of concurrently outstanding `PooledConnection`s never exceeds the
/// pool capacity: the pool is constructed well-formed with zero
/// outstanding, every operation's contract preserves well-formedness
/// and keeps the capacity fixed, and a well-formed pool always has its
/// outstanding count between zero and its capacity.
pub proof fn lemma_outstanding_never_exceeds_capacity(p: ConnectionPool)
    requires
        p.wf(),
    ensures
        0 <= p.outstanding() <= p.capacity(),
{
}

/// Builds the process-wide connection pool from its configuration.
/// Succeeds exactly on a positive capacity; a zero capacity is a
/// configuration error.
pub fn establish_connection_pool(capacity: usize, acquire_timeout_ms: u64) -> (r: Result<
    ConnectionPool,
    CoreError,
>)
    ensures
        capacity >= 1 ==> (r matches Ok(p) && p.wf() && p.capacity() == capacity
            && p.outstanding() == 0 && p.timeout_ms() == acquire_timeout_ms),
        capacity == 0 ==> r == Err::<ConnectionPool, CoreError>(CoreError::ConfigurationError),
{
    ConnectionPool::new(capacity, acquire_timeout_ms)
}

/// A resolved acquire: called once the blocking wait has ended, either
/// because a connection is free or because `waited_ms` has reached the
/// configured timeout. Yields a connection exactly when one is free,
/// and `PoolExhausted` exactly when the pool is still full after the
/// full timeout.
pub fn get_connection(pool: &mut ConnectionPool, waited_ms: u64) -> (r: Result<
    PooledConnection,
    CoreError,
>)
    requires
        old(pool).wf(),
        old(pool).idle() > 0 || waited_ms >= old(pool).timeout_ms(),
    ensures
        final(pool).wf(),
        final(pool).capacity() == old(pool).capacity(),
        final(pool).timeout_ms() == old(pool).timeout_ms(),
        old(pool).idle() > 0 ==> (r is Ok
            && final(pool).outstanding() == old(pool).outstanding() + 1),
        old(pool).idle() == 0 ==> (r == Err::<PooledConnection, CoreError>(CoreError::PoolExhausted)
            && final(pool).outstanding() == old(pool).outstanding()),
{
    match pool.poll_acquire(waited_ms) {
        AcquireAttempt::Granted(c) => Ok(c),
        AcquireAttempt::Pending => Err(CoreError::PoolExhausted),
        AcquireAttempt::Exhausted => Err(CoreError::PoolExhausted),
    }
}

} // verus!
