//! The error taxonomy of the core, the classification of datastore-level
//! command failures, and the status-code mapping consumed by the HTTP
//! layer.

use vstd::prelude::*;

verus! {

/// Every failure the core can surface to a caller.
#[derive(Clone, Copy, Debug, PartialEq, Eq, Structural)]
pub enum CoreError {
    /// An acquire on the connection pool timed out.
    PoolExhausted,
    /// The socket failed in the middle of an operation.
    ConnectionLost,
    /// A malformed frame arrived on the notification socket.
    ProtocolError,
    /// The requested entity does not exist.
    NotFound,
    /// A unique constraint was violated.
    Conflict,
    /// An uncategorized datastore failure.
    Internal,
    /// A startup-time configuration problem; never retried.
    ConfigurationError,
    /// The listener exceeded its maximum reconnect attempts; terminal.
    Fatal,
}

/// A datastore-level failure reported by the wire for one command
/// round-trip, before classification into the taxonomy.
#[derive(Clone, Copy, Debug, PartialEq, Eq, Structural)]
pub enum CommandFailure {
    /// The datastore rejected the command over a unique constraint.
    UniqueViolation,
    /// The command affected or returned zero rows.
    ZeroRowsAffected,
    /// The connection to the datastore broke mid-operation.
    LinkLost,
    /// Anything else the datastore reported.
    Backend,
}

/// Maps a datastore-level failure onto the error taxonomy: a unique
/// constraint violation is a `Conflict`, zero rows affected is a
/// `NotFound`, a broken socket is a `ConnectionLost`, and anything else
/// is an uncategorized `Internal` failure.
pub fn classify_failure(f: CommandFailure) -> (e: CoreError)
    ensures
        e == spec_classify_failure(f),
{
    match f {
        CommandFailure::UniqueViolation => CoreError::Conflict,
        CommandFailure::ZeroRowsAffected => CoreError::NotFound,
        CommandFailure::LinkLost => CoreError::ConnectionLost,
        CommandFailure::Backend => CoreError::Internal,
    }
}

/// The classification applied by `classify_failure`.
pub open spec fn spec_classify_failure(f: CommandFailure) -> CoreError {
    match f {
        CommandFailure::UniqueViolation => CoreError::Conflict,
        CommandFailure::ZeroRowsAffected => CoreError::NotFound,
        CommandFailure::LinkLost => CoreError::ConnectionLost,
        CommandFailure::Backend => CoreError::Internal,
    }
}

/// The entire coupling surface with the HTTP layer: `NotFound` maps to
/// 404, `Conflict` to 409, and every other failure to 500.
pub fn status_code_for(e: CoreError) -> (code: u16)
    ensures
        e == CoreError::NotFound ==> code == 404,
        e == CoreError::Conflict ==> code == 409,
        e != CoreError::NotFound && e != CoreError::Conflict ==> code == 500,
{
    match e {
        CoreError::NotFound => 404,
        CoreError::Conflict => 409,
        _ => 500,
    }
}

} // verus!
