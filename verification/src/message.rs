//! The notification value received from the datastore's wire protocol.

use vstd::prelude::*;

verus! {

/// An immutable change notification as received from the wire: the
/// channel it was published on, an opaque payload (conventionally a
/// JSON serialization of the affected row, never parsed by the core),
/// and the identity of the originating datastore session.
#[derive(Clone, Debug, PartialEq)]
pub struct NotificationMessage {
    pub channel: String,
    pub payload: String,
    pub originating_session_id: i32,
}

impl NotificationMessage {
    /// An exact, independent copy of the message.
    pub fn duplicate(&self) -> (r: NotificationMessage)
        ensures
            r == *self,
    {
        NotificationMessage {
            channel: self.channel.clone(),
            payload: self.payload.clone(),
            originating_session_id: self.originating_session_id,
        }
    }
}

} // verus!
