//! The trigger registrar: the startup step that installs the
//! datastore-side function and trigger which emit a notification on
//! every row insert.
//!
//! The DDL itself is issued by the caller in "create or replace" form,
//! so issuing it again on a later startup changes nothing server-side;
//! the registrar holds the decision logic around that round-trip. Both
//! the command executor and the notification listener depend on this
//! step having succeeded once at startup, and a failure here is fatal
//! to startup: the relay cannot function without its triggers.

use vstd::prelude::*;

use crate::errors::CoreError;

verus! {

/// The idempotent installer of the notification-emitting function and
/// trigger.
pub struct TriggerRegistrar {
    installed: bool,
}

impl TriggerRegistrar {
    /// Whether installation has succeeded during this process's
    /// lifetime.
    pub closed spec fn installed(&self) -> bool {
        self.installed
    }

    /// A fresh registrar: nothing installed yet in this process.
    pub fn new() -> (r: TriggerRegistrar)
        ensures
            !r.installed(),
    {
        TriggerRegistrar { installed: false }
    }

    /// Whether the caller still has to issue the installation DDL.
    pub fn needs_install(&self) -> (r: bool)
        ensures
            r == !self.installed(),
    {
        !self.installed
    }

    /// Records the outcome of the installation round-trip, `ddl_ok`
    /// reporting whether every DDL statement succeeded. Idempotent and
    /// safe to call on every startup: once installed, the registrar
    /// stays installed and succeeds regardless of the new outcome.
    /// Before that, it succeeds exactly when the round-trip did; a
    /// failure is a startup-time configuration error, surfaced to the
    /// process-level supervisor and never retried here.
    pub fn ensure_installed(&mut self, ddl_ok: bool) -> (r: Result<(), CoreError>)
        ensures
            final(self).installed() == (old(self).installed() || ddl_ok),
            r == (if old(self).installed() || ddl_ok {
                Ok::<(), CoreError>(())
            } else {
                Err::<(), CoreError>(CoreError::ConfigurationError)
            }),
    {
        if self.installed {
            return Ok(());
        }
        if ddl_ok {
            self.installed = true;
            Ok(())
        } else {
            Err(CoreError::ConfigurationError)
        }
    }
}

} // verus!
