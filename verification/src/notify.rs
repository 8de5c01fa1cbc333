//! The notification switch: whether the surrounding application may
//! surface a transient notice. Showing the notice is best-effort I/O and
//! stays with the caller; only the decision lives here.

use vstd::prelude::*;

verus! {

/// Decides whether user-facing notices are shown.
#[derive(Debug, Clone)]
pub struct NotificationManager {
    enabled: bool,
}

impl NotificationManager {
    /// Whether notices are enabled.
    pub closed spec fn spec_enabled(&self) -> bool {
        self.enabled
    }

    /// A manager with notices enabled.
    pub fn new() -> (r: Self)
        ensures
            r.spec_enabled(),
    {
        NotificationManager { enabled: true }
    }

    /// Turns notices on or off.
    pub fn set_enabled(&mut self, enabled: bool)
        ensures
            final(self).spec_enabled() == enabled,
    {
        self.enabled = enabled;
    }

    /// Whether notices are enabled; a disabled manager's `send` must do
    /// nothing and report success.
    pub fn is_enabled(&self) -> (r: bool)
        ensures
            r == self.spec_enabled(),
    {
        self.enabled
    }
}

} // verus!
