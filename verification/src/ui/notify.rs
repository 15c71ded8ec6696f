use vstd::prelude::*;
use vstd::string::StringExecFns;

use crate::error::AppResult;

verus! {

/// Decides whether desktop notifications are shown.
#[derive(Debug, Clone, Copy, PartialEq, Eq, Structural)]
pub struct Notifier {
    enabled: bool,
}

/// A notification to hand to the desktop.
#[derive(Debug, Clone)]
pub struct NotificationRequest {
    pub summary: String,
    pub body: String,
}

impl Notifier {
    /// Whether notifications are shown.
    pub closed spec fn spec_enabled(self) -> bool {
        self.enabled
    }

    /// Creates a notifier that shows notifications only if `enabled`.
    pub fn new(enabled: bool) -> (n: Self)
        ensures
            n.spec_enabled() == enabled,
    {
        Notifier { enabled }
    }

    /// Whether notifications are shown.
    pub fn is_enabled(&self) -> (r: bool)
        ensures
            r == self.spec_enabled(),
    {
        self.enabled
    }

    /// The notification to show for `summary` and `body`: none when notifications are
    /// disabled.
    pub fn request(&self, summary: &str, body: &str) -> (r: Option<NotificationRequest>)
        ensures
            r is Some <==> self.spec_enabled(),
            r matches Some(n) ==> n.summary@ == summary@ && n.body@ == body@,
    {
        if !self.enabled {
            return None;
        }
        Some(NotificationRequest { summary: String::from_str(summary), body: String::from_str(body) })
    }

    /// What notifying returns once the desktop was asked: success, whether or not the
    /// desktop showed anything.
    pub fn notify(&self, shown: Option<Result<(), String>>) -> (r: AppResult<()>)
        ensures
            r is Ok,
    {
        Ok(())
    }
}

} // verus!
