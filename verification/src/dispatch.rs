//! The registration gate and what is done with each notification once it
//! has been parsed.

use vstd::prelude::*;
use vstd::string::StringExecFns;
use crate::body::opt_view;
use crate::extract::NotificationError;

verus! {

/// The settings a user can tune.
#[derive(Clone, Copy, Debug, PartialEq, Eq)]
pub struct Tunables {
    /// Whether desktop notifications are shown at all.
    pub notifications: bool,
}

/// The settings of the application, as far as notifications read them.
#[derive(Clone, Copy, Debug, PartialEq, Eq)]
pub struct ApplicationSettings {
    pub tunables: Tunables,
}

/// How long a desktop notification stays up, in milliseconds.
pub const ALERT_TIMEOUT_MS: u32 = 3000;

/// What the desktop is asked to show.
#[derive(Clone, Debug, PartialEq, Eq)]
pub struct Alert {
    pub summary: String,
    pub body: String,
    pub app_name: String,
    pub timeout_ms: u32,
    /// The identifier of the notification's single action.
    pub action_id: String,
    /// The label of that action.
    pub action_label: String,
}

impl Alert {
    /// The alert that shows `body` under `summary`.
    pub open spec fn shows(self, summary: Seq<char>, body: Seq<char>) -> bool {
        &&& self.summary@ == summary
        &&& self.body@ == body
        &&& self.app_name@ == "iamb"@
        &&& self.timeout_ms == ALERT_TIMEOUT_MS
        &&& self.action_id@ == "default"@
        &&& self.action_label@ == "default"@
    }
}

/// What is done with one notification.
#[derive(Clone, Debug, PartialEq, Eq)]
pub enum Action {
    /// Nothing: the event is not one to show.
    Drop,
    /// The error is logged, and nothing is shown.
    Report(NotificationError),
    /// The bell is rung and the alert is shown.
    Notify(Alert),
}

impl Action {
    /// Whether this is the action owed to `outcome`.
    pub open spec fn answers(
        self,
        outcome: Result<(Seq<char>, Option<Seq<char>>), NotificationError>,
    ) -> bool {
        match outcome {
            Err(e) => self == Action::Report(e),
            Ok((_, None)) => self == Action::Drop,
            Ok((summary, Some(body))) => self is Notify && self->Notify_0.shows(summary, body),
        }
    }
}

/// Whether notifications are to be registered for at all. The setting is
/// read once: where this returns `false`, no notification is handled for the
/// rest of the session.
pub fn register_notifications(settings: &ApplicationSettings) -> (active: bool)
    ensures
        active == settings.tunables.notifications,
{
    settings.tunables.notifications
}

/// What to do with a parsed notification: report an error, drop a
/// notification without a body, and show every other.
pub fn dispatch_action(outcome: Result<(String, Option<String>), NotificationError>) -> (action:
    Action)
    ensures
        action.answers(crate::extract::outcome_view(outcome)),
{
    match outcome {
        Err(e) => Action::Report(e),
        Ok((_, None)) => Action::Drop,
        Ok((summary, Some(body))) => Action::Notify(
            Alert {
                summary,
                body,
                app_name: String::from_str("iamb"),
                timeout_ms: ALERT_TIMEOUT_MS,
                action_id: String::from_str("default"),
                action_label: String::from_str("default"),
            },
        ),
    }
}

} // verus!
