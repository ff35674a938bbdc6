//! The notification extractor: who a notification is shown as coming from,
//! and whether it has anything to show.

use vstd::prelude::*;
use vstd::string::StringExecFns;
use crate::body::{event_notification_body, opt_view};
use crate::event::ResolvedEvent;

verus! {

/// Why a notification was not shown, or was shown only in part. Each error
/// carries the text of its cause.
#[derive(Clone, Debug, PartialEq, Eq)]
pub enum NotificationError {
    /// The payload could not be deserialized into a known event.
    MalformedEvent(String),
    /// The room's member list could not be consulted.
    MemberLookupError(String),
    /// The terminal bell could not be rung.
    BellDispatchError(String),
    /// The desktop notification could not be sent.
    NotificationSendError(String),
}

/// `"{headline}: {cause}"`.
fn log_line(headline: &str, cause: &str) -> (line: String)
    ensures
        line@ == headline@ + ": "@ + cause@,
{
    let mut line = String::from_str(headline);
    line.append(": ");
    line.append(cause);
    line
}

impl NotificationError {
    /// The text of the cause.
    pub open spec fn cause(self) -> Seq<char> {
        match self {
            NotificationError::MalformedEvent(cause) => cause@,
            NotificationError::MemberLookupError(cause) => cause@,
            NotificationError::BellDispatchError(cause) => cause@,
            NotificationError::NotificationSendError(cause) => cause@,
        }
    }

    /// What failed, by the kind of error.
    pub open spec fn headline(self) -> Seq<char> {
        match self {
            NotificationError::MalformedEvent(_) =>
                "Failed to extract notification data: malformed event"@,
            NotificationError::MemberLookupError(_) =>
                "Failed to extract notification data: member lookup failed"@,
            NotificationError::BellDispatchError(_) => "Failed to send bel"@,
            NotificationError::NotificationSendError(_) => "Failed to send notification"@,
        }
    }

    /// The line that is logged for this error: what failed, a colon and a
    /// space, and the cause.
    pub open spec fn message_spec(self) -> Seq<char> {
        self.headline() + ": "@ + self.cause()
    }

    /// The line that is logged for this error.
    pub fn message(&self) -> (line: String)
        ensures
            line@ == self.message_spec(),
    {
        match self {
            NotificationError::MalformedEvent(cause) => log_line(
                "Failed to extract notification data: malformed event",
                cause.as_str(),
            ),
            NotificationError::MemberLookupError(cause) => log_line(
                "Failed to extract notification data: member lookup failed",
                cause.as_str(),
            ),
            NotificationError::BellDispatchError(cause) => log_line(
                "Failed to send bel",
                cause.as_str(),
            ),
            NotificationError::NotificationSendError(cause) => log_line(
                "Failed to send notification",
                cause.as_str(),
            ),
        }
    }
}

/// A notification whose event has been resolved and whose sender is still to
/// be looked up in the room's member list.
#[derive(Clone, Debug, PartialEq, Eq)]
pub struct PendingNotification {
    /// The sender's full identifier, by which the member list is asked.
    pub sender_id: String,
    /// The local part of that identifier, shown where the sender has not
    /// chosen a display name.
    pub sender_localpart: String,
    /// The event itself.
    pub event: ResolvedEvent,
}

/// Whether `localpart` is the local part of the user identifier `id`: what
/// stands between its first character and its first colon.
pub open spec fn is_localpart_of(localpart: Seq<char>, id: Seq<char>) -> bool {
    &&& id.len() >= localpart.len() + 2
    &&& id.subrange(1, 1 + localpart.len() as int) == localpart
    &&& id[1 + localpart.len() as int] == ':'
    &&& !localpart.contains(':')
}

impl PendingNotification {
    /// Whether the local part on record is that of the sender's identifier.
    pub open spec fn names_its_sender(self) -> bool {
        is_localpart_of(self.sender_localpart@, self.sender_id@)
    }
}

/// What the room's member list answered when asked for the sender.
#[derive(Clone, Debug, PartialEq, Eq)]
pub enum MemberLookup {
    /// The member list could not be read, with the text of the cause.
    Failed(String),
    /// The room knows no such member.
    Unknown,
    /// The room knows the member, who may have chosen a display name.
    Member(Option<String>),
}

impl MemberLookup {
    /// The name a sender is shown under: the display name they chose, else
    /// the local part of their identifier.
    pub open spec fn display_name(self, localpart: Seq<char>) -> Seq<char> {
        match self {
            MemberLookup::Member(Some(name)) => name@,
            _ => localpart,
        }
    }
}

/// What `parse_notification` returns for a pending notification, an answer
/// of the member list and the kind of room.
pub open spec fn parsed(pending: PendingNotification, lookup: MemberLookup, is_direct: bool) -> Result<
    (Seq<char>, Option<Seq<char>>),
    NotificationError,
> {
    match lookup {
        MemberLookup::Failed(cause) => Err(NotificationError::MemberLookupError(cause)),
        _ => {
            let name = lookup.display_name(pending.sender_localpart@);
            Ok((name, pending.event.body(name, is_direct)))
        },
    }
}

/// The view of a summary and an optional body, or of the error in their place.
pub open spec fn outcome_view(outcome: Result<(String, Option<String>), NotificationError>) -> Result<
    (Seq<char>, Option<Seq<char>>),
    NotificationError,
> {
    match outcome {
        Ok((summary, body)) => Ok((summary@, opt_view(body))),
        Err(e) => Err(e),
    }
}

/// The summary and body of a notification. The summary is the sender's
/// display name, or the local part of their identifier where they have none;
/// the body is `None` where the event is not to be shown. A member list that
/// could not be read is an error with the cause of that failure: no name is
/// made up for the sender.
pub fn parse_notification(
    pending: &PendingNotification,
    lookup: &MemberLookup,
    is_direct: bool,
) -> (outcome: Result<(String, Option<String>), NotificationError>)
    ensures
        outcome_view(outcome) == parsed(*pending, *lookup, is_direct),
{
    match lookup {
        MemberLookup::Failed(cause) => Err(NotificationError::MemberLookupError(cause.clone())),
        MemberLookup::Member(Some(name)) => {
            let body = event_notification_body(&pending.event, name.as_str(), is_direct);
            Ok((String::from_str(name.as_str()), body))
        },
        _ => {
            let name = pending.sender_localpart.as_str();
            let body = event_notification_body(&pending.event, name, is_direct);
            Ok((String::from_str(name), body))
        },
    }
}

} // verus!
