//! The body formatter: from an event, the sender's display name and the kind
//! of room to the text of the notification.

use vstd::prelude::*;
use vstd::string::StringExecFns;
use crate::event::{prefixed_text, MessageKind, MessageLikeContent, ResolvedEvent};

verus! {

/// The view of an optional string.
pub open spec fn opt_view(s: Option<String>) -> Option<Seq<char>> {
    match s {
        Some(s) => Some(s@),
        None => None,
    }
}

/// `sender` followed by a fixed phrase.
fn sender_did(sender_name: &str, phrase: &str) -> (out: String)
    ensures
        out@ == sender_name@ + phrase@,
{
    let mut out = String::from_str(sender_name);
    out.append(phrase);
    out
}

/// `"{sender}: {text}"`.
fn sender_said(sender_name: &str, text: &str) -> (out: String)
    ensures
        out@ == prefixed_text(sender_name@, text@),
{
    let mut out = String::from_str(sender_name);
    out.append(": ");
    out.append(text);
    out
}

/// The body for a room message.
fn message_body(kind: &MessageKind, sender_name: &str, is_direct: bool) -> (body: Option<String>)
    ensures
        opt_view(body) == kind.body(sender_name@, is_direct),
{
    match kind {
        MessageKind::Audio => Some(sender_did(sender_name, " sent an audio file.")),
        MessageKind::Emote(text) => Some(sender_said(sender_name, text.as_str())),
        MessageKind::File => Some(sender_did(sender_name, " sent a file.")),
        MessageKind::Image => Some(sender_did(sender_name, " sent an image.")),
        MessageKind::Location => Some(sender_did(sender_name, " sent their location.")),
        MessageKind::Notice(text) => Some(sender_said(sender_name, text.as_str())),
        MessageKind::ServerNotice(text) => Some(sender_said(sender_name, text.as_str())),
        MessageKind::Text(text) => {
            if is_direct {
                Some(String::from_str(text.as_str()))
            } else {
                Some(sender_said(sender_name, text.as_str()))
            }
        },
        MessageKind::Video => Some(sender_did(sender_name, " sent a video.")),
        MessageKind::VerificationRequest => Some(
            sender_did(sender_name, " sent a verification request."),
        ),
        MessageKind::Unsupported => None,
    }
}

/// The text to show for `event`, or `None` where nothing is to be shown:
/// for state events, redacted events, and content without a wording.
pub fn event_notification_body(event: &ResolvedEvent, sender_name: &str, is_direct: bool) -> (body:
    Option<String>)
    ensures
        opt_view(body) == event.body(sender_name@, is_direct),
{
    match event {
        ResolvedEvent::MessageLike(Some(MessageLikeContent::RoomMessage(kind))) => message_body(
            kind,
            sender_name,
            is_direct,
        ),
        ResolvedEvent::MessageLike(Some(MessageLikeContent::Sticker)) => Some(
            sender_did(sender_name, " sent a sticker."),
        ),
        ResolvedEvent::MessageLike(Some(MessageLikeContent::Other)) => None,
        ResolvedEvent::MessageLike(None) => None,
        ResolvedEvent::State => None,
    }
}

} // verus!
