//! The data model of a resolved timeline event, reduced to what a desktop
//! notification needs to know about it.

use vstd::prelude::*;

verus! {

/// What a room message carries, by message type. Only the textual kinds keep
/// their text; media, location and verification requests are never shown.
#[derive(Clone, Debug, PartialEq, Eq)]
pub enum MessageKind {
    Audio,
    Emote(String),
    File,
    Image,
    Location,
    Notice(String),
    ServerNotice(String),
    Text(String),
    Video,
    VerificationRequest,
    /// A message type this library has no wording for.
    Unsupported,
}

/// The content of a message-like event.
#[derive(Clone, Debug, PartialEq, Eq)]
pub enum MessageLikeContent {
    RoomMessage(MessageKind),
    Sticker,
    /// Any other message-like content: reactions, call signalling,
    /// undecryptable payloads and so on.
    Other,
}

/// A timeline event after deserialization.
#[derive(Clone, Debug, PartialEq, Eq)]
pub enum ResolvedEvent {
    /// A message-like event; the content is `None` once it has been redacted.
    MessageLike(Option<MessageLikeContent>),
    /// A room state change.
    State,
}

/// `"{sender}: {text}"`.
pub open spec fn prefixed_text(sender: Seq<char>, text: Seq<char>) -> Seq<char> {
    sender + ": "@ + text
}

impl MessageKind {
    /// The notification body of a room message of this kind.
    pub open spec fn body(self, sender: Seq<char>, is_direct: bool) -> Option<Seq<char>> {
        match self {
            MessageKind::Audio => Some(sender + " sent an audio file."@),
            MessageKind::Emote(text) => Some(prefixed_text(sender, text@)),
            MessageKind::File => Some(sender + " sent a file."@),
            MessageKind::Image => Some(sender + " sent an image."@),
            MessageKind::Location => Some(sender + " sent their location."@),
            MessageKind::Notice(text) => Some(prefixed_text(sender, text@)),
            MessageKind::ServerNotice(text) => Some(prefixed_text(sender, text@)),
            MessageKind::Text(text) => Some(
                if is_direct {
                    text@
                } else {
                    prefixed_text(sender, text@)
                },
            ),
            MessageKind::Video => Some(sender + " sent a video."@),
            MessageKind::VerificationRequest => Some(sender + " sent a verification request."@),
            MessageKind::Unsupported => None,
        }
    }
}

impl MessageLikeContent {
    /// The notification body of message-like content.
    pub open spec fn body(self, sender: Seq<char>, is_direct: bool) -> Option<Seq<char>> {
        match self {
            MessageLikeContent::RoomMessage(kind) => kind.body(sender, is_direct),
            MessageLikeContent::Sticker => Some(sender + " sent a sticker."@),
            MessageLikeContent::Other => None,
        }
    }
}

impl ResolvedEvent {
    /// The notification body of an event, if it is to be shown at all.
    pub open spec fn body(self, sender: Seq<char>, is_direct: bool) -> Option<Seq<char>> {
        match self {
            ResolvedEvent::MessageLike(Some(content)) => content.body(sender, is_direct),
            ResolvedEvent::MessageLike(None) => None,
            ResolvedEvent::State => None,
        }
    }
}

} // verus!
