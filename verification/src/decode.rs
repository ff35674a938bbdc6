//! From the raw event of a push notification to the library's own model of
//! it. The event types are those of the Matrix SDK; what is read from them
//! is read here and nowhere else.

use vstd::prelude::*;
use matrix_sdk::ruma::events::room::message::MessageType;
use matrix_sdk::ruma::events::{
    AnyMessageLikeEventContent, AnySyncMessageLikeEvent, AnySyncTimelineEvent,
};
use matrix_sdk::ruma::exports::serde_json::Error;
use matrix_sdk::ruma::serde::Raw;
use crate::event::{MessageKind, MessageLikeContent, ResolvedEvent};
use crate::extract::{is_localpart_of, NotificationError, PendingNotification};

verus! {

/// `matrix_sdk::ruma::serde::Raw`: JSON text that has not been deserialized.
#[verifier::external_type_specification]
#[verifier::external_body]
#[verifier::reject_recursive_types(T)]
pub struct ExRaw<T>(Raw<T>);

/// The error of `serde_json`, as the SDK hands it on: why a payload did not
/// deserialize.
#[verifier::external_type_specification]
#[verifier::external_body]
pub struct ExJsonError(Error);

/// `matrix_sdk::ruma::events::AnySyncTimelineEvent`: an event of a room's
/// timeline, as a sync response delivers it.
#[verifier::external_type_specification]
#[verifier::external_body]
pub struct ExAnySyncTimelineEvent(AnySyncTimelineEvent);

/// `matrix_sdk::ruma::events::AnySyncMessageLikeEvent`: a message-like event
/// of a room's timeline.
#[verifier::external_type_specification]
#[verifier::external_body]
pub struct ExAnySyncMessageLikeEvent(AnySyncMessageLikeEvent);

/// `matrix_sdk::ruma::events::AnyMessageLikeEventContent`: the content of a
/// message-like event.
#[verifier::external_type_specification]
#[verifier::external_body]
pub struct ExAnyMessageLikeEventContent(AnyMessageLikeEventContent);

/// `matrix_sdk::ruma::events::room::message::MessageType`: the content of a
/// room message, by message type.
#[verifier::external_type_specification]
#[verifier::external_body]
pub struct ExMessageType(MessageType);

/// Message-like content, told apart as far as notifications care.
pub enum ContentShape {
    RoomMessage(MessageType),
    Sticker,
    Other,
}

/// The event that a payload deserializes to, or why it does not
/// deserialize: what `Raw::deserialize` makes of the payload.
pub uninterp spec fn payload_event(raw: Raw<AnySyncTimelineEvent>) -> Result<
    AnySyncTimelineEvent,
    Error,
>;

/// The text of a deserialization error: what its `to_string` returns.
pub uninterp spec fn error_text(error: Error) -> Seq<char>;

/// The text of the identifier of an event's sender: what
/// `AnySyncTimelineEvent::sender` returns.
pub uninterp spec fn event_sender(event: AnySyncTimelineEvent) -> Seq<char>;

/// The message-like event that a timeline event holds, or `None` for a
/// state event.
pub uninterp spec fn event_message(event: AnySyncTimelineEvent) -> Option<AnySyncMessageLikeEvent>;

/// The content of a message-like event, or `None` once it has been
/// redacted: what `AnySyncMessageLikeEvent::original_content` returns.
pub uninterp spec fn message_content(message: AnySyncMessageLikeEvent) -> Option<
    AnyMessageLikeEventContent,
>;

/// Which of a room message, a sticker or anything else a content is.
pub uninterp spec fn content_shape_of(content: AnyMessageLikeEventContent) -> ContentShape;

/// The kind of a room message's type, with the text of the textual ones.
pub uninterp spec fn message_type_kind(msgtype: MessageType) -> MessageKind;

/// The library's model of message-like content.
pub open spec fn content_model(content: AnyMessageLikeEventContent) -> MessageLikeContent {
    match content_shape_of(content) {
        ContentShape::RoomMessage(msgtype) => MessageLikeContent::RoomMessage(
            message_type_kind(msgtype),
        ),
        ContentShape::Sticker => MessageLikeContent::Sticker,
        ContentShape::Other => MessageLikeContent::Other,
    }
}

/// The library's model of a timeline event: a state event, or a
/// message-like event with the model of its content, if it still has one.
pub open spec fn event_model(event: AnySyncTimelineEvent) -> ResolvedEvent {
    match event_message(event) {
        None => ResolvedEvent::State,
        Some(message) => ResolvedEvent::MessageLike(
            match message_content(message) {
                None => None,
                Some(content) => Some(content_model(content)),
            },
        ),
    }
}

/// Whether `pending` is what becomes of the payload `raw`: `MalformedEvent`
/// with the text of the failure, exactly where the payload does not
/// deserialize; else the sender and the model of the event it deserializes
/// to.
pub open spec fn resolves_to(
    raw: Raw<AnySyncTimelineEvent>,
    pending: Result<PendingNotification, NotificationError>,
) -> bool {
    match payload_event(raw) {
        Err(error) => malformed(pending, error),
        Ok(event) => pending matches Ok(p) && p.carries(event),
    }
}

/// Whether `pending` is the error `MalformedEvent` with the text of `error`.
pub open spec fn malformed(
    pending: Result<PendingNotification, NotificationError>,
    error: Error,
) -> bool {
    pending matches Err(NotificationError::MalformedEvent(cause)) && cause@ == error_text(error)
}

impl PendingNotification {
    /// Whether this is the pending notification of `event`: its sender, the
    /// local part of that sender, and the model of the event.
    pub open spec fn carries(self, event: AnySyncTimelineEvent) -> bool {
        &&& self.sender_id@ == event_sender(event)
        &&& self.names_its_sender()
        &&& self.event == event_model(event)
    }
}

/// Calls `Raw::deserialize`. The claim is that the outcome depends on the
/// payload alone: it is `payload_event` of the payload.
#[verifier::external_body]
fn deserialize_event(raw: &Raw<AnySyncTimelineEvent>) -> (event: Result<
    AnySyncTimelineEvent,
    Error,
>)
    ensures
        event == payload_event(*raw),
{
    raw.deserialize()
}

/// Calls `to_string` on a deserialization error, which writes it out as its
/// `Display` does. The claim is that the result is `error_text` of the
/// error.
#[verifier::external_body]
fn error_cause(error: &Error) -> (cause: String)
    ensures
        cause@ == error_text(*error),
{
    error.to_string()
}

/// Calls `AnySyncTimelineEvent::sender`, and `UserId::as_str` and
/// `UserId::localpart` on what it returns, and copies both texts. The claim
/// is that the first text is the identifier of the event's sender, and what
/// the source of `localpart` shows: the local part is the text of the
/// identifier from behind its first character up to its first colon.
#[verifier::external_body]
fn sender_parts(event: &AnySyncTimelineEvent) -> (parts: (String, String))
    ensures
        parts.0@ == event_sender(*event),
        is_localpart_of(parts.1@, parts.0@),
{
    let sender = event.sender();
    (sender.as_str().to_owned(), sender.localpart().to_owned())
}

/// Tells the two variants of `AnySyncTimelineEvent` apart: the message-like
/// event, or `None` for a state event. The claim is that the result is
/// `event_message` of the event.
#[verifier::external_body]
fn message_like(event: AnySyncTimelineEvent) -> (inner: Option<AnySyncMessageLikeEvent>)
    ensures
        inner == event_message(event),
{
    match event {
        AnySyncTimelineEvent::MessageLike(inner) => Some(inner),
        AnySyncTimelineEvent::State(_) => None,
    }
}

/// Calls `AnySyncMessageLikeEvent::original_content`, which gives the
/// content of an event that has not been redacted. The claim is that the
/// result is `message_content` of the event.
#[verifier::external_body]
fn original_content(event: &AnySyncMessageLikeEvent) -> (content: Option<
    AnyMessageLikeEventContent,
>)
    ensures
        content == message_content(*event),
{
    event.original_content()
}

/// Tells the variants of `AnyMessageLikeEventContent` apart: a room message
/// with its message type, a sticker, or anything else. The claim is that the
/// result is `content_shape_of` the content.
#[verifier::external_body]
fn content_shape(content: AnyMessageLikeEventContent) -> (shape: ContentShape)
    ensures
        shape == content_shape_of(content),
{
    match content {
        AnyMessageLikeEventContent::RoomMessage(room) => ContentShape::RoomMessage(
            room.msgtype,
        ),
        AnyMessageLikeEventContent::Sticker(_) => ContentShape::Sticker,
        _ => ContentShape::Other,
    }
}

/// Tells the variants of `MessageType` apart, keeping the `body` field of
/// the textual ones. The claim is that the result is `message_type_kind` of
/// the message type.
#[verifier::external_body]
fn message_kind(msgtype: MessageType) -> (kind: MessageKind)
    ensures
        kind == message_type_kind(msgtype),
{
    match msgtype {
        MessageType::Audio(_) => MessageKind::Audio,
        MessageType::Emote(content) => MessageKind::Emote(content.body),
        MessageType::File(_) => MessageKind::File,
        MessageType::Image(_) => MessageKind::Image,
        MessageType::Location(_) => MessageKind::Location,
        MessageType::Notice(content) => MessageKind::Notice(content.body),
        MessageType::ServerNotice(content) => MessageKind::ServerNotice(content.body),
        MessageType::Text(content) => MessageKind::Text(content.body),
        MessageType::Video(_) => MessageKind::Video,
        MessageType::VerificationRequest(_) => MessageKind::VerificationRequest,
        _ => MessageKind::Unsupported,
    }
}

/// The library's model of a deserialized event.
fn resolve_event(event: AnySyncTimelineEvent) -> (resolved: ResolvedEvent)
    ensures
        resolved == event_model(event),
{
    match message_like(event) {
        None => ResolvedEvent::State,
        Some(message) => match original_content(&message) {
            None => ResolvedEvent::MessageLike(None),
            Some(content) => match content_shape(content) {
                ContentShape::RoomMessage(msgtype) => ResolvedEvent::MessageLike(
                    Some(MessageLikeContent::RoomMessage(message_kind(msgtype))),
                ),
                ContentShape::Sticker => ResolvedEvent::MessageLike(
                    Some(MessageLikeContent::Sticker),
                ),
                ContentShape::Other => ResolvedEvent::MessageLike(Some(MessageLikeContent::Other)),
            },
        },
    }
}

/// What becomes of a payload once deserialization has been tried: a payload
/// that did not deserialize is malformed, and the error says why; every
/// other is pending on the lookup of its sender, with the sender and the
/// model of its event.
pub fn pending_notification(event: Result<AnySyncTimelineEvent, Error>) -> (pending: Result<
    PendingNotification,
    NotificationError,
>)
    ensures
        event is Err <==> pending is Err,
        event matches Err(error) ==> malformed(pending, error),
        event matches Ok(e) ==> pending matches Ok(p) && p.carries(e),
{
    match event {
        Err(error) => Err(NotificationError::MalformedEvent(error_cause(&error))),
        Ok(event) => {
            let (sender_id, sender_localpart) = sender_parts(&event);
            Ok(PendingNotification { sender_id, sender_localpart, event: resolve_event(event) })
        },
    }
}

/// Deserializes the event of a push notification and reads from it what a
/// notification needs: the sender and the model of the event. The only
/// error is `MalformedEvent`, for exactly the payloads that do not
/// deserialize.
pub fn resolve_notification(raw: &Raw<AnySyncTimelineEvent>) -> (pending: Result<
    PendingNotification,
    NotificationError,
>)
    ensures
        resolves_to(*raw, pending),
{
    pending_notification(deserialize_event(raw))
}

} // verus!
