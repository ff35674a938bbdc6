//! What holds of the formatter and of the pipeline around it, for every
//! event, sender and room.

use vstd::prelude::*;
use crate::body::opt_view;
use crate::dispatch::Action;
use crate::event::{MessageKind, MessageLikeContent, ResolvedEvent};
use matrix_sdk::ruma::events::AnySyncTimelineEvent;
use matrix_sdk::ruma::serde::Raw;
use crate::decode::{payload_event, resolves_to};
use crate::extract::{
    is_localpart_of, parsed, MemberLookup, NotificationError, PendingNotification,
};

verus! {

/// A text message, as an event.
pub open spec fn text_event(text: String) -> ResolvedEvent {
    ResolvedEvent::MessageLike(Some(MessageLikeContent::RoomMessage(MessageKind::Text(text))))
}

/// A room message of the given kind, as an event.
pub open spec fn message_event(kind: MessageKind) -> ResolvedEvent {
    ResolvedEvent::MessageLike(Some(MessageLikeContent::RoomMessage(kind)))
}

/// In a direct room the body of a text message is its text alone; in any
/// other room it is the text behind the sender's name, a colon and a space.
/// The kind of room changes nothing but that prefix.
pub proof fn text_prefix_follows_room_kind(text: String, sender: Seq<char>)
    ensures
        text_event(text).body(sender, true) == Some(text@),
        text_event(text).body(sender, false) == Some(sender + ": "@ + text@),
        text_event(text).body(sender, false).unwrap() == sender + ": "@ + text_event(text).body(
            sender,
            true,
        ).unwrap(),
{
}

/// The body of a sticker is the same in a direct room and in any other.
pub proof fn sticker_ignores_room_kind(sender: Seq<char>)
    ensures
        ResolvedEvent::MessageLike(Some(MessageLikeContent::Sticker)).body(sender, true)
            == ResolvedEvent::MessageLike(Some(MessageLikeContent::Sticker)).body(sender, false),
        ResolvedEvent::MessageLike(Some(MessageLikeContent::Sticker)).body(sender, true) == Some(
            sender + " sent a sticker."@,
        ),
{
}

/// Of all room messages only text is worded by the kind of room.
pub proof fn only_text_follows_room_kind(kind: MessageKind, sender: Seq<char>)
    requires
        !(kind is Text),
    ensures
        message_event(kind).body(sender, true) == message_event(kind).body(sender, false),
{
}

/// An event that is not message-like has no body, whoever sent it and
/// whatever the kind of room.
pub proof fn state_event_has_no_body(sender: Seq<char>, is_direct: bool)
    ensures
        ResolvedEvent::State.body(sender, is_direct) is None,
{
}

/// A message-like event whose content is gone has no body.
pub proof fn redacted_event_has_no_body(sender: Seq<char>, is_direct: bool)
    ensures
        ResolvedEvent::MessageLike(None).body(sender, is_direct) is None,
{
}

/// Content that is neither a room message nor a sticker has no body, nor
/// has a room message of a type without a wording.
pub proof fn unsupported_content_has_no_body(sender: Seq<char>, is_direct: bool)
    ensures
        ResolvedEvent::MessageLike(Some(MessageLikeContent::Other)).body(sender, is_direct) is None,
        message_event(MessageKind::Unsupported).body(sender, is_direct) is None,
{
}

/// Formatting has no hidden state: two results for the same event, sender
/// and kind of room are the same text, or both absent.
pub proof fn formatting_is_repeatable(
    event: ResolvedEvent,
    sender: Seq<char>,
    is_direct: bool,
    first: Option<String>,
    second: Option<String>,
)
    requires
        opt_view(first) == event.body(sender, is_direct),
        opt_view(second) == event.body(sender, is_direct),
    ensures
        opt_view(first) == opt_view(second),
        first is Some ==> second is Some && first.unwrap()@ == second.unwrap()@,
{
}

/// The summary of a notification is always there, and is the name that the
/// body was worded with: the display name where the member has one, else the
/// local part of the sender's identifier. Only a failed lookup is an error.
pub proof fn summary_is_the_display_name(
    pending: PendingNotification,
    lookup: MemberLookup,
    is_direct: bool,
)
    ensures
        lookup is Failed <==> parsed(pending, lookup, is_direct) is Err,
        lookup matches MemberLookup::Failed(cause) ==> parsed(pending, lookup, is_direct) == Err::<
            (Seq<char>, Option<Seq<char>>),
            _,
        >(NotificationError::MemberLookupError(cause)),
        !(lookup is Failed) ==> {
            let name = lookup.display_name(pending.sender_localpart@);
            &&& parsed(pending, lookup, is_direct).unwrap().0 == name
            &&& parsed(pending, lookup, is_direct).unwrap().1 == pending.event.body(
                name,
                is_direct,
            )
        },
        lookup matches MemberLookup::Member(Some(name)) ==> lookup.display_name(
            pending.sender_localpart@,
        ) == name@,
        lookup is Unknown || lookup == MemberLookup::Member(None) ==> lookup.display_name(
            pending.sender_localpart@,
        ) == pending.sender_localpart@,
{
}

/// Nothing is shown for an error, nor for a notification without a body:
/// the desktop is asked only where there is a body, and then with that body
/// and summary.
pub proof fn only_a_body_is_shown(
    action: Action,
    outcome: Result<(Seq<char>, Option<Seq<char>>), NotificationError>,
)
    requires
        action.answers(outcome),
    ensures
        action is Notify <==> (outcome matches Ok((_, Some(_)))),
        outcome is Err ==> action == Action::Report(outcome->Err_0),
        outcome matches Ok((summary, Some(body))) ==> action->Notify_0.summary@ == summary
            && action->Notify_0.body@ == body,
{
}

/// A payload that does not deserialize is never shown: what becomes of it
/// is the error `MalformedEvent`, no summary and no body, and the action
/// owed to that error reports it.
pub proof fn malformed_payload_is_never_shown(
    raw: Raw<AnySyncTimelineEvent>,
    pending: Result<PendingNotification, NotificationError>,
    action: Action,
)
    requires
        payload_event(raw) is Err,
        resolves_to(raw, pending),
        pending matches Err(e) ==> action.answers(
            Err::<(Seq<char>, Option<Seq<char>>), _>(e),
        ),
    ensures
        pending matches Err(e) && e is MalformedEvent && action == Action::Report(e),
        !(action is Notify),
{
}

/// An identifier has one local part: two texts that both stand between its
/// first character and its first colon are the same text.
pub proof fn local_part_is_unique(first: Seq<char>, second: Seq<char>, id: Seq<char>)
    requires
        is_localpart_of(first, id),
        is_localpart_of(second, id),
    ensures
        first == second,
{
    let a = first.len() as int;
    let b = second.len() as int;
    if a < b {
        assert(second[a] == id.subrange(1, 1 + b)[a]);
        assert(second.contains(':'));
    }
    if b < a {
        assert(first[b] == id.subrange(1, 1 + a)[b]);
        assert(first.contains(':'));
    }
}

} // verus!
