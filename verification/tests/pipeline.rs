use chat_notifications::decode::{pending_notification, resolve_notification};
use chat_notifications::dispatch::{
    dispatch_action, register_notifications, Action, ApplicationSettings, Tunables,
    ALERT_TIMEOUT_MS,
};
use chat_notifications::event::{MessageKind, MessageLikeContent, ResolvedEvent};
use chat_notifications::extract::{
    parse_notification, MemberLookup, NotificationError, PendingNotification,
};
use matrix_sdk::ruma::events::AnySyncTimelineEvent;
use matrix_sdk::ruma::serde::Raw;

fn raw(json: &str) -> Raw<AnySyncTimelineEvent> {
    Raw::from_json_string(json.to_string()).unwrap()
}

fn room_message(sender: &str, content: &str) -> Raw<AnySyncTimelineEvent> {
    raw(&format!(
        "{{\"type\":\"m.room.message\",\"event_id\":\"$1:example.org\",\"sender\":\"{}\",\
         \"origin_server_ts\":1,\"content\":{}}}",
        sender, content
    ))
}

fn resolved(content: &str) -> ResolvedEvent {
    resolve_notification(&room_message("@alice:example.org", content)).unwrap().event
}

fn pending(event: ResolvedEvent) -> PendingNotification {
    PendingNotification {
        sender_id: "@alice:example.org".to_string(),
        sender_localpart: "alice".to_string(),
        event,
    }
}

fn text(body: &str) -> ResolvedEvent {
    ResolvedEvent::MessageLike(Some(MessageLikeContent::RoomMessage(MessageKind::Text(
        body.to_string(),
    ))))
}

#[test]
fn text_message_is_resolved_with_its_sender() {
    let got = resolve_notification(&room_message(
        "@alice:example.org",
        "{\"msgtype\":\"m.text\",\"body\":\"hi\"}",
    ))
    .unwrap();
    assert_eq!(got.sender_id, "@alice:example.org");
    assert_eq!(got.sender_localpart, "alice");
    assert_eq!(got.event, text("hi"));
}

#[test]
fn textual_message_types_keep_their_text() {
    let kind = |k: MessageKind| ResolvedEvent::MessageLike(Some(MessageLikeContent::RoomMessage(k)));
    assert_eq!(
        resolved("{\"msgtype\":\"m.emote\",\"body\":\"waves\"}"),
        kind(MessageKind::Emote("waves".to_string()))
    );
    assert_eq!(
        resolved("{\"msgtype\":\"m.notice\",\"body\":\"done\"}"),
        kind(MessageKind::Notice("done".to_string()))
    );
    assert_eq!(
        resolved(
            "{\"msgtype\":\"m.server_notice\",\"body\":\"quota\",\
             \"server_notice_type\":\"m.server_notice.usage_limit_reached\"}"
        ),
        kind(MessageKind::ServerNotice("quota".to_string()))
    );
}

#[test]
fn media_message_types_are_told_apart() {
    let kind = |k: MessageKind| ResolvedEvent::MessageLike(Some(MessageLikeContent::RoomMessage(k)));
    let media = |msgtype: &str| {
        resolved(&format!(
            "{{\"msgtype\":\"{}\",\"body\":\"f\",\"url\":\"mxc://example.org/abc\"}}",
            msgtype
        ))
    };
    assert_eq!(media("m.audio"), kind(MessageKind::Audio));
    assert_eq!(media("m.file"), kind(MessageKind::File));
    assert_eq!(media("m.image"), kind(MessageKind::Image));
    assert_eq!(media("m.video"), kind(MessageKind::Video));
    assert_eq!(
        resolved("{\"msgtype\":\"m.location\",\"body\":\"here\",\"geo_uri\":\"geo:1.0,2.0\"}"),
        kind(MessageKind::Location)
    );
    assert_eq!(
        resolved(
            "{\"msgtype\":\"m.key.verification.request\",\"body\":\"verify\",\
             \"methods\":[\"m.sas.v1\"],\"from_device\":\"DEVICE\",\"to\":\"@bob:example.org\"}"
        ),
        kind(MessageKind::VerificationRequest)
    );
}

#[test]
fn unknown_message_type_is_unsupported() {
    assert_eq!(
        resolved("{\"msgtype\":\"org.example.dance\",\"body\":\"spins\"}"),
        ResolvedEvent::MessageLike(Some(MessageLikeContent::RoomMessage(MessageKind::Unsupported)))
    );
}

#[test]
fn sticker_is_resolved_as_sticker() {
    let got = resolve_notification(&raw(
        "{\"type\":\"m.sticker\",\"event_id\":\"$2:example.org\",\"sender\":\"@bob:example.org\",\
         \"origin_server_ts\":2,\"content\":{\"body\":\"smile\",\"info\":{},\
         \"url\":\"mxc://example.org/sticker\"}}",
    ))
    .unwrap();
    assert_eq!(got.sender_localpart, "bob");
    assert_eq!(got.event, ResolvedEvent::MessageLike(Some(MessageLikeContent::Sticker)));
}

#[test]
fn reaction_is_other_content() {
    let got = resolve_notification(&raw(
        "{\"type\":\"m.reaction\",\"event_id\":\"$3:example.org\",\"sender\":\"@bob:example.org\",\
         \"origin_server_ts\":3,\"content\":{\"m.relates_to\":{\"rel_type\":\"m.annotation\",\
         \"event_id\":\"$1:example.org\",\"key\":\"+1\"}}}",
    ))
    .unwrap();
    assert_eq!(got.event, ResolvedEvent::MessageLike(Some(MessageLikeContent::Other)));
}

#[test]
fn membership_change_is_a_state_event() {
    let got = resolve_notification(&raw(
        "{\"type\":\"m.room.member\",\"event_id\":\"$4:example.org\",\
         \"sender\":\"@carol:example.org\",\"origin_server_ts\":4,\
         \"state_key\":\"@carol:example.org\",\"content\":{\"membership\":\"join\"}}",
    ))
    .unwrap();
    assert_eq!(got.sender_id, "@carol:example.org");
    assert_eq!(got.event, ResolvedEvent::State);
    let parsed = parse_notification(&got, &MemberLookup::Unknown, false);
    assert_eq!(parsed, Ok(("carol".to_string(), None)));
    assert_eq!(dispatch_action(parsed), Action::Drop);
}

#[test]
fn redacted_message_has_no_content() {
    let got = resolve_notification(&raw(
        "{\"type\":\"m.room.message\",\"event_id\":\"$5:example.org\",\
         \"sender\":\"@alice:example.org\",\"origin_server_ts\":5,\"content\":{},\
         \"unsigned\":{\"redacted_because\":{\"type\":\"m.room.redaction\",\
         \"event_id\":\"$6:example.org\",\"sender\":\"@mod:example.org\",\
         \"origin_server_ts\":6,\"redacts\":\"$5:example.org\",\"content\":{}}}}",
    ))
    .unwrap();
    assert_eq!(got.event, ResolvedEvent::MessageLike(None));
    assert_eq!(parse_notification(&got, &MemberLookup::Unknown, true), Ok(("alice".to_string(), None)));
}

#[test]
fn payload_that_is_no_event_is_malformed() {
    let got = resolve_notification(&raw("{\"foo\":1}"));
    assert!(matches!(got, Err(NotificationError::MalformedEvent(_))));
    let no_sender = resolve_notification(&raw(
        "{\"type\":\"m.room.message\",\"event_id\":\"$1:example.org\",\
         \"origin_server_ts\":1,\"content\":{\"msgtype\":\"m.text\",\"body\":\"hi\"}}",
    ));
    assert!(matches!(no_sender, Err(NotificationError::MalformedEvent(_))));
    assert!(matches!(
        pending_notification(raw("[1,2]").deserialize()),
        Err(NotificationError::MalformedEvent(_))
    ));
}

#[test]
fn malformed_event_is_reported_and_never_shown() {
    let payload = raw("{\"foo\":1}");
    let cause = payload.deserialize().unwrap_err().to_string();
    assert!(!cause.is_empty());
    let error = resolve_notification(&payload).unwrap_err();
    assert_eq!(error, NotificationError::MalformedEvent(cause.clone()));
    assert_eq!(
        error.message(),
        format!("Failed to extract notification data: malformed event: {}", cause)
    );
    assert_eq!(dispatch_action(Err(error.clone())), Action::Report(error));
}

#[test]
fn deserialized_event_becomes_pending() {
    let event = room_message("@dave:example.org", "{\"msgtype\":\"m.text\",\"body\":\"yo\"}")
        .deserialize();
    assert!(event.is_ok());
    let got = pending_notification(event).unwrap();
    assert_eq!(got.sender_id, "@dave:example.org");
    assert_eq!(got.sender_localpart, "dave");
    assert_eq!(got.event, text("yo"));
}

#[test]
fn end_to_end_text_in_group_and_direct_room() {
    let got = resolve_notification(&room_message(
        "@alice:example.org",
        "{\"msgtype\":\"m.text\",\"body\":\"hi\"}",
    ))
    .unwrap();
    assert_eq!(
        parse_notification(&got, &MemberLookup::Unknown, false),
        Ok(("alice".to_string(), Some("alice: hi".to_string())))
    );
    assert_eq!(
        parse_notification(&got, &MemberLookup::Unknown, true),
        Ok(("alice".to_string(), Some("hi".to_string())))
    );
}

#[test]
fn end_to_end_image_from_bob() {
    let got = resolve_notification(&room_message(
        "@bob:example.org",
        "{\"msgtype\":\"m.image\",\"body\":\"cat.png\",\"url\":\"mxc://example.org/cat\"}",
    ))
    .unwrap();
    for is_direct in [false, true] {
        assert_eq!(
            parse_notification(&got, &MemberLookup::Member(None), is_direct),
            Ok(("bob".to_string(), Some("bob sent an image.".to_string())))
        );
    }
}

#[test]
fn display_name_is_preferred_over_localpart() {
    let lookup = MemberLookup::Member(Some("Alice L.".to_string()));
    assert_eq!(
        parse_notification(&pending(text("hi")), &lookup, false),
        Ok(("Alice L.".to_string(), Some("Alice L.: hi".to_string())))
    );
}

#[test]
fn localpart_stands_in_for_a_missing_display_name() {
    for lookup in [MemberLookup::Unknown, MemberLookup::Member(None)] {
        assert_eq!(
            parse_notification(&pending(text("hi")), &lookup, false),
            Ok(("alice".to_string(), Some("alice: hi".to_string())))
        );
    }
}

#[test]
fn failed_lookup_is_an_error_without_fallback() {
    let lookup = MemberLookup::Failed("store is closed".to_string());
    let got = parse_notification(&pending(text("hi")), &lookup, false);
    assert_eq!(got, Err(NotificationError::MemberLookupError("store is closed".to_string())));
    assert_eq!(
        dispatch_action(got),
        Action::Report(NotificationError::MemberLookupError("store is closed".to_string()))
    );
}

#[test]
fn summary_is_present_where_the_body_is_not() {
    let got = parse_notification(&pending(ResolvedEvent::State), &MemberLookup::Unknown, false);
    assert_eq!(got, Ok(("alice".to_string(), None)));
}

#[test]
fn body_is_shown_with_fixed_settings() {
    let action = dispatch_action(Ok(("alice".to_string(), Some("alice: hi".to_string()))));
    match action {
        Action::Notify(alert) => {
            assert_eq!(alert.summary, "alice");
            assert_eq!(alert.body, "alice: hi");
            assert_eq!(alert.app_name, "iamb");
            assert_eq!(alert.timeout_ms, 3000);
            assert_eq!(alert.timeout_ms, ALERT_TIMEOUT_MS);
            assert_eq!(alert.action_id, "default");
            assert_eq!(alert.action_label, "default");
        }
        other => panic!("expected an alert, got {:?}", other),
    }
}

#[test]
fn notification_without_body_is_dropped() {
    assert_eq!(dispatch_action(Ok(("alice".to_string(), None))), Action::Drop);
}

#[test]
fn registration_follows_the_setting() {
    let on = ApplicationSettings { tunables: Tunables { notifications: true } };
    let off = ApplicationSettings { tunables: Tunables { notifications: false } };
    assert!(register_notifications(&on));
    assert!(!register_notifications(&off));
}

#[test]
fn each_error_has_its_log_line() {
    assert_eq!(
        NotificationError::MalformedEvent("expected value".to_string()).message(),
        "Failed to extract notification data: malformed event: expected value"
    );
    assert_eq!(
        NotificationError::MemberLookupError("store is closed".to_string()).message(),
        "Failed to extract notification data: member lookup failed: store is closed"
    );
    assert_eq!(
        NotificationError::BellDispatchError("no tput".to_string()).message(),
        "Failed to send bel: no tput"
    );
    assert_eq!(
        NotificationError::NotificationSendError("no bus".to_string()).message(),
        "Failed to send notification: no bus"
    );
    assert_eq!(NotificationError::BellDispatchError(String::new()).message(), "Failed to send bel: ");
}
