use ruma_state_events::canonical_alias::CanonicalAliasEventContent;
use ruma_state_events::error::DecodeError;
use ruma_state_events::event::RoomStateEvent;
use ruma_state_events::name::NameEventContent;
use ruma_state_events::wire::WireValue;

fn text(s: &str) -> String {
    s.to_string()
}

fn obj(entries: Vec<(&str, WireValue)>) -> WireValue {
    WireValue::Object(entries.into_iter().map(|(k, v)| (text(k), v)).collect())
}

fn message_without(skip: &str, content: WireValue) -> WireValue {
    let all = vec![
        ("content", content),
        ("event_id", WireValue::Str(text("$h29iv0s8:example.com"))),
        ("room_id", WireValue::Str(text("!jEsUZKDJdhlrceRyVU:example.org"))),
        ("sender", WireValue::Str(text("@example:example.org"))),
        ("origin_server_ts", WireValue::Int(1432735824653)),
        ("state_key", WireValue::Str(text(""))),
    ];
    obj(all.into_iter().filter(|(k, _)| *k != skip).collect())
}

fn name_content(name: &str) -> WireValue {
    obj(vec![("name", WireValue::Str(text(name)))])
}

#[test]
fn decodes_a_full_message() {
    let e = RoomStateEvent::<NameEventContent>::decode(message_without("", name_content("General")))
        .unwrap();
    assert_eq!(e.content.name, Some(text("General")));
    assert_eq!(e.event_id, "$h29iv0s8:example.com");
    assert_eq!(e.room_id, "!jEsUZKDJdhlrceRyVU:example.org");
    assert_eq!(e.sender, "@example:example.org");
    assert_eq!(e.origin_server_timestamp, 1432735824653);
    assert_eq!(e.previous_content, None);
    assert_eq!(e.unsigned, None);
}

#[test]
fn empty_state_key_is_kept() {
    let e = RoomStateEvent::<NameEventContent>::decode(message_without("", name_content("General")))
        .unwrap();
    assert_eq!(e.state_key, "");
}

#[test]
fn missing_room_id_is_reported_despite_valid_content() {
    let r = RoomStateEvent::<NameEventContent>::decode(message_without("room_id", name_content("General")));
    assert_eq!(r, Err(DecodeError::MissingField(text("room_id"))));
}

#[test]
fn missing_room_id_is_reported_before_bad_content() {
    let r = RoomStateEvent::<NameEventContent>::decode(message_without("room_id", WireValue::Int(3)));
    assert_eq!(r, Err(DecodeError::MissingField(text("room_id"))));
}

#[test]
fn each_metadata_field_is_required() {
    for key in ["event_id", "sender", "origin_server_ts", "state_key", "content"] {
        let r = RoomStateEvent::<NameEventContent>::decode(message_without(key, name_content("General")));
        assert_eq!(r, Err(DecodeError::MissingField(text(key))));
    }
}

#[test]
fn wrong_shapes_are_type_mismatches() {
    let mut w = message_without("origin_server_ts", name_content("General"));
    if let WireValue::Object(f) = &mut w {
        f.push((text("origin_server_ts"), WireValue::Str(text("soon"))));
    }
    let r = RoomStateEvent::<NameEventContent>::decode(w);
    assert_eq!(r, Err(DecodeError::TypeMismatch(text("origin_server_ts"), text("integer"))));

    let r = RoomStateEvent::<NameEventContent>::decode(message_without("", WireValue::Str(text("x"))));
    assert_eq!(r, Err(DecodeError::TypeMismatch(text("content"), text("object"))));

    let r = RoomStateEvent::<NameEventContent>::decode(WireValue::Null);
    assert_eq!(r, Err(DecodeError::TypeMismatch(text("event"), text("object"))));
}

#[test]
fn content_failure_is_wrapped() {
    let content = obj(vec![("alias", WireValue::Str(text("not-a-valid-alias")))]);
    let r = RoomStateEvent::<CanonicalAliasEventContent>::decode(message_without("", content));
    assert_eq!(
        r,
        Err(DecodeError::ContentDecodeError(
            text("CanonicalAliasEventContent"),
            Box::new(DecodeError::InvalidScalarValue(
                text("alias"),
                text("not-a-valid-alias"),
                text("RoomAliasId")
            ))
        ))
    );
}

#[test]
fn previous_content_and_unsigned_are_decoded() {
    let mut w = message_without("", obj(vec![("alias", WireValue::Str(text("#new:example.org")))]));
    if let WireValue::Object(f) = &mut w {
        f.push((text("prev_content"), obj(vec![("alias", WireValue::Str(text("")))])));
        f.push((text("unsigned"), obj(vec![("age", WireValue::Int(1234))])));
    }
    let e = RoomStateEvent::<CanonicalAliasEventContent>::decode(w).unwrap();
    assert_eq!(e.content.alias.unwrap().as_str(), "#new:example.org");
    assert_eq!(e.previous_content, Some(CanonicalAliasEventContent { alias: None }));
    assert_eq!(e.unsigned, Some(vec![(text("age"), WireValue::Int(1234))]));
}

#[test]
fn malformed_unsigned_is_dropped() {
    let mut w = message_without("", name_content("General"));
    if let WireValue::Object(f) = &mut w {
        f.push((text("unsigned"), WireValue::Str(text("garbage"))));
    }
    let e = RoomStateEvent::<NameEventContent>::decode(w).unwrap();
    assert_eq!(e.unsigned, None);
}

#[test]
fn previous_content_failure_is_wrapped() {
    let mut w = message_without("", name_content("General"));
    if let WireValue::Object(f) = &mut w {
        f.push((text("prev_content"), obj(vec![("name", WireValue::Bool(true))])));
    }
    let r = RoomStateEvent::<NameEventContent>::decode(w);
    assert_eq!(
        r,
        Err(DecodeError::ContentDecodeError(
            text("NameEventContent"),
            Box::new(DecodeError::TypeMismatch(text("name"), text("string")))
        ))
    );
}

fn full_alias_message() -> WireValue {
    let mut w = message_without("", obj(vec![("alias", WireValue::Str(text("")))]));
    if let WireValue::Object(f) = &mut w {
        f.push((text("prev_content"), obj(vec![("alias", WireValue::Str(text("#old:example.org")))])));
        f.push((text("unsigned"), obj(vec![("age", WireValue::Int(5))])));
    }
    w
}

#[test]
fn decode_encode_decode_is_stable() {
    let decoded = RoomStateEvent::<CanonicalAliasEventContent>::decode(full_alias_message()).unwrap();
    let encoded = decoded.encode();
    match &encoded {
        WireValue::Object(f) => {
            // An unset alias is written as an absent field.
            assert_eq!(f[0], (text("content"), obj(vec![])));
            assert_eq!(f.len(), 8);
        },
        _ => panic!("an event encodes to an object"),
    }
    let again = RoomStateEvent::<CanonicalAliasEventContent>::decode(encoded);
    let first = RoomStateEvent::<CanonicalAliasEventContent>::decode(full_alias_message());
    assert_eq!(again, first);
}

#[test]
fn name_event_round_trips() {
    let decoded = RoomStateEvent::<NameEventContent>::decode(message_without("", name_content("General"))).unwrap();
    let again = RoomStateEvent::<NameEventContent>::decode(decoded.encode());
    let first = RoomStateEvent::<NameEventContent>::decode(message_without("", name_content("General")));
    assert_eq!(again, first);
}
