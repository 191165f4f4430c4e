use ruma_state_events::canonical_alias::{CanonicalAliasEventContent, RoomAliasId, RoomAliasKind};
use ruma_state_events::error::DecodeError;
use ruma_state_events::event::StateContent;
use ruma_state_events::name::{NameEventContent, RoomNameKind, MAX_NAME_BYTES};
use ruma_state_events::scalar::{decode_optional_scalar, encode_optional_scalar};
use ruma_state_events::wire::{take_field, WireValue};

fn text(s: &str) -> String {
    s.to_string()
}

fn fields(entries: Vec<(&str, WireValue)>) -> Vec<(String, WireValue)> {
    entries.into_iter().map(|(k, v)| (text(k), v)).collect()
}

fn decode_alias(entries: Vec<(&str, WireValue)>) -> Result<CanonicalAliasEventContent, DecodeError> {
    CanonicalAliasEventContent::decode_content(fields(entries))
}

fn decode_name(entries: Vec<(&str, WireValue)>) -> Result<NameEventContent, DecodeError> {
    NameEventContent::decode_content(fields(entries))
}

#[test]
fn alias_empty_string_is_none() {
    let c = decode_alias(vec![("alias", WireValue::Str(text("")))]).unwrap();
    assert_eq!(c.alias, None);
}

#[test]
fn alias_absent_is_none() {
    let c = decode_alias(vec![]).unwrap();
    assert_eq!(c.alias, None);
}

#[test]
fn alias_null_is_none() {
    let c = decode_alias(vec![("alias", WireValue::Null)]).unwrap();
    assert_eq!(c.alias, None);
}

#[test]
fn alias_unset_forms_agree() {
    let absent = decode_alias(vec![]).unwrap();
    let null = decode_alias(vec![("alias", WireValue::Null)]).unwrap();
    let empty = decode_alias(vec![("alias", WireValue::Str(text("")))]).unwrap();
    assert_eq!(absent, null);
    assert_eq!(null, empty);
}

#[test]
fn alias_valid_is_parsed() {
    let c = decode_alias(vec![("alias", WireValue::Str(text("#room:example.org")))]).unwrap();
    let alias = c.alias.unwrap();
    assert_eq!(alias.as_str(), "#room:example.org");
    assert_eq!(Some(alias), RoomAliasId::parse("#room:example.org"));
}

#[test]
fn alias_invalid_is_error() {
    let r = decode_alias(vec![("alias", WireValue::Str(text("not-a-valid-alias")))]);
    assert_eq!(
        r,
        Err(DecodeError::InvalidScalarValue(text("alias"), text("not-a-valid-alias"), text("RoomAliasId")))
    );
}

#[test]
fn alias_wrong_shape_is_type_mismatch() {
    let r = decode_alias(vec![("alias", WireValue::Int(7))]);
    assert_eq!(r, Err(DecodeError::TypeMismatch(text("alias"), text("string"))));
}

#[test]
fn alias_parse_checks_the_identifier() {
    assert!(RoomAliasId::parse("#ruma:example.com").is_some());
    assert!(RoomAliasId::parse("#ruma:example.com:5000").is_some());
    assert!(RoomAliasId::parse("ruma:example.com").is_none());
    assert!(RoomAliasId::parse("#ruma").is_none());
    assert!(RoomAliasId::parse("").is_none());
}

#[test]
fn alias_encodes_to_its_text() {
    let c = decode_alias(vec![("alias", WireValue::Str(text("#room:example.org")))]).unwrap();
    let encoded = c.encode_content();
    assert_eq!(encoded, fields(vec![("alias", WireValue::Str(text("#room:example.org")))]));
    let again = CanonicalAliasEventContent::decode_content(encoded).unwrap();
    assert_eq!(again.alias.unwrap().as_str(), "#room:example.org");
}

#[test]
fn alias_unset_encodes_to_absent_field() {
    let c = decode_alias(vec![("alias", WireValue::Null)]).unwrap();
    assert!(c.encode_content().is_empty());
}

#[test]
fn name_null_is_none() {
    let c = decode_name(vec![("name", WireValue::Null)]).unwrap();
    assert_eq!(c.name, None);
}

#[test]
fn name_empty_and_absent_are_none() {
    assert_eq!(decode_name(vec![("name", WireValue::Str(text("")))]).unwrap().name, None);
    assert_eq!(decode_name(vec![]).unwrap().name, None);
}

#[test]
fn name_is_kept() {
    let c = decode_name(vec![("name", WireValue::Str(text("General")))]).unwrap();
    assert_eq!(c.name, Some(text("General")));
}

#[test]
fn name_too_long_is_error() {
    let long = "a".repeat(300);
    let r = decode_name(vec![("name", WireValue::Str(long.clone()))]);
    assert_eq!(r, Err(DecodeError::InvalidScalarValue(text("name"), long, text("String"))));
}

#[test]
fn name_at_the_byte_limit_is_kept() {
    let exact = "b".repeat(MAX_NAME_BYTES);
    let c = decode_name(vec![("name", WireValue::Str(exact.clone()))]).unwrap();
    assert_eq!(c.name, Some(exact));
}

#[test]
fn name_limit_counts_bytes_not_chars() {
    // 128 two-byte characters: 128 chars, 256 bytes.
    let wide = "é".repeat(128);
    let r = decode_name(vec![("name", WireValue::Str(wide.clone()))]);
    assert_eq!(r, Err(DecodeError::InvalidScalarValue(text("name"), wide, text("String"))));
}

#[test]
fn name_round_trips() {
    let c = decode_name(vec![("name", WireValue::Str(text("General")))]).unwrap();
    let again = NameEventContent::decode_content(c.encode_content()).unwrap();
    assert_eq!(again.name, Some(text("General")));
}

#[test]
fn content_names() {
    assert_eq!(CanonicalAliasEventContent::content_name(), "CanonicalAliasEventContent");
    assert_eq!(NameEventContent::content_name(), "NameEventContent");
}

#[test]
fn scalar_decoder_absent_null_empty() {
    assert_eq!(decode_optional_scalar::<RoomNameKind>("name", None), Ok(None));
    assert_eq!(decode_optional_scalar::<RoomNameKind>("name", Some(WireValue::Null)), Ok(None));
    assert_eq!(decode_optional_scalar::<RoomNameKind>("name", Some(WireValue::Str(text("")))), Ok(None));
}

#[test]
fn scalar_decoder_invalid_names_field_and_value() {
    let r = decode_optional_scalar::<RoomAliasKind>("topic_alias", Some(WireValue::Str(text("#nohost"))));
    assert_eq!(
        r,
        Err(DecodeError::InvalidScalarValue(text("topic_alias"), text("#nohost"), text("RoomAliasId")))
    );
}

#[test]
fn scalar_encoder_writes_text_or_nothing() {
    assert_eq!(encode_optional_scalar::<RoomNameKind>(None), None);
    assert_eq!(
        encode_optional_scalar::<RoomNameKind>(Some(text("General"))),
        Some(WireValue::Str(text("General")))
    );
}

#[test]
fn take_field_takes_the_first_match() {
    let mut f = fields(vec![
        ("a", WireValue::Int(1)),
        ("b", WireValue::Int(2)),
        ("a", WireValue::Int(3)),
    ]);
    assert_eq!(take_field(&mut f, &text("a")), Some(WireValue::Int(1)));
    assert_eq!(take_field(&mut f, &text("a")), Some(WireValue::Int(3)));
    assert_eq!(take_field(&mut f, &text("a")), None);
    assert_eq!(f, fields(vec![("b", WireValue::Int(2))]));
}
