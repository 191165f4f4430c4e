//! The payload of the event that names a room.

use vstd::prelude::*;
use vstd::utf8::encode_utf8;
use crate::error::{DecodeError, DecodeErrorView};
use crate::event::StateContent;
use crate::scalar::{
    decode_optional_scalar, encode_optional_scalar, lemma_decoded_scalar_valid,
    lemma_scalar_round_trip, optional_scalar_spec, optional_scalar_wire, ScalarKind,
};
use crate::wire::{lookup, take_field, WireValue};

verus! {

/// The most bytes a room name may take in UTF-8.
pub const MAX_NAME_BYTES: usize = 255;

/// The number of bytes `s` takes in UTF-8.
pub open spec fn utf8_len(s: Seq<char>) -> nat {
    encode_utf8(s).len()
}

/// Room names as optional scalar fields: any string of at most
/// `MAX_NAME_BYTES` bytes.
pub struct RoomNameKind;

impl ScalarKind for RoomNameKind {
    type Value = String;

    open spec fn parse_spec(s: String) -> Option<String> {
        if utf8_len(s@) <= MAX_NAME_BYTES {
            Some(s)
        } else {
            None
        }
    }

    open spec fn text_spec(v: String) -> String {
        v
    }

    open spec fn valid(v: String) -> bool {
        0 < v@.len() && utf8_len(v@) <= MAX_NAME_BYTES
    }

    open spec fn kind_name_spec() -> Seq<char> {
        "String"@
    }

    fn parse(s: String) -> (r: Option<String>) {
        if s.as_str().as_bytes().len() <= MAX_NAME_BYTES {
            Some(s)
        } else {
            None
        }
    }

    fn text(v: String) -> (r: String) {
        v
    }

    fn kind_name() -> (r: String) {
        "String".to_owned()
    }

    proof fn lemma_parsed_valid(s: String) {
    }

    proof fn lemma_text_parses_back(v: String) {
    }
}

/// The payload of a room name event. `name: None` means the room has no
/// name; a name takes at most `MAX_NAME_BYTES` bytes.
#[derive(Debug, PartialEq, Eq)]
pub struct NameEventContent {
    pub name: Option<String>,
}

impl StateContent for NameEventContent {
    open spec fn decode_spec(fields: Seq<(String, WireValue)>) -> Result<Self, DecodeErrorView> {
        match optional_scalar_spec::<RoomNameKind>("name"@, lookup(fields, "name"@)) {
            Ok(name) => Ok(NameEventContent { name }),
            Err(e) => Err(e),
        }
    }

    open spec fn encoded(self, fields: Seq<(String, WireValue)>) -> bool {
        lookup(fields, "name"@) == optional_scalar_wire::<RoomNameKind>(self.name)
    }

    open spec fn wf(self) -> bool {
        self.name matches Some(n) ==> RoomNameKind::valid(n)
    }

    open spec fn content_name_spec() -> Seq<char> {
        "NameEventContent"@
    }

    fn decode_content(fields: Vec<(String, WireValue)>) -> (r: Result<Self, DecodeError>) {
        let mut fields = fields;
        let key = "name".to_owned();
        let value = take_field(&mut fields, &key);
        match decode_optional_scalar::<RoomNameKind>("name", value) {
            Ok(name) => Ok(NameEventContent { name }),
            Err(e) => Err(e),
        }
    }

    fn encode_content(self) -> (r: Vec<(String, WireValue)>) {
        let mut fields: Vec<(String, WireValue)> = Vec::new();
        match encode_optional_scalar::<RoomNameKind>(self.name) {
            Some(w) => {
                fields.push(("name".to_owned(), w));
                assert(fields@[0].0@ == "name"@);
            },
            None => {},
        }
        fields
    }

    fn content_name() -> (r: String) {
        "NameEventContent".to_owned()
    }

    proof fn lemma_decoded_wf(fields: Seq<(String, WireValue)>) {
        lemma_decoded_scalar_valid::<RoomNameKind>("name"@, lookup(fields, "name"@));
    }

    proof fn lemma_encoded_decodes(c: Self, fields: Seq<(String, WireValue)>) {
        lemma_scalar_round_trip::<RoomNameKind>("name"@, c.name);
    }
}

/// Whether the content object `fields` holds its `name` field absent,
/// null or as an empty string.
pub open spec fn name_unset(fields: Seq<(String, WireValue)>) -> bool {
    match lookup(fields, "name"@) {
        None => true,
        Some(WireValue::Null) => true,
        Some(WireValue::Str(s)) => s@.len() == 0,
        Some(_) => false,
    }
}

/// An absent, null or empty `name` field decodes to one and the same
/// content: `name: None`.
pub proof fn law_name_unset_forms_agree(fields: Seq<(String, WireValue)>)
    requires
        name_unset(fields),
    ensures
        NameEventContent::decode_spec(fields) == Ok::<_, DecodeErrorView>(NameEventContent { name: None }),
{
}

} // verus!
