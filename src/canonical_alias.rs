//! The payload of the event that names a room's canonical alias.

use vstd::prelude::*;
use crate::error::{DecodeError, DecodeErrorView};
use crate::event::StateContent;
use crate::scalar::{
    decode_optional_scalar, encode_optional_scalar, lemma_decoded_scalar_valid,
    lemma_scalar_round_trip, optional_scalar_spec, optional_scalar_wire, ScalarKind,
};
use crate::wire::{lookup, take_field, WireValue};

verus! {

/// Whether `s` is a valid room alias identifier, as the identifier crate
/// parses it.
pub uninterp spec fn room_alias_valid(s: Seq<char>) -> bool;

/// Relies on ruma_identifiers::RoomAliasId::try_from: it accepts `s` exactly
/// when `s` is a valid room alias identifier, and its answer depends on the
/// characters of `s` alone.
#[verifier::external_body]
fn is_room_alias(s: &str) -> (r: bool)
    ensures
        r == room_alias_valid(s@),
{
    <ruma_identifiers::RoomAliasId as std::convert::TryFrom<&str>>::try_from(s).is_ok()
}

/// A room alias identifier, such as `#room:example.org`, kept as the text
/// it was given in.
#[derive(Debug, PartialEq, Eq)]
pub struct RoomAliasId {
    text: String,
}

impl RoomAliasId {
    pub open spec fn wf(&self) -> bool {
        self@.len() > 0 && room_alias_valid(self@)
    }

    /// The identifier kept as the text `s`.
    pub closed spec fn from_text(s: String) -> RoomAliasId {
        RoomAliasId { text: s }
    }

    pub closed spec fn text_spec(&self) -> String {
        self.text
    }

    pub broadcast proof fn lemma_from_text(s: String)
        ensures
            #[trigger] RoomAliasId::from_text(s).text_spec() == s,
    {
    }

    pub broadcast proof fn lemma_text_from(a: RoomAliasId)
        ensures
            RoomAliasId::from_text(#[trigger] a.text_spec()) == a,
    {
    }

    pub open spec fn view(&self) -> Seq<char> {
        self.text_spec()@
    }

    /// Parses `s`; `None` when it is not a valid room alias identifier.
    pub fn parse(s: &str) -> (r: Option<RoomAliasId>)
        ensures
            r is Some <==> s@.len() > 0 && room_alias_valid(s@),
            r matches Some(a) ==> a@ == s@ && a.wf(),
    {
        if !s.is_empty() && is_room_alias(s) {
            Some(RoomAliasId { text: s.to_owned() })
        } else {
            None
        }
    }

    /// The identifier's text.
    pub fn as_str(&self) -> (r: &str)
        ensures
            r@ == self@,
    {
        self.text.as_str()
    }
}

/// Room alias identifiers as optional scalar fields.
pub struct RoomAliasKind;

impl ScalarKind for RoomAliasKind {
    type Value = RoomAliasId;

    open spec fn parse_spec(s: String) -> Option<RoomAliasId> {
        if room_alias_valid(s@) {
            Some(RoomAliasId::from_text(s))
        } else {
            None
        }
    }

    open spec fn text_spec(v: RoomAliasId) -> String {
        v.text_spec()
    }

    open spec fn valid(v: RoomAliasId) -> bool {
        v.wf()
    }

    open spec fn kind_name_spec() -> Seq<char> {
        "RoomAliasId"@
    }

    fn parse(s: String) -> (r: Option<RoomAliasId>) {
        if is_room_alias(s.as_str()) {
            Some(RoomAliasId { text: s })
        } else {
            None
        }
    }

    fn text(v: RoomAliasId) -> (r: String) {
        v.text
    }

    fn kind_name() -> (r: String) {
        "RoomAliasId".to_owned()
    }

    proof fn lemma_parsed_valid(s: String) {
        RoomAliasId::lemma_from_text(s);
    }

    proof fn lemma_text_parses_back(v: RoomAliasId) {
        RoomAliasId::lemma_text_from(v);
    }
}

/// The payload of a canonical alias event. `alias: None` means the room
/// has no canonical alias.
#[derive(Debug, PartialEq, Eq)]
pub struct CanonicalAliasEventContent {
    pub alias: Option<RoomAliasId>,
}

impl StateContent for CanonicalAliasEventContent {
    open spec fn decode_spec(fields: Seq<(String, WireValue)>) -> Result<Self, DecodeErrorView> {
        match optional_scalar_spec::<RoomAliasKind>("alias"@, lookup(fields, "alias"@)) {
            Ok(alias) => Ok(CanonicalAliasEventContent { alias }),
            Err(e) => Err(e),
        }
    }

    open spec fn encoded(self, fields: Seq<(String, WireValue)>) -> bool {
        lookup(fields, "alias"@) == optional_scalar_wire::<RoomAliasKind>(self.alias)
    }

    open spec fn wf(self) -> bool {
        self.alias matches Some(a) ==> a.wf()
    }

    open spec fn content_name_spec() -> Seq<char> {
        "CanonicalAliasEventContent"@
    }

    fn decode_content(fields: Vec<(String, WireValue)>) -> (r: Result<Self, DecodeError>) {
        let mut fields = fields;
        let key = "alias".to_owned();
        let value = take_field(&mut fields, &key);
        match decode_optional_scalar::<RoomAliasKind>("alias", value) {
            Ok(alias) => Ok(CanonicalAliasEventContent { alias }),
            Err(e) => Err(e),
        }
    }

    fn encode_content(self) -> (r: Vec<(String, WireValue)>) {
        let mut fields: Vec<(String, WireValue)> = Vec::new();
        match encode_optional_scalar::<RoomAliasKind>(self.alias) {
            Some(w) => {
                fields.push(("alias".to_owned(), w));
                assert(fields@[0].0@ == "alias"@);
            },
            None => {},
        }
        fields
    }

    fn content_name() -> (r: String) {
        "CanonicalAliasEventContent".to_owned()
    }

    proof fn lemma_decoded_wf(fields: Seq<(String, WireValue)>) {
        lemma_decoded_scalar_valid::<RoomAliasKind>("alias"@, lookup(fields, "alias"@));
    }

    proof fn lemma_encoded_decodes(c: Self, fields: Seq<(String, WireValue)>) {
        lemma_scalar_round_trip::<RoomAliasKind>("alias"@, c.alias);
    }
}

/// Whether the content object `fields` holds its `alias` field absent,
/// null or as an empty string.
pub open spec fn alias_unset(fields: Seq<(String, WireValue)>) -> bool {
    match lookup(fields, "alias"@) {
        None => true,
        Some(WireValue::Null) => true,
        Some(WireValue::Str(s)) => s@.len() == 0,
        Some(_) => false,
    }
}

/// An absent, null or empty `alias` field decodes to one and the same
/// content: `alias: None`.
pub proof fn law_alias_unset_forms_agree(fields: Seq<(String, WireValue)>)
    requires
        alias_unset(fields),
    ensures
        CanonicalAliasEventContent::decode_spec(fields) == Ok::<_, DecodeErrorView>(CanonicalAliasEventContent { alias: None }),
{
}

} // verus!
