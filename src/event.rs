//! The room state event envelope: routing and authorship metadata around
//! a content payload.

use vstd::prelude::*;
use crate::error::{
    missing_field, outcome, shape_integer, shape_object, shape_string, type_mismatch, DecodeError,
    DecodeErrorView,
};
use crate::wire::{lemma_lookup_absent, lemma_lookup_distinct, lookup, take_field, WireValue};

verus! {

/// A content payload type that the envelope can carry.
pub trait StateContent: Sized {
    /// What decoding a content object with these fields gives.
    spec fn decode_spec(fields: Seq<(String, WireValue)>) -> Result<Self, DecodeErrorView>;

    /// Whether `fields` is how `self` is written on the wire.
    spec fn encoded(self, fields: Seq<(String, WireValue)>) -> bool;

    /// The values that decoding can give.
    spec fn wf(self) -> bool;

    /// The content type's name, for diagnostics.
    spec fn content_name_spec() -> Seq<char>;

    fn decode_content(fields: Vec<(String, WireValue)>) -> (r: Result<Self, DecodeError>)
        ensures
            outcome(r) == Self::decode_spec(fields@),
    ;

    fn encode_content(self) -> (r: Vec<(String, WireValue)>)
        ensures
            self.encoded(r@),
    ;

    fn content_name() -> (r: String)
        ensures
            r@ == Self::content_name_spec(),
    ;

    /// Decoded content is well formed.
    proof fn lemma_decoded_wf(fields: Seq<(String, WireValue)>)
        requires
            Self::decode_spec(fields) is Ok,
        ensures
            Self::decode_spec(fields)->Ok_0.wf(),
    ;

    /// Well-formed content decodes back from its encoding.
    proof fn lemma_encoded_decodes(c: Self, fields: Seq<(String, WireValue)>)
        requires
            c.wf(),
            c.encoded(fields),
        ensures
            Self::decode_spec(fields) == Ok::<Self, DecodeErrorView>(c),
    ;
}

/// A room state event: a content payload, the metadata that routes it, and
/// the content it replaces.
#[derive(Debug, PartialEq)]
pub struct RoomStateEvent<C> {
    pub content: C,
    pub event_id: String,
    pub room_id: String,
    pub sender: String,
    /// Milliseconds since the Unix epoch.
    pub origin_server_timestamp: i64,
    /// Which state slot of its event type the event fills; an empty string
    /// is a key of its own, not "unset".
    pub state_key: String,
    pub previous_content: Option<C>,
    /// Server-added metadata, carried through uninterpreted.
    pub unsigned: Option<Vec<(String, WireValue)>>,
}

/// The required string field `key`.
pub open spec fn required_string(fields: Seq<(String, WireValue)>, key: Seq<char>) -> Result<
    String,
    DecodeErrorView,
> {
    match lookup(fields, key) {
        None => Err(DecodeErrorView::MissingField(key)),
        Some(WireValue::Str(s)) => Ok(s),
        Some(_) => Err(DecodeErrorView::TypeMismatch(key, shape_string())),
    }
}

/// The required integer field `key`.
pub open spec fn required_integer(fields: Seq<(String, WireValue)>, key: Seq<char>) -> Result<
    i64,
    DecodeErrorView,
> {
    match lookup(fields, key) {
        None => Err(DecodeErrorView::MissingField(key)),
        Some(WireValue::Int(i)) => Ok(i),
        Some(_) => Err(DecodeErrorView::TypeMismatch(key, shape_integer())),
    }
}

/// Content decoded from a content object, its failure wrapped with the
/// content type's name.
pub open spec fn content_object_spec<C: StateContent>(fields: Seq<(String, WireValue)>) -> Result<
    C,
    DecodeErrorView,
> {
    match C::decode_spec(fields) {
        Ok(c) => Ok(c),
        Err(e) => Err(DecodeErrorView::ContentDecodeError(C::content_name_spec(), Box::new(e))),
    }
}

/// The required content field.
pub open spec fn content_spec<C: StateContent>(fields: Seq<(String, WireValue)>) -> Result<
    C,
    DecodeErrorView,
> {
    match lookup(fields, "content"@) {
        None => Err(DecodeErrorView::MissingField("content"@)),
        Some(WireValue::Object(f)) => content_object_spec::<C>(f@),
        Some(_) => Err(DecodeErrorView::TypeMismatch("content"@, shape_object())),
    }
}

/// The optional previous content: absent or null is `None`.
pub open spec fn previous_content_spec<C: StateContent>(fields: Seq<(String, WireValue)>) -> Result<
    Option<C>,
    DecodeErrorView,
> {
    match lookup(fields, "prev_content"@) {
        None => Ok(None),
        Some(WireValue::Null) => Ok(None),
        Some(WireValue::Object(f)) => match content_object_spec::<C>(f@) {
            Ok(c) => Ok(Some(c)),
            Err(e) => Err(e),
        },
        Some(_) => Err(DecodeErrorView::TypeMismatch("prev_content"@, shape_object())),
    }
}

/// The unsigned metadata: kept when it is an object, dropped otherwise.
pub open spec fn unsigned_spec(fields: Seq<(String, WireValue)>) -> Option<Vec<(String, WireValue)>> {
    match lookup(fields, "unsigned"@) {
        Some(WireValue::Object(f)) => Some(f),
        _ => None,
    }
}

/// What decoding the message `w` gives. The metadata fields are checked
/// first, in the order `room_id`, `event_id`, `sender`, `origin_server_ts`,
/// `state_key`; then `content`, then `prev_content`.
pub open spec fn decode_spec<C: StateContent>(w: WireValue) -> Result<RoomStateEvent<C>, DecodeErrorView> {
    match w {
        WireValue::Object(f) => {
            let fs = f@;
            let room_id = required_string(fs, "room_id"@);
            let event_id = required_string(fs, "event_id"@);
            let sender = required_string(fs, "sender"@);
            let ts = required_integer(fs, "origin_server_ts"@);
            let state_key = required_string(fs, "state_key"@);
            let content = content_spec::<C>(fs);
            let previous = previous_content_spec::<C>(fs);
            if room_id is Err {
                Err(room_id->Err_0)
            } else if event_id is Err {
                Err(event_id->Err_0)
            } else if sender is Err {
                Err(sender->Err_0)
            } else if ts is Err {
                Err(ts->Err_0)
            } else if state_key is Err {
                Err(state_key->Err_0)
            } else if content is Err {
                Err(content->Err_0)
            } else if previous is Err {
                Err(previous->Err_0)
            } else {
                Ok(
                    RoomStateEvent {
                        content: content->Ok_0,
                        event_id: event_id->Ok_0,
                        room_id: room_id->Ok_0,
                        sender: sender->Ok_0,
                        origin_server_timestamp: ts->Ok_0,
                        state_key: state_key->Ok_0,
                        previous_content: previous->Ok_0,
                        unsigned: unsigned_spec(fs),
                    },
                )
            }
        },
        _ => Err(DecodeErrorView::TypeMismatch("event"@, shape_object())),
    }
}

/// Whether the message `w` is how the event `e` is written: every metadata
/// field as it stands, the content through its own encoding, and an unset
/// `previous_content` or `unsigned` as an absent field.
pub open spec fn encoded<C: StateContent>(e: RoomStateEvent<C>, w: WireValue) -> bool {
    &&& w is Object
    &&& lookup(w->Object_0@, "content"@) matches Some(WireValue::Object(cf)) && e.content.encoded(cf@)
    &&& lookup(w->Object_0@, "event_id"@) == Some(WireValue::Str(e.event_id))
    &&& lookup(w->Object_0@, "room_id"@) == Some(WireValue::Str(e.room_id))
    &&& lookup(w->Object_0@, "sender"@) == Some(WireValue::Str(e.sender))
    &&& lookup(w->Object_0@, "origin_server_ts"@) == Some(WireValue::Int(e.origin_server_timestamp))
    &&& lookup(w->Object_0@, "state_key"@) == Some(WireValue::Str(e.state_key))
    &&& match e.previous_content {
        None => lookup(w->Object_0@, "prev_content"@) is None,
        Some(p) => lookup(w->Object_0@, "prev_content"@) matches Some(WireValue::Object(pf))
            && p.encoded(pf@),
    }
    &&& match e.unsigned {
        None => lookup(w->Object_0@, "unsigned"@) is None,
        Some(u) => lookup(w->Object_0@, "unsigned"@) == Some(WireValue::Object(u)),
    }
}

impl<C: StateContent> RoomStateEvent<C> {
    /// The content and the previous content are each well formed.
    pub open spec fn wf(&self) -> bool {
        &&& self.content.wf()
        &&& self.previous_content matches Some(p) ==> p.wf()
    }
}


/// Decoding gives well-formed events.
pub proof fn lemma_decoded_wf<C: StateContent>(w: WireValue)
    requires
        decode_spec::<C>(w) is Ok,
    ensures
        decode_spec::<C>(w)->Ok_0.wf(),
{
    let fs = w->Object_0@;
    if let Some(WireValue::Object(cf)) = lookup(fs, "content"@) {
        C::lemma_decoded_wf(cf@);
    }
    if let Some(WireValue::Object(pf)) = lookup(fs, "prev_content"@) {
        C::lemma_decoded_wf(pf@);
    }
}

/// A well-formed event decodes back from its encoding.
pub proof fn lemma_encoded_decodes<C: StateContent>(e: RoomStateEvent<C>, w: WireValue)
    requires
        e.wf(),
        encoded(e, w),
    ensures
        decode_spec::<C>(w) == Ok::<_, DecodeErrorView>(e),
{
    let fs = w->Object_0@;
    if let Some(WireValue::Object(cf)) = lookup(fs, "content"@) {
        C::lemma_encoded_decodes(e.content, cf@);
    }
    if let Some(p) = e.previous_content {
        if let Some(WireValue::Object(pf)) = lookup(fs, "prev_content"@) {
            C::lemma_encoded_decodes(p, pf@);
        }
    }
}

/// Decoding is idempotent through encoding: when `w` decodes, the encoding
/// `w2` of what it decodes to decodes to the same event.
pub proof fn law_decode_encode_decode<C: StateContent>(w: WireValue, w2: WireValue)
    requires
        decode_spec::<C>(w) is Ok,
        encoded(decode_spec::<C>(w)->Ok_0, w2),
    ensures
        decode_spec::<C>(w2) == decode_spec::<C>(w),
{
    lemma_decoded_wf::<C>(w);
    lemma_encoded_decodes::<C>(decode_spec::<C>(w)->Ok_0, w2);
}

/// A message without `room_id` fails with `MissingField("room_id")`,
/// whatever its content and other fields hold.
pub proof fn law_missing_room_id<C: StateContent>(w: WireValue)
    requires
        w is Object,
        lookup(w->Object_0@, "room_id"@) is None,
    ensures
        decode_spec::<C>(w) == Err::<RoomStateEvent<C>, _>(DecodeErrorView::MissingField("room_id"@)),
{
}

/// The state key is kept exactly as the message holds it; an empty state
/// key stays empty.
pub proof fn law_state_key_kept<C: StateContent>(w: WireValue)
    requires
        decode_spec::<C>(w) is Ok,
    ensures
        lookup(w->Object_0@, "state_key"@) == Some(WireValue::Str(decode_spec::<C>(w)->Ok_0.state_key)),
{
}

/// The top-level keys of a message are pairwise distinct.
proof fn lemma_key_names_distinct()
    ensures
        "content"@ != "event_id"@,
        "content"@ != "room_id"@,
        "content"@ != "sender"@,
        "content"@ != "origin_server_ts"@,
        "content"@ != "state_key"@,
        "content"@ != "prev_content"@,
        "content"@ != "unsigned"@,
        "event_id"@ != "room_id"@,
        "event_id"@ != "sender"@,
        "event_id"@ != "origin_server_ts"@,
        "event_id"@ != "state_key"@,
        "event_id"@ != "prev_content"@,
        "event_id"@ != "unsigned"@,
        "room_id"@ != "sender"@,
        "room_id"@ != "origin_server_ts"@,
        "room_id"@ != "state_key"@,
        "room_id"@ != "prev_content"@,
        "room_id"@ != "unsigned"@,
        "sender"@ != "origin_server_ts"@,
        "sender"@ != "state_key"@,
        "sender"@ != "prev_content"@,
        "sender"@ != "unsigned"@,
        "origin_server_ts"@ != "state_key"@,
        "origin_server_ts"@ != "prev_content"@,
        "origin_server_ts"@ != "unsigned"@,
        "state_key"@ != "prev_content"@,
        "state_key"@ != "unsigned"@,
        "prev_content"@ != "unsigned"@,
{
    reveal_strlit("content");
    reveal_strlit("event_id");
    reveal_strlit("room_id");
    reveal_strlit("sender");
    reveal_strlit("origin_server_ts");
    reveal_strlit("state_key");
    reveal_strlit("prev_content");
    reveal_strlit("unsigned");
    assert("content"@[0] != "event_id"@[0]);
    assert("content"@[0] != "room_id"@[0]);
    assert("content"@[0] != "sender"@[0]);
    assert("content"@[0] != "origin_server_ts"@[0]);
    assert("content"@[0] != "state_key"@[0]);
    assert("content"@[0] != "prev_content"@[0]);
    assert("content"@[0] != "unsigned"@[0]);
    assert("event_id"@[0] != "room_id"@[0]);
    assert("event_id"@[0] != "sender"@[0]);
    assert("event_id"@[0] != "origin_server_ts"@[0]);
    assert("event_id"@[0] != "state_key"@[0]);
    assert("event_id"@[0] != "prev_content"@[0]);
    assert("event_id"@[0] != "unsigned"@[0]);
    assert("room_id"@[0] != "sender"@[0]);
    assert("room_id"@[0] != "origin_server_ts"@[0]);
    assert("room_id"@[0] != "state_key"@[0]);
    assert("room_id"@[0] != "prev_content"@[0]);
    assert("room_id"@[0] != "unsigned"@[0]);
    assert("sender"@[0] != "origin_server_ts"@[0]);
    assert("sender"@[1] != "state_key"@[1]);
    assert("sender"@[0] != "prev_content"@[0]);
    assert("sender"@[0] != "unsigned"@[0]);
    assert("origin_server_ts"@[0] != "state_key"@[0]);
    assert("origin_server_ts"@[0] != "prev_content"@[0]);
    assert("origin_server_ts"@[0] != "unsigned"@[0]);
    assert("state_key"@[0] != "prev_content"@[0]);
    assert("state_key"@[0] != "unsigned"@[0]);
    assert("prev_content"@[0] != "unsigned"@[0]);
}

/// Takes the required string field `key` out of `fields`.
fn take_required_string(fields: &mut Vec<(String, WireValue)>, key: &str) -> (r: Result<
    String,
    DecodeError,
>)
    ensures
        outcome(r) == required_string(old(fields)@, key@),
        forall|k: Seq<char>| k != key@ ==> lookup(final(fields)@, k) == lookup(old(fields)@, k),
{
    let name = key.to_owned();
    match take_field(fields, &name) {
        None => Err(missing_field(key)),
        Some(WireValue::Str(s)) => Ok(s),
        Some(_) => Err(type_mismatch(key, "string")),
    }
}

/// Takes the required integer field `key` out of `fields`.
fn take_required_integer(fields: &mut Vec<(String, WireValue)>, key: &str) -> (r: Result<
    i64,
    DecodeError,
>)
    ensures
        outcome(r) == required_integer(old(fields)@, key@),
        forall|k: Seq<char>| k != key@ ==> lookup(final(fields)@, k) == lookup(old(fields)@, k),
{
    let name = key.to_owned();
    match take_field(fields, &name) {
        None => Err(missing_field(key)),
        Some(WireValue::Int(i)) => Ok(i),
        Some(_) => Err(type_mismatch(key, "integer")),
    }
}

/// Decodes a content object, wrapping a failure with the content type's
/// name.
pub fn decode_content_object<C: StateContent>(fields: Vec<(String, WireValue)>) -> (r: Result<
    C,
    DecodeError,
>)
    ensures
        outcome(r) == content_object_spec::<C>(fields@),
{
    match C::decode_content(fields) {
        Ok(c) => Ok(c),
        Err(e) => Err(DecodeError::ContentDecodeError(C::content_name(), Box::new(e))),
    }
}

impl<C: StateContent> RoomStateEvent<C> {
    /// Decodes the message `w` into an event.
    pub fn decode(w: WireValue) -> (r: Result<RoomStateEvent<C>, DecodeError>)
        ensures
            outcome(r) == decode_spec::<C>(w),
    {
        proof {
            lemma_key_names_distinct();
        }
        let mut fields = match w {
            WireValue::Object(f) => f,
            _ => return Err(type_mismatch("event", "object")),
        };
        let room_id = match take_required_string(&mut fields, "room_id") {
            Ok(s) => s,
            Err(e) => return Err(e),
        };
        let event_id = match take_required_string(&mut fields, "event_id") {
            Ok(s) => s,
            Err(e) => return Err(e),
        };
        let sender = match take_required_string(&mut fields, "sender") {
            Ok(s) => s,
            Err(e) => return Err(e),
        };
        let origin_server_timestamp = match take_required_integer(&mut fields, "origin_server_ts") {
            Ok(i) => i,
            Err(e) => return Err(e),
        };
        let state_key = match take_required_string(&mut fields, "state_key") {
            Ok(s) => s,
            Err(e) => return Err(e),
        };
        let content_key = "content".to_owned();
        let content = match take_field(&mut fields, &content_key) {
            None => return Err(missing_field("content")),
            Some(WireValue::Object(cf)) => match decode_content_object::<C>(cf) {
                Ok(c) => c,
                Err(e) => return Err(e),
            },
            Some(_) => return Err(type_mismatch("content", "object")),
        };
        let previous_key = "prev_content".to_owned();
        let previous_content = match take_field(&mut fields, &previous_key) {
            None => None,
            Some(WireValue::Null) => None,
            Some(WireValue::Object(pf)) => match decode_content_object::<C>(pf) {
                Ok(c) => Some(c),
                Err(e) => return Err(e),
            },
            Some(_) => return Err(type_mismatch("prev_content", "object")),
        };
        let unsigned_key = "unsigned".to_owned();
        let unsigned = match take_field(&mut fields, &unsigned_key) {
            Some(WireValue::Object(u)) => Some(u),
            _ => None,
        };
        Ok(
            RoomStateEvent {
                content,
                event_id,
                room_id,
                sender,
                origin_server_timestamp,
                state_key,
                previous_content,
                unsigned,
            },
        )
    }

    /// Writes the event as a message.
    pub fn encode(self) -> (r: WireValue)
        ensures
            encoded(self, r),
    {
        proof {
            lemma_key_names_distinct();
        }
        let ghost e = self;
        let mut fields: Vec<(String, WireValue)> = Vec::new();
        fields.push(("content".to_owned(), WireValue::Object(self.content.encode_content())));
        fields.push(("event_id".to_owned(), WireValue::Str(self.event_id)));
        fields.push(("room_id".to_owned(), WireValue::Str(self.room_id)));
        fields.push(("sender".to_owned(), WireValue::Str(self.sender)));
        fields.push(("origin_server_ts".to_owned(), WireValue::Int(self.origin_server_timestamp)));
        fields.push(("state_key".to_owned(), WireValue::Str(self.state_key)));
        match self.previous_content {
            Some(p) => fields.push(("prev_content".to_owned(), WireValue::Object(p.encode_content()))),
            None => {},
        }
        match self.unsigned {
            Some(u) => fields.push(("unsigned".to_owned(), WireValue::Object(u))),
            None => {},
        }
        proof {
            let fs = fields@;
            assert(fs.len() >= 6);
            assert(fs[0].0@ == "content"@);
            assert(fs[1].0@ == "event_id"@);
            assert(fs[2].0@ == "room_id"@);
            assert(fs[3].0@ == "sender"@);
            assert(fs[4].0@ == "origin_server_ts"@);
            assert(fs[5].0@ == "state_key"@);
            assert(fs.len() > 6 && e.previous_content is Some ==> fs[6].0@ == "prev_content"@);
            assert(forall|i: int| 6 <= i < fs.len() ==> fs[i].0@ == "prev_content"@ || fs[i].0@ == "unsigned"@);
            assert(forall|i: int, j: int| 0 <= i < j < fs.len() ==> fs[i].0@ != fs[j].0@);
            lemma_lookup_distinct(fs);
            assert(lookup(fs, fs[0].0@) == Some(fs[0].1));
            assert(lookup(fs, fs[1].0@) == Some(fs[1].1));
            assert(lookup(fs, fs[2].0@) == Some(fs[2].1));
            assert(lookup(fs, fs[3].0@) == Some(fs[3].1));
            assert(lookup(fs, fs[4].0@) == Some(fs[4].1));
            assert(lookup(fs, fs[5].0@) == Some(fs[5].1));
            match e.previous_content {
                Some(_) => {
                    assert(lookup(fs, fs[6].0@) == Some(fs[6].1));
                },
                None => {
                    lemma_lookup_absent(fs, "prev_content"@);
                },
            }
            match e.unsigned {
                Some(_) => {
                    assert(lookup(fs, fs[fs.len() - 1].0@) == Some(fs[fs.len() - 1].1));
                },
                None => {
                    lemma_lookup_absent(fs, "unsigned"@);
                },
            }
        }
        WireValue::Object(fields)
    }
}

} // verus!
