//! A JSON document model as plain values, a verified serializer for it,
//! and the trusted bridge to the outside JSON parser.

use vstd::prelude::*;
use vstd::string::*;

verus! {

/// A JSON document. Numbers are held as their decimal text; object entries
/// keep their order.
#[derive(Debug, PartialEq)]
pub enum JsonValue {
    Null,
    Bool(bool),
    Number(String),
    Text(String),
    Array(Vec<JsonValue>),
    Object(Vec<(String, JsonValue)>),
}

/// The serialization of one byte inside a JSON string literal: quote,
/// backslash and control characters are escaped, all else passes through.
pub open spec fn spec_escape_byte(b: u8) -> Seq<u8> {
    if b == 0x22 {  // '"'
        seq![0x5C, 0x22]
    } else if b == 0x5C {  // '\'
        seq![0x5C, 0x5C]
    } else if b == 0x08 {
        seq![0x5C, 0x62]  // \b
    } else if b == 0x09 {
        seq![0x5C, 0x74]  // \t
    } else if b == 0x0A {
        seq![0x5C, 0x6E]  // \n
    } else if b == 0x0C {
        seq![0x5C, 0x66]  // \f
    } else if b == 0x0D {
        seq![0x5C, 0x72]  // \r
    } else if b < 0x20 {
        seq![0x5C, 0x75, 0x30, 0x30, crate::params::spec_hex_digit(b as int / 16), crate::params::spec_hex_digit(b as int % 16)]
    } else {
        seq![b]
    }
}

/// The serialization of a string body, byte by byte.
pub open spec fn spec_escaped_bytes(s: Seq<u8>) -> Seq<u8>
    decreases s.len(),
{
    if s.len() == 0 {
        Seq::empty()
    } else {
        spec_escaped_bytes(s.drop_last()) + spec_escape_byte(s.last())
    }
}

/// The serialization of a JSON string literal: quoted, escaped UTF-8.
pub open spec fn spec_json_string_bytes(s: Seq<char>) -> Seq<u8> {
    seq![0x22] + spec_escaped_bytes(vstd::utf8::encode_utf8(s)) + seq![0x22]
}

/// The serialization of a JSON document.
pub open spec fn spec_json_bytes(v: JsonValue) -> Seq<u8>
    decreases v,
{
    match v {
        JsonValue::Null => seq![0x6E, 0x75, 0x6C, 0x6C],  // null
        JsonValue::Bool(b) => if b {
            seq![0x74, 0x72, 0x75, 0x65]  // true
        } else {
            seq![0x66, 0x61, 0x6C, 0x73, 0x65]  // false
        },
        JsonValue::Number(s) => vstd::utf8::encode_utf8(s@),
        JsonValue::Text(s) => spec_json_string_bytes(s@),
        JsonValue::Array(items) => seq![0x5B] + spec_json_items(items@) + seq![0x5D],
        JsonValue::Object(entries) => seq![0x7B] + spec_json_members(entries@) + seq![0x7D],
    }
}

/// The serialization of array elements, joined by commas.
pub open spec fn spec_json_items(items: Seq<JsonValue>) -> Seq<u8>
    decreases items,
{
    if items.len() == 0 {
        Seq::empty()
    } else if items.len() == 1 {
        spec_json_bytes(items[0])
    } else {
        spec_json_items(items.drop_last()) + seq![0x2C] + spec_json_bytes(items.last())
    }
}

/// The serialization of object members, joined by commas.
pub open spec fn spec_json_members(entries: Seq<(String, JsonValue)>) -> Seq<u8>
    decreases entries,
{
    if entries.len() == 0 {
        Seq::empty()
    } else if entries.len() == 1 {
        spec_json_member(entries[0])
    } else {
        spec_json_members(entries.drop_last()) + seq![0x2C] + spec_json_member(entries.last())
    }
}

/// The serialization of one `"key": value` member.
pub open spec fn spec_json_member(entry: (String, JsonValue)) -> Seq<u8>
    decreases entry,
{
    spec_json_string_bytes(entry.0@) + seq![0x3A] + spec_json_bytes(entry.1)
}

/// Append the serialization of a JSON string literal to `out`.
fn write_json_string(s: &str, out: &mut Vec<u8>)
    ensures
        final(out)@ == old(out)@ + spec_json_string_bytes(s@),
{
    out.push(0x22);
    let bytes = s.as_bytes();
    let mut i: usize = 0;
    while i < bytes.len()
        invariant
            i <= bytes@.len(),
            bytes@ == vstd::utf8::encode_utf8(s@),
            out@ == old(out)@ + seq![0x22u8] + spec_escaped_bytes(bytes@.take(i as int)),
        decreases bytes@.len() - i,
    {
        let b = bytes[i];
        if b == 0x22 {
            out.push(0x5C);
            out.push(0x22);
        } else if b == 0x5C {
            out.push(0x5C);
            out.push(0x5C);
        } else if b == 0x08 {
            out.push(0x5C);
            out.push(0x62);
        } else if b == 0x09 {
            out.push(0x5C);
            out.push(0x74);
        } else if b == 0x0A {
            out.push(0x5C);
            out.push(0x6E);
        } else if b == 0x0C {
            out.push(0x5C);
            out.push(0x66);
        } else if b == 0x0D {
            out.push(0x5C);
            out.push(0x72);
        } else if b < 0x20 {
            out.push(0x5C);
            out.push(0x75);
            out.push(0x30);
            out.push(0x30);
            out.push(crate::params::hex_digit(b / 16));
            out.push(crate::params::hex_digit(b % 16));
        } else {
            out.push(b);
        }
        proof {
            assert(bytes@.take(i + 1 as int).drop_last() =~= bytes@.take(i as int));
            assert(bytes@.take(i + 1 as int).last() == bytes@[i as int]);
            assert(out@ =~= old(out)@ + seq![0x22u8] + spec_escaped_bytes(
                bytes@.take(i + 1 as int),
            ));
        }
        i = i + 1;
    }
    out.push(0x22);
    proof {
        assert(bytes@.take(bytes@.len() as int) =~= bytes@);
        assert(out@ =~= old(out)@ + spec_json_string_bytes(s@));
    }
}

/// Append the serialization of a document to `out`.
pub fn write_json(v: &JsonValue, out: &mut Vec<u8>)
    ensures
        final(out)@ == old(out)@ + spec_json_bytes(*v),
    decreases *v,
{
    match v {
        JsonValue::Null => {
            out.push(0x6E);
            out.push(0x75);
            out.push(0x6C);
            out.push(0x6C);
            proof {
                assert(out@ =~= old(out)@ + spec_json_bytes(*v));
            }
        },
        JsonValue::Bool(b) => {
            if *b {
                out.push(0x74);
                out.push(0x72);
                out.push(0x75);
                out.push(0x65);
            } else {
                out.push(0x66);
                out.push(0x61);
                out.push(0x6C);
                out.push(0x73);
                out.push(0x65);
            }
            proof {
                assert(out@ =~= old(out)@ + spec_json_bytes(*v));
            }
        },
        JsonValue::Number(s) => {
            let bytes = s.as_str().as_bytes();
            let mut i: usize = 0;
            while i < bytes.len()
                invariant
                    i <= bytes@.len(),
                    out@ == old(out)@ + bytes@.take(i as int),
                decreases bytes@.len() - i,
            {
                out.push(bytes[i]);
                proof {
                    assert(out@ =~= old(out)@ + bytes@.take(i + 1 as int));
                }
                i = i + 1;
            }
            proof {
                assert(bytes@.take(bytes@.len() as int) =~= bytes@);
                assert(out@ =~= old(out)@ + spec_json_bytes(*v));
            }
        },
        JsonValue::Text(s) => {
            write_json_string(s.as_str(), out);
        },
        JsonValue::Array(items) => {
            out.push(0x5B);
            let mut i: usize = 0;
            while i < items.len()
                invariant
                    i <= items@.len(),
                    out@ == old(out)@ + seq![0x5Bu8] + spec_json_items(items@.take(i as int)),
                    decreases_to!(*v => *items),
                decreases items@.len() - i,
            {
                if i > 0 {
                    out.push(0x2C);
                }
                write_json(&items[i], out);
                proof {
                    assert(items@.take(i + 1 as int).drop_last() =~= items@.take(i as int));
                    assert(items@.take(i + 1 as int).last() == items@[i as int]);
                    assert(out@ =~= old(out)@ + seq![0x5Bu8] + spec_json_items(
                        items@.take(i + 1 as int),
                    ));
                }
                i = i + 1;
            }
            out.push(0x5D);
            proof {
                assert(items@.take(items@.len() as int) =~= items@);
                assert(out@ =~= old(out)@ + spec_json_bytes(*v));
            }
        },
        JsonValue::Object(entries) => {
            out.push(0x7B);
            let mut i: usize = 0;
            while i < entries.len()
                invariant
                    i <= entries@.len(),
                    out@ == old(out)@ + seq![0x7Bu8] + spec_json_members(entries@.take(i as int)),
                    decreases_to!(*v => *entries),
                decreases entries@.len() - i,
            {
                if i > 0 {
                    out.push(0x2C);
                }
                write_json_string(entries[i].0.as_str(), out);
                out.push(0x3A);
                write_json(&entries[i].1, out);
                proof {
                    assert(entries@.take(i + 1 as int).drop_last() =~= entries@.take(i as int));
                    assert(entries@.take(i + 1 as int).last() == entries@[i as int]);
                    assert(spec_json_member(entries@[i as int]) == spec_json_string_bytes(
                        entries@[i as int].0@,
                    ) + seq![0x3Au8] + spec_json_bytes(entries@[i as int].1));
                    if i == 0 {
                        assert(spec_json_members(entries@.take(i + 1 as int)) == spec_json_member(
                            entries@[i as int],
                        ));
                    } else {
                        assert(spec_json_members(entries@.take(i + 1 as int))
                            == spec_json_members(entries@.take(i as int)) + seq![0x2Cu8]
                            + spec_json_member(entries@[i as int]));
                    }
                    assert(out@ =~= old(out)@ + seq![0x7Bu8] + spec_json_members(
                        entries@.take(i + 1 as int),
                    ));
                }
                i = i + 1;
            }
            out.push(0x7D);
            proof {
                assert(entries@.take(entries@.len() as int) =~= entries@);
                assert(out@ =~= old(out)@ + spec_json_bytes(*v));
            }
        },
    }
}

/// Serialize a document to bytes.
pub fn to_json_bytes(v: &JsonValue) -> (r: Vec<u8>)
    ensures
        r@ == spec_json_bytes(*v),
{
    let mut out: Vec<u8> = Vec::new();
    write_json(v, &mut out);
    proof {
        assert(out@ =~= spec_json_bytes(*v));
    }
    out
}

/// The first value held under `key` among `entries`, front to back.
pub open spec fn spec_lookup(entries: Seq<(String, JsonValue)>, key: Seq<char>) -> Option<
    JsonValue,
>
    decreases entries.len(),
{
    if entries.len() == 0 {
        None
    } else if entries[0].0@ == key {
        Some(entries[0].1)
    } else {
        spec_lookup(entries.drop_first(), key)
    }
}

/// What a top-level field lookup on a document yields: a field of an
/// object, nothing on any other document.
pub open spec fn spec_field(v: JsonValue, key: Seq<char>) -> Option<JsonValue> {
    match v {
        JsonValue::Object(entries) => spec_lookup(entries@, key),
        _ => None,
    }
}

impl JsonValue {
    /// The index of the first entry of `entries` holding `key`, if any.
    pub(crate) fn lookup_index(entries: &Vec<(String, JsonValue)>, key: &str) -> (r: Option<usize>)
        ensures
            match r {
                Some(i) => {
                    &&& i < entries@.len()
                    &&& entries@[i as int].0@ == key@
                    &&& spec_lookup(entries@, key@) == Some(entries@[i as int].1)
                },
                None => spec_lookup(entries@, key@) is None,
            },
    {
        let needle = String::from_str(key);
        let mut i: usize = 0;
        proof {
            assert(entries@.skip(0) =~= entries@);
        }
        while i < entries.len()
            invariant
                i <= entries@.len(),
                needle@ == key@,
                spec_lookup(entries@.skip(i as int), key@) == spec_lookup(entries@, key@),
                forall|j: int| 0 <= j < i ==> (#[trigger] entries@[j]).0@ != key@,
            decreases entries@.len() - i,
        {
            if entries[i].0 == needle {
                return Some(i);
            }
            proof {
                assert(entries@.skip(i as int).drop_first() =~= entries@.skip(i + 1 as int));
            }
            i = i + 1;
        }
        None
    }

    /// A reference to the value of the named top-level field, when this
    /// document is an object that has it.
    pub fn get<'a>(&'a self, key: &str) -> (r: Option<&'a JsonValue>)
        ensures
            match r {
                Some(v) => spec_field(*self, key@) == Some(*v),
                None => spec_field(*self, key@) is None,
            },
    {
        match self {
            JsonValue::Object(entries) => {
                match Self::lookup_index(entries, key) {
                    Some(i) => Some(&entries[i].1),
                    None => None,
                }
            },
            _ => None,
        }
    }

    /// The text held, when this document is a string.
    pub fn as_text<'a>(&'a self) -> (r: Option<&'a String>)
        ensures
            match r {
                Some(s) => *self == JsonValue::Text(*s),
                None => !(*self is Text),
            },
    {
        match self {
            JsonValue::Text(s) => Some(s),
            _ => None,
        }
    }
}

#[verifier::external_type_specification]
#[verifier::external_body]
pub struct ExValue(serde_json::Value);

/// What the outside JSON parser yields on given bytes: the parsed document,
/// or nothing when the bytes are not well-formed JSON.
pub uninterp spec fn json_parsed(bytes: Seq<u8>) -> Option<JsonValue>;

/// The document held by a parsed outside JSON value.
pub uninterp spec fn json_doc(v: serde_json::Value) -> JsonValue;

/// Relies on `serde_json::from_slice::<serde_json::Value>`: it succeeds
/// exactly on well-formed JSON, and the document it yields depends on the
/// bytes alone.
#[verifier::external_body]
fn parse_json_raw(bytes: &Vec<u8>) -> (r: Option<serde_json::Value>)
    ensures
        match r {
            Some(v) => json_parsed(bytes@) == Some(json_doc(v)),
            None => json_parsed(bytes@) is None,
        },
{
    serde_json::from_slice::<serde_json::Value>(bytes.as_slice()).ok()
}

/// Relies on `serde_json::Value`: its variants carry null, booleans,
/// numbers, strings, arrays and maps; this moves each across, arm by arm,
/// numbers as their decimal text and map entries in the map's own order.
#[verifier::external_body]
fn to_json_value(v: serde_json::Value) -> (r: JsonValue)
    ensures
        r == json_doc(v),
{
    match v {
        serde_json::Value::Null => JsonValue::Null,
        serde_json::Value::Bool(b) => JsonValue::Bool(b),
        serde_json::Value::Number(n) => JsonValue::Number(n.to_string()),
        serde_json::Value::String(s) => JsonValue::Text(s),
        serde_json::Value::Array(a) => JsonValue::Array(a.into_iter().map(to_json_value).collect()),
        serde_json::Value::Object(o) => JsonValue::Object(
            o.into_iter().map(|(k, x)| (k, to_json_value(x))).collect(),
        ),
    }
}

/// Parse bytes as one JSON document.
pub fn parse_json(bytes: &Vec<u8>) -> (r: Option<JsonValue>)
    ensures
        r == json_parsed(bytes@),
{
    match parse_json_raw(bytes) {
        Some(v) => Some(to_json_value(v)),
        None => None,
    }
}

/// A typed value with a canonical JSON form for a request body.
pub trait ToJson {
    /// The serialization of the canonical JSON form.
    spec fn json_bytes_spec(&self) -> Seq<u8>;

    /// Build the canonical JSON form.
    fn to_json(&self) -> (r: JsonValue)
        ensures
            spec_json_bytes(r) == self.json_bytes_spec(),
    ;
}

impl ToJson for bool {
    /// Booleans serialize as the JSON literals `true` and `false`.
    open spec fn json_bytes_spec(&self) -> Seq<u8> {
        spec_json_bytes(JsonValue::Bool(*self))
    }

    fn to_json(&self) -> (r: JsonValue) {
        JsonValue::Bool(*self)
    }
}

impl ToJson for u64 {
    /// Integers serialize as JSON numbers in decimal.
    open spec fn json_bytes_spec(&self) -> Seq<u8> {
        vstd::utf8::encode_utf8(crate::params::spec_u64_string(*self as int))
    }

    fn to_json(&self) -> (r: JsonValue) {
        JsonValue::Number(crate::params::u64_string(*self))
    }
}

impl ToJson for String {
    /// Texts serialize as JSON string literals.
    open spec fn json_bytes_spec(&self) -> Seq<u8> {
        spec_json_string_bytes(self@)
    }

    fn to_json(&self) -> (r: JsonValue) {
        JsonValue::Text(self.clone())
    }
}

/// The serialization of one `"key": value` member from its parts.
pub open spec fn spec_member_of(key: Seq<char>, value_bytes: Seq<u8>) -> Seq<u8> {
    spec_json_string_bytes(key) + seq![0x3Au8] + value_bytes
}

/// Accumulated members joined by commas: the new member stands alone when
/// nothing came before it.
pub open spec fn spec_members_push(members: Seq<u8>, member: Seq<u8>) -> Seq<u8> {
    if members.len() == 0 {
        member
    } else {
        members + seq![0x2Cu8] + member
    }
}

/// The members of a flat JSON object for a request body, serialized in
/// insertion order. Absent optional fields are omitted entirely, never
/// emitted as `null`.
pub struct JsonParams {
    members: Vec<u8>,
}

impl View for JsonParams {
    type V = Seq<u8>;

    closed spec fn view(&self) -> Seq<u8> {
        self.members@
    }
}

impl JsonParams {
    /// No members yet.
    pub fn new() -> (r: Self)
        ensures
            r@ == Seq::<u8>::empty(),
    {
        JsonParams { members: Vec::new() }
    }

    /// Append one member whose value takes its canonical JSON form.
    pub fn push<V: ToJson>(&mut self, key: &str, value: &V)
        ensures
            final(self)@ == spec_members_push(
                old(self)@,
                spec_member_of(key@, value.json_bytes_spec()),
            ),
    {
        if self.members.len() > 0 {
            self.members.push(0x2C);
        }
        write_json_string(key, &mut self.members);
        self.members.push(0x3A);
        let j = value.to_json();
        write_json(&j, &mut self.members);
        proof {
            assert(self@ =~= spec_members_push(
                old(self)@,
                spec_member_of(key@, value.json_bytes_spec()),
            ));
        }
    }

    /// Append one member if the value is present; a `None` is omitted.
    pub fn push_opt<V: ToJson>(&mut self, key: &str, value: &Option<V>)
        ensures
            final(self)@ == match value {
                Some(v) => spec_members_push(
                    old(self)@,
                    spec_member_of(key@, v.json_bytes_spec()),
                ),
                None => old(self)@,
            },
    {
        match value {
            Some(v) => self.push(key, v),
            None => {},
        }
    }

    /// Append one member whose value is the query-string text of a typed
    /// value, carried as a JSON string.
    pub fn push_param_value<V: crate::params::ParamValue>(&mut self, key: &str, value: &V)
        ensures
            final(self)@ == spec_members_push(
                old(self)@,
                spec_member_of(key@, spec_json_string_bytes(value.value_spec())),
            ),
    {
        let text = value.as_value();
        self.push(key, &text);
    }

    /// Append one query-string-texted member if the value is present.
    pub fn push_param_value_opt<V: crate::params::ParamValue>(
        &mut self,
        key: &str,
        value: &Option<V>,
    )
        ensures
            final(self)@ == match value {
                Some(v) => spec_members_push(
                    old(self)@,
                    spec_member_of(key@, spec_json_string_bytes(v.value_spec())),
                ),
                None => old(self)@,
            },
    {
        match value {
            Some(v) => self.push_param_value(key, v),
            None => {},
        }
    }

    /// The members wrapped as one flat JSON object.
    pub fn to_body(&self) -> (r: Vec<u8>)
        ensures
            r@ == seq![0x7Bu8] + self@ + seq![0x7Du8],
    {
        let mut out: Vec<u8> = Vec::new();
        out.push(0x7B);
        let mut i: usize = 0;
        while i < self.members.len()
            invariant
                i <= self.members@.len(),
                out@ == seq![0x7Bu8] + self.members@.take(i as int),
            decreases self.members@.len() - i,
        {
            out.push(self.members[i]);
            proof {
                assert(out@ =~= seq![0x7Bu8] + self.members@.take(i + 1 as int));
            }
            i = i + 1;
        }
        out.push(0x7D);
        proof {
            assert(self.members@.take(self.members@.len() as int) =~= self.members@);
            assert(out@ =~= seq![0x7Bu8] + self@ + seq![0x7Du8]);
        }
        out
    }
}

/// Why a document could not be read as the expected type; carries the
/// reader's own diagnostic.
#[derive(Debug, PartialEq, Eq)]
pub struct DecodeError {
    pub message: String,
}

/// A typed value that can be read back from a JSON document. Callers
/// implement this for their response shapes; a refusal surfaces as a
/// data-type error carrying the type's name and the reader's diagnostic.
pub trait FromJson: Sized {
    /// What it means for `r` to be the reading of document `v`.
    spec fn decodes(v: JsonValue, r: Self) -> bool;

    /// Whether the document has a reading at all.
    open spec fn decodable(v: JsonValue) -> bool {
        exists|r: Self| Self::decodes(v, r)
    }

    /// The diagnostic name of the type, as data-type errors carry it.
    spec fn type_label_spec() -> Seq<char>;

    /// Read a value out of the document: a reading of it, or a diagnostic
    /// exactly when it has none.
    fn from_json(v: &JsonValue) -> (r: Result<Self, DecodeError>)
        ensures
            match r {
                Ok(t) => Self::decodes(*v, t),
                Err(_) => !Self::decodable(*v),
            },
    ;

    /// The diagnostic name of the type.
    fn type_label() -> (r: String)
        ensures
            r@ == Self::type_label_spec(),
    ;
}

impl<T: FromJson> FromJson for Vec<T> {
    /// A vector reads an array element-wise, in order, keeping its length.
    open spec fn decodes(v: JsonValue, r: Vec<T>) -> bool {
        match v {
            JsonValue::Array(items) => {
                &&& r@.len() == items@.len()
                &&& forall|i: int| 0 <= i < items@.len() ==> T::decodes(#[trigger] items@[i], r@[i])
            },
            _ => false,
        }
    }

    /// An array is readable when each element is; no other document is.
    open spec fn decodable(v: JsonValue) -> bool {
        match v {
            JsonValue::Array(items) => forall|i: int|
                0 <= i < items@.len() ==> T::decodable(#[trigger] items@[i]),
            _ => false,
        }
    }

    open spec fn type_label_spec() -> Seq<char> {
        "a list of "@ + T::type_label_spec()
    }

    fn from_json(v: &JsonValue) -> (r: Result<Vec<T>, DecodeError>) {
        match v {
            JsonValue::Array(items) => {
                let mut out: Vec<T> = Vec::new();
                let mut i: usize = 0;
                while i < items.len()
                    invariant
                        *v == JsonValue::Array(*items),
                        i <= items@.len(),
                        out@.len() == i,
                        forall|j: int| 0 <= j < i ==> T::decodes(#[trigger] items@[j], out@[j]),
                    decreases items@.len() - i,
                {
                    match T::from_json(&items[i]) {
                        Ok(t) => out.push(t),
                        Err(d) => {
                            proof {
                                assert(!T::decodable(items@[i as int]));
                                assert(match *v {
                                    JsonValue::Array(a) => a@ == items@,
                                    _ => false,
                                });
                                assert(!<Vec<T> as FromJson>::decodable(*v));
                            }
                            return Err(d);
                        },
                    }
                    i = i + 1;
                }
                Ok(out)
            },
            _ => Err(DecodeError { message: String::from_str("expected an array") }),
        }
    }

    fn type_label() -> (r: String) {
        let mut s = String::from_str("a list of ");
        let inner = T::type_label();
        s.append(inner.as_str());
        s
    }
}

} // verus!

