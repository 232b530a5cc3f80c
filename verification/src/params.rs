//! Encoding of typed values into their canonical query-string text, and the
//! ordered container of query parameters.

use vstd::prelude::*;
use vstd::string::*;

verus! {

/// The canonical text of one decimal digit.
pub open spec fn spec_digit(d: int) -> char {
    if d == 0 {
        '0'
    } else if d == 1 {
        '1'
    } else if d == 2 {
        '2'
    } else if d == 3 {
        '3'
    } else if d == 4 {
        '4'
    } else if d == 5 {
        '5'
    } else if d == 6 {
        '6'
    } else if d == 7 {
        '7'
    } else if d == 8 {
        '8'
    } else {
        '9'
    }
}

/// The canonical decimal text of a non-negative integer: no grouping and no
/// leading zeros.
pub open spec fn spec_u64_string(n: int) -> Seq<char>
    decreases n,
{
    if n < 10 {
        seq![spec_digit(n)]
    } else {
        spec_u64_string(n / 10).push(spec_digit(n % 10))
    }
}

fn digit_str(d: u64) -> (r: &'static str)
    requires
        d < 10,
    ensures
        r@ == seq![spec_digit(d as int)],
{
    proof {
        reveal_strlit("0");
        reveal_strlit("1");
        reveal_strlit("2");
        reveal_strlit("3");
        reveal_strlit("4");
        reveal_strlit("5");
        reveal_strlit("6");
        reveal_strlit("7");
        reveal_strlit("8");
        reveal_strlit("9");
    }
    let r = match d {
        0 => "0",
        1 => "1",
        2 => "2",
        3 => "3",
        4 => "4",
        5 => "5",
        6 => "6",
        7 => "7",
        8 => "8",
        _ => "9",
    };
    proof {
        assert(r@ =~= seq![spec_digit(d as int)]);
    }
    r
}

/// Render an unsigned integer as decimal text.
pub fn u64_string(n: u64) -> (r: String)
    ensures
        r@ == spec_u64_string(n as int),
    decreases n,
{
    if n < 10 {
        String::from_str(digit_str(n))
    } else {
        let mut s = u64_string(n / 10);
        s.append(digit_str(n % 10));
        proof {
            assert(s@ =~= spec_u64_string(n as int));
        }
        s
    }
}

/// A typed value with a canonical text form for a URL query string.
pub trait ParamValue {
    /// The canonical text, as a sequence of characters.
    spec fn value_spec(&self) -> Seq<char>;

    /// Render the canonical text.
    fn as_value(&self) -> (r: String)
        ensures
            r@ == self.value_spec(),
    ;
}

impl ParamValue for bool {
    /// Booleans encode as "1" or "0", never as "true"/"false".
    open spec fn value_spec(&self) -> Seq<char> {
        if *self {
            "1"@
        } else {
            "0"@
        }
    }

    fn as_value(&self) -> (r: String) {
        if *self {
            String::from_str("1")
        } else {
            String::from_str("0")
        }
    }
}

impl ParamValue for u64 {
    open spec fn value_spec(&self) -> Seq<char> {
        spec_u64_string(*self as int)
    }

    fn as_value(&self) -> (r: String) {
        u64_string(*self)
    }
}

impl ParamValue for String {
    /// Text passes through unchanged; URL-encoding belongs to the
    /// URL-building step, not to the encoder.
    open spec fn value_spec(&self) -> Seq<char> {
        self@
    }

    fn as_value(&self) -> (r: String) {
        self.clone()
    }
}

/// Every boolean encodes to exactly one character: "1" when true, "0"
/// when false — never the words "true" or "false".
pub proof fn lemma_bool_encoding(b: bool)
    ensures
        b ==> b.value_spec() == "1"@,
        !b ==> b.value_spec() == "0"@,
{
}

/// The encoded texts of a sequence of values, joined by commas, rightmost
/// last.
pub open spec fn spec_comma_joined(items: Seq<Seq<char>>) -> Seq<char>
    decreases items.len(),
{
    if items.len() == 0 {
        Seq::empty()
    } else if items.len() == 1 {
        items[0]
    } else {
        spec_comma_joined(items.drop_last()) + seq![','] + items.last()
    }
}

impl<V: ParamValue> ParamValue for Vec<V> {
    /// A list encodes as one comma-joined value, not as repeated keys.
    open spec fn value_spec(&self) -> Seq<char> {
        spec_comma_joined(self@.map_values(|v: V| v.value_spec()))
    }

    fn as_value(&self) -> (r: String) {
        let ghost texts = self@.map_values(|v: V| v.value_spec());
        let mut s = String::new();
        let mut i: usize = 0;
        while i < self.len()
            invariant
                i <= self@.len(),
                texts == self@.map_values(|v: V| v.value_spec()),
                s@ == spec_comma_joined(texts.take(i as int)),
            decreases self@.len() - i,
        {
            if i > 0 {
                s.append(",");
            }
            let t = self[i].as_value();
            s.append(t.as_str());
            proof {
                reveal_strlit(",");
                assert(texts.take(i + 1 as int).len() == i + 1);
                assert(texts.take(i + 1 as int).drop_last() =~= texts.take(i as int));
                assert(texts.take(i + 1 as int).last() == texts[i as int]);
                if i == 0 {
                    assert(s@ =~= spec_comma_joined(texts.take(i + 1 as int)));
                } else {
                    assert(","@ =~= seq![',']);
                    assert(s@ =~= spec_comma_joined(texts.take(i as int)) + seq![','] + texts[
                        i as int
                    ]);
                    assert(s@ =~= spec_comma_joined(texts.take(i + 1 as int)));
                }
            }
            i = i + 1;
        }
        proof {
            assert(texts.take(self@.len() as int) =~= texts);
        }
        s
    }
}

/// A list-valued parameter contributes exactly one pair, whose value is
/// the comma-join of the items' own encodings — never one pair per item.
pub proof fn lemma_list_encoding<V: ParamValue>(items: Vec<V>, key: Seq<char>)
    ensures
        spec_opt_param(key, Some(items)).len() == 1,
        spec_opt_param(key, Some(items))[0] == (key, spec_comma_joined(
            items@.map_values(|v: V| v.value_spec()),
        )),
{
}

/// One optional parameter as the sequence of pairs it contributes: one pair
/// when the value is present, none when it is absent.
pub open spec fn spec_opt_param<V: ParamValue>(key: Seq<char>, value: Option<V>) -> Seq<
    (Seq<char>, Seq<char>),
> {
    match value {
        Some(v) => seq![(key, v.value_spec())],
        None => Seq::empty(),
    }
}

/// An ordered sequence of (key, value) query-parameter pairs. Insertion
/// order is preserved; duplicate keys are legal.
pub struct QueryParams {
    params: Vec<(String, String)>,
}

impl View for QueryParams {
    type V = Seq<(Seq<char>, Seq<char>)>;

    closed spec fn view(&self) -> Seq<(Seq<char>, Seq<char>)> {
        Seq::new(self.params@.len(), |i: int| (self.params@[i].0@, self.params@[i].1@))
    }
}

impl QueryParams {
    /// An empty parameter list.
    pub fn new() -> (r: Self)
        ensures
            r@ == Seq::<(Seq<char>, Seq<char>)>::empty(),
    {
        let r = QueryParams { params: Vec::new() };
        proof {
            assert(r@ =~= Seq::<(Seq<char>, Seq<char>)>::empty());
        }
        r
    }

    /// Push a single parameter.
    pub fn push<V: ParamValue>(&mut self, key: &str, value: &V)
        ensures
            final(self)@ == old(self)@.push((key@, value.value_spec())),
    {
        let k = String::from_str(key);
        let v = value.as_value();
        self.params.push((k, v));
        proof {
            assert(self@ =~= old(self)@.push((key@, value.value_spec())));
        }
    }

    /// Push a single parameter if the value is present; a `None` is silently
    /// omitted.
    pub fn push_opt<V: ParamValue>(&mut self, key: &str, value: &Option<V>)
        ensures
            final(self)@ == old(self)@ + spec_opt_param(key@, *value),
    {
        match value {
            Some(v) => {
                self.push(key, v);
                proof {
                    assert(self@ =~= old(self)@ + spec_opt_param(key@, *value));
                }
            },
            None => {
                proof {
                    assert(self@ =~= old(self)@ + spec_opt_param(key@, *value));
                }
            },
        }
    }

    /// Push a set of parameters, in order.
    pub fn extend<V: ParamValue>(&mut self, items: &Vec<(String, V)>)
        ensures
            final(self)@ == old(self)@ + items@.map_values(
                |p: (String, V)| (p.0@, p.1.value_spec()),
            ),
    {
        let ghost added = items@.map_values(|p: (String, V)| (p.0@, p.1.value_spec()));
        let mut i: usize = 0;
        while i < items.len()
            invariant
                i <= items@.len(),
                added == items@.map_values(|p: (String, V)| (p.0@, p.1.value_spec())),
                self@ == old(self)@ + added.take(i as int),
            decreases items@.len() - i,
        {
            self.push(items[i].0.as_str(), &items[i].1);
            proof {
                assert(self@ =~= old(self)@ + added.take(i + 1 as int));
            }
            i = i + 1;
        }
        proof {
            assert(added.take(items@.len() as int) =~= added);
        }
    }

    /// The number of pairs held.
    pub fn len(&self) -> (r: usize)
        ensures
            r == self@.len(),
    {
        self.params.len()
    }

    /// The key of the pair at `i`.
    pub fn key_at(&self, i: usize) -> (r: &String)
        requires
            i < self@.len(),
        ensures
            r@ == self@[i as int].0,
    {
        &self.params[i].0
    }

    /// The value of the pair at `i`.
    pub fn value_at(&self, i: usize) -> (r: &String)
        requires
            i < self@.len(),
        ensures
            r@ == self@[i as int].1,
    {
        &self.params[i].1
    }

    /// Render the pairs as an `application/x-www-form-urlencoded` query
    /// string: `key=value` joined by `&`, each text percent-encoded.
    pub fn to_query_string(&self) -> (r: String)
        ensures
            r@ == spec_query_chars(self@),
    {
        let mut out: Vec<u8> = Vec::new();
        let mut i: usize = 0;
        while i < self.params.len()
            invariant
                i <= self.params@.len(),
                out@ == spec_query_bytes(self@.take(i as int)),
            decreases self.params@.len() - i,
        {
            if i > 0 {
                out.push(0x26);  // '&'
            }
            encode_component(self.params[i].0.as_str(), &mut out);
            out.push(0x3D);  // '='
            encode_component(self.params[i].1.as_str(), &mut out);
            proof {
                assert(self@.take(i + 1 as int).drop_last() =~= self@.take(i as int));
                assert(self@.take(i + 1 as int).last() == self@[i as int]);
                assert(out@ =~= spec_query_bytes(self@.take(i + 1 as int)));
            }
            i = i + 1;
        }
        proof {
            assert(self@.take(self@.len() as int) =~= self@);
            lemma_query_bytes_ascii(self@);
        }
        ascii_string(out)
    }

    /// Append the parameters to a URL: nothing when there are none, else a
    /// `?` and the encoded query string.
    pub fn add_to_url(&self, url: &mut String)
        ensures
            final(url)@ == old(url)@ + spec_url_query_suffix(self@),
    {
        if self.params.len() > 0 {
            url.append("?");
            let q = self.to_query_string();
            url.append(q.as_str());
            proof {
                reveal_strlit("?");
                assert(url@ =~= old(url)@ + spec_url_query_suffix(self@));
            }
        } else {
            proof {
                assert(url@ =~= old(url)@ + spec_url_query_suffix(self@));
            }
        }
    }
}

/// Whether a byte passes through the query-string encoding unchanged:
/// ASCII alphanumerics and `*`, `-`, `.`, `_`.
pub open spec fn spec_unchanged_byte(b: u8) -> bool {
    ||| b == 0x2A
    ||| b == 0x2D
    ||| b == 0x2E
    ||| 0x30 <= b <= 0x39
    ||| 0x41 <= b <= 0x5A
    ||| b == 0x5F
    ||| 0x61 <= b <= 0x7A
}

/// The ASCII code of an upper-case hexadecimal digit.
pub open spec fn spec_hex_digit(d: int) -> u8 {
    if d < 10 {
        (0x30 + d) as u8
    } else {
        (0x41 + (d - 10)) as u8
    }
}

/// The query-string encoding of one byte: itself when unchanged, `+` for a
/// space, else `%` and two upper-case hexadecimal digits.
pub open spec fn spec_encode_byte(b: u8) -> Seq<u8> {
    if spec_unchanged_byte(b) {
        seq![b]
    } else if b == 0x20 {
        seq![0x2B]
    } else {
        seq![0x25, spec_hex_digit(b as int / 16), spec_hex_digit(b as int % 16)]
    }
}

/// The query-string encoding of a byte sequence.
pub open spec fn spec_encode_bytes(s: Seq<u8>) -> Seq<u8>
    decreases s.len(),
{
    if s.len() == 0 {
        Seq::empty()
    } else {
        spec_encode_bytes(s.drop_last()) + spec_encode_byte(s.last())
    }
}

/// The query-string encoding of a text: its UTF-8 bytes, each encoded.
pub open spec fn spec_encode_text(s: Seq<char>) -> Seq<u8> {
    spec_encode_bytes(vstd::utf8::encode_utf8(s))
}

/// The rendering of one `key=value` pair.
pub open spec fn spec_pair_bytes(p: (Seq<char>, Seq<char>)) -> Seq<u8> {
    spec_encode_text(p.0) + seq![0x3D] + spec_encode_text(p.1)
}

/// The rendering of a whole pair sequence, pairs joined by `&`.
pub open spec fn spec_query_bytes(pairs: Seq<(Seq<char>, Seq<char>)>) -> Seq<u8>
    decreases pairs.len(),
{
    if pairs.len() == 0 {
        Seq::empty()
    } else if pairs.len() == 1 {
        spec_pair_bytes(pairs[0])
    } else {
        spec_query_bytes(pairs.drop_last()) + seq![0x26] + spec_pair_bytes(pairs.last())
    }
}

/// A byte sequence read as characters, one character per byte.
pub open spec fn spec_bytes_as_chars(s: Seq<u8>) -> Seq<char> {
    Seq::new(s.len(), |i: int| s[i] as char)
}

/// The rendered query string of a pair sequence, as characters.
pub open spec fn spec_query_chars(pairs: Seq<(Seq<char>, Seq<char>)>) -> Seq<char> {
    spec_bytes_as_chars(spec_query_bytes(pairs))
}

/// What the parameters contribute to a URL: nothing when empty, else `?`
/// and the query string.
pub open spec fn spec_url_query_suffix(pairs: Seq<(Seq<char>, Seq<char>)>) -> Seq<char> {
    if pairs.len() == 0 {
        Seq::empty()
    } else {
        seq!['?'] + spec_query_chars(pairs)
    }
}

/// Every byte of an encoded byte is below 128.
proof fn lemma_encode_byte_ascii(b: u8)
    ensures
        forall|j: int|
            0 <= j < spec_encode_byte(b).len() ==> (#[trigger] spec_encode_byte(b)[j]) < 128,
{
}

/// Every byte of an encoded byte sequence is below 128.
proof fn lemma_encode_bytes_ascii(s: Seq<u8>)
    ensures
        forall|j: int|
            0 <= j < spec_encode_bytes(s).len() ==> (#[trigger] spec_encode_bytes(s)[j]) < 128,
    decreases s.len(),
{
    if s.len() > 0 {
        lemma_encode_bytes_ascii(s.drop_last());
        lemma_encode_byte_ascii(s.last());
        let left = spec_encode_bytes(s.drop_last());
        let right = spec_encode_byte(s.last());
        assert forall|j: int|
            0 <= j < spec_encode_bytes(s).len() implies (#[trigger] spec_encode_bytes(s)[j])
            < 128 by {
            if j < left.len() {
                assert(spec_encode_bytes(s)[j] == left[j]);
            } else {
                assert(spec_encode_bytes(s)[j] == right[j - left.len()]);
            }
        }
    }
}

/// Every byte of a rendered query string is below 128.
proof fn lemma_query_bytes_ascii(pairs: Seq<(Seq<char>, Seq<char>)>)
    ensures
        forall|j: int|
            0 <= j < spec_query_bytes(pairs).len() ==> (#[trigger] spec_query_bytes(pairs)[j])
                < 128,
    decreases pairs.len(),
{
    if pairs.len() == 1 {
        lemma_pair_bytes_ascii(pairs[0]);
        assert(spec_query_bytes(pairs) == spec_pair_bytes(pairs[0]));
    } else if pairs.len() > 1 {
        lemma_query_bytes_ascii(pairs.drop_last());
        lemma_pair_bytes_ascii(pairs.last());
        let left = spec_query_bytes(pairs.drop_last());
        let right = spec_pair_bytes(pairs.last());
        assert forall|j: int|
            0 <= j < spec_query_bytes(pairs).len() implies (#[trigger] spec_query_bytes(pairs)[j])
            < 128 by {
            if j < left.len() {
                assert(spec_query_bytes(pairs)[j] == left[j]);
            } else if j == left.len() {
                assert(spec_query_bytes(pairs)[j] == 0x26);
            } else {
                assert(spec_query_bytes(pairs)[j] == right[j - left.len() - 1]);
            }
        }
    }
}

/// Every byte of one rendered pair is below 128.
proof fn lemma_pair_bytes_ascii(p: (Seq<char>, Seq<char>))
    ensures
        forall|j: int|
            0 <= j < spec_pair_bytes(p).len() ==> (#[trigger] spec_pair_bytes(p)[j]) < 128,
{
    lemma_encode_bytes_ascii(vstd::utf8::encode_utf8(p.0));
    lemma_encode_bytes_ascii(vstd::utf8::encode_utf8(p.1));
    let left = spec_encode_text(p.0);
    let right = spec_encode_text(p.1);
    assert forall|j: int|
        0 <= j < spec_pair_bytes(p).len() implies (#[trigger] spec_pair_bytes(p)[j]) < 128 by {
        if j < left.len() {
            assert(spec_pair_bytes(p)[j] == left[j]);
        } else if j == left.len() {
            assert(spec_pair_bytes(p)[j] == 0x3D);
        } else {
            assert(spec_pair_bytes(p)[j] == right[j - left.len() - 1]);
        }
    }
}

/// Append the query-string encoding of a text's UTF-8 bytes to `out`.
fn encode_component(s: &str, out: &mut Vec<u8>)
    ensures
        final(out)@ == old(out)@ + spec_encode_text(s@),
{
    let bytes = s.as_bytes();
    let mut i: usize = 0;
    while i < bytes.len()
        invariant
            i <= bytes@.len(),
            bytes@ == vstd::utf8::encode_utf8(s@),
            out@ == old(out)@ + spec_encode_bytes(bytes@.take(i as int)),
        decreases bytes@.len() - i,
    {
        let b = bytes[i];
        if b == 0x2A || b == 0x2D || b == 0x2E || (0x30 <= b && b <= 0x39) || (0x41 <= b && b
            <= 0x5A) || b == 0x5F || (0x61 <= b && b <= 0x7A) {
            out.push(b);
        } else if b == 0x20 {
            out.push(0x2B);
        } else {
            out.push(0x25);
            out.push(hex_digit(b / 16));
            out.push(hex_digit(b % 16));
        }
        proof {
            assert(bytes@.take(i + 1 as int).drop_last() =~= bytes@.take(i as int));
            assert(bytes@.take(i + 1 as int).last() == bytes@[i as int]);
            assert(out@ =~= old(out)@ + spec_encode_bytes(bytes@.take(i + 1 as int)));
        }
        i = i + 1;
    }
    proof {
        assert(bytes@.take(bytes@.len() as int) =~= bytes@);
    }
}

pub(crate) fn hex_digit(d: u8) -> (r: u8)
    requires
        d < 16,
    ensures
        r == spec_hex_digit(d as int),
{
    if d < 10 {
        0x30 + d
    } else {
        0x41 + (d - 10)
    }
}

/// Relies on `String::from_utf8`: bytes below 128 are valid UTF-8 and
/// decode to exactly those characters.
#[verifier::external_body]
fn ascii_string(bytes: Vec<u8>) -> (r: String)
    requires
        forall|i: int| 0 <= i < bytes@.len() ==> bytes@[i] < 128,
    ensures
        r@ == spec_bytes_as_chars(bytes@),
{
    String::from_utf8(bytes).unwrap_or_default()
}

} // verus!
