//! Request headers, held in reqwest's `HeaderMap`.
use vstd::prelude::*;
use vstd::utf8::*;
use reqwest::header::{HeaderMap, HeaderValue, InvalidHeaderValue};

verus! {

/// reqwest's (http's) map from header names to values.
#[verifier::external_type_specification]
#[verifier::external_body]
#[verifier::reject_recursive_types(T)]
pub struct ExHeaderMap<T>(HeaderMap<T>);

/// A header value: a sequence of bytes.
#[verifier::external_type_specification]
#[verifier::external_body]
pub struct ExHeaderValue(HeaderValue);

/// The error of a text that cannot be a header value.
#[verifier::external_type_specification]
#[verifier::external_body]
pub struct ExInvalidHeaderValue(InvalidHeaderValue);

/// What a header map holds: for each (lower-case) header name, its values in
/// the order they were added.
pub uninterp spec fn header_entries(m: HeaderMap) -> Map<Seq<char>, Seq<Seq<u8>>>;

/// The bytes that a header value holds.
pub uninterp spec fn header_value_bytes(v: HeaderValue) -> Seq<u8>;

/// A byte that a header value may hold: visible ASCII, a space, a tab, or any
/// byte from 128 up.
pub open spec fn is_header_value_byte(b: u8) -> bool {
    (b >= 32 && b != 127) || b == 9
}

/// A character that may stand in a lower-case header name (an HTTP token
/// character that is not an upper-case letter).
pub open spec fn is_header_name_char(c: char) -> bool {
    ||| ('a' <= c && c <= 'z')
    ||| ('0' <= c && c <= '9')
    ||| c == '!' || c == '"' || c == '#' || c == '$' || c == '%' || c == '&' || c == '\''
    ||| c == '*' || c == '+' || c == '-' || c == '.' || c == '^' || c == '_' || c == '`'
    ||| c == '|' || c == '~'
}

/// A lower-case header name of at most 64 characters.
pub open spec fn is_header_name(name: Seq<char>) -> bool {
    &&& 1 <= name.len() <= 64
    &&& forall|i: int| 0 <= i < name.len() ==> is_header_name_char(#[trigger] name[i])
}

/// The bytes of an ASCII text.
pub open spec fn ascii_bytes(s: Seq<char>) -> Seq<u8> {
    Seq::new(s.len(), |i: int| s[i] as u8)
}

/// An empty header map: `HeaderMap::new`.
#[verifier::external_body]
pub(crate) fn new_header_map() -> (map: HeaderMap)
    ensures
        header_entries(map) =~= Map::empty(),
{
    HeaderMap::new()
}

/// `HeaderValue::from_str`: fails exactly when some byte of the text's UTF-8
/// encoding is not allowed in a header value; otherwise the value holds those
/// bytes.
#[verifier::external_body]
pub(crate) fn header_value_from_str(s: &str) -> (r: Result<HeaderValue, InvalidHeaderValue>)
    ensures
        r is Ok <==> (forall|i: int|
            0 <= i < encode_utf8(s@).len() ==> is_header_value_byte(#[trigger] encode_utf8(s@)[i])),
        r matches Ok(v) ==> header_value_bytes(v) == encode_utf8(s@),
{
    HeaderValue::from_str(s)
}

/// `HeaderMap::insert` with a static name: the name's values become the one
/// given value, and the first of the values it had before, if any, comes back.
/// A map holds at most 32,768 names: adding a new name to a full map panics,
/// so that input is left out.
#[verifier::external_body]
pub(crate) fn header_map_insert(m: &mut HeaderMap, name: &'static str, value: HeaderValue) -> (r: Option<
    HeaderValue,
>)
    requires
        is_header_name(name@),
        header_entries(*old(m)).contains_key(name@) || header_entries(*old(m)).dom().len() < 32768,
    ensures
        header_entries(*final(m)) == header_entries(*old(m)).insert(
            name@,
            seq![header_value_bytes(value)],
        ),
        r is Some <==> header_entries(*old(m)).contains_key(name@) && header_entries(
            *old(m),
        )[name@].len() > 0,
        r matches Some(v) ==> header_value_bytes(v) == header_entries(*old(m))[name@][0],
{
    m.insert(name, value)
}

} // verus!
