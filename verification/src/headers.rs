use vstd::prelude::*;
use axum::http::{HeaderMap, HeaderValue};
use crate::text::char_to_string;

verus! {

#[verifier::external_type_specification]
#[verifier::external_body]
#[verifier::reject_recursive_types(T)]
pub struct ExHeaderMap<T>(HeaderMap<T>);

#[verifier::external_type_specification]
#[verifier::external_body]
pub struct ExHeaderValue(HeaderValue);

/// What a header map holds, as the connector reads it: for each header name
/// present (in its lower-case text form), the bytes of the first value stored
/// under that name.
pub uninterp spec fn header_fields(m: HeaderMap) -> Map<Seq<char>, Seq<u8>>;

/// A header name in the lower-case form under which a header map stores it.
pub open spec fn lower_header_name(name: Seq<char>) -> bool {
    &&& name.len() > 0
    &&& forall|i: int|
        0 <= i < name.len() ==> {
            let c = #[trigger] name[i] as u32;
            (97 <= c <= 122) || (48 <= c <= 57) || c == 45
        }
}

/// A byte that may stand in a header value read as text: visible ASCII or a tab.
pub open spec fn visible_ascii(b: u8) -> bool {
    (32 <= b && b < 127) || b == 9
}

/// A header value read as text: defined when every byte is visible ASCII,
/// and then the characters of those bytes.
pub open spec fn header_text(bytes: Seq<u8>) -> Option<Seq<char>> {
    if forall|i: int| 0 <= i < bytes.len() ==> visible_ascii(#[trigger] bytes[i]) {
        Some(bytes.map_values(|b: u8| b as char))
    } else {
        None
    }
}

/// The text of header `name`, or nothing when it is absent or not text.
pub open spec fn header_or_empty(fields: Map<Seq<char>, Seq<u8>>, name: Seq<char>) -> Seq<char> {
    if fields.contains_key(name) {
        match header_text(fields[name]) {
            Some(t) => t,
            None => Seq::empty(),
        }
    } else {
        Seq::empty()
    }
}

/// The origin a request claims: its `origin` header, else its `referer` header,
/// read as text; empty when that header is absent or not text.
pub open spec fn claimed_origin(fields: Map<Seq<char>, Seq<u8>>) -> Seq<char> {
    if fields.contains_key("origin"@) {
        header_or_empty(fields, "origin"@)
    } else {
        header_or_empty(fields, "referer"@)
    }
}

/// The connector token a request presents; empty when absent or not text.
pub open spec fn presented_token(fields: Map<Seq<char>, Seq<u8>>) -> Seq<char> {
    header_or_empty(fields, "x-connector-token"@)
}

/// Calls `HeaderMap::get` with a lower-case header name and copies out the bytes
/// of the value found (`HeaderValue::as_bytes`). The map's source shows that a
/// lookup by a lower-case name finds the first value stored under that name.
#[verifier::external_body]
fn header_bytes(headers: &HeaderMap, name: &str) -> (r: Option<Vec<u8>>)
    requires
        lower_header_name(name@),
    ensures
        r is None <==> !header_fields(*headers).contains_key(name@),
        r matches Some(b) ==> b@ == header_fields(*headers)[name@],
{
    match headers.get(name) {
        Some(v) => Some(v.as_bytes().to_vec()),
        None => None,
    }
}

/// Reads header bytes as text, as `HeaderValue::to_str` does: text exactly when
/// every byte is visible ASCII.
pub fn header_value_text(bytes: &Vec<u8>) -> (r: Option<String>)
    ensures
        r matches Some(s) ==> header_text(bytes@) == Some(s@),
        r is None ==> header_text(bytes@) is None,
{
    let n = bytes.len();
    let mut i: usize = 0;
    while i < n
        invariant
            n == bytes@.len(),
            i <= n,
            forall|j: int| 0 <= j < i ==> visible_ascii(#[trigger] bytes@[j]),
        decreases n - i,
    {
        let b = bytes[i];
        if !((32 <= b && b < 127) || b == 9) {
            assert(!visible_ascii(bytes@[i as int]));
            return None;
        }
        i = i + 1;
    }
    let mut out = String::new();
    let mut k: usize = 0;
    while k < n
        invariant
            n == bytes@.len(),
            k <= n,
            out@ =~= bytes@.subrange(0, k as int).map_values(|b: u8| b as char),
        decreases n - k,
    {
        let c = bytes[k] as char;
        let piece = char_to_string(c);
        out.append(piece.as_str());
        assert(bytes@.subrange(0, k + 1).map_values(|b: u8| b as char) =~= bytes@.subrange(
            0,
            k as int,
        ).map_values(|b: u8| b as char).push(c));
        k = k + 1;
    }
    assert(bytes@.subrange(0, n as int) =~= bytes@);
    Some(out)
}

/// The text of header `name`, or empty when it is absent or not text.
fn header_text_or_empty(headers: &HeaderMap, name: &str) -> (r: String)
    requires
        lower_header_name(name@),
    ensures
        r@ == header_or_empty(header_fields(*headers), name@),
{
    match header_bytes(headers, name) {
        Some(b) => match header_value_text(&b) {
            Some(t) => t,
            None => String::new(),
        },
        None => String::new(),
    }
}

/// The origin a request claims: `origin`, else `referer`.
pub fn request_origin(headers: &HeaderMap) -> (r: String)
    ensures
        r@ == claimed_origin(header_fields(*headers)),
{
    proof {
        reveal_strlit("origin");
        reveal_strlit("referer");
    }
    let found = header_bytes(headers, "origin");
    if found.is_some() {
        header_text_or_empty(headers, "origin")
    } else {
        header_text_or_empty(headers, "referer")
    }
}

/// The connector token a request presents in `x-connector-token`.
pub fn request_token(headers: &HeaderMap) -> (r: String)
    ensures
        r@ == presented_token(header_fields(*headers)),
{
    proof {
        reveal_strlit("x-connector-token");
    }
    header_text_or_empty(headers, "x-connector-token")
}

} // verus!
