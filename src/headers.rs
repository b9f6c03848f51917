//! The authorization header of a request.
use vstd::prelude::*;
use vstd::utf8::{encode_scalar, encode_utf8, has_width_1_encoding, leading_byte_width_1};

use reqwest::header::{HeaderMap, HeaderValue, InvalidHeaderValue};

use crate::error::SanityError;

verus! {

#[verifier::external_type_specification]
#[verifier::external_body]
pub struct ExHeaderValue(HeaderValue);

#[verifier::external_type_specification]
#[verifier::external_body]
pub struct ExInvalidHeaderValue(InvalidHeaderValue);

#[verifier::external_type_specification]
#[verifier::external_body]
#[verifier::reject_recursive_types(T)]
pub struct ExHeaderMap<T>(HeaderMap<T>);

/// The bytes that a header value holds.
pub uninterp spec fn header_value_bytes(v: HeaderValue) -> Seq<u8>;

/// The entries of a header map: each (lower-case) header name with the bytes
/// of its value.
pub uninterp spec fn header_entries(m: HeaderMap) -> Map<Seq<char>, Seq<u8>>;

/// A byte that may stand in a header value: a tab, or anything from the
/// space up but DEL.
pub open spec fn is_header_value_byte(b: u8) -> bool {
    (b >= 32 && b != 127) || b == 9
}

/// Bytes that form a valid header value.
pub open spec fn is_header_value(bytes: Seq<u8>) -> bool {
    forall|i: int| 0 <= i < bytes.len() ==> is_header_value_byte(#[trigger] bytes[i])
}

/// A character that no header value may hold: an ASCII control character
/// other than tab, or DEL.
pub open spec fn is_forbidden_header_char(c: char) -> bool {
    ((c as u32) < 32 && c as u32 != 9) || c as u32 == 127
}

/// An ASCII character is encoded as its own code.
proof fn lemma_ascii_byte(v: u32)
    requires
        v <= 0x7F,
    ensures
        ((v & 0x7F) as u8) as u32 == v,
{
    assert(((v & 0x7F) as u8) as u32 == v) by (bit_vector)
        requires
            v <= 0x7F,
    ;
}

/// A token that holds a forbidden character anywhere is not a valid header
/// value: `construct_headers` rejects it with `InvalidHeader`.
pub proof fn lemma_forbidden_char_rejected(token: Seq<char>, i: int)
    requires
        0 <= i < token.len(),
        is_forbidden_header_char(token[i]),
    ensures
        !is_header_value(encode_utf8(token)),
    decreases token.len(),
{
    let head = encode_scalar(token[0] as u32);
    let rest = token.drop_first();
    let bytes = encode_utf8(token);
    assert(bytes == head + encode_utf8(rest));
    if i == 0 {
        let v = token[0] as u32;
        assert(has_width_1_encoding(v));
        lemma_ascii_byte(v);
        assert(head == seq![leading_byte_width_1(v)]);
        assert(bytes[0] == head[0]);
        assert(bytes[0] as u32 == v);
        assert(!is_header_value_byte(bytes[0]));
    } else {
        assert(rest[i - 1] == token[i]);
        lemma_forbidden_char_rejected(rest, i - 1);
        let k = choose|k: int|
            0 <= k < encode_utf8(rest).len() && !is_header_value_byte(#[trigger] encode_utf8(rest)[k]);
        assert(bytes[head.len() + k] == encode_utf8(rest)[k]);
    }
}

/// The name under which the credential is sent.
pub open spec fn authorization_name() -> Seq<char> {
    "authorization"@
}

/// Relies on http's `HeaderValue::from_str` (re-exported by reqwest): it
/// accepts a string exactly when every byte of its UTF-8 encoding is a valid
/// header value byte, and then copies those bytes.
pub assume_specification[ HeaderValue::from_str ](src: &str) -> (r: Result<
    HeaderValue,
    InvalidHeaderValue,
>)
    ensures
        r is Ok <==> is_header_value(encode_utf8(src@)),
        r is Ok ==> header_value_bytes(r->Ok_0) == encode_utf8(src@),
;

/// Relies on http's `HeaderMap::new`: the map starts empty.
pub assume_specification[ HeaderMap::new ]() -> (r: HeaderMap)
    ensures
        header_entries(r) =~= Map::empty(),
;

/// Relies on http's `HeaderMap::insert` with the `AUTHORIZATION` name: the
/// value replaces whatever the map held under that name. It panics only when
/// the map outgrows its maximum size, which a map of no entries cannot.
#[verifier::external_body]
fn insert_authorization(m: &mut HeaderMap, v: HeaderValue)
    requires
        header_entries(*old(m)).len() == 0,
    ensures
        header_entries(*final(m)) == header_entries(*old(m)).insert(
            authorization_name(),
            header_value_bytes(v),
        ),
{
    m.insert(reqwest::header::AUTHORIZATION, v);
}

/// A header map that sends `auth_token`, unchanged, as the `Authorization`
/// value; `InvalidHeader` when the token holds a byte that a header value
/// cannot (a control character such as a newline, or DEL).
pub fn construct_headers(auth_token: &str) -> (r: Result<HeaderMap, SanityError>)
    ensures
        r is Ok <==> is_header_value(encode_utf8(auth_token@)),
        r is Ok ==> header_entries(r->Ok_0) == map![authorization_name() => encode_utf8(auth_token@)],
        r is Err ==> r->Err_0 == SanityError::InvalidHeader,
{
    match HeaderValue::from_str(auth_token) {
        Ok(value) => {
            let mut headers = HeaderMap::new();
            insert_authorization(&mut headers, value);
            Ok(headers)
        },
        Err(_) => Err(SanityError::InvalidHeader),
    }
}

} // verus!
