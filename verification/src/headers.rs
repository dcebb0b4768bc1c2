//! HTTP headers as the `http` crate holds them.
use http::HeaderMap;
use http::HeaderValue;
use http::header::ToStrError;
use vstd::prelude::*;

verus! {

/// `http::HeaderMap`, a multimap from header names to header values.
#[verifier::external_type_specification]
#[verifier::external_body]
#[verifier::reject_recursive_types(T)]
pub struct ExHeaderMap<T>(http::HeaderMap<T>);

/// `http::HeaderValue`, a string of bytes.
#[verifier::external_type_specification]
#[verifier::external_body]
pub struct ExHeaderValue(http::HeaderValue);

/// `http::header::ToStrError`, the error of a header value that is not text.
#[verifier::external_type_specification]
#[verifier::external_body]
pub struct ExToStrError(http::header::ToStrError);

/// What a header map holds: for every name, in lower case, the bytes of its values in the order
/// in which they were added.
pub uninterp spec fn header_contents(headers: HeaderMap) -> Map<Seq<char>, Seq<Seq<u8>>>;

/// The bytes of a header value.
pub uninterp spec fn header_bytes(value: HeaderValue) -> Seq<u8>;

/// The bytes that text in a header value consists of: visible ASCII, blanks and tabs.
pub open spec fn is_text_byte(byte: u8) -> bool {
    32 <= byte < 127 || byte == 9
}

/// Bytes that are all text.
pub open spec fn is_header_text(bytes: Seq<u8>) -> bool {
    forall|k: int| 0 <= k < bytes.len() ==> is_text_byte(#[trigger] bytes[k])
}

/// The text that ASCII bytes stand for.
pub open spec fn ascii_text(bytes: Seq<u8>) -> Seq<char> {
    bytes.map_values(|byte: u8| byte as char)
}

/// The bytes of ASCII text.
pub open spec fn ascii_bytes(text: Seq<char>) -> Seq<u8> {
    text.map_values(|c: char| c as u8)
}

/// A short header name in lower case.
pub open spec fn is_lower_name(name: Seq<char>) -> bool {
    &&& 0 < name.len() <= 64
    &&& forall|k: int|
        0 <= k < name.len() ==> {
            ||| 'a' <= #[trigger] name[k] <= 'z'
            ||| '0' <= name[k] <= '9'
            ||| name[k] == '-'
        }
}

/// `HeaderValue::to_str`: the value as text, which fails exactly when one of its bytes is
/// neither visible ASCII nor a blank nor a tab.
pub assume_specification[ HeaderValue::to_str ](value: &HeaderValue) -> (text: Result<
    &str,
    ToStrError,
>)
    ensures
        match text {
            Ok(text) => is_header_text(header_bytes(*value)) && text@ == ascii_text(
                header_bytes(*value),
            ),
            Err(_) => !is_header_text(header_bytes(*value)),
        },
;

/// `HeaderValue::from_static`: a value with the bytes of the given text. It panics on text with
/// other characters than visible ASCII, blanks and tabs.
pub assume_specification[ HeaderValue::from_static ](src: &'static str) -> (value: HeaderValue)
    requires
        forall|k: int|
            0 <= k < src@.len() ==> (' ' <= #[trigger] src@[k] <= '~' || src@[k] == '\t'),
    ensures
        header_bytes(value) == ascii_bytes(src@),
;

/// `HeaderMap::get` with a name in lower case: the first value under the name, or none where the
/// map has no value under it.
#[verifier::external_body]
pub(crate) fn first_header<'a>(headers: &'a HeaderMap, name: &str) -> (value: Option<
    &'a HeaderValue,
>)
    requires
        is_lower_name(name@),
    ensures
        match value {
            Some(value) => {
                &&& header_contents(*headers).contains_key(name@)
                &&& header_contents(*headers)[name@].len() > 0
                &&& header_contents(*headers)[name@][0] == header_bytes(*value)
            },
            None => !header_contents(*headers).contains_key(name@),
        },
{
    headers.get(name)
}

/// A header map that surely has room for one more name. A header map has at most 2^15 slots, and
/// gives up on growing only where a fifth of them or more are taken.
pub open spec fn has_room(contents: Map<Seq<char>, Seq<Seq<u8>>>) -> bool {
    contents.dom().len() * 5 < 32768
}

/// `HeaderMap::try_insert` with a name in lower case: the given value becomes the only one under
/// that name, unless the map gives up on growing, and then its contents do not change. It does
/// not give up while it surely has room.
#[verifier::external_body]
pub(crate) fn set_header(headers: &mut HeaderMap, name: &'static str, value: HeaderValue) -> (done:
    bool)
    requires
        is_lower_name(name@),
    ensures
        header_contents(*final(headers)) == if done {
            header_contents(*old(headers)).insert(name@, seq![header_bytes(value)])
        } else {
            header_contents(*old(headers))
        },
        has_room(header_contents(*old(headers))) ==> done,
{
    headers.try_insert(name, value).is_ok()
}

} // verus!
