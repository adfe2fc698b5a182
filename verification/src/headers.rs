//! The header collection of the `http` crate, as the exchange sees it.
//!
//! `http::HeaderMap` stays the carrier of a request's header fields. Verus
//! cannot look inside it, so this module names what a map holds and states,
//! for the few methods the exchange calls, what they do to it. Everything in
//! this file is taken on trust from the `http` crate.

use http::header::{HeaderMap, HeaderValue, InvalidHeaderValue, MaxSizeReached};
use vstd::prelude::*;
use vstd::utf8::encode_utf8;

verus! {

/// `http::HeaderMap`.
#[verifier::external_type_specification]
#[verifier::external_body]
#[verifier::reject_recursive_types(T)]
pub struct ExHeaderMap<T>(HeaderMap<T>);

/// `http::HeaderValue`.
#[verifier::external_type_specification]
#[verifier::external_body]
pub struct ExHeaderValue(HeaderValue);

/// `http::header::InvalidHeaderValue`, carried through unread.
#[verifier::external_type_specification]
#[verifier::external_body]
pub struct ExInvalidHeaderValue(InvalidHeaderValue);

/// `http::header::MaxSizeReached`, carried through unread.
#[verifier::external_type_specification]
#[verifier::external_body]
pub struct ExMaxSizeReached(MaxSizeReached);

/// The fields a header map holds: each field name that is present, in its
/// canonical lower-case spelling, with the bytes of its values in the order
/// in which they were added.
pub uninterp spec fn header_fields(headers: HeaderMap<HeaderValue>) -> Map<
    Seq<char>,
    Seq<Seq<u8>>,
>;

/// The bytes a header value holds.
pub uninterp spec fn value_bytes(value: HeaderValue) -> Seq<u8>;

/// A field name that `http` accepts as it is written: one to sixty-four
/// characters, each a lower-case letter or a hyphen.
pub open spec fn is_plain_name(name: Seq<char>) -> bool {
    &&& 1 <= name.len() <= 64
    &&& forall|i: int| 0 <= i < name.len() ==> ('a' <= #[trigger] name[i] <= 'z' || name[i] == '-')
}

/// A character that `http` accepts in a header value: a tab, or anything from
/// the space upwards but the delete character.
pub open spec fn is_value_char(c: char) -> bool {
    c == '\t' || (' ' <= c && c != '\x7f')
}

/// Bytes that are each a tab or a printable ASCII character.
pub open spec fn is_printable(bytes: Seq<u8>) -> bool {
    forall|i: int| 0 <= i < bytes.len() ==> (32 <= #[trigger] bytes[i] < 127 || bytes[i] == 9)
}

/// Text that `http` accepts as a header value.
pub open spec fn is_value_text(text: Seq<char>) -> bool {
    forall|i: int| 0 <= i < text.len() ==> is_value_char(#[trigger] text[i])
}

/// `HeaderMap::get` with a string key: the first value of the field of that
/// name, if the map holds such a field. A field that is held has a value.
#[verifier::external_body]
pub(crate) fn first_value<'a>(headers: &'a HeaderMap<HeaderValue>, name: &'static str) -> (value:
    Option<&'a HeaderValue>)
    requires
        is_plain_name(name@),
    ensures
        value is Some <==> header_fields(*headers).contains_key(name@),
        value matches Some(v) ==> header_fields(*headers)[name@].len() > 0 && value_bytes(*v)
            == header_fields(*headers)[name@][0],
{
    headers.get(name)
}

/// `HeaderMap::try_insert` with a static string key: on success the field
/// holds the new value alone and the other fields are as before.
#[verifier::external_body]
pub(crate) fn set_field(
    headers: &mut HeaderMap<HeaderValue>,
    name: &'static str,
    value: HeaderValue,
) -> (done: Result<(), MaxSizeReached>)
    requires
        is_plain_name(name@),
    ensures
        done is Ok ==> header_fields(*final(headers)) == header_fields(*old(headers)).insert(
            name@,
            seq![value_bytes(value)],
        ),
{
    match headers.try_insert(name, value) {
        Ok(_) => Ok(()),
        Err(cause) => Err(cause),
    }
}

/// `HeaderValue::from_str`: succeeds exactly on text without control
/// characters other than the tab, characters beyond ASCII included, and the
/// value then holds the text's UTF-8 bytes.
#[verifier::external_body]
pub(crate) fn value_of(text: &str) -> (value: Result<HeaderValue, InvalidHeaderValue>)
    ensures
        value is Ok <==> is_value_text(text@),
        value matches Ok(v) ==> value_bytes(v) == encode_utf8(text@),
{
    HeaderValue::from_str(text)
}

/// `HeaderMap::clone`: the copy holds the same fields.
#[verifier::external_body]
pub(crate) fn copy_of(headers: &HeaderMap<HeaderValue>) -> (copy: HeaderMap<HeaderValue>)
    ensures
        header_fields(copy) == header_fields(*headers),
{
    headers.clone()
}

/// `HeaderValue::to_str`: the value as text, if each of its bytes is a tab or
/// a printable ASCII character.
#[verifier::external_body]
pub(crate) fn value_text(value: &HeaderValue) -> (text: Option<&str>)
    ensures
        text is Some <==> is_printable(value_bytes(*value)),
        text matches Some(t) ==> encode_utf8(t@) == value_bytes(*value),
{
    match value.to_str() {
        Ok(text) => Some(text),
        Err(_) => None,
    }
}

/// `std::io::Error::other` on the refusal of a header value.
#[verifier::external_body]
pub(crate) fn refused_value(cause: InvalidHeaderValue) -> (fault: std::io::Error) {
    std::io::Error::other(cause)
}

/// `std::io::Error::other` on the refusal of one more header field.
#[verifier::external_body]
pub(crate) fn refused_field(cause: MaxSizeReached) -> (fault: std::io::Error) {
    std::io::Error::other(cause)
}

} // verus!
