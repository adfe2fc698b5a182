//! The header fields of an outgoing request head.
//!
//! A request with a body held in memory is sent with a `Host` and a
//! `Content-Length` field; each is added only where the caller set none. A
//! request whose body is streamed is sent with chunked transfer framing.

use crate::error::HeadError;
use crate::headers::{
    copy_of, first_value, header_fields, is_plain_name, is_value_text, set_field, value_of,
};
use crate::origin::{Origin, OriginView};
use http::header::{HeaderMap, HeaderValue, MaxSizeReached};
use vstd::prelude::*;
use vstd::string::*;
use vstd::utf8::encode_utf8;

verus! {

/// The protocol version that a head announces.
#[derive(Debug, Clone, Copy, PartialEq, Eq, Structural)]
pub enum Version {
    /// HTTP/1.0.
    Http10,
    /// HTTP/1.1.
    Http11,
}

/// The name of the `Host` field.
pub open spec fn host_name() -> Seq<char> {
    "host"@
}

/// The name of the `Content-Length` field.
pub open spec fn content_length_name() -> Seq<char> {
    "content-length"@
}

/// The name of the `Transfer-Encoding` field.
pub open spec fn transfer_encoding_name() -> Seq<char> {
    "transfer-encoding"@
}

/// The transfer coding of a streamed body.
pub open spec fn chunked_coding() -> Seq<char> {
    "chunked"@
}

/// The ten decimal digits.
pub open spec fn digits() -> Seq<char> {
    seq!['0', '1', '2', '3', '4', '5', '6', '7', '8', '9']
}

/// A number in decimal, without sign and without leading zeros.
pub open spec fn decimal_text(n: nat) -> Seq<char>
    decreases n,
{
    if n < 10 {
        seq![digits()[n as int]]
    } else {
        decimal_text(n / 10).push(digits()[(n % 10) as int])
    }
}

/// The value of a `Host` field: the host, followed by a colon and the port
/// where a port is given.
pub open spec fn host_text(host: Seq<char>, port: Option<u16>) -> Seq<char> {
    match port {
        Some(p) => host + seq![':'] + decimal_text(p as nat),
        None => host,
    }
}

/// The fields with one more, unless a field of that name is there already.
pub open spec fn with_default(
    fields: Map<Seq<char>, Seq<Seq<u8>>>,
    name: Seq<char>,
    value: Seq<char>,
) -> Map<Seq<char>, Seq<Seq<u8>>> {
    if fields.contains_key(name) {
        fields
    } else {
        fields.insert(name, seq![encode_utf8(value)])
    }
}

/// The fields of the head of a request whose body of `length` bytes is held in
/// memory: the caller's fields, with `Host` and `Content-Length` added where
/// the caller set none.
pub open spec fn fixed_head_fields(
    fields: Map<Seq<char>, Seq<Seq<u8>>>,
    origin: OriginView,
    length: nat,
) -> Map<Seq<char>, Seq<Seq<u8>>> {
    with_default(
        with_default(fields, host_name(), host_text(origin.host, origin.port)),
        content_length_name(),
        decimal_text(length),
    )
}

/// The fields of the head of a request whose body is streamed: the caller's
/// fields, with `Transfer-Encoding` set to `chunked` whatever it was.
pub open spec fn chunked_head_fields(fields: Map<Seq<char>, Seq<Seq<u8>>>) -> Map<
    Seq<char>,
    Seq<Seq<u8>>,
> {
    fields.insert(transfer_encoding_name(), seq![encode_utf8(chunked_coding())])
}

/// The digit of a number below ten.
fn digit(d: u64) -> (text: &'static str)
    requires
        d < 10,
    ensures
        text@ == seq![digits()[d as int]],
{
    proof {
        reveal_strlit("0");
        reveal_strlit("1");
        reveal_strlit("2");
        reveal_strlit("3");
        reveal_strlit("4");
        reveal_strlit("5");
        reveal_strlit("6");
        reveal_strlit("7");
        reveal_strlit("8");
        reveal_strlit("9");
    }
    let text = if d == 0 {
        "0"
    } else if d == 1 {
        "1"
    } else if d == 2 {
        "2"
    } else if d == 3 {
        "3"
    } else if d == 4 {
        "4"
    } else if d == 5 {
        "5"
    } else if d == 6 {
        "6"
    } else if d == 7 {
        "7"
    } else if d == 8 {
        "8"
    } else {
        "9"
    };
    text
}

/// Writes a number in decimal.
pub fn decimal(n: u64) -> (text: String)
    ensures
        text@ == decimal_text(n as nat),
    decreases n,
{
    if n < 10 {
        digit(n).to_owned()
    } else {
        let mut text = decimal(n / 10);
        text.append(digit(n % 10));
        text
    }
}

/// Writes the value of a `Host` field.
pub fn host_value(host: &str, port: Option<u16>) -> (text: String)
    ensures
        text@ == host_text(host@, port),
{
    let mut text = host.to_owned();
    match port {
        Some(p) => {
            proof {
                reveal_strlit(":");
            }
            text.append(":");
            let number = decimal(p as u64);
            text.append(number.as_str());
        },
        None => {},
    }
    text
}

/// Sets a field of the map to one value, the text given.
///
/// Text that is no field value is refused before the map is touched. Other
/// text is set, unless the map refuses to hold one more field.
fn set_text(headers: &mut HeaderMap<HeaderValue>, name: &'static str, text: &str) -> (done: Result<
    (),
    HeadError,
>)
    requires
        is_plain_name(name@),
    ensures
        done is Ok ==> header_fields(*final(headers)) == header_fields(*old(headers)).insert(
            name@,
            seq![encode_utf8(text@)],
        ),
        done matches Err(HeadError::Value(_)) <==> !is_value_text(text@),
        !is_value_text(text@) ==> *final(headers) == *old(headers),
{
    match value_of(text) {
        Ok(value) => field_taken(set_field(headers, name, value)),
        Err(cause) => Err(HeadError::Value(cause)),
    }
}

/// Builds the header fields of a request whose body of `length` bytes is held
/// in memory.
///
/// `Host` is added only where the caller set none, as the origin's host, with
/// the port only where the origin names one. `Content-Length` is added only
/// where the caller set none, as `length` in decimal. Where both are set the
/// head is the caller's own and the call succeeds. A host that is to be added
/// and is no field value, as one with a control character in it, fails the
/// call for that; any other failure is the map's refusal to hold one more
/// field.
///
/// The caller's map is read only: the head is a copy of it, so that a field
/// which is added, or a failure to add one, leaves the caller's fields as
/// they were.
pub fn fixed_head(headers: &HeaderMap<HeaderValue>, origin: &Origin, length: usize) -> (head: Result<
    HeaderMap<HeaderValue>,
    HeadError,
>)
    ensures
        head matches Ok(h) ==> header_fields(h) == fixed_head_fields(
            header_fields(*headers),
            origin@,
            length as nat,
        ),
        header_fields(*headers).contains_key(host_name()) && header_fields(*headers).contains_key(
            content_length_name(),
        ) ==> head is Ok,
        head matches Err(HeadError::Value(_)) <==> !header_fields(*headers).contains_key(host_name())
            && !is_value_text(host_text(origin@.host, origin@.port)),
{
    proof {
        lemma_names_are_plain();
        lemma_names_differ();
        lemma_decimal_text(length as nat);
    }
    let mut head = copy_of(headers);
    if first_value(&head, "host").is_none() {
        let host = host_value(origin.host.as_str(), origin.port);
        match set_text(&mut head, "host", host.as_str()) {
            Ok(()) => {},
            Err(refusal) => {
                return Err(refusal);
            },
        }
    }
    if first_value(&head, "content-length").is_none() {
        let size = decimal(length as u64);
        match set_text(&mut head, "content-length", size.as_str()) {
            Ok(()) => {},
            Err(refusal) => {
                return Err(refusal);
            },
        }
    }
    Ok(head)
}

/// Builds the header fields of a request whose body is streamed.
///
/// `Transfer-Encoding` is set to `chunked`, in place of whatever the caller
/// set, and no `Content-Length` is added. The value is always taken; the call
/// fails only where the map refuses to hold one more field.
pub fn chunked_head(headers: &HeaderMap<HeaderValue>) -> (head: Result<
    HeaderMap<HeaderValue>,
    HeadError,
>)
    ensures
        head matches Ok(h) ==> header_fields(h) == chunked_head_fields(header_fields(*headers)),
        head matches Err(refusal) ==> refusal is Fields,
{
    proof {
        lemma_names_are_plain();
        lemma_chunked_is_a_value();
    }
    let mut head = copy_of(headers);
    let done = set_text(&mut head, "transfer-encoding", "chunked");
    head_built(head, done)
}

/// What setting a field has come to, by the answer of the map: it is done
/// where the map took the field, and has failed with the map's own refusal
/// where it did not.
pub fn field_taken(answer: Result<(), MaxSizeReached>) -> (done: Result<(), HeadError>)
    ensures
        match answer {
            Ok(()) => done is Ok,
            Err(cause) => done == Err::<(), HeadError>(HeadError::Fields(cause)),
        },
{
    match answer {
        Ok(()) => Ok(()),
        Err(cause) => Err(HeadError::Fields(cause)),
    }
}

/// The head that was built, by the answer to the setting of its last field:
/// the head where the field was set, and the failure of the setting where it
/// was not.
pub fn head_built(head: HeaderMap<HeaderValue>, done: Result<(), HeadError>) -> (built: Result<
    HeaderMap<HeaderValue>,
    HeadError,
>)
    ensures
        match done {
            Ok(()) => built == Ok::<HeaderMap<HeaderValue>, HeadError>(head),
            Err(refusal) => built == Err::<HeaderMap<HeaderValue>, HeadError>(refusal),
        },
{
    match done {
        Ok(()) => Ok(head),
        Err(refusal) => Err(refusal),
    }
}

/// The transfer coding of a streamed body is text that `http` takes as a
/// field value.
proof fn lemma_chunked_is_a_value()
    ensures
        is_value_text(chunked_coding()),
{
    reveal_strlit("chunked");
}

/// The three field names of this module are names that `http` takes as
/// written.
proof fn lemma_names_are_plain()
    ensures
        is_plain_name(host_name()),
        is_plain_name(content_length_name()),
        is_plain_name(transfer_encoding_name()),
{
    reveal_strlit("host");
    reveal_strlit("content-length");
    reveal_strlit("transfer-encoding");
}

/// `Host` is synthesized only when absent: the head keeps the caller's `Host`
/// values where there are any, and otherwise holds one value, the origin's
/// host, followed by a colon and the port only where the origin names a port.
pub proof fn lemma_host_only_when_absent(
    fields: Map<Seq<char>, Seq<Seq<u8>>>,
    origin: OriginView,
    length: nat,
)
    ensures
        fixed_head_fields(fields, origin, length).contains_key(host_name()),
        fields.contains_key(host_name()) ==> fixed_head_fields(fields, origin, length)[host_name()]
            == fields[host_name()],
        !fields.contains_key(host_name()) && origin.port is None ==> fixed_head_fields(
            fields,
            origin,
            length,
        )[host_name()] == seq![encode_utf8(origin.host)],
        !fields.contains_key(host_name()) && origin.port is Some ==> fixed_head_fields(
            fields,
            origin,
            length,
        )[host_name()] == seq![
            encode_utf8(origin.host + seq![':'] + decimal_text(origin.port->0 as nat)),
        ],
{
    lemma_names_differ();
}

/// `Content-Length` is synthesized only when absent: the head keeps the
/// caller's values where there are any, and otherwise holds one value, the
/// exact length of the body in decimal.
pub proof fn lemma_content_length_only_when_absent(
    fields: Map<Seq<char>, Seq<Seq<u8>>>,
    origin: OriginView,
    length: nat,
)
    ensures
        fixed_head_fields(fields, origin, length).contains_key(content_length_name()),
        fields.contains_key(content_length_name()) ==> fixed_head_fields(
            fields,
            origin,
            length,
        )[content_length_name()] == fields[content_length_name()],
        !fields.contains_key(content_length_name()) ==> fixed_head_fields(
            fields,
            origin,
            length,
        )[content_length_name()] == seq![encode_utf8(decimal_text(length))],
{
    lemma_names_differ();
}

/// The head of a request with a body in memory differs from the caller's
/// fields in `Host` and `Content-Length` at most.
pub proof fn lemma_fixed_head_keeps_other_fields(
    fields: Map<Seq<char>, Seq<Seq<u8>>>,
    origin: OriginView,
    length: nat,
    name: Seq<char>,
)
    requires
        name != host_name(),
        name != content_length_name(),
    ensures
        fixed_head_fields(fields, origin, length).contains_key(name) == fields.contains_key(name),
        fixed_head_fields(fields, origin, length)[name] == fields[name],
{
}

/// The head of a streamed request always carries chunked transfer framing,
/// as the only value of `Transfer-Encoding`, and never gains a
/// `Content-Length`: every other field is the caller's.
pub proof fn lemma_chunked_head(fields: Map<Seq<char>, Seq<Seq<u8>>>, name: Seq<char>)
    ensures
        chunked_head_fields(fields)[transfer_encoding_name()] == seq![encode_utf8(chunked_coding())],
        chunked_head_fields(fields).contains_key(transfer_encoding_name()),
        chunked_head_fields(fields).contains_key(content_length_name()) == fields.contains_key(
            content_length_name(),
        ),
        name != transfer_encoding_name() ==> chunked_head_fields(fields).contains_key(name)
            == fields.contains_key(name) && chunked_head_fields(fields)[name] == fields[name],
{
    lemma_names_differ();
}

/// A number in decimal is made of digits, at least one, and begins with a
/// zero only where it is zero.
pub proof fn lemma_decimal_text(n: nat)
    ensures
        decimal_text(n).len() >= 1,
        forall|i: int| 0 <= i < decimal_text(n).len() ==> '0' <= #[trigger] decimal_text(n)[i] <= '9',
        decimal_text(n)[0] == '0' <==> n == 0,
    decreases n,
{
    if n >= 10 {
        lemma_decimal_text(n / 10);
    }
}

/// The three field names of this module are three names.
proof fn lemma_names_differ()
    ensures
        host_name() != content_length_name(),
        host_name() != transfer_encoding_name(),
        content_length_name() != transfer_encoding_name(),
{
    reveal_strlit("host");
    reveal_strlit("content-length");
    reveal_strlit("transfer-encoding");
    assert(content_length_name().len() == 14);
    assert(transfer_encoding_name().len() == 17);
}

} // verus!
