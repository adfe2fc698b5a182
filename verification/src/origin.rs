//! Where a request goes: the origin a request names and the endpoint to
//! connect to for it.

use crate::error::{Failure, HttpError};
use crate::head::{decimal_text, digits, host_name, host_text};
use crate::headers::{first_value, header_fields, is_printable, value_text};
use http::header::{HeaderMap, HeaderValue};
use vstd::prelude::*;
use vstd::string::*;
use vstd::utf8::{
    decode_utf8, encode_scalar, encode_utf8, has_width_1_encoding, is_ascii_chars, is_scalar,
};

verus! {

/// What a request URI says about the server, each part as the URI has it.
#[derive(Debug, Clone)]
pub struct Address {
    pub scheme: Option<String>,
    pub host: Option<String>,
    pub port: Option<u16>,
}

/// The origin of a request: its scheme if one is given, its host, and its
/// port if one is given explicitly.
#[derive(Debug, Clone)]
pub struct Origin {
    pub scheme: Option<String>,
    pub host: String,
    pub port: Option<u16>,
}

/// What to connect to: a host, a port, and whether to encrypt.
#[derive(Debug, Clone)]
pub struct Endpoint {
    pub host: String,
    pub port: u16,
    pub encrypted: bool,
}

/// An [`Address`], with text as sequences of characters.
pub struct AddressView {
    pub scheme: Option<Seq<char>>,
    pub host: Option<Seq<char>>,
    pub port: Option<u16>,
}

/// An [`Origin`], with text as sequences of characters.
pub struct OriginView {
    pub scheme: Option<Seq<char>>,
    pub host: Seq<char>,
    pub port: Option<u16>,
}

/// An [`Endpoint`], with text as a sequence of characters.
pub struct EndpointView {
    pub host: Seq<char>,
    pub port: u16,
    pub encrypted: bool,
}

/// The characters of an optional string.
pub open spec fn text_of(text: Option<String>) -> Option<Seq<char>> {
    match text {
        Some(t) => Some(t@),
        None => None,
    }
}

impl View for Address {
    type V = AddressView;

    open spec fn view(&self) -> AddressView {
        AddressView { scheme: text_of(self.scheme), host: text_of(self.host), port: self.port }
    }
}

impl View for Origin {
    type V = OriginView;

    open spec fn view(&self) -> OriginView {
        OriginView { scheme: text_of(self.scheme), host: self.host@, port: self.port }
    }
}

impl View for Endpoint {
    type V = EndpointView;

    open spec fn view(&self) -> EndpointView {
        EndpointView { host: self.host@, port: self.port, encrypted: self.encrypted }
    }
}

/// The scheme of unencrypted exchanges.
pub open spec fn plain_scheme() -> Seq<char> {
    "http"@
}

/// The scheme of encrypted exchanges.
pub open spec fn secure_scheme() -> Seq<char> {
    "https"@
}

/// The scheme policy: `http` is sent in the clear, `https` and a missing
/// scheme are encrypted, and no other scheme is served.
pub open spec fn encryption_for(scheme: Option<Seq<char>>) -> Option<bool> {
    match scheme {
        None => Some(true),
        Some(s) => if s == plain_scheme() {
            Some(false)
        } else if s == secure_scheme() {
            Some(true)
        } else {
            None
        },
    }
}

/// The port that is taken where an origin names none.
pub open spec fn default_port(encrypted: bool) -> u16 {
    if encrypted {
        443
    } else {
        80
    }
}

/// The endpoint to connect to for an origin, or why there is none.
pub open spec fn endpoint_of(origin: OriginView) -> Result<EndpointView, Failure> {
    match encryption_for(origin.scheme) {
        Some(encrypted) => Ok(
            EndpointView {
                host: origin.host,
                port: match origin.port {
                    Some(port) => port,
                    None => default_port(encrypted),
                },
                encrypted,
            },
        ),
        None => Err(Failure::UnexpectedScheme(origin.scheme->0)),
    }
}

/// Whether two strings hold the same characters.
fn same_text(left: &str, right: &str) -> (same: bool)
    ensures
        same == (left@ == right@),
{
    left.to_owned() == right.to_owned()
}

/// Applies the scheme policy: whether an exchange under this scheme is
/// encrypted, or the refusal of a scheme that is not served.
pub fn scheme_policy(scheme: &Option<String>) -> (encrypted: Result<bool, HttpError>)
    ensures
        match encrypted {
            Ok(e) => encryption_for(text_of(*scheme)) == Some(e),
            Err(error) => encryption_for(text_of(*scheme)) is None && error@
                == Failure::UnexpectedScheme(text_of(*scheme)->0),
        },
{
    match scheme {
        None => Ok(true),
        Some(scheme) => {
            if same_text(scheme.as_str(), "http") {
                Ok(false)
            } else if same_text(scheme.as_str(), "https") {
                Ok(true)
            } else {
                Err(HttpError::UnexpectedScheme(scheme.clone()))
            }
        },
    }
}

/// The port to connect to: the one that is named, or else the default of
/// the kind of connection.
pub fn resolve_port(port: Option<u16>, encrypted: bool) -> (resolved: u16)
    ensures
        resolved == match port {
            Some(named) => named,
            None => default_port(encrypted),
        },
{
    match port {
        Some(named) => named,
        None => if encrypted {
            443
        } else {
            80
        },
    }
}

/// Resolves an origin to the endpoint of its connection.
///
/// The scheme decides whether the connection is encrypted and, where the
/// origin names no port, which port is taken. A scheme other than `http` and
/// `https` is refused.
pub fn connect_target(origin: &Origin) -> (target: Result<Endpoint, HttpError>)
    ensures
        match target {
            Ok(endpoint) => endpoint_of(origin@) == Ok::<EndpointView, Failure>(endpoint@),
            Err(error) => endpoint_of(origin@) == Err::<EndpointView, Failure>(error@),
        },
{
    match scheme_policy(&origin.scheme) {
        Ok(encrypted) => Ok(
            Endpoint {
                host: origin.host.clone(),
                port: resolve_port(origin.port, encrypted),
                encrypted,
            },
        ),
        Err(error) => Err(error),
    }
}

/// Whether a character is a decimal digit.
pub open spec fn is_digit(c: char) -> bool {
    '0' <= c <= '9'
}

/// The number that a run of decimal digits writes.
pub open spec fn number_of(text: Seq<char>) -> nat
    decreases text.len(),
{
    if text.len() == 0 {
        0
    } else {
        number_of(text.drop_last()) * 10 + (text.last() as nat - '0' as nat) as nat
    }
}

/// Text that writes a port: one to five decimal digits for a number that a
/// port can be.
pub open spec fn is_port_text(text: Seq<char>) -> bool {
    &&& 1 <= text.len() <= 5
    &&& forall|i: int| 0 <= i < text.len() ==> is_digit(#[trigger] text[i])
    &&& number_of(text) <= 65535
}

/// The place of the last colon in a text, or -1 where it has none.
pub open spec fn last_colon(text: Seq<char>) -> int
    decreases text.len(),
{
    if text.len() == 0 {
        -1
    } else if text.last() == ':' {
        text.len() - 1
    } else {
        last_colon(text.drop_last())
    }
}

/// The host and the port that the value of a `Host` field names. What follows
/// the last colon is the port if it writes one; the host is what stands
/// before that colon. Without such an ending the whole value is the host.
pub open spec fn authority_of(text: Seq<char>) -> (Seq<char>, Option<u16>) {
    let at = last_colon(text);
    if at >= 0 && is_port_text(text.skip(at + 1)) {
        (text.take(at), Some(number_of(text.skip(at + 1)) as u16))
    } else {
        (text, None)
    }
}

/// The origin of a request. The host of the URI is taken with the URI's port.
/// Where the URI has no host, the first `Host` field names host and port,
/// provided that it is printable text and its host is not empty. The scheme
/// is the URI's in either case.
pub open spec fn origin_of(address: AddressView, fields: Map<Seq<char>, Seq<Seq<u8>>>) -> Result<
    OriginView,
    Failure,
> {
    match address.host {
        Some(host) => Ok(OriginView { scheme: address.scheme, host, port: address.port }),
        None => {
            if fields.contains_key(host_name()) && is_printable(fields[host_name()][0]) {
                let named = authority_of(decode_utf8(fields[host_name()][0]));
                if named.0.len() > 0 {
                    Ok(OriginView { scheme: address.scheme, host: named.0, port: named.1 })
                } else {
                    Err(Failure::MissingHost)
                }
            } else {
                Err(Failure::MissingHost)
            }
        },
    }
}

/// A colon with none after it is the last colon.
proof fn lemma_last_colon_at(text: Seq<char>, at: int)
    requires
        0 <= at < text.len(),
        text[at] == ':',
        forall|j: int| at < j < text.len() ==> text[j] != ':',
    ensures
        last_colon(text) == at,
    decreases text.len(),
{
    if text.last() != ':' {
        lemma_last_colon_at(text.drop_last(), at);
    }
}

/// A text without a colon has no last colon.
proof fn lemma_last_colon_none(text: Seq<char>)
    requires
        forall|j: int| 0 <= j < text.len() ==> text[j] != ':',
    ensures
        last_colon(text) == -1,
    decreases text.len(),
{
    if text.len() > 0 {
        lemma_last_colon_none(text.drop_last());
    }
}

/// Reads the port that follows position `from` in ASCII text, if what follows
/// writes a port.
fn port_after(bytes: &[u8], from: usize, Ghost(text): Ghost<Seq<char>>) -> (port: Option<u16>)
    requires
        from <= bytes@.len(),
        bytes@.len() == text.len(),
        is_ascii_chars(text),
        forall|i: int| 0 <= i < text.len() ==> bytes@[i] == text[i] as u8,
    ensures
        port is Some <==> is_port_text(text.skip(from as int)),
        port matches Some(p) ==> p == number_of(text.skip(from as int)),
{
    let ghost tail = text.skip(from as int);
    let count = bytes.len() - from;
    if count < 1 || count > 5 {
        return None;
    }
    let mut value: u32 = 0;
    let mut i: usize = 0;
    while i < count
        invariant
            from + count == bytes@.len(),
            bytes@.len() == text.len(),
            bytes@.len() <= usize::MAX,
            count <= 5,
            i <= count,
            tail == text.skip(from as int),
            is_ascii_chars(text),
            forall|k: int| 0 <= k < text.len() ==> bytes@[k] == text[k] as u8,
            forall|k: int| 0 <= k < i ==> is_digit(#[trigger] tail[k]),
            value == number_of(tail.take(i as int)),
            value < pow10(i as nat),
        decreases count - i,
    {
        let b = bytes[from + i];
        if b < 48 || b > 57 {
            assert(!is_digit(tail[i as int]));
            return None;
        }
        assert(tail.take(i + 1).drop_last() =~= tail.take(i as int));
        assert(pow10(i as nat) <= 10000) by {
            reveal_with_fuel(pow10, 6);
        }
        value = value * 10 + (b - 48) as u32;
        i = i + 1;
    }
    assert(tail.take(count as int) =~= tail);
    if value > 65535 {
        None
    } else {
        Some(value as u16)
    }
}

/// Ten to the power of `n`.
spec fn pow10(n: nat) -> nat
    decreases n,
{
    if n == 0 {
        1
    } else {
        10 * pow10((n - 1) as nat)
    }
}

/// Reads host and port out of the value of a `Host` field.
fn split_authority(text: &str) -> (named: (String, Option<u16>))
    requires
        is_ascii_chars(text@),
    ensures
        (named.0@, named.1) == authority_of(text@),
{
    broadcast use vstd::string::is_ascii_spec_bytes;

    let bytes = text.as_bytes();
    assert(is_ascii(text));
    let mut at: usize = bytes.len();
    while at > 0 && bytes[at - 1] != 58
        invariant
            at <= bytes@.len(),
            bytes@.len() == text@.len(),
            is_ascii_chars(text@),
            forall|k: int| 0 <= k < text@.len() ==> bytes@[k] == text@[k] as u8,
            forall|k: int| at <= k < text@.len() ==> text@[k] != ':',
        decreases at,
    {
        at = at - 1;
    }
    if at == 0 {
        proof {
            lemma_last_colon_none(text@);
        }
        return (text.to_owned(), None);
    }
    let colon = at - 1;
    proof {
        lemma_last_colon_at(text@, colon as int);
    }
    match port_after(bytes, at, Ghost(text@)) {
        Some(port) => {
            let host = text.substring_ascii(0, colon);
            (host.to_owned(), Some(port))
        },
        None => (text.to_owned(), None),
    }
}

/// Finds the origin of a request from what its URI says and from its header
/// fields.
///
/// The URI's host is taken where it has one. Otherwise the first `Host` field
/// names host and port. A request that names no host either way has no
/// origin.
pub fn extract_origin(address: &Address, headers: &HeaderMap<HeaderValue>) -> (origin: Result<
    Origin,
    HttpError,
>)
    ensures
        match origin {
            Ok(found) => origin_of(address@, header_fields(*headers)) == Ok::<OriginView, Failure>(
                found@,
            ),
            Err(error) => origin_of(address@, header_fields(*headers)) == Err::<OriginView, Failure>(
                error@,
            ),
        },
{
    broadcast use vstd::utf8::encode_utf8_decode_utf8;

    let scheme = match &address.scheme {
        Some(scheme) => Some(scheme.clone()),
        None => None,
    };
    match &address.host {
        Some(host) => Ok(Origin { scheme, host: host.clone(), port: address.port }),
        None => {
            proof {
                reveal_strlit("host");
            }
            let text = match first_value(headers, "host") {
                Some(value) => value_text(value),
                None => None,
            };
            match text {
                Some(text) => {
                    proof {
                        lemma_printable_is_ascii(text@);
                    }
                    let (host, port) = split_authority(text);
                    if host.as_str().unicode_len() == 0 {
                        Err(HttpError::MissingHost)
                    } else {
                        Ok(Origin { scheme, host, port })
                    }
                },
                None => Err(HttpError::MissingHost),
            }
        },
    }
}

/// Where a character stands among the code points.
proof fn lemma_char_range(c: char)
    ensures
        '\0' <= c,
        is_scalar(c as u32),
        c as u32 <= 0x7f ==> c <= '\u{7f}',
{
}

/// Text whose UTF-8 bytes are printable is ASCII.
proof fn lemma_printable_is_ascii(text: Seq<char>)
    requires
        is_printable(encode_utf8(text)),
    ensures
        is_ascii_chars(text),
    decreases text.len(),
{
    if text.len() > 0 {
        let ch = text[0];
        lemma_char_range(ch);
        let c = ch as u32;
        let first = encode_scalar(c);
        let rest = encode_utf8(text.drop_first());
        if !has_width_1_encoding(c) {
            let low = ((c >> 6) & 0x1F) as u8;
            let mid = ((c >> 12) & 0x0F) as u8;
            let high = ((c >> 18) & 0x7) as u8;
            assert(0xC0u8 | low >= 0xC0u8) by (bit_vector);
            assert(0xE0u8 | mid >= 0xE0u8) by (bit_vector);
            assert(0xF0u8 | high >= 0xF0u8) by (bit_vector);
            assert(encode_utf8(text)[0] == first[0]);
        }
        assert forall|i: int| 0 <= i < rest.len() implies (32 <= #[trigger] rest[i] < 127 || rest[i]
            == 9) by {
            assert((first + rest)[i + 1] == rest[i]);
        }
        lemma_printable_is_ascii(text.drop_first());
        assert forall|i: int| 0 <= i < text.len() implies '\0' <= #[trigger] text[i] <= '\u{7f}' by {
            if i > 0 {
                assert(text[i] == text.drop_first()[i - 1]);
            }
        }
    }
}

/// An origin that names no port is reached on port 80, in the clear, under
/// `http`; on port 443, encrypted, under `https`; and on port 443, encrypted,
/// where it names no scheme either.
pub proof fn lemma_default_endpoints(host: Seq<char>)
    ensures
        endpoint_of(OriginView { scheme: Some(plain_scheme()), host, port: None }) == Ok::<
            EndpointView,
            Failure,
        >(EndpointView { host, port: 80, encrypted: false }),
        endpoint_of(OriginView { scheme: Some(secure_scheme()), host, port: None }) == Ok::<
            EndpointView,
            Failure,
        >(EndpointView { host, port: 443, encrypted: true }),
        endpoint_of(OriginView { scheme: None, host, port: None }) == Ok::<EndpointView, Failure>(
            EndpointView { host, port: 443, encrypted: true },
        ),
{
    reveal_strlit("http");
    reveal_strlit("https");
    assert(secure_scheme().len() == 5);
}

/// A port that the origin names is the endpoint's port, whatever the
/// scheme that is served.
pub proof fn lemma_named_port_is_kept(origin: OriginView)
    requires
        origin.port is Some,
        encryption_for(origin.scheme) is Some,
    ensures
        endpoint_of(origin) matches Ok(endpoint) && endpoint.port == origin.port->0
            && endpoint.host == origin.host,
{
}

/// An origin whose scheme is neither `http` nor `https` has no endpoint: it
/// is refused as an unexpected scheme, with the scheme it named.
pub proof fn lemma_other_scheme_is_refused(origin: OriginView)
    requires
        origin.scheme matches Some(scheme) && scheme != plain_scheme() && scheme != secure_scheme(),
    ensures
        endpoint_of(origin) == Err::<EndpointView, Failure>(
            Failure::UnexpectedScheme(origin.scheme->0),
        ),
{
}

/// The digit of a number below ten stands for that number.
proof fn lemma_digit_value(d: nat)
    requires
        d < 10,
    ensures
        is_digit(digits()[d as int]),
        digits()[d as int] as nat - '0' as nat == d,
{
}

/// A number written in decimal is read back as itself, and takes no more
/// digits than its size asks for.
proof fn lemma_decimal_is_read_back(n: nat, width: nat)
    requires
        width >= 1,
        n < pow10(width),
    ensures
        number_of(decimal_text(n)) == n,
        1 <= decimal_text(n).len() <= width,
        forall|i: int| 0 <= i < decimal_text(n).len() ==> is_digit(#[trigger] decimal_text(n)[i]),
    decreases n,
{
    if n < 10 {
        lemma_digit_value(n);
        assert(number_of(decimal_text(n).drop_last()) == 0);
    } else {
        assert(width >= 2) by {
            assert(pow10(1) == 10) by {
                reveal_with_fuel(pow10, 2);
            }
        }
        lemma_decimal_is_read_back(n / 10, (width - 1) as nat);
        lemma_digit_value(n % 10);
        assert(decimal_text(n).drop_last() =~= decimal_text(n / 10));
    }
}

/// The value that a head carries as `Host` names the origin it was made for:
/// read as a `Host` field it gives back the host and the port. With a port
/// this holds of every host; without one, of every host that does not itself
/// end in a colon and a port.
pub proof fn lemma_host_value_names_the_origin(host: Seq<char>, port: Option<u16>)
    requires
        port is None ==> !(last_colon(host) >= 0 && is_port_text(host.skip(last_colon(host) + 1))),
    ensures
        authority_of(host_text(host, port)) == (host, port),
{
    match port {
        None => {},
        Some(p) => {
            let number = decimal_text(p as nat);
            let text = host_text(host, port);
            assert(pow10(5) == 100000) by {
                reveal_with_fuel(pow10, 6);
            }
            lemma_decimal_is_read_back(p as nat, 5);
            let at = host.len() as int;
            lemma_last_colon_at(text, at);
            assert(text.skip(at + 1) =~= number);
        },
    }
}

} // verus!
