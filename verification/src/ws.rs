//! What the library decides about a `WebSocket` connection before it is
//! opened: where to connect, whether over TLS, and the handshake request.
use vstd::prelude::*;
use vstd::string::{StrSliceExecFns, StringSliceAdditionalSpecFns};

use url::Url;

verus! {

#[verifier::external_type_specification]
#[verifier::external_body]
pub struct ExUrl(url::Url);

#[verifier::external_type_specification]
#[verifier::external_body]
pub struct ExUrlParseError(url::ParseError);

#[verifier::external_type_specification]
#[verifier::external_body]
pub struct ExIoError(std::io::Error);

#[verifier::external_type_specification]
#[verifier::external_body]
pub struct ExHttpError(http::Error);

#[verifier::external_type_specification]
#[verifier::external_body]
pub struct ExWebSocketError(fastwebsockets::WebSocketError);

#[verifier::external_type_specification]
#[verifier::external_body]
#[verifier::reject_recursive_types(S)]
pub struct ExFragmentCollector<S>(fastwebsockets::FragmentCollector<S>);

#[verifier::external_type_specification]
#[verifier::external_body]
#[verifier::reject_recursive_types(T)]
pub struct ExTokioIo<T>(hyper_util::rt::TokioIo<T>);

#[verifier::external_type_specification]
#[verifier::external_body]
pub struct ExUpgraded(hyper::upgrade::Upgraded);

#[verifier::external_type_specification]
#[verifier::external_body]
pub struct ExUri(http::Uri);

#[verifier::external_type_specification]
#[verifier::external_body]
pub struct ExServerName<'a>(tokio_rustls::rustls::pki_types::ServerName<'a>);

#[verifier::external_type_specification]
#[verifier::external_body]
pub struct ExHeaderValue(http::HeaderValue);

/// A `WebSocket` connection after the handshake.
pub type Socket = fastwebsockets::FragmentCollector<hyper_util::rt::TokioIo<hyper::upgrade::Upgraded>>;

/// `Url::clone` (derived): a copy of every field, so an equal value.
#[verifier::external_body]
pub(crate) fn url_clone(url: &Url) -> (r: Url)
    ensures
        r == *url,
{
    url.clone()
}

/// What `Url::scheme` returns for `url`.
pub uninterp spec fn url_scheme_of(url: Url) -> Seq<char>;

/// What `Url::host_str` returns for `url`.
pub uninterp spec fn url_host_of(url: Url) -> Option<Seq<char>>;

/// What `Url::domain` returns for `url`.
pub uninterp spec fn url_domain_of(url: Url) -> Option<Seq<char>>;

/// What `Url::port` returns for `url`.
pub uninterp spec fn url_port_of(url: Url) -> Option<u16>;

/// What `Url::as_str` returns for `url`: its serialization.
pub uninterp spec fn url_text_of(url: Url) -> Seq<char>;

/// Whether `http::Uri::try_from` accepts this text.
pub uninterp spec fn uri_accepts(text: Seq<char>) -> bool;

/// The text of an optional string slice.
pub open spec fn opt_view(s: Option<&str>) -> Option<Seq<char>> {
    match s {
        Some(s) => Some(s@),
        None => None,
    }
}

/// `Url::scheme`: the URL's scheme.
#[verifier::external_body]
fn url_scheme(url: &Url) -> (r: &str)
    ensures
        r@ == url_scheme_of(*url),
{
    url.scheme()
}

/// `Url::host_str`: the host, if the URL has one.
#[verifier::external_body]
fn url_host_str(url: &Url) -> (r: Option<&str>)
    ensures
        opt_view(r) == url_host_of(*url),
{
    url.host_str()
}

/// `Url::domain`: the host, if it is a domain name. The source slices the
/// same range of the serialization as `host_str`, which has a host whenever
/// the host is a domain, so a domain is the URL's host.
#[verifier::external_body]
fn url_domain(url: &Url) -> (r: Option<&str>)
    ensures
        opt_view(r) == url_domain_of(*url),
        r is Some ==> url_host_of(*url) == opt_view(r),
{
    url.domain()
}

/// `Url::port`: the port written in the URL, if it is not the scheme's
/// default.
#[verifier::external_body]
fn url_port(url: &Url) -> (r: Option<u16>)
    ensures
        r == url_port_of(*url),
{
    url.port()
}

/// `Url::as_str`: the URL's serialization.
#[verifier::external_body]
fn url_as_str(url: &Url) -> (r: &str)
    ensures
        r@ == url_text_of(*url),
{
    url.as_str()
}

/// A character of the standard Base64 alphabet.
pub open spec fn is_base64_char(c: char) -> bool {
    ||| 'A' <= c <= 'Z'
    ||| 'a' <= c <= 'z'
    ||| '0' <= c <= '9'
    ||| c == '+'
    ||| c == '/'
}

/// A key of the opening handshake: the padded Base64 encoding of 16 bytes,
/// that is 22 characters of the alphabet followed by `==`.
pub open spec fn is_handshake_key(key: Seq<char>) -> bool {
    &&& key.len() == 24
    &&& forall|i: int| 0 <= i < 22 ==> is_base64_char(#[trigger] key[i])
    &&& key[22] == '='
    &&& key[23] == '='
}

/// `fastwebsockets::handshake::generate_key`: the standard, padded Base64
/// encoding of 16 random bytes: 22 characters of that alphabet and `==`;
/// which characters is chance.
#[verifier::external_body]
fn generate_key() -> (r: String)
    ensures
        is_handshake_key(r@),
{
    fastwebsockets::handshake::generate_key()
}

/// `Uri::try_from(&str)`: the URI that the text parses to, or http's
/// `InvalidUri` as an `http::Error`.
#[verifier::external_body]
fn parse_uri(text: &str) -> (r: Result<http::Uri, http::Error>)
    ensures
        r is Ok <==> uri_accepts(text@),
{
    http::Uri::try_from(text).map_err(http::Error::from)
}

/// A byte that http accepts in a header value: visible ASCII, a space, a tab,
/// or any byte above `0x7f`.
pub open spec fn is_header_value_byte(b: u8) -> bool {
    (b >= 32 && b != 127) || b == 9
}

/// Whether http accepts these bytes as a header value.
pub open spec fn header_value_ok(bytes: Seq<u8>) -> bool {
    forall|i: int| 0 <= i < bytes.len() ==> is_header_value_byte(#[trigger] bytes[i])
}

/// Whether http accepts this text, in UTF-8, as a header value.
pub open spec fn header_text_ok(text: Seq<char>) -> bool {
    header_value_ok(vstd::utf8::encode_utf8(text))
}

/// `HeaderValue::from_str`: the value, or http's `InvalidHeaderValue` as an
/// `http::Error`; it fails exactly when a byte of the text is a control
/// character other than a tab (http's `is_valid` check on every byte).
#[verifier::external_body]
fn header_value(text: &str) -> (r: Result<http::HeaderValue, http::Error>)
    ensures
        r is Ok <==> header_text_ok(text@),
{
    http::HeaderValue::from_str(text).map_err(http::Error::from)
}

/// Text of printable ASCII (space to tilde) is a header value.
proof fn lemma_printable_is_header_text(text: Seq<char>)
    requires
        forall|i: int| 0 <= i < text.len() ==> ' ' <= #[trigger] text[i] <= '~',
    ensures
        header_text_ok(text),
{
    assert(vstd::utf8::is_ascii_chars(text));
    vstd::utf8::is_ascii_chars_encode_utf8(text);
    let bytes = vstd::utf8::encode_utf8(text);
    assert forall|i: int| 0 <= i < bytes.len() implies is_header_value_byte(#[trigger] bytes[i]) by {
        let c = text[i];
        assert(' ' <= c <= '~');
        assert(bytes[i] == c as u8);
    }
}

/// Why a connection could not be started.
#[derive(Debug)]
pub enum StartError {
    /// An I/O error.
    Io(std::io::Error),
    /// The handshake request could not be built.
    Http(http::Error),
    /// The `WebSocket` handshake failed.
    Fast(fastwebsockets::WebSocketError),
    /// The URL could not be parsed.
    InvalidUrl(url::ParseError),
    /// There was no host in the provided URL.
    NoHost,
    /// There was no domain in the provided URL.
    NoDomain,
}

impl From<std::io::Error> for StartError {
    fn from(e: std::io::Error) -> (r: Self) {
        StartError::Io(e)
    }
}

impl vstd::std_specs::convert::FromSpecImpl<std::io::Error> for StartError {
    open spec fn obeys_from_spec() -> bool {
        true
    }

    open spec fn from_spec(v: std::io::Error) -> Self {
        StartError::Io(v)
    }
}

impl From<http::Error> for StartError {
    fn from(e: http::Error) -> (r: Self) {
        StartError::Http(e)
    }
}

impl vstd::std_specs::convert::FromSpecImpl<http::Error> for StartError {
    open spec fn obeys_from_spec() -> bool {
        true
    }

    open spec fn from_spec(v: http::Error) -> Self {
        StartError::Http(v)
    }
}

impl From<fastwebsockets::WebSocketError> for StartError {
    fn from(e: fastwebsockets::WebSocketError) -> (r: Self) {
        StartError::Fast(e)
    }
}

impl vstd::std_specs::convert::FromSpecImpl<fastwebsockets::WebSocketError> for StartError {
    open spec fn obeys_from_spec() -> bool {
        true
    }

    open spec fn from_spec(v: fastwebsockets::WebSocketError) -> Self {
        StartError::Fast(v)
    }
}

impl From<url::ParseError> for StartError {
    fn from(e: url::ParseError) -> (r: Self) {
        StartError::InvalidUrl(e)
    }
}

impl vstd::std_specs::convert::FromSpecImpl<url::ParseError> for StartError {
    open spec fn obeys_from_spec() -> bool {
        true
    }

    open spec fn from_spec(v: url::ParseError) -> Self {
        StartError::InvalidUrl(v)
    }
}

/// What `ServerName::try_from(&str)` gives for this text, made owned: the DNS
/// name, or else the IP address, that it reads; `None` when it is neither.
pub uninterp spec fn server_name_of(name: Seq<char>) -> Option<
    tokio_rustls::rustls::pki_types::ServerName<'static>,
>;

/// `ServerName::try_from(&str)`, made owned with `to_owned`: the name the
/// TLS connection is for, or `None` (rustls's `InvalidDnsNameError`).
#[verifier::external_body]
fn parse_server_name(name: &str) -> (r: Option<tokio_rustls::rustls::pki_types::ServerName<'static>>)
    ensures
        r == server_name_of(name@),
{
    match tokio_rustls::rustls::pki_types::ServerName::try_from(name) {
        Ok(n) => Some(n.to_owned()),
        Err(_) => None,
    }
}

/// `std::io::Error::new` with `ErrorKind::InvalidInput` and this message.
/// `ErrorKind` is opaque here, so no clause can name the kind.
#[verifier::external_body]
fn invalid_input_error(message: &str) -> (r: std::io::Error) {
    std::io::Error::new(std::io::ErrorKind::InvalidInput, message)
}

/// The name that the TLS connection to `domain` is for: the one rustls reads
/// from `domain` itself. A domain that rustls takes neither as a DNS name nor
/// as an IP address is an I/O error (of kind `InvalidInput`).
pub fn tls_server_name(domain: &str) -> (r: Result<
    tokio_rustls::rustls::pki_types::ServerName<'static>,
    StartError,
>)
    ensures
        match server_name_of(domain@) {
            Some(name) => r == Ok::<tokio_rustls::rustls::pki_types::ServerName<'static>, StartError>(name),
            None => r matches Err(StartError::Io(_)),
        },
{
    match parse_server_name(domain) {
        Some(name) => Ok(name),
        None => Err(StartError::Io(invalid_input_error("invalid dnsname"))),
    }
}

/// Where and how to open a connection.
#[derive(Debug, Clone, PartialEq, Eq)]
pub struct ConnectTarget {
    /// The host to open the TCP connection to, and to name in the `Host` header.
    pub host: String,
    /// The domain that the TLS certificate must be for.
    pub domain: String,
    /// The TCP port.
    pub port: u16,
    /// Whether the connection is wrapped in TLS.
    pub use_tls: bool,
}

/// The scheme of `WebSocket` over TLS.
pub open spec fn secure_scheme() -> Seq<char> {
    seq!['w', 's', 's']
}

/// The port of a URL that names none: 443 over TLS, 80 without.
pub open spec fn default_port(use_tls: bool) -> u16 {
    if use_tls {
        443
    } else {
        80
    }
}

/// Whether `scheme` is `wss`.
pub fn is_secure_scheme(scheme: &str) -> (r: bool)
    ensures
        r <==> scheme@ == secure_scheme(),
{
    let n = scheme.unicode_len();
    if n != 3 {
        return false;
    }
    let r = scheme.get_char(0) == 'w' && scheme.get_char(1) == 's' && scheme.get_char(2) == 's';
    proof {
        if r {
            assert(scheme@ =~= secure_scheme());
        }
    }
    r
}

/// Whether `r` is where to connect for a URL with this scheme, host, domain
/// and port: a URL without a host, or whose host is not a domain name, is
/// refused; `wss` goes over TLS; a missing port is the scheme's default.
pub open spec fn plans(
    scheme: Seq<char>,
    host: Option<Seq<char>>,
    domain: Option<Seq<char>>,
    port: Option<u16>,
    r: Result<ConnectTarget, StartError>,
) -> bool {
    match (host, domain) {
        (None, _) => r matches Err(StartError::NoHost),
        (Some(_), None) => r matches Err(StartError::NoDomain),
        (Some(h), Some(d)) => r matches Ok(t) && {
            &&& t.host@ == h
            &&& t.domain@ == d
            &&& t.use_tls == (scheme == secure_scheme())
            &&& t.port == match port {
                Some(p) => p,
                None => default_port(t.use_tls),
            }
        },
    }
}

/// Where to connect for a URL with this scheme, host, domain and port, as
/// [`plans`] says.
pub fn plan_connect(scheme: &str, host: Option<&str>, domain: Option<&str>, port: Option<u16>) -> (r:
    Result<ConnectTarget, StartError>)
    ensures
        plans(scheme@, opt_view(host), opt_view(domain), port, r),
{
    let host = match host {
        Some(h) => h,
        None => return Err(StartError::NoHost),
    };
    let domain = match domain {
        Some(d) => d,
        None => return Err(StartError::NoDomain),
    };
    let use_tls = is_secure_scheme(scheme);
    let port = match port {
        Some(p) => p,
        None => if use_tls {
            443
        } else {
            80
        },
    };
    Ok(ConnectTarget { host: host.to_owned(), domain: domain.to_owned(), port, use_tls })
}

/// Where to connect for `url`: [`plan_connect`] on the URL's scheme, host,
/// domain and port, as the `url` crate reads them.
pub fn connect_target(url: &Url) -> (r: Result<ConnectTarget, StartError>)
    ensures
        plans(url_scheme_of(*url), url_host_of(*url), url_domain_of(*url), url_port_of(*url), r),
{
    plan_connect(url_scheme(url), url_host_str(url), url_domain(url), url_port(url))
}

/// The headers of the opening handshake, in order, with their values: the
/// host, the upgrade to `websocket`, the handshake key and protocol version 13.
pub open spec fn handshake_header_spec(host: Seq<char>, key: Seq<char>) -> Seq<(Seq<char>, Seq<char>)> {
    seq![
        ("Host"@, host),
        ("upgrade"@, "websocket"@),
        ("connection"@, "upgrade"@),
        ("Sec-WebSocket-Key"@, key),
        ("Sec-WebSocket-Version"@, "13"@),
    ]
}

/// The headers of the opening handshake for `host` with the key `key`.
pub fn handshake_headers(host: &str, key: &str) -> (r: Vec<(String, String)>)
    ensures
        r@.len() == 5,
        forall|i: int|
            0 <= i < 5 ==> (#[trigger] r@[i].0@, r@[i].1@) == handshake_header_spec(host@, key@)[i],
{
    let mut r: Vec<(String, String)> = Vec::new();
    r.push(("Host".to_owned(), host.to_owned()));
    r.push(("upgrade".to_owned(), "websocket".to_owned()));
    r.push(("connection".to_owned(), "upgrade".to_owned()));
    r.push(("Sec-WebSocket-Key".to_owned(), key.to_owned()));
    r.push(("Sec-WebSocket-Version".to_owned(), "13".to_owned()));
    r
}

/// The opening handshake request as plain values: a method, the URI text and
/// the headers in order; its body is empty.
pub struct HandshakeRequest {
    /// The request's method.
    pub method: String,
    /// The request's URI.
    pub uri: String,
    /// The request's headers, names and values, in order.
    pub headers: Vec<(String, String)>,
}

/// The opening handshake request for `url` on `host`: a `GET` of the URL's
/// text with the headers of [`handshake_headers`] and a fresh key. It fails
/// exactly when http does not take the URL's text as a URI, or `host` as a
/// header value; two requests for one URL and host differ in their keys only.
pub fn make_request(url: &Url, host: &str) -> (r: Result<HandshakeRequest, http::Error>)
    ensures
        r is Ok <==> uri_accepts(url_text_of(*url)) && header_text_ok(host@),
        r matches Ok(req) ==> {
            &&& req.method@ == "GET"@
            &&& req.uri@ == url_text_of(*url)
            &&& req.headers@.len() == 5
            &&& is_handshake_key(req.headers@[3].1@)
            &&& forall|i: int|
                0 <= i < 5 ==> (#[trigger] req.headers@[i].0@, req.headers@[i].1@)
                    == handshake_header_spec(host@, req.headers@[3].1@)[i]
        },
{
    let text = url_as_str(url);
    match parse_uri(text) {
        Ok(_) => {},
        Err(e) => return Err(e),
    }
    let key = generate_key();
    let headers = handshake_headers(host, key.as_str());
    proof {
        reveal_strlit("websocket");
        reveal_strlit("upgrade");
        reveal_strlit("13");
        let spec = handshake_header_spec(host@, key@);
        assert((headers@[0].0@, headers@[0].1@) == spec[0]);
        assert((headers@[1].0@, headers@[1].1@) == spec[1]);
        assert((headers@[2].0@, headers@[2].1@) == spec[2]);
        assert((headers@[3].0@, headers@[3].1@) == spec[3]);
        assert((headers@[4].0@, headers@[4].1@) == spec[4]);
        assert(headers@[1].1@ =~= seq!['w', 'e', 'b', 's', 'o', 'c', 'k', 'e', 't']);
        assert(headers@[2].1@ =~= seq!['u', 'p', 'g', 'r', 'a', 'd', 'e']);
        assert(headers@[4].1@ =~= seq!['1', '3']);
        lemma_printable_is_header_text(headers@[1].1@);
        lemma_printable_is_header_text(headers@[2].1@);
        assert forall|i: int| 0 <= i < key@.len() implies ' ' <= #[trigger] key@[i] <= '~' by {
            if i < 22 {
                assert(is_base64_char(key@[i]));
            }
        }
        lemma_printable_is_header_text(headers@[3].1@);
        lemma_printable_is_header_text(headers@[4].1@);
    }
    let mut i: usize = 0;
    while i < headers.len()
        invariant
            i <= headers@.len(),
            headers@.len() == 5,
            headers@[0].1@ == host@,
            forall|j: int| 1 <= j < 5 ==> header_text_ok(#[trigger] headers@[j].1@),
            i > 0 ==> header_text_ok(host@),
        decreases headers@.len() - i,
    {
        match header_value(headers[i].1.as_str()) {
            Ok(_) => {},
            Err(e) => return Err(e),
        }
        i = i + 1;
    }
    Ok(HandshakeRequest { method: "GET".to_owned(), uri: text.to_owned(), headers })
}

} // verus!
