//! The upgrade request that opens the realtime connection.
//!
//! The service URL is parsed by the `http` crate and the WebSocket key is
//! drawn by `tungstenite`; both are called through the trusted wrappers
//! below. Everything else about the request is decided and verified here.
//! The caller turns the resulting [`Handshake`] into a request of its
//! WebSocket client and performs it.

use vstd::prelude::*;
use vstd::string::{StrSliceExecFns, StringExecFns};
use crate::error::{failure_at, RelayError, RelayErrorView, Stage};

verus! {

/// What the `http` crate makes of the text `url` when it parses it as a
/// URI: the authority component of the parsed URI, `None` where the URI has
/// none, or the message of the parse error.
pub uninterp spec fn uri_authority(url: Seq<char>) -> Result<Option<Seq<char>>, Seq<char>>;

/// Mathematical value of a parse outcome.
pub open spec fn parsed_view(parsed: Result<Option<String>, String>) -> Result<
    Option<Seq<char>>,
    Seq<char>,
> {
    match parsed {
        Ok(Some(authority)) => Ok(Some(authority@)),
        Ok(None) => Ok(None),
        Err(why) => Err(why@),
    }
}

/// Parses `url` with `http::Uri`'s `FromStr` and reads the result's
/// `authority()` as text.
///
/// Trusted: the outcome is the parser's. On success it holds the text of
/// the authority component, or `None` where the URI has none; on failure it
/// holds what the parse error displays.
#[verifier::external_body]
fn parse_authority(url: &str) -> (parsed: Result<Option<String>, String>)
    ensures
        parsed_view(parsed) == uri_authority(url@),
{
    match url.parse::<http::Uri>() {
        Ok(uri) => Ok(uri.authority().map(|a| a.as_str().to_string())),
        Err(e) => Err(e.to_string()),
    }
}

/// Draws a key for the `Sec-WebSocket-Key` header with tungstenite's
/// `generate_key`.
///
/// Trusted, and nothing is claimed of the key: it is random.
#[verifier::external_body]
fn fresh_key() -> (key: String) {
    tokio_tungstenite::tungstenite::handshake::client::generate_key()
}

/// The fixed part of the service URL, up to the model name.
pub open spec fn url_prefix() -> Seq<char> {
    "wss://dashscope.aliyuncs.com/api-ws/v1/realtime?model="@
}

/// The service URL for `model`.
pub open spec fn realtime_url_of(model: Seq<char>) -> Seq<char> {
    url_prefix() + model
}

/// Builds the service URL for `model`.
pub fn realtime_url(model: &str) -> (url: String)
    ensures
        url@ == realtime_url_of(model@),
{
    String::from_str("wss://dashscope.aliyuncs.com/api-ws/v1/realtime?model=").concat(model)
}

/// Whether `i` is the position of the first `@` in `text`.
pub open spec fn is_first_at(text: Seq<char>, i: int) -> bool {
    &&& 0 <= i < text.len()
    &&& text[i] == '@'
    &&& forall|j: int| 0 <= j < i ==> text[j] != '@'
}

/// The host part of an authority: what follows its first `@`, or all of it
/// where it holds no `@`.
pub open spec fn host_of(authority: Seq<char>) -> Seq<char> {
    if exists|i: int| is_first_at(authority, i) {
        let i = choose|i: int| is_first_at(authority, i);
        authority.subrange(i + 1, authority.len() as int)
    } else {
        authority
    }
}

/// The first `@` of a text stands at one position only.
pub proof fn lemma_first_at_unique(text: Seq<char>, i: int, j: int)
    requires
        is_first_at(text, i),
        is_first_at(text, j),
    ensures
        i == j,
{
    if i < j {
        assert(text[i] != '@');
    } else if j < i {
        assert(text[j] != '@');
    }
}

/// Strips the user information from an authority.
pub fn host_of_authority(authority: &str) -> (host: String)
    ensures
        host@ == host_of(authority@),
{
    let n = authority.unicode_len();
    let mut i: usize = 0;
    while i < n
        invariant
            i <= n,
            n == authority@.len(),
            forall|j: int| 0 <= j < i ==> authority@[j] != '@',
        decreases n - i,
    {
        if authority.get_char(i) == '@' {
            proof {
                assert(is_first_at(authority@, i as int));
                let k = choose|k: int| is_first_at(authority@, k);
                lemma_first_at_unique(authority@, i as int, k);
            }
            return String::from_str(authority.substring_char(i + 1, n));
        }
        i += 1;
    }
    String::from_str(authority)
}

/// One header line of the upgrade request.
#[derive(Debug, Clone, PartialEq, Eq)]
pub struct Header {
    pub name: String,
    pub value: String,
}

impl View for Header {
    type V = (Seq<char>, Seq<char>);

    open spec fn view(&self) -> (Seq<char>, Seq<char>) {
        (self.name@, self.value@)
    }
}

/// The request that opens the realtime connection.
#[derive(Debug, Clone, PartialEq, Eq)]
pub struct Handshake {
    pub method: String,
    pub url: String,
    pub headers: Vec<Header>,
}

/// Mathematical value of a [`Handshake`].
pub struct HandshakeView {
    pub method: Seq<char>,
    pub url: Seq<char>,
    pub headers: Seq<(Seq<char>, Seq<char>)>,
}

impl View for Handshake {
    type V = HandshakeView;

    open spec fn view(&self) -> HandshakeView {
        HandshakeView {
            method: self.method@,
            url: self.url@,
            headers: self.headers@.map_values(|h: Header| h@),
        }
    }
}

/// The headers of the upgrade request, in the order they are set: the five
/// the WebSocket handshake asks for, the bearer token, and the protocol
/// capability the service expects.
pub open spec fn upgrade_headers(host: Seq<char>, key: Seq<char>, api_key: Seq<char>) -> Seq<
    (Seq<char>, Seq<char>),
> {
    seq![
        ("Host"@, host),
        ("Connection"@, "Upgrade"@),
        ("Upgrade"@, "websocket"@),
        ("Sec-WebSocket-Version"@, "13"@),
        ("Sec-WebSocket-Key"@, key),
        ("Authorization"@, "Bearer "@ + api_key),
        ("OpenAI-Beta"@, "realtime=v1"@),
    ]
}

/// The upgrade request for `model`, sent to `host` with the WebSocket key
/// `key` and the token `api_key`.
pub open spec fn upgrade_request(
    model: Seq<char>,
    host: Seq<char>,
    key: Seq<char>,
    api_key: Seq<char>,
) -> HandshakeView {
    HandshakeView {
        method: "GET"@,
        url: realtime_url_of(model),
        headers: upgrade_headers(host, key, api_key),
    }
}

/// The host a parse outcome yields, or the handshake failure it stands for.
pub open spec fn resolved_host(parsed: Result<Option<Seq<char>>, Seq<char>>) -> Result<
    Seq<char>,
    RelayErrorView,
> {
    match parsed {
        Ok(Some(authority)) => Ok(host_of(authority)),
        Ok(None) => Err(RelayErrorView::HandshakeFailure("Missing authority in URL"@)),
        Err(why) => Err(failure_at(Stage::ParseUrl, why)),
    }
}

fn header(name: &str, value: String) -> (h: Header)
    ensures
        h@ == (name@, value@),
{
    Header { name: String::from_str(name), value }
}

/// Reads the host for the upgrade request off the outcome of parsing the
/// service URL.
pub fn resolve_host(parsed: Result<Option<String>, String>) -> (r: Result<String, RelayError>)
    ensures
        match resolved_host(parsed_view(parsed)) {
            Ok(host) => r matches Ok(h) && h@ == host,
            Err(error) => r matches Err(e) && e@ == error,
        },
{
    match parsed {
        Ok(Some(authority)) => Ok(host_of_authority(authority.as_str())),
        Ok(None) => Err(RelayError::HandshakeFailure(String::from_str("Missing authority in URL"))),
        Err(why) => Err(RelayError::at(Stage::ParseUrl, why.as_str())),
    }
}

/// Builds the upgrade request for `model`, sent to `host` with the
/// WebSocket key `key` and the token `api_key`.
pub fn build_handshake(model: &str, host: String, key: String, api_key: &str) -> (handshake:
    Handshake)
    ensures
        handshake@ == upgrade_request(model@, host@, key@, api_key@),
{
    let ghost wanted = upgrade_headers(host@, key@, api_key@);
    let mut headers: Vec<Header> = Vec::new();
    headers.push(header("Host", host));
    headers.push(header("Connection", String::from_str("Upgrade")));
    headers.push(header("Upgrade", String::from_str("websocket")));
    headers.push(header("Sec-WebSocket-Version", String::from_str("13")));
    headers.push(header("Sec-WebSocket-Key", key));
    headers.push(header("Authorization", String::from_str("Bearer ").concat(api_key)));
    headers.push(header("OpenAI-Beta", String::from_str("realtime=v1")));
    let handshake = Handshake {
        method: String::from_str("GET"),
        url: realtime_url(model),
        headers,
    };
    assert(handshake@.headers =~= wanted);
    handshake
}

/// Plans the connection to the service for `model` with the token
/// `api_key`.
///
/// Fails exactly where the service URL does not parse or parses without an
/// authority. Otherwise the result is the upgrade request for the parsed
/// host, with a freshly drawn WebSocket key.
pub fn plan_handshake(api_key: &str, model: &str) -> (r: Result<Handshake, RelayError>)
    ensures
        match resolved_host(uri_authority(realtime_url_of(model@))) {
            Ok(host) => r matches Ok(h) && h@ == upgrade_request(
                model@,
                host,
                h@.headers[4].1,
                api_key@,
            ),
            Err(error) => r matches Err(e) && e@ == error,
        },
{
    let url = realtime_url(model);
    let parsed = parse_authority(url.as_str());
    match resolve_host(parsed) {
        Ok(host) => Ok(build_handshake(model, host, fresh_key(), api_key)),
        Err(error) => Err(error),
    }
}

} // verus!
