//! The upgrade of an HTTP connection into a streaming channel: the server's
//! handshake response is checked and a channel protocol version negotiated.
use crate::text::{eq_ignore_ascii_case, str_eq, str_eq_ignore_ascii_case};
use base64::Engine;
use tokio_tungstenite::WebSocketStream;
use vstd::prelude::*;
use vstd::string::StringSliceAdditionalSpecFns;

verus! {

/// Token of the binary channel protocol, version four.
pub const WS_PROTOCOL_V4: &'static str = "v4.channel.k8s.io";

/// Token of the binary channel protocol, version five, which adds a close signal.
pub const WS_PROTOCOL_V5: &'static str = "v5.channel.k8s.io";

/// The tokens that a client offers, most preferred first.
pub const WS_PROTOCOLS: &'static str = "v5.channel.k8s.io,v4.channel.k8s.io";

/// A negotiated channel protocol version.
#[derive(Debug, Clone, Copy, PartialEq, Eq, Structural)]
pub enum SubProto {
    V4,
    V5,
}

/// The protocol version that `token` names, if any.
pub open spec fn subproto_of(token: Seq<char>) -> Option<SubProto> {
    if token == WS_PROTOCOL_V4@ {
        Some(SubProto::V4)
    } else if token == WS_PROTOCOL_V5@ {
        Some(SubProto::V5)
    } else {
        None
    }
}

impl SubProto {
    /// Decodes a subprotocol token; only the two known tokens are accepted.
    pub fn from_token(s: &str) -> (r: Option<SubProto>)
        ensures
            r == subproto_of(s@),
    {
        if str_eq(s, WS_PROTOCOL_V4) {
            Some(SubProto::V4)
        } else if str_eq(s, WS_PROTOCOL_V5) {
            Some(SubProto::V5)
        } else {
            None
        }
    }
}

impl std::str::FromStr for SubProto {
    type Err = &'static str;

    fn from_str(s: &str) -> (r: Result<Self, Self::Err>)
        ensures
            r == match subproto_of(s@) {
                Some(p) => Ok(p),
                None => Err("invalid subprotocol"),
            },
    {
        match SubProto::from_token(s) {
            Some(p) => Ok(p),
            None => Err("invalid subprotocol"),
        }
    }
}

#[verifier::external_type_specification]
#[verifier::external_body]
#[verifier::reject_recursive_types(S)]
pub struct ExWebSocketStream<S>(WebSocketStream<S>);

#[verifier::external_type_specification]
#[verifier::external_body]
pub struct ExHyperError(hyper::Error);

/// A live streaming connection, bound to the channel protocol negotiated for it.
#[verifier::reject_recursive_types(S)]
pub struct WsStream<S> {
    stream: WebSocketStream<S>,
    proto: SubProto,
}

impl<S> WsStream<S> {
    /// The channel protocol of this stream.
    pub closed spec fn protocol(&self) -> SubProto {
        self.proto
    }

    /// The underlying connection.
    pub closed spec fn connection(&self) -> WebSocketStream<S> {
        self.stream
    }

    /// Binds `stream` to the protocol `proto`.
    pub fn new(stream: WebSocketStream<S>, proto: SubProto) -> (r: Self)
        ensures
            r.protocol() == proto,
            r.connection() == stream,
    {
        WsStream { stream, proto }
    }

    /// Gives the underlying connection back.
    pub fn into_inner(self) -> (r: WebSocketStream<S>)
        ensures
            r == self.connection(),
    {
        self.stream
    }

    /// Whether a single channel can be closed on its own: only version five
    /// has the close signal.
    pub fn supports_closing(&self) -> (r: bool)
        ensures
            r == (self.protocol() == SubProto::V5),
    {
        match self.proto {
            SubProto::V5 => true,
            SubProto::V4 => false,
        }
    }
}

/// Why an upgrade to a streaming connection failed.
pub enum UpgradeConnectionError {
    /// The server answered with this status instead of switching protocols.
    ProtocolSwitch(u16),
    /// The `Upgrade` header was not `websocket` (in any case).
    MissingUpgradeWebSocketHeader,
    /// The `Connection` header was not `Upgrade` (in any case).
    MissingConnectionUpgradeHeader,
    /// The `Sec-WebSocket-Accept` header did not hold the expected key.
    SecWebSocketAcceptKeyMismatch,
    /// The `Sec-WebSocket-Protocol` header was absent or named no known protocol.
    SecWebSocketProtocolMismatch,
    /// The transport could not hand over the pending upgrade.
    GetPendingUpgrade(hyper::Error),
}

/// The status code of "Switching Protocols".
pub const SWITCHING_PROTOCOLS: u16 = 101;

/// What the handshake check reads from an HTTP upgrade response. A header is
/// `None` when the response lacks it or when its value is not visible ASCII.
pub struct UpgradeResponse {
    pub status: u16,
    pub upgrade: Option<String>,
    pub connection: Option<String>,
    pub sec_websocket_accept: Option<String>,
    pub sec_websocket_protocol: Option<String>,
}

/// The header is present and equals `expected` up to ASCII case.
pub open spec fn header_is_ci(h: Option<String>, expected: Seq<char>) -> bool {
    match h {
        Some(v) => eq_ignore_ascii_case(v@, expected),
        None => false,
    }
}

/// The header is present and equals `expected` exactly.
pub open spec fn header_is(h: Option<String>, expected: Seq<char>) -> bool {
    match h {
        Some(v) => v@ == expected,
        None => false,
    }
}

/// The outcome of checking `res` against the accept key `accept`: the checks
/// run in order and the first that fails gives the error.
pub open spec fn handshake_outcome(res: UpgradeResponse, accept: Seq<char>) -> Result<
    SubProto,
    UpgradeConnectionError,
> {
    if res.status != SWITCHING_PROTOCOLS {
        Err(UpgradeConnectionError::ProtocolSwitch(res.status))
    } else if !header_is_ci(res.upgrade, "websocket"@) {
        Err(UpgradeConnectionError::MissingUpgradeWebSocketHeader)
    } else if !header_is_ci(res.connection, "Upgrade"@) {
        Err(UpgradeConnectionError::MissingConnectionUpgradeHeader)
    } else if !header_is(res.sec_websocket_accept, accept) {
        Err(UpgradeConnectionError::SecWebSocketAcceptKeyMismatch)
    } else {
        match res.sec_websocket_protocol {
            Some(v) => match subproto_of(v@) {
                Some(p) => Ok(p),
                None => Err(UpgradeConnectionError::SecWebSocketProtocolMismatch),
            },
            None => Err(UpgradeConnectionError::SecWebSocketProtocolMismatch),
        }
    }
}

fn check_header_ci(h: &Option<String>, expected: &str) -> (r: bool)
    ensures
        r == header_is_ci(*h, expected@),
{
    match h {
        Some(v) => str_eq_ignore_ascii_case(v.as_str(), expected),
        None => false,
    }
}

/// Checks an upgrade response against an already derived accept key.
pub fn verify_response_with_accept_key(res: &UpgradeResponse, accept_key: &str) -> (r: Result<
    SubProto,
    UpgradeConnectionError,
>)
    ensures
        r == handshake_outcome(*res, accept_key@),
{
    if res.status != SWITCHING_PROTOCOLS {
        return Err(UpgradeConnectionError::ProtocolSwitch(res.status));
    }
    if !check_header_ci(&res.upgrade, "websocket") {
        return Err(UpgradeConnectionError::MissingUpgradeWebSocketHeader);
    }
    if !check_header_ci(&res.connection, "Upgrade") {
        return Err(UpgradeConnectionError::MissingConnectionUpgradeHeader);
    }
    let accepted = match &res.sec_websocket_accept {
        Some(v) => str_eq(v.as_str(), accept_key),
        None => false,
    };
    if !accepted {
        return Err(UpgradeConnectionError::SecWebSocketAcceptKeyMismatch);
    }
    match &res.sec_websocket_protocol {
        Some(v) => match SubProto::from_token(v.as_str()) {
            Some(p) => Ok(p),
            None => Err(UpgradeConnectionError::SecWebSocketProtocolMismatch),
        },
        None => Err(UpgradeConnectionError::SecWebSocketProtocolMismatch),
    }
}

/// The RFC 6455 accept key for a client key: base64 of the SHA-1 digest of
/// the key followed by the protocol's fixed GUID.
pub uninterp spec fn accept_key_of(key: Seq<u8>) -> Seq<char>;

/// Relies on tungstenite's `handshake::derive_accept_key`, which computes the
/// RFC 6455 accept key of the client key's bytes.
#[verifier::external_body]
fn derive_accept_key(key: &[u8]) -> (r: String)
    ensures
        r@ == accept_key_of(key@),
{
    tokio_tungstenite::tungstenite::handshake::derive_accept_key(key)
}

/// Verifies an upgrade response for the client key `key` (RFC 6455, with the
/// channel subprotocol check added), giving the negotiated protocol.
pub fn verify_response(res: &UpgradeResponse, key: &str) -> (r: Result<
    SubProto,
    UpgradeConnectionError,
>)
    ensures
        r == handshake_outcome(*res, accept_key_of(key.spec_bytes())),
{
    let accept_key = derive_accept_key(key.as_bytes());
    verify_response_with_accept_key(res, accept_key.as_str())
}

/// The padded standard base64 text of `bytes`.
pub uninterp spec fn base64_of(bytes: Seq<u8>) -> Seq<char>;

/// Relies on base64's `STANDARD` engine `encode`: padded base64 text, four
/// characters for each started group of three bytes.
#[verifier::external_body]
fn base64_encode(bytes: &[u8]) -> (r: String)
    requires
        bytes@.len() <= usize::MAX / 2,
    ensures
        r@ == base64_of(bytes@),
        r@.len() == 4 * ((bytes@.len() + 2) / 3),
{
    base64::engine::general_purpose::STANDARD.encode(bytes)
}

/// Relies on `rand::random`: sixteen bytes from the thread-local generator,
/// which is cryptographically secure.
#[verifier::external_body]
fn random_key_bytes() -> (r: Vec<u8>)
    ensures
        r@.len() == 16,
{
    rand::random::<[u8; 16]>().to_vec()
}

/// A fresh random nonce for the `Sec-WebSocket-Key` header: sixteen random
/// bytes in base64, twenty-four characters.
pub fn sec_websocket_key() -> (r: String)
    ensures
        r@.len() == 24,
        exists|bytes: Seq<u8>| bytes.len() == 16 && r@ == #[trigger] base64_of(bytes),
{
    let bytes = random_key_bytes();
    let r = base64_encode(bytes.as_slice());
    assert(4 * ((16 + 2) / 3) == 24int);
    r
}

} // verus!
