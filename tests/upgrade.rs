use base64::Engine;
use kube_dynamic::upgrade::{WS_PROTOCOL_V4, WS_PROTOCOL_V5};
use kube_dynamic::{
    sec_websocket_key, verify_response, verify_response_with_accept_key, SubProto,
    UpgradeConnectionError, UpgradeResponse,
};
use std::collections::HashSet;

const NONCE: &str = "dGhlIHNhbXBsZSBub25jZQ==";
const ACCEPT: &str = "s3pPLMBiTxaQ9kYGzzhZRbK+xOo=";

fn good_response(protocol: Option<&str>) -> UpgradeResponse {
    UpgradeResponse {
        status: 101,
        upgrade: Some("websocket".to_string()),
        connection: Some("Upgrade".to_string()),
        sec_websocket_accept: Some(ACCEPT.to_string()),
        sec_websocket_protocol: protocol.map(|p| p.to_string()),
    }
}

#[test]
fn subprotocol_tokens() {
    assert_eq!(SubProto::from_token("v4.channel.k8s.io"), Some(SubProto::V4));
    assert_eq!(SubProto::from_token("v5.channel.k8s.io"), Some(SubProto::V5));
    assert_eq!(SubProto::from_token("v3.channel.k8s.io"), None);
    assert_eq!(SubProto::from_token(""), None);
    assert_eq!("v5.channel.k8s.io".parse::<SubProto>(), Ok(SubProto::V5));
    assert!("V4.channel.k8s.io".parse::<SubProto>().is_err());
    assert_eq!("v4.channel.k8s.io".parse::<SubProto>(), Ok(SubProto::V4));
    assert_eq!("garbage".parse::<SubProto>(), Err("invalid subprotocol"));
}

#[test]
fn accepted_handshake_gives_protocol() {
    assert!(matches!(verify_response(&good_response(Some(WS_PROTOCOL_V4)), NONCE), Ok(SubProto::V4)));
    assert!(matches!(verify_response(&good_response(Some(WS_PROTOCOL_V5)), NONCE), Ok(SubProto::V5)));
}

#[test]
fn header_case_is_ignored() {
    let mut res = good_response(Some(WS_PROTOCOL_V4));
    res.upgrade = Some("WebSocket".to_string());
    res.connection = Some("upgrade".to_string());
    assert!(matches!(verify_response(&res, NONCE), Ok(SubProto::V4)));
}

#[test]
fn each_check_has_its_error() {
    let mut wrong_status = good_response(Some(WS_PROTOCOL_V4));
    wrong_status.status = 200;
    assert!(matches!(
        verify_response(&wrong_status, NONCE),
        Err(UpgradeConnectionError::ProtocolSwitch(200))
    ));

    let mut wrong_upgrade = good_response(Some(WS_PROTOCOL_V4));
    wrong_upgrade.upgrade = Some("h2c".to_string());
    assert!(matches!(
        verify_response(&wrong_upgrade, NONCE),
        Err(UpgradeConnectionError::MissingUpgradeWebSocketHeader)
    ));

    let mut no_upgrade = good_response(Some(WS_PROTOCOL_V4));
    no_upgrade.upgrade = None;
    assert!(matches!(
        verify_response(&no_upgrade, NONCE),
        Err(UpgradeConnectionError::MissingUpgradeWebSocketHeader)
    ));

    let mut wrong_connection = good_response(Some(WS_PROTOCOL_V4));
    wrong_connection.connection = Some("keep-alive".to_string());
    assert!(matches!(
        verify_response(&wrong_connection, NONCE),
        Err(UpgradeConnectionError::MissingConnectionUpgradeHeader)
    ));

    let mut wrong_accept = good_response(Some(WS_PROTOCOL_V4));
    wrong_accept.sec_websocket_accept = Some("AAAAAAAAAAAAAAAAAAAAAAAAAAA=".to_string());
    assert!(matches!(
        verify_response(&wrong_accept, NONCE),
        Err(UpgradeConnectionError::SecWebSocketAcceptKeyMismatch)
    ));

    assert!(matches!(
        verify_response(&good_response(Some(WS_PROTOCOL_V4)), "AAAAAAAAAAAAAAAAAAAAAA=="),
        Err(UpgradeConnectionError::SecWebSocketAcceptKeyMismatch)
    ));

    assert!(matches!(
        verify_response(&good_response(None), NONCE),
        Err(UpgradeConnectionError::SecWebSocketProtocolMismatch)
    ));

    assert!(matches!(
        verify_response(&good_response(Some("garbage")), NONCE),
        Err(UpgradeConnectionError::SecWebSocketProtocolMismatch)
    ));
}

#[test]
fn checks_run_in_order() {
    let res = UpgradeResponse {
        status: 400,
        upgrade: None,
        connection: None,
        sec_websocket_accept: None,
        sec_websocket_protocol: None,
    };
    assert!(matches!(verify_response(&res, NONCE), Err(UpgradeConnectionError::ProtocolSwitch(400))));
}

#[test]
fn verify_with_given_accept_key() {
    let res = good_response(Some(WS_PROTOCOL_V5));
    assert!(matches!(verify_response_with_accept_key(&res, ACCEPT), Ok(SubProto::V5)));
    assert!(matches!(
        verify_response_with_accept_key(&res, "other"),
        Err(UpgradeConnectionError::SecWebSocketAcceptKeyMismatch)
    ));
}

#[test]
fn nonce_is_sixteen_bytes_in_base64() {
    let key = sec_websocket_key();
    assert_eq!(key.len(), 24);
    let bytes = base64::engine::general_purpose::STANDARD.decode(&key).unwrap();
    assert_eq!(bytes.len(), 16);
}

#[test]
fn nonces_do_not_repeat() {
    let keys: HashSet<String> = (0..1000).map(|_| sec_websocket_key()).collect();
    assert_eq!(keys.len(), 1000);
}
