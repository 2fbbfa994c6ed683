use aerowan::api::{
    authorize, listen_addr, chat_messages_response, chat_send_response, connect_response, peers_json_response,
    peers_response, status_response, ApiStatus, IamLayer,
};

#[test]
fn bearer_token_required() {
    assert_eq!(authorize("k3y", Some("Bearer k3y")), Ok(()));
    assert_eq!(authorize("k3y", Some("Bearer k3y ")), Err(ApiStatus::Unauthorized));
    assert_eq!(authorize("k3y", Some("bearer k3y")), Err(ApiStatus::Unauthorized));
    assert_eq!(authorize("k3y", Some("k3y")), Err(ApiStatus::Unauthorized));
    assert_eq!(authorize("k3y", Some("Bearer ")), Err(ApiStatus::Unauthorized));
    assert_eq!(authorize("k3y", None), Err(ApiStatus::Unauthorized));
    assert_eq!(authorize("", Some("Bearer ")), Ok(()));
    assert_eq!(ApiStatus::Unauthorized.code(), 401);
}

#[test]
fn iam_layer_checks_its_key() {
    let layer = IamLayer::new("abcd".to_string());
    assert!(layer.check(Some("Bearer abcd")).is_ok());
    assert_eq!(layer.check(Some("Bearer abce")), Err(ApiStatus::Unauthorized));
}

#[test]
fn status_answers() {
    let r = status_response(Some("n0de"));
    assert_eq!(r.status.code(), 200);
    assert_eq!(r.body, "NodeID: n0de");
    let r = status_response(None);
    assert_eq!(r.status.code(), 200);
    assert_eq!(r.body, "Running in Reticulum-only mode, iroh disabled");
}

#[test]
fn peers_answers() {
    let ids = vec!["a".to_string(), "b\"c".to_string()];
    let r = peers_response(Some(&ids));
    assert_eq!(r.status.code(), 200);
    assert_eq!(r.body, "[\"a\",\"b\\\"c\"]");
    let r = peers_response(Some(&Vec::new()));
    assert_eq!(r.body, "[]");
    let r = peers_response(None);
    assert_eq!(r.status.code(), 503);
    assert_eq!(r.body, "iroh disabled, peer list unavailable");
    let r = peers_json_response(Err("boom".to_string()));
    assert_eq!(r.status.code(), 500);
    assert_eq!(r.body, "Failed to serialize peers: boom");
}

#[test]
fn connect_answers() {
    let r = connect_response(Some(Ok("abc".to_string())));
    assert_eq!((r.status.code(), r.body.as_str()), (200, "Connected to: abc"));
    let r = connect_response(Some(Err("timeout".to_string())));
    assert_eq!((r.status.code(), r.body.as_str()), (500, "Connection failed: timeout"));
    let r = connect_response(None);
    assert_eq!((r.status.code(), r.body.as_str()), (503, "iroh disabled"));
}

#[test]
fn chat_answers() {
    let r = chat_send_response(Some(Ok(())));
    assert_eq!((r.status.code(), r.body.as_str()), (200, "message sent"));
    let r = chat_send_response(Some(Err("no connection to peer x".to_string())));
    assert_eq!(
        (r.status.code(), r.body.as_str()),
        (500, "Failed to send message: no connection to peer x")
    );
    let r = chat_send_response(None);
    assert_eq!((r.status.code(), r.body.as_str()), (503, "iroh disabled"));
    let r = chat_messages_response(Some(Ok("[]".to_string())));
    assert_eq!((r.status.code(), r.body.as_str()), (200, "[]"));
    let r = chat_messages_response(Some(Err("x".to_string())));
    assert_eq!((r.status.code(), r.body.as_str()), (500, "Failed to serialize messages: x"));
    let r = chat_messages_response(None);
    assert_eq!((r.status.code(), r.body.as_str()), (503, "iroh disabled"));
}

#[test]
fn api_listens_locally() {
    assert_eq!(listen_addr(37430), "127.0.0.1:37430");
    assert_eq!(listen_addr(0), "127.0.0.1:0");
}
