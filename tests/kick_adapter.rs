use heychat::kick::{
    exchange_kick_code, read_token_answer, kick_exchange_body, get_channel_info_v2, handle_kick_message, kick_authorize_url, kick_slug,
    kick_socket_url, kick_subscribe_frame, pkce_challenge, generate_verifier, send_outcome,
    KickError, KickState, PkceState, SendTarget,
};

fn chat_frame(data: &str) -> String {
    let inner = data.replace('\\', "\\\\").replace('"', "\\\"");
    format!("{{\"event\":\"App\\\\Events\\\\ChatMessageEvent\",\"data\":\"{}\",\"channel\":\"chatrooms.1.v2\"}}", inner)
}

#[test]
fn non_chat_frames_are_ignored() {
    assert!(handle_kick_message("{\"event\":\"pusher:connection_established\",\"data\":\"{}\"}", "t").is_none());
    assert!(handle_kick_message("{\"event\":\"App\\\\Events\\\\UserBannedEvent\",\"data\":\"{}\"}", "t").is_none());
    assert!(handle_kick_message("not json", "t").is_none());
    assert!(handle_kick_message("{\"data\":\"{}\"}", "t").is_none());
}

#[test]
fn chat_frame_is_double_decoded() {
    let data = r##"{"id":"msg-9","content":"hello kick","sender":{"username":"alice","identity":{"color":"#FF00AA","badges":[{"type":"moderator","text":"Moderator"},{"text":"no type"},{"type":"subscriber"}]}}}"##;
    let m = handle_kick_message(&chat_frame(data), "now").expect("a chat message");
    assert_eq!(m.id, "msg-9");
    assert_eq!(m.message, "hello kick");
    assert_eq!(m.username, "alice");
    assert_eq!(m.color, Some("#FF00AA".to_string()));
    assert_eq!(m.badges, vec!["moderator", "subscriber"]);
    assert!(m.is_mod);
    assert!(!m.is_vip);
    assert!(!m.is_member);
    assert_eq!(m.msg_type, "chat");
    assert_eq!(m.timestamp, "now");
    assert!(m.emotes.is_empty());
}

#[test]
fn chat_frame_defaults() {
    let m = handle_kick_message(&chat_frame("{}"), "t").expect("a chat message");
    assert_eq!(m.id, "");
    assert_eq!(m.username, "Unknown");
    assert_eq!(m.message, "");
    assert_eq!(m.color, None);
}

#[test]
fn chat_frame_with_bad_payload_is_skipped() {
    assert!(handle_kick_message(&chat_frame("{broken"), "t").is_none());
}

#[test]
fn challenge_is_base64url_of_sha256() {
    assert_eq!(
        pkce_challenge("dBjftJeZ4CVP-mJ92K9qYpXtBXi4pl3NmD4T2dz5FOo"),
        "wgFdYo3MPBJgytH-UnlZprPxjJAfqtJMidfYa7wJzaY"
    );
}

#[test]
fn verifier_shape() {
    let v = generate_verifier();
    assert_eq!(v.len(), 32);
    assert!(v.chars().all(|c| c.is_ascii_alphanumeric()));
}

#[test]
fn code_exchange_is_single_use() {
    let mut p = PkceState::new();
    assert!(matches!(p.take_verifier(), Err(KickError::NoPkceVerifier)));
    let url = p.start_kick_oauth();
    let v = p.take_verifier().expect("a pending verifier");
    assert_eq!(v.len(), 32);
    assert_eq!(url, kick_authorize_url(&pkce_challenge(&v)));
    assert!(url.ends_with("&code_challenge_method=S256"));
    assert!(matches!(p.take_verifier(), Err(KickError::NoPkceVerifier)));
}

#[test]
fn second_start_replaces_verifier() {
    let mut p = PkceState::new();
    p.store_verifier("first".to_string());
    p.store_verifier("second".to_string());
    assert_eq!(p.take_verifier().unwrap(), "second");
    assert!(p.take_verifier().is_err());
}

#[test]
fn token_exchange_outcomes() {
    match read_token_answer(false, "400 Bad Request", "{\"error\":\"invalid_grant\"}") {
        Err(KickError::TokenExchangeFailed { status, body }) => {
            assert_eq!(status, "400 Bad Request");
            assert_eq!(body, "{\"error\":\"invalid_grant\"}");
        }
        _ => panic!("expected a failed exchange"),
    }
    match read_token_answer(true, "200 OK", "nope") {
        Err(KickError::NoAccessToken(body)) => assert_eq!(body, "nope"),
        _ => panic!("expected a missing token"),
    }
    match read_token_answer(true, "200 OK", "{\"token\":\"x\"}") {
        Err(KickError::NoAccessToken(body)) => assert_eq!(body, "{\"token\":\"x\"}"),
        _ => panic!("expected a missing token"),
    }
    assert_eq!(read_token_answer(true, "200 OK", "{\"access_token\":\"tok\"}").unwrap(), "tok");
}

#[test]
fn error_messages() {
    assert_eq!(KickError::NoPkceVerifier.message(), "No PKCE verifier found");
    let e = KickError::TokenExchangeFailed { status: "500".to_string(), body: "x".to_string() };
    assert_eq!(e.message(), "Token exchange failed: 500 - x");
    let e = KickError::SendFailed { status: "401".to_string(), body: "no".to_string() };
    assert_eq!(e.message(), "Send failed (401): no");
    assert_eq!(KickError::ChannelUnresolved.message(), "Could not resolve channel ID for sending");
    assert_eq!(KickError::NoAccessToken("{}".to_string()).message(), "No access_token in response: {}");
}

#[test]
fn channel_lookup_fallbacks() {
    assert_eq!(get_channel_info_v2(true, "200 OK", "{\"chatroom\":{\"id\":7},\"userid\":3,\"id\":9}").unwrap(), (7, 3));
    assert_eq!(get_channel_info_v2(true, "200 OK", "{\"chatroom\":{\"id\":7},\"user_id\":4,\"id\":9}").unwrap(), (7, 4));
    assert_eq!(get_channel_info_v2(true, "200 OK", "{\"chatroom\":{\"id\":7},\"id\":9}").unwrap(), (7, 9));
    assert!(matches!(get_channel_info_v2(true, "200 OK", "{\"id\":9}"), Err(KickError::NoChatroomId)));
    assert!(matches!(get_channel_info_v2(true, "200 OK", "{\"chatroom\":{\"id\":7}}"), Err(KickError::NoUserId)));
    assert!(matches!(get_channel_info_v2(true, "200 OK", "<html>"), Err(KickError::InvalidResponse)));
    match get_channel_info_v2(false, "404 Not Found", "{}") {
        Err(e) => assert_eq!(e.message(), "API Request failed: 404 Not Found"),
        Ok(_) => panic!("a failed lookup has no ids"),
    }
}

#[test]
fn subscribe_frame_names_the_chatroom() {
    assert_eq!(
        kick_subscribe_frame(668),
        "{\"event\":\"pusher:subscribe\",\"data\":{\"auth\":\"\",\"channel\":\"chatrooms.668.v2\"}}"
    );
    assert!(kick_socket_url().starts_with("wss://ws-us2.pusher.com/app/"));
}

#[test]
fn slug_is_trimmed_and_lowercased() {
    assert_eq!(kick_slug("  SomeOne "), "someone");
}

#[test]
fn send_resolves_once_then_uses_cache() {
    let mut st = KickState::new();
    assert_eq!(st.send_target("streamer"), SendTarget::Lookup);
    let id = st.resolve_for_send("streamer".to_string(), Ok((10, 77))).unwrap();
    assert_eq!(id, 77);
    assert_eq!(st.send_target("streamer"), SendTarget::Cached(77));
    assert_eq!(st.send_target("other"), SendTarget::Lookup);
}

#[test]
fn failed_lookup_caches_nothing() {
    let mut st = KickState::new();
    let r = st.resolve_for_send("x".to_string(), Err(KickError::NoUserId));
    assert!(matches!(r, Err(KickError::ChannelUnresolved)));
    assert_eq!(st.send_target("x"), SendTarget::Lookup);
    st.record_broadcaster("x".to_string(), 5);
    assert_eq!(st.send_target("x"), SendTarget::Cached(5));
}

#[test]
fn send_outcomes() {
    assert!(send_outcome(true, "200 OK", "").is_ok());
    assert!(matches!(send_outcome(false, "401 Unauthorized", "no"), Err(KickError::SendFailed { .. })));
}

#[test]
fn exchange_needs_and_consumes_a_verifier() {
    let mut p = PkceState::new();
    assert!(matches!(exchange_kick_code(&mut p, "abc"), Err(KickError::NoPkceVerifier)));
    let _url = p.start_kick_oauth();
    let first = exchange_kick_code(&mut p, "abc").expect("a pending verifier");
    let body: serde_json::Value = serde_json::from_str(&first).unwrap();
    assert_eq!(body["code"], "abc");
    let v = body["code_verifier"].as_str().unwrap().to_string();
    assert_eq!(v.len(), 32);
    assert_eq!(first, kick_exchange_body("abc", &v));
    assert!(matches!(exchange_kick_code(&mut p, "abc"), Err(KickError::NoPkceVerifier)));
}
