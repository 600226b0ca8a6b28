use heychat::models::{ChatMessage, Emote};
use heychat::twitch::{ends_session, send_twitch_message, TwitchSendError};
use heychat::twitch::{
    decode_privmsg, decode_user_notice, stored_access_token, twitch_channel, twitch_event_outcome,
    twitch_login, Rgb, TwitchEvent, TwitchLogin, TwitchOutcome, TwitchPrivmsg, TwitchUserNotice,
};

fn line(text: &str, bits: Option<&str>, reward: Option<&str>) -> TwitchPrivmsg {
    TwitchPrivmsg {
        message_id: "m-1".to_string(),
        sender_name: "viewer".to_string(),
        message_text: text.to_string(),
        name_color: None,
        badges: vec![],
        emotes: vec![],
        bits: bits.map(|b| b.to_string()),
        custom_reward_id: reward.map(|r| r.to_string()),
    }
}

#[test]
fn channel_is_canonicalized_before_join() {
    assert_eq!(twitch_channel("#SomeStreamer "), "somestreamer");
    assert_eq!(twitch_channel("  ##Mixed"), "mixed");
    assert_eq!(twitch_channel("plain"), "plain");
}

#[test]
fn plain_line_is_chat() {
    let m = decode_privmsg(line("hello there", None, None), "2024-01-01T00:00:00Z");
    assert_eq!(m.msg_type, "chat");
    assert_eq!(m.system_message, None);
    assert_eq!(m.message, "hello there");
    assert_eq!(m.username, "viewer");
    assert_eq!(m.id, "m-1");
    assert_eq!(m.timestamp, "2024-01-01T00:00:00Z");
    assert_eq!(m.color, None);
    assert!(!m.is_mod && !m.is_vip && !m.is_member);
}

#[test]
fn cheer_is_system_event() {
    let m = decode_privmsg(line("cheer100 go", Some("100"), None), "t");
    assert_eq!(m.msg_type, "sub");
    assert_eq!(m.system_message, Some("Cheered 100 Bits!".to_string()));
}

#[test]
fn bits_take_precedence_over_reward() {
    let m = decode_privmsg(line("x", Some("5"), Some("abc")), "t");
    assert_eq!(m.system_message, Some("Cheered 5 Bits!".to_string()));
}

#[test]
fn reward_redemption_is_system_event() {
    let m = decode_privmsg(line("x", None, Some("abc-123")), "t");
    assert_eq!(m.msg_type, "sub");
    assert_eq!(m.system_message, Some("Redeemed a Channel Reward!".to_string()));
}

#[test]
fn color_and_badges() {
    let mut l = line("hi", None, None);
    l.name_color = Some(Rgb { r: 255, g: 0, b: 16 });
    l.badges = vec!["vip".to_string(), "moderator".to_string(), "subscriber".to_string()];
    let m = decode_privmsg(l, "t");
    assert_eq!(m.color, Some("#FF0010".to_string()));
    assert!(m.is_mod);
    assert!(m.is_vip);
    assert_eq!(m.badges, vec!["vip", "moderator", "subscriber"]);
}

#[test]
fn emotes_outside_body_are_dropped() {
    let mut l = line("Kappa ä", None, None);
    l.emotes = vec![
        Emote { id: "25".to_string(), code: "Kappa".to_string(), start: 0, end: 5 },
        Emote { id: "1".to_string(), code: "x".to_string(), start: 6, end: 8 },
        Emote { id: "2".to_string(), code: "y".to_string(), start: 4, end: 3 },
    ];
    let m: ChatMessage = decode_privmsg(l, "t");
    assert_eq!(m.emotes.len(), 1);
    assert_eq!(m.emotes[0].id, "25");
    for e in &m.emotes {
        assert!(e.start <= e.end && e.end <= m.message.chars().count());
    }
}

#[test]
fn user_notice_without_id_uses_fallback() {
    let n = TwitchUserNotice {
        id: None,
        sender_name: "subber".to_string(),
        message_text: None,
        system_message: "subber subscribed at Tier 1.".to_string(),
        emotes: vec![],
    };
    let m = decode_user_notice(n, "t", "2024-05-05T10:00:00+00:00");
    assert_eq!(m.id, "2024-05-05T10:00:00+00:00");
    assert_eq!(m.username, "subber");
    assert_eq!(m.message, "");
    assert_eq!(m.msg_type, "sub");
    assert_eq!(m.color, Some("#9146FF".to_string()));
    assert_eq!(m.system_message, Some("subber subscribed at Tier 1.".to_string()));
}

#[test]
fn user_notice_with_id_keeps_it() {
    let n = TwitchUserNotice {
        id: Some("abc".to_string()),
        sender_name: "raider".to_string(),
        message_text: Some("hey".to_string()),
        system_message: "5 raiders".to_string(),
        emotes: vec![],
    };
    let m = decode_user_notice(n, "t", "fallback");
    assert_eq!(m.id, "abc");
    assert_eq!(m.message, "hey");
}

#[test]
fn auth_failure_is_an_error_not_chat() {
    let r = twitch_event_outcome(TwitchEvent::Notice("Login authentication failed".to_string()), "t", "f");
    match r {
        TwitchOutcome::AuthFailed(s) => {
            assert_eq!(s, "Login authentication failed. Please check your token.")
        }
        _ => panic!("expected an authentication failure"),
    }
    let other = twitch_event_outcome(TwitchEvent::Notice("Slow mode".to_string()), "t", "f");
    assert!(matches!(other, TwitchOutcome::Nothing));
}

#[test]
fn user_state_and_room_state() {
    let r = twitch_event_outcome(TwitchEvent::UserState(vec!["broadcaster".to_string()]), "t", "f");
    assert!(matches!(r, TwitchOutcome::CurrentUserState { is_mod: true, .. }));
    let r = twitch_event_outcome(TwitchEvent::UserState(vec!["subscriber".to_string()]), "t", "f");
    assert!(matches!(r, TwitchOutcome::CurrentUserState { is_mod: false, .. }));
    let r = twitch_event_outcome(TwitchEvent::GlobalUserState(vec!["moderator".to_string()]), "t", "f");
    assert!(matches!(r, TwitchOutcome::Nothing));
    match twitch_event_outcome(TwitchEvent::RoomState(Some("12345".to_string())), "t", "f") {
        TwitchOutcome::Connected(id) => assert_eq!(id, "12345"),
        _ => panic!("expected the room id"),
    }
    assert!(matches!(twitch_event_outcome(TwitchEvent::RoomState(None), "t", "f"), TwitchOutcome::Nothing));
    assert!(matches!(twitch_event_outcome(TwitchEvent::Other, "t", "f"), TwitchOutcome::Nothing));
}

#[test]
fn privmsg_event_becomes_chat() {
    match twitch_event_outcome(TwitchEvent::Privmsg(line("yo", None, None)), "t", "f") {
        TwitchOutcome::Chat(m) => assert_eq!(m.message, "yo"),
        _ => panic!("expected chat"),
    }
}

#[test]
fn login_modes() {
    match twitch_login(Some("me".to_string()), Some("oauth:oauth:abc".to_string())) {
        TwitchLogin::Authenticated { username, token } => {
            assert_eq!(username, "me");
            assert_eq!(token, "abc");
        }
        _ => panic!("expected an authenticated login"),
    }
    assert!(matches!(twitch_login(None, Some("abc".to_string())), TwitchLogin::Anonymous));
    assert!(matches!(twitch_login(Some("me".to_string()), None), TwitchLogin::Anonymous));
    assert!(matches!(twitch_login(None, None), TwitchLogin::Anonymous));
}

#[test]
fn stored_token_drops_every_prefix() {
    assert_eq!(stored_access_token("oauth:abc"), "abc");
    assert_eq!(stored_access_token("xoauth:y"), "xy");
    assert_eq!(stored_access_token("plain"), "plain");
}

#[test]
fn sending_needs_an_authenticated_session() {
    assert_eq!(send_twitch_message(false, true, "#Chan"), Err(TwitchSendError::NotConnected));
    assert_eq!(send_twitch_message(true, false, "#Chan"), Err(TwitchSendError::NotAuthenticated));
    assert_eq!(send_twitch_message(true, true, " #Chan"), Ok("chan".to_string()));
}

#[test]
fn failed_login_ends_the_session() {
    let r = twitch_event_outcome(TwitchEvent::Notice("Login authentication failed".to_string()), "t", "f");
    assert!(ends_session(&r));
    let r = twitch_event_outcome(TwitchEvent::Privmsg(line("x", None, None)), "t", "f");
    assert!(!ends_session(&r));
    assert!(!ends_session(&TwitchOutcome::Nothing));
}
