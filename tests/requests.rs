use heychat::json::titles_array;
use heychat::kick::{kick_chat_body, kick_exchange_body};
use heychat::models::TwitchEmote;
use heychat::twitch_api::{
    client_id_of, first_helix_user, subage_url, twitch_ban_body, twitch_get_user_emotes,
    twitch_poll_body, twitch_prediction_body, twitch_user_card, users_by_login_url, HelixUser,
    TwitchApiError,
};
use heychat::youtube::{YouTubeBootstrap, YouTubePoll};
use heychat::youtube_send::chat_post_body;

fn emote(id: &str, owner: Option<&str>, kind: Option<&str>) -> TwitchEmote {
    TwitchEmote {
        id: id.to_string(),
        name: format!("name-{}", id),
        emote_type: kind.map(|k| k.to_string()),
        emote_set_id: None,
        owner_id: owner.map(|o| o.to_string()),
        format: vec!["static".to_string()],
        scale: vec!["1.0".to_string()],
        theme_mode: vec!["dark".to_string()],
        category: None,
        locked: false,
    }
}

#[test]
fn bodies_escape_their_strings() {
    let b = kick_chat_body(42, "say \"hi\"");
    let v: serde_json::Value = serde_json::from_str(&b).unwrap();
    assert_eq!(v["broadcaster_user_id"], 42);
    assert_eq!(v["content"], "say \"hi\"");
    assert_eq!(v["type"], "user");
    let e: serde_json::Value = serde_json::from_str(&kick_exchange_body("c\\1", "ver")).unwrap();
    assert_eq!(e["code"], "c\\1");
    assert_eq!(e["code_verifier"], "ver");
    assert_eq!(e["redirect_uri"], "https://heychatapp.com/auth");
    let p: serde_json::Value = serde_json::from_str(&chat_post_body("CID", "hello\n")).unwrap();
    assert_eq!(p["snippet"]["liveChatId"], "CID");
    assert_eq!(p["snippet"]["textMessageDetails"]["messageText"], "hello\n");
    assert_eq!(p["snippet"]["type"], "textMessageEvent");
    let poll = YouTubePoll::new(YouTubeBootstrap { api_key: "K".to_string(), continuation: "C%3D".to_string() }, 0);
    let q: serde_json::Value = serde_json::from_str(&poll.poll_body()).unwrap();
    assert_eq!(q["continuation"], "C%3D");
    assert_eq!(q["context"]["client"]["clientName"], "WEB");
}

#[test]
fn twitch_request_bodies() {
    let ban: serde_json::Value = serde_json::from_str(&twitch_ban_body("u1", "spam", Some(600))).unwrap();
    assert_eq!(ban["data"]["duration"], 600);
    assert_eq!(ban["data"]["user_id"], "u1");
    assert_eq!(twitch_ban_body("u1", "r", None), "{\"data\":{\"reason\":\"r\",\"user_id\":\"u1\"}}");
    let choices = vec!["Yes".to_string(), "No".to_string()];
    let poll: serde_json::Value = serde_json::from_str(&twitch_poll_body("b", "Q?", &choices, 60)).unwrap();
    assert_eq!(poll["choices"][1]["title"], "No");
    assert_eq!(poll["duration"], 60);
    let pred: serde_json::Value = serde_json::from_str(&twitch_prediction_body("b", "T", &choices, 120)).unwrap();
    assert_eq!(pred["outcomes"][0]["title"], "Yes");
    assert_eq!(pred["prediction_window"], 120);
    assert_eq!(titles_array(&vec![]), "[]");
}

#[test]
fn helix_answers() {
    assert_eq!(client_id_of("{\"client_id\":\"abc\",\"user_id\":\"1\"}").unwrap(), "abc");
    assert!(matches!(client_id_of("{}"), Err(TwitchApiError::NoClientId)));
    let u = first_helix_user("{\"data\":[{\"id\":\"9\",\"login\":\"bob\",\"display_name\":\"Bob\",\"profile_image_url\":\"p\"}]}").unwrap();
    assert_eq!((u.id.as_str(), u.login.as_str(), u.display_name.as_str()), ("9", "bob", "Bob"));
    assert_eq!(u.profile_image_url, Some("p".to_string()));
    assert_eq!(u.created_at, None);
    assert!(first_helix_user("{\"data\":[]}").is_none());
    assert_eq!(users_by_login_url("bob"), "https://api.twitch.tv/helix/users?login=bob");
    assert_eq!(subage_url("bob", "chan"), "https://api.ivr.fi/v2/twitch/subage/bob/chan");
    assert_eq!(TwitchApiError::NoToken.message(), "No Twitch token found");
}

#[test]
fn user_card() {
    let u = HelixUser {
        id: "1".to_string(),
        login: "bob".to_string(),
        display_name: "Bob".to_string(),
        profile_image_url: None,
        created_at: Some("2020".to_string()),
    };
    let c = twitch_user_card(&u, Some("{\"followedAt\":\"2021\",\"cumulative\":{\"months\":14},\"meta\":{\"tier\":\"1000\"}}".to_string()));
    assert_eq!(c.display_name, "Bob");
    assert_eq!(c.created_at, Some("2020".to_string()));
    assert_eq!(c.followed_at, Some("2021".to_string()));
    assert!(c.is_subscribed);
    assert_eq!(c.subscription_tier, Some("1000".to_string()));
    assert_eq!(c.months_subscribed, Some(14));
    let c = twitch_user_card(&u, None);
    assert!(!c.is_subscribed && c.followed_at.is_none() && c.months_subscribed.is_none());
}

#[test]
fn emote_listings_merge() {
    let user = vec![emote("a", Some("other"), None), emote("b", Some("b1"), None)];
    let global = vec![emote("g", None, Some("global")), emote("a", None, None)];
    let channel = vec![emote("b", Some("b1"), None), emote("c", Some("b1"), None)];
    let r = twitch_get_user_emotes(Some(user), Some(global), Some(channel), "b1");
    let ids: Vec<&str> = r.iter().map(|e| e.id.as_str()).collect();
    assert_eq!(ids, vec!["a", "b", "g", "c"]);
    assert_eq!(r[0].category.as_deref(), Some("User"));
    assert!(!r[0].locked);
    assert_eq!(r[1].category.as_deref(), Some("Channel"));
    assert!(!r[1].locked);
    assert_eq!(r[2].category.as_deref(), Some("Global"));
    assert_eq!(r[3].category.as_deref(), Some("Channel"));
    assert!(r[3].locked);
    assert_eq!(r[3].name, "name-c");
    let none = twitch_get_user_emotes(None, None, Some(vec![emote("x", None, None)]), "b1");
    assert_eq!(none.len(), 1);
    assert!(none[0].locked);
}

#[test]
fn quoting_and_percent_encoding_are_exact() {
    assert_eq!(
        kick_chat_body(1, "a\u{1}\"\\\n"),
        "{\"broadcaster_user_id\":1,\"content\":\"a\\u0001\\\"\\\\\\n\",\"type\":\"user\"}"
    );
    assert_eq!(
        heychat::youtube_send::chat_messages_url("é~x"),
        "https://www.googleapis.com/youtube/v3/liveChatMessages?liveChatId=%C3%A9~x&part=snippet"
    );
}
