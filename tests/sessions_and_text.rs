use heychat::links::{parse_deep_link, start_twitch_oauth, start_youtube_oauth, DeepLink};
use heychat::session::ChannelTable;
use heychat::text::{decimal_string, hex_color_string, parse_u64_str, trim};

#[test]
fn leave_without_session_signals_nothing() {
    let mut t: ChannelTable<u32> = ChannelTable::new();
    assert_eq!(t.take("nobody"), None);
    assert_eq!(t.get("nobody"), None);
}

#[test]
fn join_twice_hands_back_the_old_handle() {
    let mut t: ChannelTable<u32> = ChannelTable::new();
    assert_eq!(t.put("chan".to_string(), 1), None);
    assert_eq!(t.put("chan".to_string(), 2), Some(1));
    assert_eq!(t.put("other".to_string(), 3), None);
    assert_eq!(t.get("chan"), Some(&2));
    assert_eq!(t.take("chan"), Some(2));
    assert_eq!(t.take("chan"), None);
    assert_eq!(t.get("other"), Some(&3));
}

#[test]
fn number_parsing() {
    assert_eq!(parse_u64_str("1700000000000000"), Some(1700000000000000));
    assert_eq!(parse_u64_str("+7"), Some(7));
    assert_eq!(parse_u64_str("18446744073709551615"), Some(u64::MAX));
    assert_eq!(parse_u64_str("18446744073709551616"), None);
    assert_eq!(parse_u64_str(""), None);
    assert_eq!(parse_u64_str("+"), None);
    assert_eq!(parse_u64_str("-1"), None);
    assert_eq!(parse_u64_str("12a"), None);
    assert_eq!(decimal_string(0), "0");
    assert_eq!(decimal_string(1234567890), "1234567890");
    assert_eq!(hex_color_string(0, 171, 255), "#00ABFF");
}

#[test]
fn trimming_matches_std() {
    for s in ["  a b  ", "\u{3000}x\u{2028}", "", "   ", "\t\nq\r\n"] {
        assert_eq!(trim(s), s.trim());
    }
}

#[test]
fn deep_links() {
    match parse_deep_link("\"heychat://auth?access_token=abc123&scope=x\"") {
        DeepLink::AccessToken(t) => assert_eq!(t, "abc123"),
        _ => panic!("expected a token"),
    }
    match parse_deep_link("heychat://auth?code= 'xyz' ") {
        DeepLink::Code(c) => assert_eq!(c, "xyz"),
        _ => panic!("expected a code"),
    }
    assert!(matches!(parse_deep_link("heychat://other"), DeepLink::Ignored));
}

#[test]
fn authorize_pages() {
    assert!(start_twitch_oauth().starts_with("https://id.twitch.tv/oauth2/authorize?response_type=token"));
    assert!(start_youtube_oauth().contains("youtube.force-ssl"));
}
