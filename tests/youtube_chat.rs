use heychat::youtube::{resolve_handle, HandleStep};
use heychat::youtube::{
    resolve_video_id, video_id_from_final_url, video_id_from_page, video_id_in_link_of,
    watch_url, youtube_bootstrap, youtube_candidate_of, youtube_target_of, PollNext,
    PollResponse, YouTubeBootstrap, YouTubePoll, YouTubeTarget,
};
use heychat::youtube_send::{
    chat_messages_url, check_channel_probe, check_token_scope, live_chat_id, post_outcome,
    tokeninfo_url, SendStep, YouTubeSendError,
};

const PAGE: &str = r#"{"continuationContents":{"liveChatContinuation":{"actions":[
{"addChatItemAction":{"item":{"liveChatTextMessageRenderer":{"id":"old","timestampUsec":"100","authorName":{"simpleText":"past"},"message":{"runs":[{"text":"old"}]}}}}},
{"addChatItemAction":{"item":{"liveChatTextMessageRenderer":{"id":"new","timestampUsec":"2000","authorName":{"simpleText":"bob"},"message":{"runs":[{"text":"hi "},{"emoji":{"emojiId":"UCx/abc","shortcuts":[":cat:"],"image":{"thumbnails":[{"url":"https://img/cat.png"}]}}},{"text":"!"}]},"authorBadges":[{"liveChatAuthorBadgeRenderer":{"tooltip":"Member (2 months)"}}]}}}},
{"markChatItemAsDeletedAction":{}},
{"addChatItemAction":{"item":{"liveChatTextMessageRenderer":{"id":"mod","timestampUsec":"3000","message":{"runs":[{"emoji":{"emojiId":"🙂","image":{"thumbnails":[]}}},{"text":"é"}]},"authorBadges":[{"liveChatAuthorBadgeRenderer":{"tooltip":"Moderator"}}]}}}}
],"continuations":[{"timedContinuationData":{"continuation":"NEXT","timeoutMs":1000}}]}}}"#;

fn poll() -> YouTubePoll {
    YouTubePoll::new(
        YouTubeBootstrap { api_key: "KEY".to_string(), continuation: "FIRST".to_string() },
        1000,
    )
}

#[test]
fn bare_name_becomes_handle_resolved_via_live() {
    let c = youtube_candidate_of("SomeChannelTV");
    assert_eq!(c, "@SomeChannelTV");
    match youtube_target_of(&c) {
        YouTubeTarget::Resolve(u) => assert_eq!(u, "https://www.youtube.com/@SomeChannelTV/live"),
        _ => panic!("a handle must be resolved"),
    }
}

#[test]
fn eleven_characters_read_as_a_video_id() {
    assert_eq!(youtube_candidate_of("SomeChannel"), "SomeChannel");
    assert!(matches!(youtube_target_of("SomeChannel"), YouTubeTarget::Video(_)));
    assert_eq!(youtube_candidate_of("@SomeChannel"), "@SomeChannel");
}

#[test]
fn handle_url_gets_live_suffix() {
    let c = youtube_candidate_of(" https://www.youtube.com/@Someone ");
    assert_eq!(c, "https://www.youtube.com/@Someone/live");
    match youtube_target_of(&c) {
        YouTubeTarget::Resolve(u) => assert_eq!(u, c),
        _ => panic!("a /live link must be resolved"),
    }
}

#[test]
fn video_ids_are_taken_as_they_are() {
    let c = youtube_candidate_of("dQw4w9WgXcQ");
    assert_eq!(c, "dQw4w9WgXcQ");
    match youtube_target_of(&c) {
        YouTubeTarget::Video(v) => assert_eq!(v, "dQw4w9WgXcQ"),
        _ => panic!("an id is used directly"),
    }
}

#[test]
fn watch_and_share_links() {
    match youtube_target_of("https://www.youtube.com/watch?v=abc123&t=10") {
        YouTubeTarget::Video(v) => assert_eq!(v, "abc123"),
        _ => panic!("a watch link carries the id"),
    }
    assert_eq!(video_id_in_link_of("https://youtu.be/xyz789?si=q"), "xyz789");
    assert_eq!(video_id_in_link_of("youtube.com"), "youtube.com");
}

#[test]
fn final_url_extraction() {
    assert_eq!(video_id_from_final_url("https://www.youtube.com/watch?v=ID1&pp=x"), "ID1");
    assert_eq!(video_id_from_final_url("https://www.youtube.com/live/ID2?feature=share"), "ID2");
    assert_eq!(video_id_from_final_url("https://www.youtube.com/@someone/streams"), "");
}

#[test]
fn page_extraction_and_fallbacks() {
    let html = r#"<link rel="canonical" href="https://www.youtube.com/watch?v=CANON"> "videoId":"OTHER""#;
    assert_eq!(video_id_from_page(html), Some("CANON".to_string()));
    assert_eq!(video_id_from_page(r#"x "videoId":"EMB" y"#), Some("EMB".to_string()));
    assert_eq!(video_id_from_page("nothing"), None);
    assert_eq!(resolve_video_id("U".to_string(), Some("P".to_string()), "F"), "U");
    assert_eq!(resolve_video_id(String::new(), Some("P".to_string()), "F"), "P");
    assert_eq!(resolve_video_id(String::new(), None, "@handle"), "@handle");
    assert_eq!(watch_url("abc"), "https://www.youtube.com/watch?v=abc");
}

#[test]
fn bootstrap_reads_chat_section_only() {
    let html = r#"{"INNERTUBE_API_KEY":"KEY123","continuation":"WRONG","liveChatRenderer":{"continuations":[{"reloadContinuationData":{"continuation":"RIGHT"}}]}}"#;
    let b = youtube_bootstrap(html).expect("tokens");
    assert_eq!(b.api_key, "KEY123");
    assert_eq!(b.continuation, "RIGHT");
    assert!(youtube_bootstrap(r#"{"INNERTUBE_API_KEY":"K","continuation":"C"}"#).is_none());
    assert!(youtube_bootstrap(r#"{"liveChatRenderer":{"continuation":"C"}}"#).is_none());
}

#[test]
fn page_drops_history_and_builds_spans() {
    let mut p = poll();
    let step = p.on_response(PollResponse::Body(PAGE.to_string()), "now");
    assert_eq!(step.next, PollNext::Wait(1));
    assert_eq!(p.continuation, "NEXT");
    assert_eq!(step.messages.len(), 2);
    let m = &step.messages[0];
    assert_eq!(m.id, "new");
    assert_eq!(m.username, "bob");
    assert_eq!(m.message, "hi :cat:!");
    assert!(m.is_member && !m.is_mod);
    assert_eq!(m.color, Some("#0f9d58".to_string()));
    assert_eq!(m.emotes.len(), 1);
    assert_eq!(m.emotes[0].id, "https://img/cat.png");
    assert_eq!(m.emotes[0].code, ":cat:");
    assert_eq!((m.emotes[0].start, m.emotes[0].end), (3, 8));
    let k = &step.messages[1];
    assert_eq!(k.username, "Unknown");
    assert_eq!(k.message, "🙂é");
    assert!(k.is_mod);
    assert_eq!(k.color, Some("#5e84f1".to_string()));
    assert!(k.emotes.is_empty());
    for m in &step.messages {
        for e in &m.emotes {
            assert!(e.start <= e.end && e.end <= m.message.chars().count());
        }
        assert!(m.id != "old");
    }
}

#[test]
fn poll_failures_and_end() {
    let mut p = poll();
    let s = p.on_response(PollResponse::RequestFailed, "t");
    assert_eq!(s.next, PollNext::Wait(6));
    assert!(s.messages.is_empty());
    let s = p.on_response(PollResponse::Body("<html>".to_string()), "t");
    assert_eq!(s.next, PollNext::Wait(1));
    assert_eq!(p.continuation, "FIRST");
    let s = p.on_response(PollResponse::Body("{\"continuationContents\":{}}".to_string()), "t");
    assert_eq!(s.next, PollNext::Stop);
    assert_eq!(p.poll_url(), "https://www.youtube.com/youtubei/v1/live_chat/get_live_chat?key=KEY");
}

#[test]
fn invalidation_continuation_preferred() {
    let mut p = poll();
    let body = r#"{"continuationContents":{"liveChatContinuation":{"continuations":[{"invalidationContinuationData":{"continuation":"INV"},"timedContinuationData":{"continuation":"TIM"}}]}}}"#;
    let s = p.on_response(PollResponse::Body(body.to_string()), "t");
    assert_eq!(s.next, PollNext::Wait(1));
    assert_eq!(p.continuation, "INV");
}

#[test]
fn send_checks_are_distinct() {
    assert!(matches!(check_token_scope(true, r#"{"scope":"openid email"}"#), Err(YouTubeSendError::MissingScope)));
    assert!(check_token_scope(true, r#"{"scope":"https://www.googleapis.com/auth/youtube.force-ssl"}"#).is_ok());
    assert!(check_token_scope(false, "").is_ok());
    assert!(matches!(check_channel_probe(false, 403, "403 Forbidden", "x"), Err(YouTubeSendError::DataApiDisabled)));
    assert!(matches!(check_channel_probe(false, 500, "500", "x"), Err(YouTubeSendError::ProbeFailed { .. })));
    assert!(matches!(check_channel_probe(true, 200, "200", r#"{"items":[]}"#), Err(YouTubeSendError::NoChannel)));
    assert!(check_channel_probe(true, 200, "200", r#"{"items":[{"id":"UC1"}]}"#).is_ok());
    assert!(matches!(live_chat_id(false, "nope"), Err(YouTubeSendError::VideoLookupFailed(_))));
    assert!(matches!(live_chat_id(true, r#"{"items":[]}"#), Err(YouTubeSendError::VideoNotFound)));
    assert!(matches!(live_chat_id(true, "{}"), Err(YouTubeSendError::InvalidVideoResponse)));
    assert!(matches!(
        live_chat_id(true, r#"{"items":[{"liveStreamingDetails":{"actualEndTime":"2024","activeLiveChatId":"C"}}]}"#),
        Err(YouTubeSendError::StreamEnded)
    ));
    assert!(matches!(live_chat_id(true, r#"{"items":[{}]}"#), Err(YouTubeSendError::NoActiveChat)));
    assert_eq!(
        live_chat_id(true, r#"{"items":[{"liveStreamingDetails":{"activeLiveChatId":"Cg0KC3"}}]}"#).unwrap(),
        "Cg0KC3"
    );
    assert!(post_outcome(true, "200", "").is_ok());
    assert!(matches!(post_outcome(false, "400", "b"), Err(YouTubeSendError::PostFailed { .. })));
    assert_eq!(YouTubeSendError::VideoNotFound.message(), "No video found with that ID");
}

#[test]
fn urls() {
    assert_eq!(
        chat_messages_url("a b/c"),
        "https://www.googleapis.com/youtube/v3/liveChatMessages?liveChatId=a%20b%2Fc&part=snippet"
    );
    assert_eq!(tokeninfo_url("T"), "https://www.googleapis.com/oauth2/v3/tokeninfo?access_token=T");
}

#[test]
fn handle_resolution_steps() {
    assert!(matches!(resolve_handle("https://www.youtube.com/watch?v=LIVE1", None, "@h"), HandleStep::Found(ref v) if v == "LIVE1"));
    assert!(matches!(resolve_handle("https://www.youtube.com/@h/streams", None, "@h"), HandleStep::NeedPage));
    let page = r#"<link rel="canonical" href="https://www.youtube.com/watch?v=FROMPAGE">"#;
    assert!(matches!(resolve_handle("https://www.youtube.com/@h/streams", Some(page), "@h"), HandleStep::Found(ref v) if v == "FROMPAGE"));
    assert!(matches!(resolve_handle("https://www.youtube.com/@h/streams", Some("offline"), "@h"), HandleStep::Found(ref v) if v == "@h"));
}

#[test]
fn timed_continuation_used_when_invalidation_is_not_text() {
    let mut p = poll();
    let body = r#"{"continuationContents":{"liveChatContinuation":{"continuations":[{"invalidationContinuationData":{"continuation":7},"timedContinuationData":{"continuation":"TIM"}}]}}}"#;
    let s = p.on_response(PollResponse::Body(body.to_string()), "t");
    assert_eq!(s.next, PollNext::Wait(1));
    assert_eq!(p.continuation, "TIM");
}

#[test]
fn network_failures_name_their_step() {
    let e = YouTubeSendError::Network { step: SendStep::ChannelProbe, detail: "timeout".to_string() };
    assert_eq!(e.message(), "Probe failed: timeout");
    let e = YouTubeSendError::Network { step: SendStep::VideoLookup, detail: "dns".to_string() };
    assert_eq!(e.message(), "Network error fetching video: dns");
}
