//! YouTube: turning what the user typed into a video id, reading the watch
//! page's bootstrap tokens, and decoding the live-chat polling protocol.
//!
//! Inline-element offsets count code points of the message body, and the end
//! offset is exclusive, as for the other platforms.

use vstd::prelude::*;
use crate::json::{indexed, indexed_ptr, json_quote, json_quoted, json_has, json_str_at, json_valid, len_or_zero_spec, str_or_spec, JsonDoc};
use crate::models::{chat_kind, opt_view, spans_fit, spans_view, spans_within, strings_view, ChatMessage, Emote, MessageView, Platform, SpanView};
use crate::text::{before_char, chars_of, concat2, concat3, find, find_str, includes, contains_str, last_below, parse_u64, parse_u64_str, push_str, rfind_char, starts_with_char, string_of, take_until, trim_chars, trimmed};

verus! {

pub const CHANNEL_PREFIX: &'static str = "https://www.youtube.com/";

pub const WATCH_PREFIX: &'static str = "https://www.youtube.com/watch?v=";

pub const LIVE_CHAT_ENDPOINT: &'static str = "https://www.youtube.com/youtubei/v1/live_chat/get_live_chat?key=";

pub const CANONICAL_PATTERN: &'static str = "link rel=\"canonical\" href=\"https://www.youtube.com/watch\\?v=([^\"]+)\"";

pub const VIDEO_ID_PATTERN: &'static str = "\"videoId\":\"([^\"]+)\"";

pub const API_KEY_PATTERN: &'static str = "\"INNERTUBE_API_KEY\":\"([^\"]+)\"";

pub const CONTINUATION_PATTERN: &'static str = "\"continuation\":\"([^\"]+)\"";

/// The section of the watch page that configures live chat.
pub const CHAT_SECTION: &'static str = "liveChatRenderer";

pub const ACTIONS_PTR: &'static str = "/continuationContents/liveChatContinuation/actions/";

pub const ACTIONS_ARRAY: &'static str = "/continuationContents/liveChatContinuation/actions";

pub const ITEM_TAIL: &'static str = "/addChatItemAction/item/liveChatTextMessageRenderer";

pub const INVALIDATION_PTR: &'static str = "/continuationContents/liveChatContinuation/continuations/0/invalidationContinuationData/continuation";

pub const TIMED_PTR: &'static str = "/continuationContents/liveChatContinuation/continuations/0/timedContinuationData/continuation";

/// Display colour of moderators.
pub const MOD_COLOR: &'static str = "#5e84f1";

/// Display colour of members.
pub const MEMBER_COLOR: &'static str = "#0f9d58";

/// Seconds between polls.
pub const POLL_INTERVAL_SECS: u64 = 1;

/// Extra seconds to wait after a failed request.
pub const BACKOFF_SECS: u64 = 5;

/// What the user typed, normalised: a handle URL gets `/live`; a bare name
/// longer than a video id (in code points) becomes a handle.
pub open spec fn youtube_candidate(input: Seq<char>) -> Seq<char> {
    let c = trimmed(input);
    if includes(c, "youtube.com/@"@) && !includes(c, "/live"@) {
        c + "/live"@
    } else if !includes(c, "youtube.com"@) && !includes(c, "youtu.be"@) && !starts_with_char(c, '@')
        && c.len() > 11 {
        "@"@ + c
    } else {
        c
    }
}

pub fn youtube_candidate_of(input: &str) -> (r: String)
    ensures
        r@ == youtube_candidate(input@),
{
    let cv = trim_chars(input);
    let c = string_of(&cv);
    if contains_str(&cv, "youtube.com/@") && !contains_str(&cv, "/live") {
        concat2(c.as_str(), "/live")
    } else if !contains_str(&cv, "youtube.com") && !contains_str(&cv, "youtu.be") && !(cv.len()
        > 0 && cv[0] == '@') && cv.len() > 11 {
        concat2("@", c.as_str())
    } else {
        c
    }
}

/// The video id in a watch or share link: after `v=` up to `&`, else after the
/// last `/` up to `?`, else the whole link.
pub open spec fn video_id_in_link(c: Seq<char>) -> Seq<char> {
    match find(c, "v="@) {
        Some(p) => before_char(c, p + 2, '&'),
        None => match last_below(c, '/', c.len() as int) {
            Some(p) => before_char(c, p + 1, '?'),
            None => c,
        },
    }
}

pub fn video_id_in_link_of(c: &str) -> (r: String)
    ensures
        r@ == video_id_in_link(c@),
{
    let cv = chars_of(c);
    let _cl = cv.len();
    proof {
        reveal_strlit("v=");
    }
    match find_str(&cv, "v=") {
        Some(p) => {
            let v = take_until(&cv, p + 2, '&');
            string_of(&v)
        },
        None => match rfind_char(&cv, '/') {
            Some(p) => {
                let v = take_until(&cv, p + 1, '?');
                string_of(&v)
            },
            None => String::from_str(c),
        },
    }
}

/// How a normalised input is turned into a video id.
#[derive(Clone, Debug)]
pub enum YouTubeTarget {
    /// Fetch this URL, follow redirects, and look for the live video there.
    Resolve(String),
    /// This is the video id.
    Video(String),
}

pub open spec fn youtube_target(c: Seq<char>) -> (Option<Seq<char>>, Seq<char>) {
    if starts_with_char(c, '@') {
        (Some(CHANNEL_PREFIX@ + c + "/live"@), c)
    } else if includes(c, "/live"@) {
        (Some(c), c)
    } else if includes(c, "youtube.com"@) || includes(c, "youtu.be"@) {
        (None, video_id_in_link(c))
    } else {
        (None, c)
    }
}

/// Handles and `/live` links are resolved by fetching; watch and share links
/// carry the id; anything else is taken as the id itself.
pub fn youtube_target_of(candidate: &str) -> (r: YouTubeTarget)
    ensures
        match r {
            YouTubeTarget::Resolve(u) => youtube_target(candidate@).0 == Some(u@),
            YouTubeTarget::Video(v) => youtube_target(candidate@).0 is None
                && youtube_target(candidate@).1 == v@,
        },
{
    let cv = chars_of(candidate);
    if cv.len() > 0 && cv[0] == '@' {
        YouTubeTarget::Resolve(concat3(CHANNEL_PREFIX, candidate, "/live"))
    } else if contains_str(&cv, "/live") {
        YouTubeTarget::Resolve(String::from_str(candidate))
    } else if contains_str(&cv, "youtube.com") || contains_str(&cv, "youtu.be") {
        YouTubeTarget::Video(video_id_in_link_of(candidate))
    } else {
        YouTubeTarget::Video(String::from_str(candidate))
    }
}

/// The video id in the URL a handle redirected to: after `v=` up to `&`, else
/// after `/live/` up to `?`; empty when neither is there.
pub open spec fn video_id_in_final_url(u: Seq<char>) -> Seq<char> {
    match find(u, "v="@) {
        Some(p) => before_char(u, p + 2, '&'),
        None => match find(u, "/live/"@) {
            Some(p) => before_char(u, p + 6, '?'),
            None => Seq::empty(),
        },
    }
}

pub fn video_id_from_final_url(u: &str) -> (r: String)
    ensures
        r@ == video_id_in_final_url(u@),
{
    let uv = chars_of(u);
    let _ul = uv.len();
    proof {
        reveal_strlit("v=");
        reveal_strlit("/live/");
    }
    match find_str(&uv, "v=") {
        Some(p) => {
            let v = take_until(&uv, p + 2, '&');
            string_of(&v)
        },
        None => match find_str(&uv, "/live/") {
            Some(p) => {
                let v = take_until(&uv, p + 6, '?');
                string_of(&v)
            },
            None => {
                let e: Vec<char> = Vec::new();
                string_of(&e)
            },
        },
    }
}

/// Capture group 1 of the leftmost match of `pattern` in `text`.
pub uninterp spec fn regex_group1(pattern: Seq<char>, text: Seq<char>) -> Option<Seq<char>>;

/// Relies on regex's `Regex::captures`: group 1 of the leftmost match (empty
/// if the group took no part), or nothing when there is no match or the
/// pattern does not compile.
#[verifier::external_body]
fn first_capture(pattern: &str, text: &str) -> (r: Option<String>)
    ensures
        opt_view(r) == regex_group1(pattern@, text@),
{
    let re = regex::Regex::new(pattern).ok()?;
    let caps = re.captures(text)?;
    Some(caps.get(1).map_or("", |m| m.as_str()).to_string())
}

/// The video id a fetched page names: its canonical watch link, else the first
/// embedded `videoId`.
pub open spec fn video_id_in_page(html: Seq<char>) -> Option<Seq<char>> {
    if regex_group1(CANONICAL_PATTERN@, html) is Some {
        regex_group1(CANONICAL_PATTERN@, html)
    } else {
        regex_group1(VIDEO_ID_PATTERN@, html)
    }
}

pub fn video_id_from_page(html: &str) -> (r: Option<String>)
    ensures
        opt_view(r) == video_id_in_page(html@),
{
    match first_capture(CANONICAL_PATTERN, html) {
        Some(id) => Some(id),
        None => first_capture(VIDEO_ID_PATTERN, html),
    }
}

/// The id a handle resolves to: the one in the final URL, else the one in the
/// page, else (best effort) the input itself.
pub open spec fn resolved_video_id(from_url: Seq<char>, from_page: Option<Seq<char>>, fallback: Seq<
    char,
>) -> Seq<char> {
    if from_url.len() > 0 {
        from_url
    } else {
        match from_page {
            Some(p) => if p.len() > 0 {
                p
            } else {
                fallback
            },
            None => fallback,
        }
    }
}

pub fn resolve_video_id(from_url: String, from_page: Option<String>, fallback: &str) -> (r: String)
    ensures
        r@ == resolved_video_id(from_url@, opt_view(from_page), fallback@),
{
    if !from_url.as_str().is_empty() {
        from_url
    } else {
        match from_page {
            Some(p) => if !p.as_str().is_empty() {
                p
            } else {
                String::from_str(fallback)
            },
            None => String::from_str(fallback),
        }
    }
}

pub fn watch_url(video_id: &str) -> (r: String)
    ensures
        r@ == WATCH_PREFIX@ + video_id@,
{
    concat2(WATCH_PREFIX, video_id)
}

/// The tokens that start a chat poll.
#[derive(Clone, Debug)]
pub struct YouTubeBootstrap {
    pub api_key: String,
    pub continuation: String,
}

/// The page's API key, and the first continuation inside its live-chat section.
pub open spec fn bootstrap_of(html: Seq<char>) -> Option<(Seq<char>, Seq<char>)> {
    match regex_group1(API_KEY_PATTERN@, html) {
        None => None,
        Some(key) => match find(html, CHAT_SECTION@) {
            None => None,
            Some(pos) => match regex_group1(
                CONTINUATION_PATTERN@,
                html.subrange(pos, html.len() as int),
            ) {
                None => None,
                Some(cont) => Some((key, cont)),
            },
        },
    }
}

/// Reads the bootstrap tokens off a watch page; none means the stream is not
/// live or has no chat.
pub fn youtube_bootstrap(html: &str) -> (r: Option<YouTubeBootstrap>)
    ensures
        match r {
            Some(b) => bootstrap_of(html@) == Some((b.api_key@, b.continuation@)),
            None => bootstrap_of(html@) is None,
        },
{
    let key = match first_capture(API_KEY_PATTERN, html) {
        Some(k) => k,
        None => return None,
    };
    let hv = chars_of(html);
    let pos = match find_str(&hv, CHAT_SECTION) {
        Some(p) => p,
        None => return None,
    };
    proof {
        crate::text::lemma_find_bound(hv@, CHAT_SECTION@);
    }
    let section = html.substring_char(pos, hv.len());
    match first_capture(CONTINUATION_PATTERN, section) {
        Some(cont) => Some(YouTubeBootstrap { api_key: key, continuation: cont }),
        None => None,
    }
}


pub open spec fn run_at(item: Seq<char>, k: nat, tail: Seq<char>) -> Seq<char> {
    indexed(item + "/message/runs/"@, k, tail)
}

/// An emoji run's text: its first shortcut, else its emoji id, else empty.
pub open spec fn emoji_label(doc: Seq<char>, item: Seq<char>, k: nat) -> Seq<char> {
    let first = str_or_spec(doc, run_at(item, k, "/emoji/shortcuts/0"@), ""@);
    if first.len() > 0 {
        first
    } else {
        str_or_spec(doc, run_at(item, k, "/emoji/emojiId"@), ""@)
    }
}

pub open spec fn emoji_image(doc: Seq<char>, item: Seq<char>, k: nat) -> Seq<char> {
    str_or_spec(doc, run_at(item, k, "/emoji/image/thumbnails/0/url"@), ""@)
}

/// The body and inline elements built from the first `k` runs of an item:
/// text runs are appended; an emoji run appends its label and, when it has an
/// image, records the label's span.
pub open spec fn runs_fold(doc: Seq<char>, item: Seq<char>, k: nat) -> (Seq<char>, Seq<SpanView>)
    decreases k,
{
    if k == 0 {
        (Seq::empty(), Seq::empty())
    } else {
        let prev = runs_fold(doc, item, (k - 1) as nat);
        let j = (k - 1) as nat;
        match json_str_at(doc, run_at(item, j, "/text"@)) {
            Some(s) => (prev.0 + s, prev.1),
            None => if json_has(doc, run_at(item, j, "/emoji"@)) && emoji_label(doc, item, j).len()
                > 0 {
                let e = emoji_label(doc, item, j);
                let img = emoji_image(doc, item, j);
                let body = prev.0 + e;
                if img.len() > 0 {
                    (
                        body,
                        prev.1.push(
                            SpanView {
                                id: img,
                                code: e,
                                start: prev.0.len(),
                                end: body.len(),
                            },
                        ),
                    )
                } else {
                    (body, prev.1)
                }
            } else {
                prev
            },
        }
    }
}

pub open spec fn tooltip_at(item: Seq<char>, j: nat) -> Seq<char> {
    indexed(item + "/authorBadges/"@, j, "/liveChatAuthorBadgeRenderer/tooltip"@)
}

/// (moderator, member) from the tooltips of the first `k` author badges.
pub open spec fn badge_flags(doc: Seq<char>, item: Seq<char>, k: nat) -> (bool, bool)
    decreases k,
{
    if k == 0 {
        (false, false)
    } else {
        let prev = badge_flags(doc, item, (k - 1) as nat);
        match json_str_at(doc, tooltip_at(item, (k - 1) as nat)) {
            Some(t) => if includes(t, "Moderator"@) {
                (true, prev.1)
            } else if includes(t, "Member"@) {
                (prev.0, true)
            } else {
                prev
            },
            None => prev,
        }
    }
}

/// An item's `timestampUsec`, zero when missing or not a number.
pub open spec fn item_stamp(doc: Seq<char>, item: Seq<char>) -> u64 {
    match parse_u64(str_or_spec(doc, item + "/timestampUsec"@, "0"@)) {
        Some(v) => v,
        None => 0,
    }
}

pub open spec fn status_color(flags: (bool, bool)) -> Option<Seq<char>> {
    if flags.0 {
        Some(MOD_COLOR@)
    } else if flags.1 {
        Some(MEMBER_COLOR@)
    } else {
        None
    }
}

/// The message a text-message item at pointer `item` denotes, unless it is
/// missing or older than `start`.
pub open spec fn youtube_item(doc: Seq<char>, item: Seq<char>, start: u64, ts: Seq<char>) -> Option<
    MessageView,
> {
    if !json_has(doc, item) || item_stamp(doc, item) < start {
        None
    } else {
        let runs = runs_fold(doc, item, len_or_zero_spec(doc, item + "/message/runs"@));
        let flags = badge_flags(doc, item, len_or_zero_spec(doc, item + "/authorBadges"@));
        Some(
            MessageView {
                id: str_or_spec(doc, item + "/id"@, ""@),
                platform: Platform::YouTube,
                username: str_or_spec(doc, item + "/authorName/simpleText"@, "Unknown"@),
                message: runs.0,
                color: status_color(flags),
                badges: seq![],
                is_mod: flags.0,
                is_vip: false,
                is_member: flags.1,
                timestamp: ts,
                emotes: runs.1,
                msg_type: "chat"@,
                system_message: None,
            },
        )
    }
}

/// Inline elements built from runs always lie inside the body built with them.
pub proof fn lemma_runs_fit(doc: Seq<char>, item: Seq<char>, k: nat)
    ensures
        spans_within(runs_fold(doc, item, k).1, runs_fold(doc, item, k).0.len()),
    decreases k,
{
    if k > 0 {
        lemma_runs_fit(doc, item, (k - 1) as nat);
    }
}

fn run_ptr(item: &str, k: usize, tail: &str) -> (r: String)
    ensures
        r@ == run_at(item@, k as nat, tail@),
{
    let head = concat2(item, "/message/runs/");
    indexed_ptr(head.as_str(), k, tail)
}

fn emoji_label_of(doc: &JsonDoc, item: &str, k: usize) -> (r: String)
    ensures
        r@ == emoji_label(doc.source(), item@, k as nat),
{
    let p = run_ptr(item, k, "/emoji/shortcuts/0");
    let first = doc.str_or(p.as_str(), "");
    if !first.as_str().is_empty() {
        first
    } else {
        let q = run_ptr(item, k, "/emoji/emojiId");
        doc.str_or(q.as_str(), "")
    }
}

fn badge_flags_of(doc: &JsonDoc, item: &str) -> (r: (bool, bool))
    ensures
        r == badge_flags(doc.source(), item@, len_or_zero_spec(doc.source(), item@ + "/authorBadges"@)),
{
    let lp = concat2(item, "/authorBadges");
    let n = doc.len_or_zero(lp.as_str());
    let head = concat2(item, "/authorBadges/");
    let mut flags: (bool, bool) = (false, false);
    let mut j: usize = 0;
    while j < n
        invariant
            j <= n,
            head@ == item@ + "/authorBadges/"@,
            flags == badge_flags(doc.source(), item@, j as nat),
        decreases n - j,
    {
        let p = indexed_ptr(head.as_str(), j, "/liveChatAuthorBadgeRenderer/tooltip");
        match doc.str_at(p.as_str()) {
            Some(t) => {
                let tv = chars_of(t.as_str());
                if contains_str(&tv, "Moderator") {
                    flags = (true, flags.1);
                } else if contains_str(&tv, "Member") {
                    flags = (flags.0, true);
                }
            },
            None => {},
        }
        j = j + 1;
    }
    flags
}

/// Decodes the text-message item at pointer `item`; items stamped before
/// `start_usec` (replayed history) are dropped.
pub fn decode_chat_item(doc: &JsonDoc, item: &str, start_usec: u64, timestamp: &str) -> (r: Option<
    ChatMessage,
>)
    ensures
        match r {
            Some(m) => youtube_item(doc.source(), item@, start_usec, timestamp@) == Some(m@)
                && spans_fit(m@),
            None => youtube_item(doc.source(), item@, start_usec, timestamp@) is None,
        },
        item_stamp(doc.source(), item@) < start_usec ==> r is None,
{
    if !doc.has(item) {
        return None;
    }
    let sp = concat2(item, "/timestampUsec");
    let stamp_text = doc.str_or(sp.as_str(), "0");
    let stamp = match parse_u64_str(stamp_text.as_str()) {
        Some(v) => v,
        None => 0,
    };
    if stamp < start_usec {
        return None;
    }
    let rp = concat2(item, "/message/runs");
    let n = doc.len_or_zero(rp.as_str());
    let mut text: Vec<char> = Vec::new();
    let mut emotes: Vec<Emote> = Vec::new();
    let mut k: usize = 0;
    while k < n
        invariant
            k <= n,
            runs_fold(doc.source(), item@, k as nat) == (text@, spans_view(emotes@)),
        decreases n - k,
    {
        let tp = run_ptr(item, k, "/text");
        match doc.str_at(tp.as_str()) {
            Some(s) => {
                push_str(&mut text, s.as_str());
            },
            None => {
                let ep = run_ptr(item, k, "/emoji");
                if doc.has(ep.as_str()) {
                    let e = emoji_label_of(doc, item, k);
                    if !e.as_str().is_empty() {
                        let ip = run_ptr(item, k, "/emoji/image/thumbnails/0/url");
                        let img = doc.str_or(ip.as_str(), "");
                        let start = text.len();
                        push_str(&mut text, e.as_str());
                        if !img.as_str().is_empty() {
                            let ghost before = emotes@;
                            let end = text.len();
                            emotes.push(Emote { id: img, code: e, start, end });
                            assert(spans_view(emotes@) =~= spans_view(before).push(
                                emotes@.last()@,
                            ));
                        }
                    }
                }
            },
        }
        k = k + 1;
    }
    proof {
        lemma_runs_fit(doc.source(), item@, n as nat);
    }
    let flags = badge_flags_of(doc, item);
    let color = if flags.0 {
        Some(String::from_str(MOD_COLOR))
    } else if flags.1 {
        Some(String::from_str(MEMBER_COLOR))
    } else {
        None
    };
    let badges: Vec<String> = Vec::new();
    assert(strings_view(badges@) =~= seq![]);
    Some(
        ChatMessage {
            id: doc.str_or(concat2(item, "/id").as_str(), ""),
            platform: Platform::YouTube,
            username: doc.str_or(concat2(item, "/authorName/simpleText").as_str(), "Unknown"),
            message: string_of(&text),
            color,
            badges,
            is_mod: flags.0,
            is_vip: false,
            is_member: flags.1,
            timestamp: String::from_str(timestamp),
            emotes,
            msg_type: chat_kind(),
            system_message: None,
        },
    )
}


pub open spec fn chat_item_at(i: nat) -> Seq<char> {
    indexed(ACTIONS_PTR@, i, ITEM_TAIL@)
}

pub open spec fn actions_count(doc: Seq<char>) -> nat {
    len_or_zero_spec(doc, ACTIONS_ARRAY@)
}

/// The messages of the first `k` actions of a poll response, in order.
pub open spec fn page_messages(doc: Seq<char>, start: u64, ts: Seq<char>, k: nat) -> Seq<
    MessageView,
>
    decreases k,
{
    if k == 0 {
        seq![]
    } else {
        let prev = page_messages(doc, start, ts, (k - 1) as nat);
        match youtube_item(doc, chat_item_at((k - 1) as nat), start, ts) {
            Some(m) => prev.push(m),
            None => prev,
        }
    }
}

pub open spec fn messages_view(v: Seq<ChatMessage>) -> Seq<MessageView> {
    v.map_values(|m: ChatMessage| m@)
}

/// `m` is what some item among the first `k`, stamped at or after `start`, decodes to.
pub open spec fn from_fresh_item(doc: Seq<char>, start: u64, ts: Seq<char>, k: nat, m: MessageView) -> bool {
    exists|i: nat|
        i < k && item_stamp(doc, chat_item_at(i)) >= start && #[trigger] youtube_item(
            doc,
            chat_item_at(i),
            start,
            ts,
        ) == Some(m)
}

/// Every message of a poll response comes from an item stamped at or after
/// the session's start: replayed history is never emitted.
pub proof fn lemma_history_not_emitted(doc: Seq<char>, start: u64, ts: Seq<char>, k: nat)
    ensures
        forall|j: int|
            0 <= j < page_messages(doc, start, ts, k).len() ==> from_fresh_item(
                doc,
                start,
                ts,
                k,
                #[trigger] page_messages(doc, start, ts, k)[j],
            ),
    decreases k,
{
    if k > 0 {
        let k1 = (k - 1) as nat;
        lemma_history_not_emitted(doc, start, ts, k1);
        let prev = page_messages(doc, start, ts, k1);
        let cur = page_messages(doc, start, ts, k);
        assert forall|j: int| 0 <= j < cur.len() implies from_fresh_item(
            doc,
            start,
            ts,
            k,
            #[trigger] page_messages(doc, start, ts, k)[j],
        ) by {
            if j < prev.len() {
                assert(cur[j] == prev[j]);
                assert(from_fresh_item(doc, start, ts, k1, prev[j]));
                let i = choose|i: nat|
                    i < k1 && item_stamp(doc, chat_item_at(i)) >= start && #[trigger] youtube_item(
                        doc,
                        chat_item_at(i),
                        start,
                        ts,
                    ) == Some(prev[j]);
                assert(youtube_item(doc, chat_item_at(i), start, ts) == Some(cur[j]));
            } else {
                assert(youtube_item(doc, chat_item_at(k1), start, ts) == Some(cur[j]));
            }
        }
    }
}

/// Decodes every chat item of a poll response, dropping replayed history.
pub fn decode_chat_page(doc: &JsonDoc, start_usec: u64, timestamp: &str) -> (r: Vec<ChatMessage>)
    ensures
        messages_view(r@) == page_messages(
            doc.source(),
            start_usec,
            timestamp@,
            actions_count(doc.source()),
        ),
        forall|j: int| 0 <= j < r@.len() ==> spans_fit(#[trigger] r@[j]@),
{
    let n = doc.len_or_zero(ACTIONS_ARRAY);
    let mut out: Vec<ChatMessage> = Vec::new();
    let mut i: usize = 0;
    while i < n
        invariant
            i <= n,
            n as nat == actions_count(doc.source()),
            messages_view(out@) == page_messages(doc.source(), start_usec, timestamp@, i as nat),
            forall|j: int| 0 <= j < out@.len() ==> spans_fit(#[trigger] out@[j]@),
        decreases n - i,
    {
        let item = indexed_ptr(ACTIONS_PTR, i, ITEM_TAIL);
        let ghost before = out@;
        match decode_chat_item(doc, item.as_str(), start_usec, timestamp) {
            Some(m) => {
                out.push(m);
                assert(messages_view(out@) =~= messages_view(before).push(out@.last()@));
            },
            None => {},
        }
        i = i + 1;
    }
    out
}

/// The next continuation of a poll response: the invalidation one when there
/// is one, else the timed one.
pub open spec fn next_continuation(doc: Seq<char>) -> Option<Seq<char>> {
    if json_str_at(doc, INVALIDATION_PTR@) is Some {
        json_str_at(doc, INVALIDATION_PTR@)
    } else {
        json_str_at(doc, TIMED_PTR@)
    }
}

pub fn next_continuation_of(doc: &JsonDoc) -> (r: Option<String>)
    ensures
        opt_view(r) == next_continuation(doc.source()),
{
    match doc.str_at(INVALIDATION_PTR) {
        Some(c) => Some(c),
        None => doc.str_at(TIMED_PTR),
    }
}

/// What a poll request brought back.
#[derive(Clone, Debug)]
pub enum PollResponse {
    /// The request itself failed.
    RequestFailed,
    /// The response body.
    Body(String),
}

/// What the poll loop does next.
#[derive(Clone, Copy, Debug, PartialEq, Eq, Structural)]
pub enum PollNext {
    /// Poll again after this many seconds.
    Wait(u64),
    /// The stream ended or chat is off.
    Stop,
}

/// The messages to emit and what to do next.
#[derive(Clone, Debug)]
pub struct PollStep {
    pub messages: Vec<ChatMessage>,
    pub next: PollNext,
}

/// The state of a chat poll.
#[derive(Clone, Debug)]
pub struct YouTubePoll {
    pub api_key: String,
    pub continuation: String,
    /// Microseconds since the epoch when the session started.
    pub start_usec: u64,
}

impl YouTubePoll {
    pub fn new(bootstrap: YouTubeBootstrap, start_usec: u64) -> (r: YouTubePoll)
        ensures
            r.api_key == bootstrap.api_key,
            r.continuation == bootstrap.continuation,
            r.start_usec == start_usec,
    {
        YouTubePoll {
            api_key: bootstrap.api_key,
            continuation: bootstrap.continuation,
            start_usec,
        }
    }

    /// The endpoint to post the continuation to.
    pub fn poll_url(&self) -> (r: String)
        ensures
            r@ == LIVE_CHAT_ENDPOINT@ + self.api_key@,
    {
        concat2(LIVE_CHAT_ENDPOINT, self.api_key.as_str())
    }

    /// Takes in one poll response. A failed request backs off and retries; an
    /// unreadable body retries; a page yields its new messages and moves to the
    /// next continuation, or stops when there is none.
    pub fn on_response(&mut self, resp: PollResponse, timestamp: &str) -> (r: PollStep)
        ensures
            final(self).api_key == old(self).api_key,
            final(self).start_usec == old(self).start_usec,
            forall|j: int| 0 <= j < r.messages@.len() ==> spans_fit(#[trigger] r.messages@[j]@),
            match resp {
                PollResponse::RequestFailed => r.messages@.len() == 0 && r.next == PollNext::Wait(
                    (BACKOFF_SECS + POLL_INTERVAL_SECS) as u64,
                ) && final(self).continuation == old(self).continuation,
                PollResponse::Body(b) => if !json_valid(b@) {
                    r.messages@.len() == 0 && r.next == PollNext::Wait(POLL_INTERVAL_SECS)
                        && final(self).continuation == old(self).continuation
                } else {
                    messages_view(r.messages@) == page_messages(
                        b@,
                        old(self).start_usec,
                        timestamp@,
                        actions_count(b@),
                    ) && match next_continuation(b@) {
                        Some(c) => final(self).continuation@ == c && r.next == PollNext::Wait(
                            POLL_INTERVAL_SECS,
                        ),
                        None => r.next == PollNext::Stop && final(self).continuation == old(
                            self,
                        ).continuation,
                    }
                },
            },
    {
        match resp {
            PollResponse::RequestFailed => PollStep {
                messages: Vec::new(),
                next: PollNext::Wait(BACKOFF_SECS + POLL_INTERVAL_SECS),
            },
            PollResponse::Body(b) => match JsonDoc::parse(b.as_str()) {
                None => PollStep { messages: Vec::new(), next: PollNext::Wait(POLL_INTERVAL_SECS) },
                Some(doc) => {
                    let messages = decode_chat_page(&doc, self.start_usec, timestamp);
                    match next_continuation_of(&doc) {
                        Some(c) => {
                            self.continuation = c;
                            PollStep { messages, next: PollNext::Wait(POLL_INTERVAL_SECS) }
                        },
                        None => PollStep { messages, next: PollNext::Stop },
                    }
                },
            },
        }
    }
}


/// The poll request for a continuation.
pub open spec fn poll_body(continuation: Seq<char>) -> Seq<char> {
    "{\"context\":{\"client\":{\"clientName\":\"WEB\",\"clientVersion\":\"2.20230622.06.00\"}},\"continuation\":"@
        + json_quoted(continuation) + "}"@
}

impl YouTubePoll {
    /// The request that fetches the page after the current continuation.
    pub fn poll_body(&self) -> (r: String)
        ensures
            r@ == poll_body(self.continuation@),
    {
        let mut v = chars_of(
            "{\"context\":{\"client\":{\"clientName\":\"WEB\",\"clientVersion\":\"2.20230622.06.00\"}},\"continuation\":",
        );
        push_str(&mut v, json_quote(self.continuation.as_str()).as_str());
        push_str(&mut v, "}");
        string_of(&v)
    }
}


/// The next step in resolving a handle.
#[derive(Clone, Debug)]
pub enum HandleStep {
    /// The video id.
    Found(String),
    /// The redirect target names no video: its page must be read.
    NeedPage,
}

/// Resolves a handle from the URL its request ended at; the page is asked
/// for only when the URL names no video.
pub fn resolve_handle(final_url: &str, page: Option<&str>, fallback: &str) -> (r: HandleStep)
    ensures
        video_id_in_final_url(final_url@).len() > 0 ==> (r matches HandleStep::Found(v) && v@
            == video_id_in_final_url(final_url@)),
        video_id_in_final_url(final_url@).len() == 0 && page is None ==> r is NeedPage,
        video_id_in_final_url(final_url@).len() == 0 && page is Some ==> (r matches HandleStep::Found(
            v,
        ) && v@ == resolved_video_id(
            video_id_in_final_url(final_url@),
            video_id_in_page(page->Some_0@),
            fallback@,
        )),
{
    let from_url = video_id_from_final_url(final_url);
    if !from_url.as_str().is_empty() {
        return HandleStep::Found(from_url);
    }
    match page {
        None => HandleStep::NeedPage,
        Some(html) => {
            let from_page = video_id_from_page(html);
            HandleStep::Found(resolve_video_id(from_url, from_page, fallback))
        },
    }
}

}
