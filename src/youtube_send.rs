//! Posting to a YouTube live chat: each step of the official API flow is a
//! separate decision with its own error, so that configuration problems are
//! told apart from transient ones.

use vstd::prelude::*;
use crate::json::{json_quote, json_quoted, json_len_at, json_str_at, json_valid, JsonDoc};
use crate::text::{chars_of, concat2, concat3, contains_str, includes, push_str, string_of};

verus! {

pub const TOKENINFO_URL: &'static str = "https://www.googleapis.com/oauth2/v3/tokeninfo?access_token=";

pub const CHANNEL_PROBE_URL: &'static str = "https://www.googleapis.com/youtube/v3/channels?part=id&mine=true";

pub const VIDEO_DETAILS_URL: &'static str = "https://www.googleapis.com/youtube/v3/videos?part=liveStreamingDetails&id=";

pub const CHAT_MESSAGES_URL: &'static str = "https://www.googleapis.com/youtube/v3/liveChatMessages?liveChatId=";

pub const CHAT_POST_URL: &'static str = "https://www.googleapis.com/youtube/v3/liveChatMessages?part=snippet";

/// The request of the send flow that a network failure hit.
#[derive(Clone, Copy, Debug, PartialEq, Eq, Structural)]
pub enum SendStep {
    ScopeCheck,
    ChannelProbe,
    VideoLookup,
    ChatCheck,
    Post,
}

/// What a network failure at each step is reported as.
pub open spec fn step_prefix(step: SendStep) -> Seq<char> {
    match step {
        SendStep::ScopeCheck => "Scope check failed: "@,
        SendStep::ChannelProbe => "Probe failed: "@,
        SendStep::VideoLookup => "Network error fetching video: "@,
        SendStep::ChatCheck => "Chat check failed: "@,
        SendStep::Post => "Failed to post message: "@,
    }
}

/// A distinguishable reason why a message could not be posted.
#[derive(Clone, Debug)]
pub enum YouTubeSendError {
    /// A request could not be made at all, at the given step.
    Network { step: SendStep, detail: String },
    /// The token lacks the YouTube scope.
    MissingScope,
    /// The Data API is not enabled for the project.
    DataApiDisabled,
    /// The channel probe failed otherwise.
    ProbeFailed { status: String, body: String },
    /// The account has no YouTube channel.
    NoChannel,
    /// The video lookup failed.
    VideoLookupFailed(String),
    /// The video lookup's answer could not be read.
    InvalidVideoResponse,
    /// No video has that id.
    VideoNotFound,
    /// The stream is over.
    StreamEnded,
    /// The video has no live chat.
    NoActiveChat,
    /// The chat refused the message.
    PostFailed { status: String, body: String },
}

/// The description of each error.
pub open spec fn send_error_text(e: YouTubeSendError) -> Seq<char> {
    match e {
        YouTubeSendError::Network { step, detail } => step_prefix(step) + detail@,
        YouTubeSendError::MissingScope => "Missing 'youtube.force-ssl' scope. Please log out and log in again."@,
        YouTubeSendError::DataApiDisabled => "YouTube Data API v3 is likely NOT enabled in Google Cloud Console. Enable it here: https://console.cloud.google.com/apis/library/youtube.googleapis.com"@,
        YouTubeSendError::ProbeFailed { status, body } => "YouTube Data API Probe failed: ["@
            + status@ + "] "@ + body@,
        YouTubeSendError::NoChannel => "Your Google Account does not have a YouTube Channel. You must create a channel to use Live Chat."@,
        YouTubeSendError::VideoLookupFailed(b) => "Failed to get video details: "@ + b@,
        YouTubeSendError::InvalidVideoResponse => "JSON parse error (video)"@,
        YouTubeSendError::VideoNotFound => "No video found with that ID"@,
        YouTubeSendError::StreamEnded => "Cannot send message: The live stream has ended."@,
        YouTubeSendError::NoActiveChat => "No active live chat found. Is the stream live?"@,
        YouTubeSendError::PostFailed { status, body } => "Failed to send message: ["@ + status@
            + "] "@ + body@,
    }
}

impl YouTubeSendError {
    /// A human-readable description.
    pub fn message(&self) -> (r: String)
        ensures
            r@ == send_error_text(*self),
    {
        match self {
            YouTubeSendError::Network { step, detail } => {
                let prefix = match step {
                    SendStep::ScopeCheck => "Scope check failed: ",
                    SendStep::ChannelProbe => "Probe failed: ",
                    SendStep::VideoLookup => "Network error fetching video: ",
                    SendStep::ChatCheck => "Chat check failed: ",
                    SendStep::Post => "Failed to post message: ",
                };
                concat2(prefix, detail.as_str())
            },
            YouTubeSendError::MissingScope => String::from_str(
                "Missing 'youtube.force-ssl' scope. Please log out and log in again.",
            ),
            YouTubeSendError::DataApiDisabled => String::from_str(
                "YouTube Data API v3 is likely NOT enabled in Google Cloud Console. Enable it here: https://console.cloud.google.com/apis/library/youtube.googleapis.com",
            ),
            YouTubeSendError::ProbeFailed { status, body } => {
                let head = concat3("YouTube Data API Probe failed: [", status.as_str(), "] ");
                concat2(head.as_str(), body.as_str())
            },
            YouTubeSendError::NoChannel => String::from_str(
                "Your Google Account does not have a YouTube Channel. You must create a channel to use Live Chat.",
            ),
            YouTubeSendError::VideoLookupFailed(body) => concat2(
                "Failed to get video details: ",
                body.as_str(),
            ),
            YouTubeSendError::InvalidVideoResponse => String::from_str(
                "JSON parse error (video)",
            ),
            YouTubeSendError::VideoNotFound => String::from_str("No video found with that ID"),
            YouTubeSendError::StreamEnded => String::from_str(
                "Cannot send message: The live stream has ended.",
            ),
            YouTubeSendError::NoActiveChat => String::from_str(
                "No active live chat found. Is the stream live?",
            ),
            YouTubeSendError::PostFailed { status, body } => {
                let head = concat3("Failed to send message: [", status.as_str(), "] ");
                concat2(head.as_str(), body.as_str())
            },
        }
    }
}

pub fn tokeninfo_url(token: &str) -> (r: String)
    ensures
        r@ == TOKENINFO_URL@ + token@,
{
    concat2(TOKENINFO_URL, token)
}

/// Whether the token-info answer shows a scope list without YouTube access.
pub open spec fn scope_missing(success: bool, body: Seq<char>) -> bool {
    success && json_valid(body) && match json_str_at(body, "/scope"@) {
        Some(s) => !includes(s, "youtube.force-ssl"@) && !includes(s, "youtube"@),
        None => false,
    }
}

/// The scope check: fails only when a scope list was read and lacks YouTube.
pub fn check_token_scope(success: bool, body: &str) -> (r: Result<(), YouTubeSendError>)
    ensures
        scope_missing(success, body@) ==> r matches Err(YouTubeSendError::MissingScope),
        !scope_missing(success, body@) ==> r is Ok,
{
    if !success {
        return Ok(());
    }
    match JsonDoc::parse(body) {
        None => Ok(()),
        Some(doc) => match doc.str_at("/scope") {
            Some(s) => {
                let sv = chars_of(s.as_str());
                if !contains_str(&sv, "youtube.force-ssl") && !contains_str(&sv, "youtube") {
                    Err(YouTubeSendError::MissingScope)
                } else {
                    Ok(())
                }
            },
            None => Ok(()),
        },
    }
}

/// The channel probe: a refused probe with 403 or 404 means the API is off; a
/// list of channels that is present and empty means the account has none.
pub fn check_channel_probe(success: bool, status_code: u16, status: &str, body: &str) -> (r: Result<
    (),
    YouTubeSendError,
>)
    ensures
        !success && (status_code == 403 || status_code == 404) ==> r matches Err(
            YouTubeSendError::DataApiDisabled,
        ),
        !success && status_code != 403 && status_code != 404 ==> (r matches Err(
            YouTubeSendError::ProbeFailed { status: s, body: b },
        ) && s@ == status@ && b@ == body@),
        success && json_valid(body@) && json_len_at(body@, "/items"@) == Some(0nat) ==> r matches Err(
            YouTubeSendError::NoChannel,
        ),
        success && !(json_valid(body@) && json_len_at(body@, "/items"@) == Some(0nat)) ==> r is Ok,
{
    if !success {
        if status_code == 403 || status_code == 404 {
            return Err(YouTubeSendError::DataApiDisabled);
        }
        return Err(
            YouTubeSendError::ProbeFailed {
                status: String::from_str(status),
                body: String::from_str(body),
            },
        );
    }
    match JsonDoc::parse(body) {
        None => Ok(()),
        Some(doc) => match doc.len_at("/items") {
            Some(n) => if n == 0 {
                Err(YouTubeSendError::NoChannel)
            } else {
                Ok(())
            },
            None => Ok(()),
        },
    }
}

pub fn video_details_url(video_id: &str) -> (r: String)
    ensures
        r@ == VIDEO_DETAILS_URL@ + video_id@,
{
    concat2(VIDEO_DETAILS_URL, video_id)
}

/// The lookup listed at least one video.
pub open spec fn has_items(body: Seq<char>) -> bool {
    json_len_at(body, "/items"@) matches Some(n) && n > 0
}

/// The outcome of the video lookup, as a live-chat id or the reason there is none.
pub open spec fn live_chat_of(success: bool, body: Seq<char>) -> Result<Seq<char>, ()> {
    if success && json_valid(body) && has_items(body)
        && json_str_at(body, "/items/0/liveStreamingDetails/actualEndTime"@) is None
        && json_str_at(body, "/items/0/liveStreamingDetails/activeLiveChatId"@) is Some {
        Ok(json_str_at(body, "/items/0/liveStreamingDetails/activeLiveChatId"@)->Some_0)
    } else {
        Err(())
    }
}

/// Reads the live-chat id out of the video lookup.
pub fn live_chat_id(success: bool, body: &str) -> (r: Result<String, YouTubeSendError>)
    ensures
        !success ==> (r matches Err(YouTubeSendError::VideoLookupFailed(b)) && b@ == body@),
        success && (!json_valid(body@) || json_len_at(body@, "/items"@) is None) ==> r matches Err(
            YouTubeSendError::InvalidVideoResponse,
        ),
        success && json_valid(body@) && json_len_at(body@, "/items"@) == Some(0nat) ==> r matches Err(
            YouTubeSendError::VideoNotFound,
        ),
        success && json_valid(body@) && has_items(body@)
            && json_str_at(body@, "/items/0/liveStreamingDetails/actualEndTime"@) is Some
            ==> r matches Err(YouTubeSendError::StreamEnded),
        success && json_valid(body@) && has_items(body@)
            && json_str_at(body@, "/items/0/liveStreamingDetails/actualEndTime"@) is None
            && json_str_at(body@, "/items/0/liveStreamingDetails/activeLiveChatId"@) is None
            ==> r matches Err(YouTubeSendError::NoActiveChat),
        match live_chat_of(success, body@) {
            Ok(id) => r matches Ok(s) && s@ == id,
            Err(_) => r is Err,
        },
{
    if !success {
        return Err(YouTubeSendError::VideoLookupFailed(String::from_str(body)));
    }
    let doc = match JsonDoc::parse(body) {
        Some(d) => d,
        None => return Err(YouTubeSendError::InvalidVideoResponse),
    };
    let n = match doc.len_at("/items") {
        Some(n) => n,
        None => return Err(YouTubeSendError::InvalidVideoResponse),
    };
    if n == 0 {
        return Err(YouTubeSendError::VideoNotFound);
    }
    if doc.str_at("/items/0/liveStreamingDetails/actualEndTime").is_some() {
        return Err(YouTubeSendError::StreamEnded);
    }
    match doc.str_at("/items/0/liveStreamingDetails/activeLiveChatId") {
        Some(id) => Ok(id),
        None => Err(YouTubeSendError::NoActiveChat),
    }
}

/// The bytes that percent-encoding leaves as they are.
pub open spec fn url_unreserved(b: u8) -> bool {
    (48 <= b && b <= 57) || (65 <= b && b <= 90) || (97 <= b && b <= 122) || b == 45 || b == 46
        || b == 95 || b == 126
}

pub open spec fn upper_hex_digit(n: nat) -> char {
    if n < 10 {
        ((48 + n) as u8) as char
    } else {
        ((55 + n) as u8) as char
    }
}

pub open spec fn url_escape(b: u8) -> Seq<char> {
    if url_unreserved(b) {
        seq![b as char]
    } else {
        seq!['%', upper_hex_digit(b as nat / 16), upper_hex_digit(b as nat % 16)]
    }
}

pub open spec fn url_escaped(bytes: Seq<u8>) -> Seq<char>
    decreases bytes.len(),
{
    if bytes.len() == 0 {
        Seq::empty()
    } else {
        url_escaped(bytes.drop_last()) + url_escape(bytes.last())
    }
}

/// Percent-encoding of the UTF-8 bytes of `s`: letters, digits and `-._~`
/// kept, every other byte as `%XX` with upper-case hex digits.
pub open spec fn url_encoded(s: Seq<char>) -> Seq<char> {
    url_escaped(vstd::utf8::encode_utf8(s))
}

/// Relies on `urlencoding::encode`, which percent-encodes each UTF-8 byte except
/// ASCII letters, digits and `-`, `.`, `_`, `~`.
#[verifier::external_body]
fn url_encode(s: &str) -> (r: String)
    ensures
        r@ == url_encoded(s@),
{
    urlencoding::encode(s).into_owned()
}

/// The read endpoint of a live chat, with the id percent-encoded.
pub fn chat_messages_url(chat_id: &str) -> (r: String)
    ensures
        r@ == CHAT_MESSAGES_URL@ + url_encoded(chat_id@) + "&part=snippet"@,
{
    let enc = url_encode(chat_id);
    concat3(CHAT_MESSAGES_URL, enc.as_str(), "&part=snippet")
}

/// The outcome of posting the message.
pub fn post_outcome(success: bool, status: &str, body: &str) -> (r: Result<(), YouTubeSendError>)
    ensures
        success ==> r is Ok,
        !success ==> (r matches Err(YouTubeSendError::PostFailed { status: s, body: b }) && s@
            == status@ && b@ == body@),
{
    if success {
        Ok(())
    } else {
        Err(
            YouTubeSendError::PostFailed {
                status: String::from_str(status),
                body: String::from_str(body),
            },
        )
    }
}


/// The request that posts a text message to a live chat.
pub open spec fn post_body(chat_id: Seq<char>, message: Seq<char>) -> Seq<char> {
    "{\"snippet\":{\"liveChatId\":"@ + json_quoted(chat_id) + ",\"textMessageDetails\":{\"messageText\":"@
        + json_quoted(message) + "},\"type\":\"textMessageEvent\"}}"@
}

pub fn chat_post_body(chat_id: &str, message: &str) -> (r: String)
    ensures
        r@ == post_body(chat_id@, message@),
{
    let mut v = chars_of("{\"snippet\":{\"liveChatId\":");
    push_str(&mut v, json_quote(chat_id).as_str());
    push_str(&mut v, ",\"textMessageDetails\":{\"messageText\":");
    push_str(&mut v, json_quote(message).as_str());
    push_str(&mut v, "},\"type\":\"textMessageEvent\"}}");
    string_of(&v)
}

}
