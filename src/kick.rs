//! Kick: PKCE authorisation, the Pusher chat subscription, frame decoding and
//! the outbound-message path with its broadcaster-id cache.

use vstd::prelude::*;
use base64::Engine;
use rand::Rng;
use sha2::Digest;
use crate::json::{indexed, indexed_ptr, json_quote, json_quoted, json_str_at, json_u64_at, json_valid, len_or_zero_spec, str_or_spec, JsonDoc};
use crate::models::{chat_kind, has_badge, spans_fit, spans_view, strings_view, ChatMessage, Emote, MessageView, Platform};
use crate::session::ChannelTable;
use crate::text::{concat2, concat3, decimal, lower_of, push_decimal, push_str, same_text, string_of, to_lower, trim, trimmed};

verus! {

/// The Pusher event that carries a chat message.
pub const CHAT_EVENT: &'static str = "App\\Events\\ChatMessageEvent";

pub const AUTHORIZE_URL_HEAD: &'static str = "https://kick.com/oauth/authorize?response_type=code&client_id=01KG9BKAZPA62J13S6PATK3BWN&redirect_uri=https%3A%2F%2Fheychatapp.com%2Fauth&scope=user:read%20channel:read%20chat:write&code_challenge=";

pub const AUTHORIZE_URL_TAIL: &'static str = "&code_challenge_method=S256";

pub const SOCKET_URL: &'static str = "wss://ws-us2.pusher.com/app/32cbd69e4b950bf97679?protocol=7&client=js&version=8.4.0-rc2&flash=false";

pub const CHANNEL_INFO_URL: &'static str = "https://kick.com/api/v2/channels/";

pub const SUBSCRIBE_HEAD: &'static str = "{\"event\":\"pusher:subscribe\",\"data\":{\"auth\":\"\",\"channel\":\"chatrooms.";

pub const SUBSCRIBE_TAIL: &'static str = ".v2\"}}";

/// The length of a PKCE verifier.
pub const VERIFIER_LEN: usize = 32;

/// What can go wrong on the Kick side.
#[derive(Clone, Debug)]
pub enum KickError {
    /// A code arrived with no authorisation in progress.
    NoPkceVerifier,
    /// The token relay answered with a failure status.
    TokenExchangeFailed { status: String, body: String },
    /// A response was not JSON.
    InvalidResponse,
    /// The token relay's answer held no access token; the answer is kept.
    NoAccessToken(String),
    /// The channel lookup answered with a failure status.
    LookupFailed(String),
    /// The channel lookup held no chatroom id.
    NoChatroomId,
    /// The channel lookup held no user id.
    NoUserId,
    /// The broadcaster id could not be resolved for sending.
    ChannelUnresolved,
    /// The chat endpoint refused the message.
    SendFailed { status: String, body: String },
}

/// The description of each error.
pub open spec fn kick_error_text(e: KickError) -> Seq<char> {
    match e {
        KickError::NoPkceVerifier => "No PKCE verifier found"@,
        KickError::TokenExchangeFailed { status, body } => "Token exchange failed: "@ + status@
            + " - "@ + body@,
        KickError::InvalidResponse => "Invalid JSON in response"@,
        KickError::NoAccessToken(body) => "No access_token in response: "@ + body@,
        KickError::LookupFailed(status) => "API Request failed: "@ + status@,
        KickError::NoChatroomId => "No chatroom ID found"@,
        KickError::NoUserId => "No user ID found"@,
        KickError::ChannelUnresolved => "Could not resolve channel ID for sending"@,
        KickError::SendFailed { status, body } => "Send failed ("@ + status@ + "): "@ + body@,
    }
}

impl KickError {
    /// A human-readable description.
    pub fn message(&self) -> (r: String)
        ensures
            r@ == kick_error_text(*self),
    {
        match self {
            KickError::NoPkceVerifier => String::from_str("No PKCE verifier found"),
            KickError::TokenExchangeFailed { status, body } => {
                let head = concat3("Token exchange failed: ", status.as_str(), " - ");
                concat2(head.as_str(), body.as_str())
            },
            KickError::InvalidResponse => String::from_str("Invalid JSON in response"),
            KickError::NoAccessToken(body) => concat2("No access_token in response: ", body.as_str()),
            KickError::LookupFailed(status) => concat2("API Request failed: ", status.as_str()),
            KickError::NoChatroomId => String::from_str("No chatroom ID found"),
            KickError::NoUserId => String::from_str("No user ID found"),
            KickError::ChannelUnresolved => String::from_str(
                "Could not resolve channel ID for sending",
            ),
            KickError::SendFailed { status, body } => {
                let head = concat3("Send failed (", status.as_str(), "): ");
                concat2(head.as_str(), body.as_str())
            },
        }
    }
}

pub open spec fn is_ascii_alnum(c: char) -> bool {
    ('0' <= c && c <= '9') || ('A' <= c && c <= 'Z') || ('a' <= c && c <= 'z')
}

/// Relies on rand's `Alphanumeric` distribution: a uniformly drawn ASCII letter or digit.
#[verifier::external_body]
fn random_alphanumeric() -> (c: char)
    ensures
        is_ascii_alnum(c),
{
    rand::thread_rng().sample(rand::distributions::Alphanumeric) as char
}

/// A fresh random PKCE verifier of letters and digits.
pub fn generate_verifier() -> (r: String)
    ensures
        r@.len() == VERIFIER_LEN,
        forall|i: int| 0 <= i < r@.len() ==> is_ascii_alnum(#[trigger] r@[i]),
{
    let mut v: Vec<char> = Vec::new();
    let mut i: usize = 0;
    while i < VERIFIER_LEN
        invariant
            i <= VERIFIER_LEN,
            v@.len() == i,
            forall|t: int| 0 <= t < v@.len() ==> is_ascii_alnum(#[trigger] v@[t]),
        decreases VERIFIER_LEN - i,
    {
        let c = random_alphanumeric();
        v.push(c);
        i = i + 1;
    }
    string_of(&v)
}

pub uninterp spec fn sha256_of(b: Seq<u8>) -> Seq<u8>;

pub uninterp spec fn base64url_nopad_of(b: Seq<u8>) -> Seq<char>;

/// Relies on sha2's `Sha256::digest`: the digest of the bytes, 32 bytes long.
#[verifier::external_body]
fn sha256(b: &[u8]) -> (r: Vec<u8>)
    ensures
        r@ == sha256_of(b@),
        r@.len() == 32,
{
    sha2::Sha256::digest(b).to_vec()
}

/// Relies on base64's `URL_SAFE_NO_PAD` engine: URL-safe alphabet, no padding.
#[verifier::external_body]
fn base64url_nopad(b: &[u8]) -> (r: String)
    ensures
        r@ == base64url_nopad_of(b@),
{
    base64::engine::general_purpose::URL_SAFE_NO_PAD.encode(b)
}

/// The S256 challenge of a verifier: its SHA-256 digest (of its UTF-8 bytes) in
/// unpadded URL-safe base64.
pub open spec fn challenge_of(verifier: Seq<char>) -> Seq<char> {
    base64url_nopad_of(sha256_of(vstd::utf8::encode_utf8(verifier)))
}

pub fn pkce_challenge(verifier: &str) -> (r: String)
    ensures
        r@ == challenge_of(verifier@),
{
    let digest = sha256(verifier.as_bytes());
    base64url_nopad(digest.as_slice())
}

pub open spec fn authorize_url(challenge: Seq<char>) -> Seq<char> {
    AUTHORIZE_URL_HEAD@ + challenge + AUTHORIZE_URL_TAIL@
}

/// The authorisation page for a challenge.
pub fn kick_authorize_url(challenge: &str) -> (r: String)
    ensures
        r@ == authorize_url(challenge@),
{
    concat3(AUTHORIZE_URL_HEAD, challenge, AUTHORIZE_URL_TAIL)
}

/// The single outstanding PKCE verifier, if any.
pub struct PkceState {
    pending: Option<String>,
}

impl PkceState {
    pub closed spec fn pending_view(&self) -> Option<Seq<char>> {
        crate::models::opt_view(self.pending)
    }

    pub fn new() -> (r: PkceState)
        ensures
            r.pending_view() is None,
    {
        PkceState { pending: None }
    }

    /// Makes `verifier` the one pending verifier, replacing any earlier one.
    pub fn store_verifier(&mut self, verifier: String)
        ensures
            final(self).pending_view() == Some(verifier@),
    {
        self.pending = Some(verifier);
    }

    /// Starts an authorisation: draws a verifier, keeps it pending and returns
    /// the page to open, which carries the verifier's challenge.
    pub fn start_kick_oauth(&mut self) -> (url: String)
        ensures
            final(self).pending_view() matches Some(v) && v.len() == VERIFIER_LEN && (forall|i: int|
                0 <= i < v.len() ==> is_ascii_alnum(#[trigger] v[i])) && url@ == authorize_url(
                challenge_of(v),
            ),
    {
        let verifier = generate_verifier();
        let challenge = pkce_challenge(verifier.as_str());
        let url = kick_authorize_url(challenge.as_str());
        self.store_verifier(verifier);
        url
    }

    /// Consumes the pending verifier; fails when none is pending.
    pub fn take_verifier(&mut self) -> (r: Result<String, KickError>)
        ensures
            final(self).pending_view() is None,
            match old(self).pending_view() {
                Some(v) => r matches Ok(s) && s@ == v,
                None => r matches Err(KickError::NoPkceVerifier),
            },
    {
        match self.pending.take() {
            Some(v) => Ok(v),
            None => Err(KickError::NoPkceVerifier),
        }
    }
}

/// The request a code exchange sends, given what is pending: none without a
/// pending verifier, else the code with that verifier.
pub open spec fn exchange_request(pending: Option<Seq<char>>, code: Seq<char>) -> Option<Seq<char>> {
    match pending {
        Some(v) => Some(exchange_body(code, v)),
        None => None,
    }
}

/// A code exchange succeeds exactly once per started authorisation. Before any
/// start nothing is pending and the exchange fails; a start leaves its verifier
/// `v` pending and the exchange sends `v`; the exchange leaves nothing pending,
/// so a second one fails.
pub proof fn lemma_pkce_single_use(v: Seq<char>, first: Seq<char>, second: Seq<char>)
    ensures
        exchange_request(None, first) is None,
        exchange_request(Some(v), first) == Some(exchange_body(first, v)),
        exchange_request(None, second) is None,
{
}

/// Starts a code exchange: consumes the pending verifier and returns the
/// request for the token relay; fails when no verifier is pending.
pub fn exchange_kick_code(pkce: &mut PkceState, code: &str) -> (r: Result<String, KickError>)
    ensures
        final(pkce).pending_view() is None,
        match exchange_request(old(pkce).pending_view(), code@) {
            Some(b) => r matches Ok(s) && s@ == b,
            None => r matches Err(KickError::NoPkceVerifier),
        },
{
    let verifier = pkce.take_verifier()?;
    Ok(kick_exchange_body(code, verifier.as_str()))
}

/// The access token out of the token relay's answer.
pub open spec fn token_outcome(success: bool, status: Seq<char>, body: Seq<char>) -> Result<
    Seq<char>,
    (),
> {
    if success && json_valid(body) && json_str_at(body, "/access_token"@) is Some {
        Ok(json_str_at(body, "/access_token"@)->Some_0)
    } else {
        Err(())
    }
}

/// Reads the relay's answer to a code exchange: a failure status carries the
/// status and body; otherwise the body must hold `access_token`, and when it
/// does not, the body is reported.
pub fn read_token_answer(success: bool, status: &str, body: &str) -> (r: Result<
    String,
    KickError,
>)
    ensures
        !success ==> (r matches Err(KickError::TokenExchangeFailed { status: s, body: b }) && s@
            == status@ && b@ == body@),
        success && (!json_valid(body@) || json_str_at(body@, "/access_token"@) is None) ==> (r matches Err(
            KickError::NoAccessToken(b),
        ) && b@ == body@),
        match token_outcome(success, status@, body@) {
            Ok(t) => r matches Ok(s) && s@ == t,
            Err(_) => r is Err,
        },
{
    if !success {
        return Err(
            KickError::TokenExchangeFailed {
                status: String::from_str(status),
                body: String::from_str(body),
            },
        );
    }
    let token = match JsonDoc::parse(body) {
        None => None,
        Some(doc) => doc.str_at("/access_token"),
    };
    match token {
        Some(t) => Ok(t),
        None => Err(KickError::NoAccessToken(String::from_str(body))),
    }
}

/// The outcome of posting a chat message.
pub fn send_outcome(success: bool, status: &str, body: &str) -> (r: Result<(), KickError>)
    ensures
        success ==> r is Ok,
        !success ==> (r matches Err(KickError::SendFailed { status: s, body: b }) && s@ == status@
            && b@ == body@),
{
    if success {
        Ok(())
    } else {
        Err(KickError::SendFailed { status: String::from_str(status), body: String::from_str(body) })
    }
}

/// The channel slug as Kick keys it: trimmed and lower-cased.
pub open spec fn slug_of(channel: Seq<char>) -> Seq<char> {
    lower_of(trimmed(channel))
}

pub fn kick_slug(channel: &str) -> (r: String)
    ensures
        r@ == slug_of(channel@),
{
    let t = trim(channel);
    to_lower(t.as_str())
}

pub open spec fn channel_info_url(slug: Seq<char>) -> Seq<char> {
    CHANNEL_INFO_URL@ + slug
}

pub fn kick_channel_info_url(slug: &str) -> (r: String)
    ensures
        r@ == channel_info_url(slug@),
{
    concat2(CHANNEL_INFO_URL, slug)
}

/// The user id of a channel lookup: `userid`, else `user_id`, else `id`.
pub open spec fn user_id_of(body: Seq<char>) -> Option<u64> {
    if json_u64_at(body, "/userid"@) is Some {
        json_u64_at(body, "/userid"@)
    } else if json_u64_at(body, "/user_id"@) is Some {
        json_u64_at(body, "/user_id"@)
    } else {
        json_u64_at(body, "/id"@)
    }
}

/// `(chatroom_id, broadcaster_user_id)` out of a channel lookup's answer.
pub fn get_channel_info_v2(success: bool, status: &str, body: &str) -> (r: Result<(u64, u64), KickError>)
    ensures
        !success ==> (r matches Err(KickError::LookupFailed(s)) && s@ == status@),
        success && !json_valid(body@) ==> r matches Err(KickError::InvalidResponse),
        success && json_valid(body@) && json_u64_at(body@, "/chatroom/id"@) is None ==> r matches Err(
            KickError::NoChatroomId,
        ),
        success && json_valid(body@) && json_u64_at(body@, "/chatroom/id"@) is Some && user_id_of(body@) is None
            ==> r matches Err(KickError::NoUserId),
        r matches Ok((c, u)) ==> success && json_valid(body@) && json_u64_at(body@, "/chatroom/id"@) == Some(c)
            && user_id_of(body@) == Some(u),
        success && json_valid(body@) && json_u64_at(body@, "/chatroom/id"@) is Some && user_id_of(body@) is Some
            ==> r is Ok,
{
    if !success {
        return Err(KickError::LookupFailed(String::from_str(status)));
    }
    let doc = match JsonDoc::parse(body) {
        Some(d) => d,
        None => return Err(KickError::InvalidResponse),
    };
    let chatroom = match doc.u64_at("/chatroom/id") {
        Some(c) => c,
        None => return Err(KickError::NoChatroomId),
    };
    let user = match doc.u64_at("/userid") {
        Some(u) => Some(u),
        None => match doc.u64_at("/user_id") {
            Some(u) => Some(u),
            None => doc.u64_at("/id"),
        },
    };
    match user {
        Some(u) => Ok((chatroom, u)),
        None => Err(KickError::NoUserId),
    }
}

pub open spec fn subscribe_frame(chatroom_id: u64) -> Seq<char> {
    SUBSCRIBE_HEAD@ + decimal(chatroom_id as nat) + SUBSCRIBE_TAIL@
}

/// The frame that subscribes to a chatroom's `chatrooms.{id}.v2` channel.
pub fn kick_subscribe_frame(chatroom_id: u64) -> (r: String)
    ensures
        r@ == subscribe_frame(chatroom_id),
{
    let mut v = crate::text::chars_of(SUBSCRIBE_HEAD);
    push_decimal(&mut v, chatroom_id);
    push_str(&mut v, SUBSCRIBE_TAIL);
    string_of(&v)
}

/// The Pusher endpoint that carries Kick chat.
pub fn kick_socket_url() -> (r: String)
    ensures
        r@ == SOCKET_URL@,
{
    String::from_str(SOCKET_URL)
}


pub open spec fn badge_type_ptr(i: nat) -> Seq<char> {
    indexed("/sender/identity/badges/"@, i, "/type"@)
}

/// The badge types of the first `k` badges of a chat payload, skipping those without a type.
pub open spec fn kick_badges(data: Seq<char>, k: nat) -> Seq<Seq<char>>
    decreases k,
{
    if k == 0 {
        seq![]
    } else {
        let prev = kick_badges(data, (k - 1) as nat);
        match json_str_at(data, badge_type_ptr((k - 1) as nat)) {
            Some(t) => prev.push(t),
            None => prev,
        }
    }
}

/// The message a chat payload denotes.
pub open spec fn kick_message(data: Seq<char>, ts: Seq<char>) -> MessageView {
    let badges = kick_badges(data, len_or_zero_spec(data, "/sender/identity/badges"@));
    MessageView {
        id: str_or_spec(data, "/id"@, ""@),
        platform: Platform::Kick,
        username: str_or_spec(data, "/sender/username"@, "Unknown"@),
        message: str_or_spec(data, "/content"@, ""@),
        color: json_str_at(data, "/sender/identity/color"@),
        badges,
        is_mod: badges.contains("moderator"@),
        is_vip: badges.contains("vip"@),
        is_member: false,
        timestamp: ts,
        emotes: seq![],
        msg_type: "chat"@,
        system_message: None,
    }
}

/// The chat payload of a frame: the string in `data` of a chat-message event.
pub open spec fn kick_payload(text: Seq<char>) -> Option<Seq<char>> {
    if json_valid(text) && json_str_at(text, "/event"@) == Some(CHAT_EVENT@) {
        json_str_at(text, "/data"@)
    } else {
        None
    }
}

/// What a frame decodes to: the payload, itself parsed as JSON, as a message.
pub open spec fn kick_decode(text: Seq<char>, ts: Seq<char>) -> Option<MessageView> {
    match kick_payload(text) {
        Some(d) => if json_valid(d) {
            Some(kick_message(d, ts))
        } else {
            None
        },
        None => None,
    }
}

/// Decodes a chat payload (already parsed) into a message.
pub fn process_chat_message(data: &JsonDoc, timestamp: &str) -> (r: ChatMessage)
    ensures
        r@ == kick_message(data.source(), timestamp@),
{
    let n = data.len_or_zero("/sender/identity/badges");
    let mut badges: Vec<String> = Vec::new();
    let mut i: usize = 0;
    while i < n
        invariant
            i <= n,
            strings_view(badges@) == kick_badges(data.source(), i as nat),
        decreases n - i,
    {
        let ptr = indexed_ptr("/sender/identity/badges/", i, "/type");
        let ghost before = badges@;
        match data.str_at(ptr.as_str()) {
            Some(t) => {
                badges.push(t);
                assert(strings_view(badges@) =~= strings_view(before).push(badges@.last()@));
            },
            None => {},
        }
        i = i + 1;
    }
    let is_mod = has_badge(&badges, "moderator");
    let is_vip = has_badge(&badges, "vip");
    let emotes: Vec<Emote> = Vec::new();
    assert(spans_view(emotes@) =~= seq![]);
    ChatMessage {
        id: data.str_or("/id", ""),
        platform: Platform::Kick,
        username: data.str_or("/sender/username", "Unknown"),
        message: data.str_or("/content", ""),
        color: data.str_at("/sender/identity/color"),
        badges,
        is_mod,
        is_vip,
        is_member: false,
        timestamp: String::from_str(timestamp),
        emotes,
        msg_type: chat_kind(),
        system_message: None,
    }
}

/// Decodes one Pusher text frame. Only chat-message events yield a message;
/// everything else, malformed frames included, is passed over.
pub fn handle_kick_message(text: &str, timestamp: &str) -> (r: Option<ChatMessage>)
    ensures
        match r {
            Some(m) => kick_decode(text@, timestamp@) == Some(m@) && spans_fit(m@),
            None => kick_decode(text@, timestamp@) is None,
        },
        json_str_at(text@, "/event"@) != Some(CHAT_EVENT@) ==> r is None,
{
    let frame = match JsonDoc::parse(text) {
        Some(d) => d,
        None => return None,
    };
    let event = match frame.str_at("/event") {
        Some(e) => e,
        None => return None,
    };
    if !same_text(event.as_str(), CHAT_EVENT) {
        return None;
    }
    let payload = match frame.str_at("/data") {
        Some(p) => p,
        None => return None,
    };
    match JsonDoc::parse(payload.as_str()) {
        Some(data) => {
            let m = process_chat_message(&data, timestamp);
            Some(m)
        },
        None => None,
    }
}

/// How an outgoing message finds its broadcaster id.
#[derive(Clone, Copy, Debug, PartialEq, Eq, Structural)]
pub enum SendTarget {
    /// Already resolved.
    Cached(u64),
    /// Not known yet: a channel lookup must come first.
    Lookup,
}

/// What the Kick adapter keeps between calls.
pub struct KickState {
    /// Resolved broadcaster user ids, by channel slug.
    pub broadcaster_ids: ChannelTable<u64>,
    /// The authorisation in progress, if any.
    pub pkce: PkceState,
}

impl KickState {
    pub open spec fn wf(&self) -> bool {
        self.broadcaster_ids.wf()
    }

    pub fn new() -> (r: KickState)
        ensures
            r.wf(),
            r.broadcaster_ids@ == Map::<Seq<char>, u64>::empty(),
            r.pkce.pending_view() is None,
    {
        KickState { broadcaster_ids: ChannelTable::new(), pkce: PkceState::new() }
    }

    /// Remembers the broadcaster id of a joined channel.
    pub fn record_broadcaster(&mut self, slug: String, broadcaster_user_id: u64)
        requires
            old(self).wf(),
        ensures
            final(self).wf(),
            final(self).broadcaster_ids@ == old(self).broadcaster_ids@.insert(
                slug@,
                broadcaster_user_id,
            ),
            final(self).pkce == old(self).pkce,
    {
        let _ = self.broadcaster_ids.put(slug, broadcaster_user_id);
    }

    /// Where an outgoing message for `slug` gets its broadcaster id.
    pub fn send_target(&self, slug: &str) -> (r: SendTarget)
        requires
            self.wf(),
        ensures
            match r {
                SendTarget::Cached(id) => self.broadcaster_ids@.contains_key(slug@)
                    && self.broadcaster_ids@[slug@] == id,
                SendTarget::Lookup => !self.broadcaster_ids@.contains_key(slug@),
            },
    {
        match self.broadcaster_ids.get(slug) {
            Some(id) => SendTarget::Cached(*id),
            None => SendTarget::Lookup,
        }
    }

    /// Takes in the result of a channel lookup made for sending: a found id is
    /// cached and returned; a failed lookup leaves the cache as it was.
    pub fn resolve_for_send(&mut self, slug: String, lookup: Result<(u64, u64), KickError>) -> (r:
        Result<u64, KickError>)
        requires
            old(self).wf(),
        ensures
            final(self).wf(),
            final(self).pkce == old(self).pkce,
            match lookup {
                Ok((_, user)) => r == Ok::<u64, KickError>(user)
                    && final(self).broadcaster_ids@ == old(self).broadcaster_ids@.insert(
                    slug@,
                    user,
                ),
                Err(_) => r matches Err(KickError::ChannelUnresolved)
                    && final(self).broadcaster_ids@ == old(self).broadcaster_ids@,
            },
    {
        match lookup {
            Ok((_, user)) => {
                self.record_broadcaster(slug, user);
                Ok(user)
            },
            Err(_) => Err(KickError::ChannelUnresolved),
        }
    }
}


pub const REDIRECT_URI: &'static str = "https://heychatapp.com/auth";

/// The token relay's request: the code, the verifier and the redirect URI.
pub open spec fn exchange_body(code: Seq<char>, verifier: Seq<char>) -> Seq<char> {
    "{\"code\":"@ + json_quoted(code) + ",\"code_verifier\":"@ + json_quoted(verifier)
        + ",\"redirect_uri\":\"https://heychatapp.com/auth\"}"@
}

pub fn kick_exchange_body(code: &str, verifier: &str) -> (r: String)
    ensures
        r@ == exchange_body(code@, verifier@),
{
    let mut v = crate::text::chars_of("{\"code\":");
    push_str(&mut v, json_quote(code).as_str());
    push_str(&mut v, ",\"code_verifier\":");
    push_str(&mut v, json_quote(verifier).as_str());
    push_str(&mut v, ",\"redirect_uri\":\"https://heychatapp.com/auth\"}");
    string_of(&v)
}

pub const CHAT_POST_URL: &'static str = "https://api.kick.com/public/v1/chat";

/// The chat endpoint's request for a user message.
pub open spec fn chat_body(broadcaster_user_id: u64, content: Seq<char>) -> Seq<char> {
    "{\"broadcaster_user_id\":"@ + decimal(broadcaster_user_id as nat) + ",\"content\":"@
        + json_quoted(content) + ",\"type\":\"user\"}"@
}

pub fn kick_chat_body(broadcaster_user_id: u64, content: &str) -> (r: String)
    ensures
        r@ == chat_body(broadcaster_user_id, content@),
{
    let mut v = crate::text::chars_of("{\"broadcaster_user_id\":");
    push_decimal(&mut v, broadcaster_user_id);
    push_str(&mut v, ",\"content\":");
    push_str(&mut v, json_quote(content).as_str());
    push_str(&mut v, ",\"type\":\"user\"}");
    string_of(&v)
}

}
