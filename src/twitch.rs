//! Twitch: channel naming, login modes, and the decoding of IRC server events
//! into normalised messages and adapter events.

use vstd::prelude::*;
use crate::models::{chat_kind, event_kind, fitting_spans, has_badge, keep_fitting, spans_fit, spans_view, strings_view, ChatMessage, Emote, MessageView, Platform};
use crate::text::{chars_of, concat3, hex_color, hex_color_string, lower_of, remove_all, remove_all_from, same_text, strip_prefix_all, strip_prefix_all_chars, strip_start, strip_start_chars, string_of, to_lower, trim_chars, trimmed, CharClass};

verus! {

/// The notice text with which the server rejects a login.
pub const AUTH_FAILED_NOTICE: &'static str = "Login authentication failed";

/// What the adapter reports when the server rejects a login.
pub const AUTH_FAILED_REPORT: &'static str = "Login authentication failed. Please check your token.";

pub const REWARD_NOTE: &'static str = "Redeemed a Channel Reward!";

/// Colour given to subscription, raid and similar notices.
pub const NOTICE_COLOR: &'static str = "#9146FF";

pub const TOKEN_PREFIX: &'static str = "oauth:";

/// The channel login as the server expects it: trimmed, without leading `#`, lower-cased.
pub open spec fn channel_login(channel: Seq<char>) -> Seq<char> {
    lower_of(strip_start(trimmed(channel), CharClass::Exactly('#')))
}

pub fn twitch_channel(channel: &str) -> (r: String)
    ensures
        r@ == channel_login(channel@),
{
    let t = trim_chars(channel);
    let s = strip_start_chars(&t, CharClass::Exactly('#'));
    let joined = string_of(&s);
    to_lower(joined.as_str())
}

/// How the IRC client logs in.
#[derive(Clone, Debug)]
pub enum TwitchLogin {
    /// Read-only, without credentials.
    Anonymous,
    /// As `username`, with `token` stripped of any leading `oauth:`.
    Authenticated { username: String, token: String },
}

/// Both a user name and a token give an authenticated login; anything less is anonymous.
pub fn twitch_login(username: Option<String>, token: Option<String>) -> (r: TwitchLogin)
    ensures
        match (username, token) {
            (Some(u), Some(t)) => r matches TwitchLogin::Authenticated { username: ru, token: rt }
                && ru@ == u@ && rt@ == strip_prefix_all(t@, TOKEN_PREFIX@),
            _ => r matches TwitchLogin::Anonymous,
        },
{
    match (username, token) {
        (Some(u), Some(t)) => {
            let tv = chars_of(t.as_str());
            let pv = chars_of(TOKEN_PREFIX);
            let clean = strip_prefix_all_chars(&tv, &pv);
            TwitchLogin::Authenticated { username: u, token: string_of(&clean) }
        },
        _ => TwitchLogin::Anonymous,
    }
}

/// The token kept for API calls: every `oauth:` removed.
pub fn stored_access_token(token: &str) -> (r: String)
    ensures
        r@ == remove_all_from(token@, TOKEN_PREFIX@, 0),
{
    let tv = chars_of(token);
    let pv = chars_of(TOKEN_PREFIX);
    let clean = remove_all(&tv, &pv);
    string_of(&clean)
}

/// A name colour as reported by the server.
#[derive(Clone, Copy, Debug, PartialEq, Eq, Structural)]
pub struct Rgb {
    pub r: u8,
    pub g: u8,
    pub b: u8,
}

/// The parts of a chat line (`PRIVMSG`) that the adapter reads.
#[derive(Clone, Debug)]
pub struct TwitchPrivmsg {
    pub message_id: String,
    pub sender_name: String,
    pub message_text: String,
    pub name_color: Option<Rgb>,
    pub badges: Vec<String>,
    /// Emote spans as the server reports them, in code points.
    pub emotes: Vec<Emote>,
    /// The `bits` tag.
    pub bits: Option<String>,
    /// The `custom-reward-id` tag.
    pub custom_reward_id: Option<String>,
}

/// The parts of a subscription, raid or similar notice (`USERNOTICE`) that the adapter reads.
#[derive(Clone, Debug)]
pub struct TwitchUserNotice {
    /// The `id` tag.
    pub id: Option<String>,
    pub sender_name: String,
    pub message_text: Option<String>,
    pub system_message: String,
    pub emotes: Vec<Emote>,
}

pub open spec fn privmsg_note(bits: Option<String>, reward: Option<String>) -> Option<Seq<char>> {
    match bits {
        Some(b) => Some("Cheered "@ + b@ + " Bits!"@),
        None => if reward is Some {
            Some(REWARD_NOTE@)
        } else {
            None
        },
    }
}

pub open spec fn privmsg_kind(bits: Option<String>, reward: Option<String>) -> Seq<char> {
    if bits is Some || reward is Some {
        "sub"@
    } else {
        "chat"@
    }
}

pub open spec fn color_view(c: Option<Rgb>) -> Option<Seq<char>> {
    match c {
        Some(c) => Some(hex_color(c.r, c.g, c.b)),
        None => None,
    }
}

/// The message a chat line denotes: cheers, then reward redemptions, are
/// system events; anything else is chat.
pub open spec fn privmsg_message(m: TwitchPrivmsg, ts: Seq<char>) -> MessageView {
    MessageView {
        id: m.message_id@,
        platform: Platform::Twitch,
        username: m.sender_name@,
        message: m.message_text@,
        color: color_view(m.name_color),
        badges: strings_view(m.badges@),
        is_mod: strings_view(m.badges@).contains("moderator"@),
        is_vip: strings_view(m.badges@).contains("vip"@),
        is_member: false,
        timestamp: ts,
        emotes: fitting_spans(spans_view(m.emotes@), m.message_text@.len()),
        msg_type: privmsg_kind(m.bits, m.custom_reward_id),
        system_message: privmsg_note(m.bits, m.custom_reward_id),
    }
}

fn privmsg_note_exec(bits: &Option<String>, reward: &Option<String>) -> (r: Option<String>)
    ensures
        crate::models::opt_view(r) == privmsg_note(*bits, *reward),
{
    match bits {
        Some(b) => Some(concat3("Cheered ", b.as_str(), " Bits!")),
        None => if reward.is_some() {
            Some(String::from_str(REWARD_NOTE))
        } else {
            None
        },
    }
}

/// Decodes a chat line.
pub fn decode_privmsg(m: TwitchPrivmsg, timestamp: &str) -> (r: ChatMessage)
    ensures
        r@ == privmsg_message(m, timestamp@),
        spans_fit(r@),
        m.bits is None && m.custom_reward_id is None ==> r@.msg_type == "chat"@
            && r@.system_message is None,
{
    let note = privmsg_note_exec(&m.bits, &m.custom_reward_id);
    let kind = if m.bits.is_some() || m.custom_reward_id.is_some() {
        event_kind()
    } else {
        chat_kind()
    };
    let is_mod = has_badge(&m.badges, "moderator");
    let is_vip = has_badge(&m.badges, "vip");
    let color = match m.name_color {
        Some(c) => Some(hex_color_string(c.r, c.g, c.b)),
        None => None,
    };
    let n = m.message_text.as_str().unicode_len();
    let emotes = keep_fitting(&m.emotes, n);
    ChatMessage {
        id: m.message_id,
        platform: Platform::Twitch,
        username: m.sender_name,
        message: m.message_text,
        color,
        badges: m.badges,
        is_mod,
        is_vip,
        is_member: false,
        timestamp: String::from_str(timestamp),
        emotes,
        msg_type: kind,
        system_message: note,
    }
}

pub open spec fn notice_text(t: Option<String>) -> Seq<char> {
    match t {
        Some(s) => s@,
        None => ""@,
    }
}

/// The message a user notice denotes; `fallback_id` stands in for a missing `id` tag.
pub open spec fn notice_message(n: TwitchUserNotice, ts: Seq<char>, fallback_id: Seq<char>) -> MessageView {
    MessageView {
        id: match n.id {
            Some(i) => i@,
            None => fallback_id,
        },
        platform: Platform::Twitch,
        username: n.sender_name@,
        message: notice_text(n.message_text),
        color: Some(NOTICE_COLOR@),
        badges: seq![],
        is_mod: false,
        is_vip: false,
        is_member: false,
        timestamp: ts,
        emotes: fitting_spans(spans_view(n.emotes@), notice_text(n.message_text).len()),
        msg_type: "sub"@,
        system_message: Some(n.system_message@),
    }
}

/// Decodes a subscription, raid or similar notice.
pub fn decode_user_notice(n: TwitchUserNotice, timestamp: &str, fallback_id: &str) -> (r:
    ChatMessage)
    ensures
        r@ == notice_message(n, timestamp@, fallback_id@),
        spans_fit(r@),
{
    let id = match n.id {
        Some(i) => i,
        None => String::from_str(fallback_id),
    };
    let text = match n.message_text {
        Some(t) => t,
        None => String::from_str(""),
    };
    let len = text.as_str().unicode_len();
    let emotes = keep_fitting(&n.emotes, len);
    let badges: Vec<String> = Vec::new();
    assert(strings_view(badges@) =~= seq![]);
    ChatMessage {
        id,
        platform: Platform::Twitch,
        username: n.sender_name,
        message: text,
        color: Some(String::from_str(NOTICE_COLOR)),
        badges,
        is_mod: false,
        is_vip: false,
        is_member: false,
        timestamp: String::from_str(timestamp),
        emotes,
        msg_type: event_kind(),
        system_message: Some(n.system_message),
    }
}

/// A server event, reduced to what the adapter reads.
#[derive(Clone, Debug)]
pub enum TwitchEvent {
    Privmsg(TwitchPrivmsg),
    /// A `NOTICE` with its text.
    Notice(String),
    /// The user's own badges in the channel.
    UserState(Vec<String>),
    /// The user's own badges across channels.
    GlobalUserState(Vec<String>),
    UserNotice(TwitchUserNotice),
    /// A `ROOMSTATE` with its `room-id` tag.
    RoomState(Option<String>),
    /// Anything else.
    Other,
}

/// What the adapter does with a server event.
#[derive(Clone, Debug)]
pub enum TwitchOutcome {
    /// Emit a chat message.
    Chat(ChatMessage),
    /// Report a rejected login (an error event, not chat).
    AuthFailed(String),
    /// Report the user's own standing in the channel.
    CurrentUserState { is_mod: bool, badges: Vec<String> },
    /// Report the channel's room id.
    Connected(String),
    /// Nothing to report.
    Nothing,
}

/// Maps a server event to what the adapter reports.
pub fn twitch_event_outcome(ev: TwitchEvent, timestamp: &str, fallback_id: &str) -> (r:
    TwitchOutcome)
    ensures
        match ev {
            TwitchEvent::Privmsg(m) => (r matches TwitchOutcome::Chat(c) && c@ == privmsg_message(
                m,
                timestamp@,
            )),
            TwitchEvent::Notice(t) => if t@ == AUTH_FAILED_NOTICE@ {
                (r matches TwitchOutcome::AuthFailed(s) && s@ == AUTH_FAILED_REPORT@)
            } else {
                r is Nothing
            },
            TwitchEvent::UserState(b) => (r matches TwitchOutcome::CurrentUserState {
                is_mod,
                badges,
            } && badges@ == b@ && is_mod == (strings_view(b@).contains("moderator"@)
                || strings_view(b@).contains("broadcaster"@))),
            TwitchEvent::GlobalUserState(b) => if strings_view(b@).contains("broadcaster"@) {
                (r matches TwitchOutcome::CurrentUserState { is_mod, badges } && badges@ == b@
                    && is_mod)
            } else {
                r is Nothing
            },
            TwitchEvent::UserNotice(n) => (r matches TwitchOutcome::Chat(c) && c@
                == notice_message(n, timestamp@, fallback_id@)),
            TwitchEvent::RoomState(Some(id)) => (r matches TwitchOutcome::Connected(s) && s@
                == id@),
            TwitchEvent::RoomState(None) => r is Nothing,
            TwitchEvent::Other => r is Nothing,
        },
{
    match ev {
        TwitchEvent::Privmsg(m) => TwitchOutcome::Chat(decode_privmsg(m, timestamp)),
        TwitchEvent::Notice(t) => {
            if same_text(t.as_str(), AUTH_FAILED_NOTICE) {
                TwitchOutcome::AuthFailed(String::from_str(AUTH_FAILED_REPORT))
            } else {
                TwitchOutcome::Nothing
            }
        },
        TwitchEvent::UserState(b) => {
            let is_mod = has_badge(&b, "moderator") || has_badge(&b, "broadcaster");
            TwitchOutcome::CurrentUserState { is_mod, badges: b }
        },
        TwitchEvent::GlobalUserState(b) => {
            if has_badge(&b, "broadcaster") {
                TwitchOutcome::CurrentUserState { is_mod: true, badges: b }
            } else {
                TwitchOutcome::Nothing
            }
        },
        TwitchEvent::UserNotice(n) => TwitchOutcome::Chat(
            decode_user_notice(n, timestamp, fallback_id),
        ),
        TwitchEvent::RoomState(Some(id)) => TwitchOutcome::Connected(id),
        TwitchEvent::RoomState(None) => TwitchOutcome::Nothing,
        TwitchEvent::Other => TwitchOutcome::Nothing,
    }
}


/// Why a chat message cannot be sent.
#[derive(Clone, Copy, Debug, PartialEq, Eq, Structural)]
pub enum TwitchSendError {
    /// No IRC session is running.
    NotConnected,
    /// The session is read-only.
    NotAuthenticated,
}

/// Sending needs a running, authenticated session; the message then goes to
/// the canonical channel login.
pub fn send_twitch_message(connected: bool, authenticated: bool, channel: &str) -> (r: Result<
    String,
    TwitchSendError,
>)
    ensures
        !connected ==> r == Err::<String, TwitchSendError>(TwitchSendError::NotConnected),
        connected && !authenticated ==> r == Err::<String, TwitchSendError>(
            TwitchSendError::NotAuthenticated,
        ),
        connected && authenticated ==> (r matches Ok(login) && login@ == channel_login(channel@)),
{
    if !connected {
        Err(TwitchSendError::NotConnected)
    } else if !authenticated {
        Err(TwitchSendError::NotAuthenticated)
    } else {
        Ok(twitch_channel(channel))
    }
}


/// Whether an outcome ends the session: a rejected login does, since the
/// transport cannot recover without new credentials.
pub fn ends_session(outcome: &TwitchOutcome) -> (r: bool)
    ensures
        r == (*outcome is AuthFailed),
{
    match outcome {
        TwitchOutcome::AuthFailed(_) => true,
        _ => false,
    }
}

}
