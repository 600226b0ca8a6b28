//! The platform-independent message model that every adapter produces.

use vstd::prelude::*;

verus! {

#[derive(Clone, Copy, Debug, PartialEq, Eq, Structural)]
pub enum Platform {
    Twitch,
    YouTube,
    Kick,
}

/// An emote or emoji span inside a message body: `start..end` in code points.
#[derive(Clone, Debug)]
pub struct Emote {
    pub id: String,
    pub code: String,
    pub start: usize,
    pub end: usize,
}

/// What an [`Emote`] denotes.
pub struct SpanView {
    pub id: Seq<char>,
    pub code: Seq<char>,
    pub start: nat,
    pub end: nat,
}

impl View for Emote {
    type V = SpanView;

    open spec fn view(&self) -> SpanView {
        SpanView { id: self.id@, code: self.code@, start: self.start as nat, end: self.end as nat }
    }
}

impl Emote {
    pub fn duplicate(&self) -> (r: Emote)
        ensures
            r@ == self@,
    {
        Emote { id: self.id.clone(), code: self.code.clone(), start: self.start, end: self.end }
    }
}

/// One normalised chat event.
#[derive(Clone, Debug)]
pub struct ChatMessage {
    pub id: String,
    pub platform: Platform,
    pub username: String,
    pub message: String,
    pub color: Option<String>,
    pub badges: Vec<String>,
    pub is_mod: bool,
    pub is_vip: bool,
    pub is_member: bool,
    pub timestamp: String,
    pub emotes: Vec<Emote>,
    /// `"chat"` for ordinary chat, `"sub"` for system events.
    pub msg_type: String,
    pub system_message: Option<String>,
}

pub struct MessageView {
    pub id: Seq<char>,
    pub platform: Platform,
    pub username: Seq<char>,
    pub message: Seq<char>,
    pub color: Option<Seq<char>>,
    pub badges: Seq<Seq<char>>,
    pub is_mod: bool,
    pub is_vip: bool,
    pub is_member: bool,
    pub timestamp: Seq<char>,
    pub emotes: Seq<SpanView>,
    pub msg_type: Seq<char>,
    pub system_message: Option<Seq<char>>,
}

pub open spec fn opt_view(o: Option<String>) -> Option<Seq<char>> {
    match o {
        Some(s) => Some(s@),
        None => None,
    }
}

pub open spec fn strings_view(v: Seq<String>) -> Seq<Seq<char>> {
    v.map_values(|s: String| s@)
}

pub open spec fn spans_view(v: Seq<Emote>) -> Seq<SpanView> {
    v.map_values(|e: Emote| e@)
}

impl View for ChatMessage {
    type V = MessageView;

    open spec fn view(&self) -> MessageView {
        MessageView {
            id: self.id@,
            platform: self.platform,
            username: self.username@,
            message: self.message@,
            color: opt_view(self.color),
            badges: strings_view(self.badges@),
            is_mod: self.is_mod,
            is_vip: self.is_vip,
            is_member: self.is_member,
            timestamp: self.timestamp@,
            emotes: spans_view(self.emotes@),
            msg_type: self.msg_type@,
            system_message: opt_view(self.system_message),
        }
    }
}

/// Every span lies inside a body of `n` code points.
pub open spec fn spans_within(es: Seq<SpanView>, n: nat) -> bool {
    forall|i: int| 0 <= i < es.len() ==> #[trigger] es[i].start <= es[i].end && es[i].end <= n
}

/// The inline elements of `m` all lie inside its body.
pub open spec fn spans_fit(m: MessageView) -> bool {
    spans_within(m.emotes, m.message.len())
}

pub fn chat_kind() -> (r: String)
    ensures
        r@ == "chat"@,
{
    String::from_str("chat")
}

pub fn event_kind() -> (r: String)
    ensures
        r@ == "sub"@,
{
    String::from_str("sub")
}

/// A copy of a list of strings.
pub fn copy_strings(v: &Vec<String>) -> (r: Vec<String>)
    ensures
        r@ == v@,
{
    let mut r: Vec<String> = Vec::new();
    let mut i: usize = 0;
    while i < v.len()
        invariant
            i <= v@.len(),
            r@ == v@.subrange(0, i as int),
        decreases v@.len() - i,
    {
        r.push(v[i].clone());
        i = i + 1;
        assert(r@ =~= v@.subrange(0, i as int));
    }
    assert(v@.subrange(0, v@.len() as int) =~= v@);
    r
}

/// Profile data shown on a Twitch user card.
#[derive(Clone, Debug)]
pub struct TwitchUserCardData {
    pub display_name: String,
    pub profile_image_url: Option<String>,
    pub created_at: Option<String>,
    pub followed_at: Option<String>,
    pub is_subscribed: bool,
    pub subscription_tier: Option<String>,
    pub months_subscribed: Option<u32>,
}

/// One emote offered to the user by the Twitch emote listing.
#[derive(Clone, Debug)]
pub struct TwitchEmote {
    pub id: String,
    pub name: String,
    pub emote_type: Option<String>,
    pub emote_set_id: Option<String>,
    pub owner_id: Option<String>,
    pub format: Vec<String>,
    pub scale: Vec<String>,
    pub theme_mode: Vec<String>,
    /// `"User"`, `"Global"` or `"Channel"`.
    pub category: Option<String>,
    pub locked: bool,
}

/// The body of a Twitch emote listing response.
#[derive(Clone, Debug)]
pub struct UserEmotesResponse {
    pub data: Vec<TwitchEmote>,
}


/// Whether `name` is among `badges`.
pub fn has_badge(badges: &Vec<String>, name: &str) -> (r: bool)
    ensures
        r == strings_view(badges@).contains(name@),
{
    let mut i: usize = 0;
    while i < badges.len()
        invariant
            i <= badges@.len(),
            forall|t: int| 0 <= t < i ==> badges@[t]@ != name@,
        decreases badges@.len() - i,
    {
        if crate::text::same_text(badges[i].as_str(), name) {
            assert(strings_view(badges@)[i as int] == name@);
            return true;
        }
        i = i + 1;
    }
    assert forall|t: int| 0 <= t < strings_view(badges@).len() implies strings_view(badges@)[t]
        != name@ by {
        assert(strings_view(badges@)[t] == badges@[t]@);
    }
    false
}


pub open spec fn span_fits(e: SpanView, n: nat) -> bool {
    e.start <= e.end && e.end <= n
}

/// The spans of `es` that lie inside a body of `n` code points, in order.
pub open spec fn fitting_spans(es: Seq<SpanView>, n: nat) -> Seq<SpanView>
    decreases es.len(),
{
    if es.len() == 0 {
        seq![]
    } else {
        let prev = fitting_spans(es.drop_last(), n);
        if span_fits(es.last(), n) {
            prev.push(es.last())
        } else {
            prev
        }
    }
}

/// Keeps the emotes that lie inside a body of `n` code points.
pub fn keep_fitting(es: &Vec<Emote>, n: usize) -> (r: Vec<Emote>)
    ensures
        spans_view(r@) == fitting_spans(spans_view(es@), n as nat),
        spans_within(spans_view(r@), n as nat),
{
    let mut out: Vec<Emote> = Vec::new();
    let mut i: usize = 0;
    while i < es.len()
        invariant
            i <= es@.len(),
            spans_view(out@) == fitting_spans(spans_view(es@.subrange(0, i as int)), n as nat),
            spans_within(spans_view(out@), n as nat),
        decreases es@.len() - i,
    {
        let e = &es[i];
        let ghost pre = spans_view(es@.subrange(0, i as int));
        let ghost cur = spans_view(es@.subrange(0, i + 1));
        assert(cur.drop_last() =~= pre);
        assert(cur.last() == es@[i as int]@);
        let ghost before = out@;
        if e.start <= e.end && e.end <= n {
            out.push(e.duplicate());
            assert(spans_view(out@) =~= spans_view(before).push(es@[i as int]@));
        }
        i = i + 1;
    }
    assert(es@.subrange(0, es@.len() as int) =~= es@);
    out
}


/// Kept spans always lie inside the body.
pub proof fn lemma_fitting_spans_fit(es: Seq<SpanView>, n: nat)
    ensures
        spans_within(fitting_spans(es, n), n),
    decreases es.len(),
{
    if es.len() > 0 {
        lemma_fitting_spans_fit(es.drop_last(), n);
    }
}


/// A copy of an optional string.
pub fn copy_opt(o: &Option<String>) -> (r: Option<String>)
    ensures
        opt_view(r) == opt_view(*o),
{
    match o {
        Some(s) => Some(s.clone()),
        None => None,
    }
}

}
