//! The Twitch Helix side calls: reading their answers and framing their
//! requests. (The calls themselves are plain request/response exchanges.)

use vstd::prelude::*;
use crate::json::{json_quote, json_quoted, json_str_at, json_u64_at, json_valid, titles_array, titles_json, JsonDoc};
use crate::models::{copy_strings, opt_view, TwitchEmote, TwitchUserCardData};
use crate::text::same_text;
use crate::text::{chars_of, concat2, concat3, decimal, push_decimal, push_str, string_of};

verus! {

pub const VALIDATE_URL: &'static str = "https://id.twitch.tv/oauth2/validate";

pub const USERS_URL: &'static str = "https://api.twitch.tv/helix/users";

pub const BANS_URL: &'static str = "https://api.twitch.tv/helix/moderation/bans";

pub const POLLS_URL: &'static str = "https://api.twitch.tv/helix/polls";

pub const PREDICTIONS_URL: &'static str = "https://api.twitch.tv/helix/predictions";

pub const SUBAGE_URL: &'static str = "https://api.ivr.fi/v2/twitch/subage/";

/// What a Helix side call can fail with.
#[derive(Clone, Debug)]
pub enum TwitchApiError {
    /// No access token is stored.
    NoToken,
    /// The token validation answer named no client id.
    NoClientId,
    /// The looked-up user does not exist.
    UserNotFound,
    /// The logged-in user could not be read.
    SelfNotFound,
    /// The broadcaster could not be read.
    BroadcasterNotFound,
    /// A request could not be made, or its answer not read.
    Request(String),
    /// The ban or timeout was refused.
    BanFailed(String),
    /// The poll was refused.
    PollFailed(String),
    /// The prediction was refused.
    PredictionFailed(String),
}

/// The description of each error.
pub open spec fn api_error_text(e: TwitchApiError) -> Seq<char> {
    match e {
        TwitchApiError::NoToken => "No Twitch token found"@,
        TwitchApiError::NoClientId => "Failed to get Client ID"@,
        TwitchApiError::UserNotFound => "User not found"@,
        TwitchApiError::SelfNotFound => "Failed to fetch my user info"@,
        TwitchApiError::BroadcasterNotFound => "Broadcaster not found"@,
        TwitchApiError::Request(m) => "Request failed: "@ + m@,
        TwitchApiError::BanFailed(b) => "Failed to ban/timeout: "@ + b@,
        TwitchApiError::PollFailed(b) => "Failed to create poll: "@ + b@,
        TwitchApiError::PredictionFailed(b) => "Failed to create prediction: "@ + b@,
    }
}

impl TwitchApiError {
    /// A human-readable description.
    pub fn message(&self) -> (r: String)
        ensures
            r@ == api_error_text(*self),
    {
        match self {
            TwitchApiError::NoToken => String::from_str("No Twitch token found"),
            TwitchApiError::NoClientId => String::from_str("Failed to get Client ID"),
            TwitchApiError::UserNotFound => String::from_str("User not found"),
            TwitchApiError::SelfNotFound => String::from_str("Failed to fetch my user info"),
            TwitchApiError::BroadcasterNotFound => String::from_str("Broadcaster not found"),
            TwitchApiError::Request(e) => concat2("Request failed: ", e.as_str()),
            TwitchApiError::BanFailed(b) => concat2("Failed to ban/timeout: ", b.as_str()),
            TwitchApiError::PollFailed(b) => concat2("Failed to create poll: ", b.as_str()),
            TwitchApiError::PredictionFailed(b) => concat2(
                "Failed to create prediction: ",
                b.as_str(),
            ),
        }
    }
}

/// The client id in a token validation answer.
pub fn client_id_of(body: &str) -> (r: Result<String, TwitchApiError>)
    ensures
        match r {
            Ok(id) => json_valid(body@) && json_str_at(body@, "/client_id"@) == Some(id@),
            Err(e) => (!json_valid(body@) || json_str_at(body@, "/client_id"@) is None)
                && e is NoClientId,
        },
{
    match JsonDoc::parse(body) {
        None => Err(TwitchApiError::NoClientId),
        Some(doc) => match doc.str_at("/client_id") {
            Some(id) => Ok(id),
            None => Err(TwitchApiError::NoClientId),
        },
    }
}

/// A Helix user record.
#[derive(Clone, Debug)]
pub struct HelixUser {
    pub id: String,
    pub login: String,
    pub display_name: String,
    pub profile_image_url: Option<String>,
    pub created_at: Option<String>,
}

/// Whether the first entry of a users answer has the fields every user has.
pub open spec fn has_first_user(body: Seq<char>) -> bool {
    json_valid(body) && json_str_at(body, "/data/0/id"@) is Some && json_str_at(
        body,
        "/data/0/login"@,
    ) is Some && json_str_at(body, "/data/0/display_name"@) is Some
}

/// The first user of a Helix users answer.
pub fn first_helix_user(body: &str) -> (r: Option<HelixUser>)
    ensures
        r is Some == has_first_user(body@),
        r matches Some(u) ==> Some(u.id@) == json_str_at(body@, "/data/0/id"@) && Some(u.login@)
            == json_str_at(body@, "/data/0/login"@) && Some(u.display_name@) == json_str_at(
            body@,
            "/data/0/display_name"@,
        ) && opt_view(u.profile_image_url) == json_str_at(body@, "/data/0/profile_image_url"@)
            && opt_view(u.created_at) == json_str_at(body@, "/data/0/created_at"@),
{
    let doc = match JsonDoc::parse(body) {
        Some(d) => d,
        None => return None,
    };
    let id = match doc.str_at("/data/0/id") {
        Some(v) => v,
        None => return None,
    };
    let login = match doc.str_at("/data/0/login") {
        Some(v) => v,
        None => return None,
    };
    let display_name = match doc.str_at("/data/0/display_name") {
        Some(v) => v,
        None => return None,
    };
    Some(
        HelixUser {
            id,
            login,
            display_name,
            profile_image_url: doc.str_at("/data/0/profile_image_url"),
            created_at: doc.str_at("/data/0/created_at"),
        },
    )
}

pub fn users_by_login_url(login: &str) -> (r: String)
    ensures
        r@ == USERS_URL@ + "?login="@ + login@,
{
    concat3(USERS_URL, "?login=", login)
}

pub fn subage_url(user_login: &str, channel_login: &str) -> (r: String)
    ensures
        r@ == SUBAGE_URL@ + user_login@ + "/"@ + channel_login@,
{
    let head = concat3(SUBAGE_URL, user_login, "/");
    concat2(head.as_str(), channel_login)
}

/// The ban request: a timeout when a duration is given, else a ban.
pub open spec fn ban_body(user_id: Seq<char>, reason: Seq<char>, duration: Option<u32>) -> Seq<char> {
    match duration {
        Some(d) => "{\"data\":{\"duration\":"@ + decimal(d as nat) + ",\"reason\":"@ + json_quoted(
            reason,
        ) + ",\"user_id\":"@ + json_quoted(user_id) + "}}"@,
        None => "{\"data\":{\"reason\":"@ + json_quoted(reason) + ",\"user_id\":"@ + json_quoted(
            user_id,
        ) + "}}"@,
    }
}

pub fn twitch_ban_body(user_id: &str, reason: &str, duration: Option<u32>) -> (r: String)
    ensures
        r@ == ban_body(user_id@, reason@, duration),
{
    let mut v = chars_of("{\"data\":{");
    match duration {
        Some(d) => {
            push_str(&mut v, "\"duration\":");
            push_decimal(&mut v, d as u64);
            push_str(&mut v, ",");
        },
        None => {},
    }
    push_str(&mut v, "\"reason\":");
    push_str(&mut v, json_quote(reason).as_str());
    push_str(&mut v, ",\"user_id\":");
    push_str(&mut v, json_quote(user_id).as_str());
    push_str(&mut v, "}}");
    proof {
        reveal_strlit("{\"data\":{");
        reveal_strlit("\"duration\":");
        reveal_strlit(",");
        reveal_strlit("\"reason\":");
        reveal_strlit("{\"data\":{\"duration\":");
        reveal_strlit(",\"reason\":");
        reveal_strlit("{\"data\":{\"reason\":");
    }
    assert(v@ =~= ban_body(user_id@, reason@, duration));
    string_of(&v)
}

/// The poll request.
pub open spec fn poll_body(broadcaster_id: Seq<char>, title: Seq<char>, choices: Seq<String>, duration: u32) -> Seq<char> {
    "{\"broadcaster_id\":"@ + json_quoted(broadcaster_id) + ",\"choices\":["@ + titles_json(
        choices,
        choices.len(),
    ) + "],\"duration\":"@ + decimal(duration as nat) + ",\"title\":"@ + json_quoted(title)
        + "}"@
}

pub fn twitch_poll_body(broadcaster_id: &str, title: &str, choices: &Vec<String>, duration: u32) -> (r:
    String)
    ensures
        r@ == poll_body(broadcaster_id@, title@, choices@, duration),
{
    let mut v = chars_of("{\"broadcaster_id\":");
    push_str(&mut v, json_quote(broadcaster_id).as_str());
    push_str(&mut v, ",\"choices\":");
    push_str(&mut v, titles_array(choices).as_str());
    push_str(&mut v, ",\"duration\":");
    push_decimal(&mut v, duration as u64);
    push_str(&mut v, ",\"title\":");
    push_str(&mut v, json_quote(title).as_str());
    push_str(&mut v, "}");
    proof {
        reveal_strlit(",\"choices\":");
        reveal_strlit(",\"choices\":[");
        reveal_strlit("[");
        reveal_strlit("]");
        reveal_strlit("],\"duration\":");
        reveal_strlit(",\"duration\":");
    }
    assert(v@ =~= poll_body(broadcaster_id@, title@, choices@, duration));
    string_of(&v)
}

/// The prediction request.
pub open spec fn prediction_body(broadcaster_id: Seq<char>, title: Seq<char>, outcomes: Seq<String>, window: u32) -> Seq<char> {
    "{\"broadcaster_id\":"@ + json_quoted(broadcaster_id) + ",\"outcomes\":["@ + titles_json(
        outcomes,
        outcomes.len(),
    ) + "],\"prediction_window\":"@ + decimal(window as nat) + ",\"title\":"@ + json_quoted(
        title,
    ) + "}"@
}

pub fn twitch_prediction_body(broadcaster_id: &str, title: &str, outcomes: &Vec<String>, window: u32) -> (r:
    String)
    ensures
        r@ == prediction_body(broadcaster_id@, title@, outcomes@, window),
{
    let mut v = chars_of("{\"broadcaster_id\":");
    push_str(&mut v, json_quote(broadcaster_id).as_str());
    push_str(&mut v, ",\"outcomes\":");
    push_str(&mut v, titles_array(outcomes).as_str());
    push_str(&mut v, ",\"prediction_window\":");
    push_decimal(&mut v, window as u64);
    push_str(&mut v, ",\"title\":");
    push_str(&mut v, json_quote(title).as_str());
    push_str(&mut v, "}");
    proof {
        reveal_strlit(",\"outcomes\":");
        reveal_strlit(",\"outcomes\":[");
        reveal_strlit("[");
        reveal_strlit("]");
        reveal_strlit("],\"prediction_window\":");
        reveal_strlit(",\"prediction_window\":");
    }
    assert(v@ =~= prediction_body(broadcaster_id@, title@, outcomes@, window));
    string_of(&v)
}

/// The subscription months in a sub-age answer, when they fit in `u32`.
pub open spec fn ivr_months(body: Seq<char>) -> Option<u32> {
    match json_u64_at(body, "/cumulative/months"@) {
        Some(m) => if m <= u32::MAX {
            Some(m as u32)
        } else {
            None
        },
        None => None,
    }
}

/// The user card: the user's profile, plus what a readable sub-age answer says
/// of following and subscribing (a tier means subscribed).
pub fn twitch_user_card(user: &HelixUser, subage: Option<String>) -> (r: TwitchUserCardData)
    ensures
        r.display_name@ == user.display_name@,
        opt_view(r.profile_image_url) == opt_view(user.profile_image_url),
        opt_view(r.created_at) == opt_view(user.created_at),
        match subage {
            Some(b) if json_valid(b@) => opt_view(r.followed_at) == json_str_at(b@, "/followedAt"@)
                && opt_view(r.subscription_tier) == json_str_at(b@, "/meta/tier"@)
                && r.is_subscribed == json_str_at(b@, "/meta/tier"@) is Some && r.months_subscribed
                == ivr_months(b@),
            _ => r.followed_at is None && r.subscription_tier is None && !r.is_subscribed
                && r.months_subscribed is None,
        },
{
    let mut followed_at: Option<String> = None;
    let mut subscription_tier: Option<String> = None;
    let mut months_subscribed: Option<u32> = None;
    match subage {
        Some(b) => match JsonDoc::parse(b.as_str()) {
            Some(doc) => {
                followed_at = doc.str_at("/followedAt");
                subscription_tier = doc.str_at("/meta/tier");
                months_subscribed = match doc.u64_at("/cumulative/months") {
                    Some(m) => if m <= 4294967295u64 {
                        Some(m as u32)
                    } else {
                        None
                    },
                    None => None,
                };
            },
            None => {},
        },
        None => {},
    }
    let is_subscribed = subscription_tier.is_some();
    TwitchUserCardData {
        display_name: user.display_name.clone(),
        profile_image_url: crate::models::copy_opt(&user.profile_image_url),
        created_at: crate::models::copy_opt(&user.created_at),
        followed_at,
        is_subscribed,
        subscription_tier,
        months_subscribed,
    }
}


/// An emote from a listing, with the category the listing gives and whether
/// the listing marks it locked.
pub open spec fn tag_all(v: Seq<TwitchEmote>, label: Seq<char>, locked: bool) -> Seq<(TwitchEmote, Seq<char>, bool)> {
    v.map_values(|e: TwitchEmote| (e, label, locked))
}

pub open spec fn listing(o: Option<Vec<TwitchEmote>>) -> Seq<TwitchEmote> {
    match o {
        Some(v) => v@,
        None => seq![],
    }
}

pub open spec fn id_listed(s: Seq<(TwitchEmote, Seq<char>, bool)>, id: Seq<char>) -> bool {
    exists|j: int| 0 <= j < s.len() && #[trigger] s[j].0.id@ == id
}

/// The entries of `s` whose id no earlier entry has, in order.
pub open spec fn first_by_id(s: Seq<(TwitchEmote, Seq<char>, bool)>) -> Seq<(TwitchEmote, Seq<char>, bool)>
    decreases s.len(),
{
    if s.len() == 0 {
        seq![]
    } else {
        let prev = first_by_id(s.drop_last());
        if id_listed(prev, s.last().0.id@) {
            prev
        } else {
            prev.push(s.last())
        }
    }
}

/// The category shown: the channel listing's emotes stay "Channel"; others
/// owned by the broadcaster become "Channel"; global ones "Global".
pub open spec fn final_category(t: (TwitchEmote, Seq<char>, bool), broadcaster_id: Seq<char>) -> Seq<char> {
    if t.1 == "Channel"@ {
        "Channel"@
    } else if opt_view(t.0.owner_id) == Some(broadcaster_id) {
        "Channel"@
    } else if opt_view(t.0.emote_type) == Some("global"@) {
        "Global"@
    } else {
        t.1
    }
}

/// `r` is the emote of `t` with its category and lock decided.
pub open spec fn tagged_as(r: TwitchEmote, t: (TwitchEmote, Seq<char>, bool), broadcaster_id: Seq<char>) -> bool {
    &&& r.id@ == t.0.id@
    &&& r.name@ == t.0.name@
    &&& opt_view(r.emote_type) == opt_view(t.0.emote_type)
    &&& opt_view(r.emote_set_id) == opt_view(t.0.emote_set_id)
    &&& opt_view(r.owner_id) == opt_view(t.0.owner_id)
    &&& r.format@ == t.0.format@
    &&& r.scale@ == t.0.scale@
    &&& r.theme_mode@ == t.0.theme_mode@
    &&& opt_view(r.category) == Some(final_category(t, broadcaster_id))
    &&& r.locked == (t.0.locked || t.2)
}

/// The three listings in priority order: the user's (usable), the global
/// ones, then the channel's (locked unless already listed).
pub open spec fn all_listed(
    user: Option<Vec<TwitchEmote>>,
    global: Option<Vec<TwitchEmote>>,
    channel: Option<Vec<TwitchEmote>>,
) -> Seq<(TwitchEmote, Seq<char>, bool)> {
    tag_all(listing(user), "User"@, false) + tag_all(listing(global), "Global"@, false) + tag_all(
        listing(channel),
        "Channel"@,
        true,
    )
}

pub open spec fn merged_as(r: Seq<TwitchEmote>, d: Seq<(TwitchEmote, Seq<char>, bool)>, broadcaster_id: Seq<char>) -> bool {
    r.len() == d.len() && forall|i: int| 0 <= i < r.len() ==> tagged_as(#[trigger] r[i], d[i], broadcaster_id)
}

fn opt_is(o: &Option<String>, s: &str) -> (r: bool)
    ensures
        r == (opt_view(*o) == Some(s@)),
{
    match o {
        Some(t) => same_text(t.as_str(), s),
        None => false,
    }
}

fn tagged_copy(e: &TwitchEmote, label: &str, locked: bool, broadcaster_id: &str) -> (r: TwitchEmote)
    ensures
        tagged_as(r, (*e, label@, locked), broadcaster_id@),
{
    let category = if same_text(label, "Channel") {
        String::from_str("Channel")
    } else if opt_is(&e.owner_id, broadcaster_id) {
        String::from_str("Channel")
    } else if opt_is(&e.emote_type, "global") {
        String::from_str("Global")
    } else {
        String::from_str(label)
    };
    TwitchEmote {
        id: e.id.clone(),
        name: e.name.clone(),
        emote_type: crate::models::copy_opt(&e.emote_type),
        emote_set_id: crate::models::copy_opt(&e.emote_set_id),
        owner_id: crate::models::copy_opt(&e.owner_id),
        format: copy_strings(&e.format),
        scale: copy_strings(&e.scale),
        theme_mode: copy_strings(&e.theme_mode),
        category: Some(category),
        locked: e.locked || locked,
    }
}

fn id_taken(out: &Vec<TwitchEmote>, id: &str) -> (r: bool)
    ensures
        r == exists|j: int| 0 <= j < out@.len() && #[trigger] out@[j].id@ == id@,
{
    let mut j: usize = 0;
    while j < out.len()
        invariant
            j <= out@.len(),
            forall|t: int| 0 <= t < j ==> #[trigger] out@[t].id@ != id@,
        decreases out@.len() - j,
    {
        if same_text(out[j].id.as_str(), id) {
            return true;
        }
        j = j + 1;
    }
    false
}

fn absorb(
    out: &mut Vec<TwitchEmote>,
    list: &Vec<TwitchEmote>,
    label: &str,
    locked: bool,
    broadcaster_id: &str,
    Ghost(pre): Ghost<Seq<(TwitchEmote, Seq<char>, bool)>>,
)
    requires
        merged_as(old(out)@, first_by_id(pre), broadcaster_id@),
    ensures
        merged_as(final(out)@, first_by_id(pre + tag_all(list@, label@, locked)), broadcaster_id@),
{
    let mut i: usize = 0;
    while i < list.len()
        invariant
            i <= list@.len(),
            merged_as(
                out@,
                first_by_id(pre + tag_all(list@.subrange(0, i as int), label@, locked)),
                broadcaster_id@,
            ),
        decreases list@.len() - i,
    {
        let ghost s0 = pre + tag_all(list@.subrange(0, i as int), label@, locked);
        let ghost s1 = pre + tag_all(list@.subrange(0, i + 1), label@, locked);
        assert(s1.drop_last() =~= s0);
        assert(s1.last() == (list@[i as int], label@, locked));
        let ghost d0 = first_by_id(s0);
        let e = &list[i];
        let taken = id_taken(out, e.id.as_str());
        if taken {
            proof {
                let j = choose|j: int| 0 <= j < out@.len() && #[trigger] out@[j].id@ == e.id@;
                assert(tagged_as(out@[j], d0[j], broadcaster_id@));
                assert(id_listed(d0, s1.last().0.id@));
            }
        } else {
            assert forall|j: int| 0 <= j < d0.len() implies #[trigger] d0[j].0.id@ != e.id@ by {
                assert(tagged_as(out@[j], d0[j], broadcaster_id@));
            }
            let c = tagged_copy(e, label, locked, broadcaster_id);
            let ghost before = out@;
            out.push(c);
            assert(first_by_id(s1) =~= d0.push(s1.last()));
            assert forall|t: int| 0 <= t < out@.len() implies tagged_as(
                #[trigger] out@[t],
                first_by_id(s1)[t],
                broadcaster_id@,
            ) by {
                if t < d0.len() {
                    assert(out@[t] == before[t]);
                }
            }
        }
        i = i + 1;
    }
    assert(list@.subrange(0, list@.len() as int) =~= list@);
}

/// Merges the three emote listings: the first listing of an id wins; the
/// channel listing's emotes not listed before are locked; categories follow
/// [`final_category`]. A listing that could not be fetched counts as empty.
pub fn twitch_get_user_emotes(
    user: Option<Vec<TwitchEmote>>,
    global: Option<Vec<TwitchEmote>>,
    channel: Option<Vec<TwitchEmote>>,
    broadcaster_id: &str,
) -> (r: Vec<TwitchEmote>)
    ensures
        merged_as(r@, first_by_id(all_listed(user, global, channel)), broadcaster_id@),
{
    let mut out: Vec<TwitchEmote> = Vec::new();
    let empty: Vec<TwitchEmote> = Vec::new();
    let ghost s0: Seq<(TwitchEmote, Seq<char>, bool)> = seq![];
    assert(first_by_id(s0) =~= seq![]);
    let ul = match &user {
        Some(v) => v,
        None => &empty,
    };
    let gl = match &global {
        Some(v) => v,
        None => &empty,
    };
    let cl = match &channel {
        Some(v) => v,
        None => &empty,
    };
    absorb(&mut out, ul, "User", false, broadcaster_id, Ghost(s0));
    let ghost s1 = s0 + tag_all(ul@, "User"@, false);
    absorb(&mut out, gl, "Global", false, broadcaster_id, Ghost(s1));
    let ghost s2 = s1 + tag_all(gl@, "Global"@, false);
    absorb(&mut out, cl, "Channel", true, broadcaster_id, Ghost(s2));
    let ghost s3 = s2 + tag_all(cl@, "Channel"@, true);
    assert(s3 =~= all_listed(user, global, channel));
    out
}


pub const USER_EMOTES_URL: &'static str = "https://api.twitch.tv/helix/chat/emotes/user?user_id=";

pub const GLOBAL_EMOTES_URL: &'static str = "https://api.twitch.tv/helix/chat/emotes/global";

pub const CHANNEL_EMOTES_URL: &'static str = "https://api.twitch.tv/helix/chat/emotes?broadcaster_id=";

pub fn user_emotes_url(user_id: &str) -> (r: String)
    ensures
        r@ == USER_EMOTES_URL@ + user_id@,
{
    concat2(USER_EMOTES_URL, user_id)
}

pub fn channel_emotes_url(broadcaster_id: &str) -> (r: String)
    ensures
        r@ == CHANNEL_EMOTES_URL@ + broadcaster_id@,
{
    concat2(CHANNEL_EMOTES_URL, broadcaster_id)
}

/// The user id in a token validation answer, or `fallback` when it names none.
pub fn validated_user_id(body: &str, fallback: &str) -> (r: String)
    ensures
        json_valid(body@) && json_str_at(body@, "/user_id"@) is Some ==> Some(r@) == json_str_at(
            body@,
            "/user_id"@,
        ),
        !(json_valid(body@) && json_str_at(body@, "/user_id"@) is Some) ==> r@ == fallback@,
{
    match JsonDoc::parse(body) {
        Some(doc) => doc.str_or("/user_id", fallback),
        None => String::from_str(fallback),
    }
}

}
