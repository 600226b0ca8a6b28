//! Authorisation entry points: the pages that start a login, and the deep
//! links through which the results come back.

use vstd::prelude::*;
use crate::text::{before_char, find, find_str, string_of, strip_both, strip_both_chars, take_until, trim_chars, trimmed, CharClass};

verus! {

pub const TWITCH_AUTHORIZE_URL: &'static str = "https://id.twitch.tv/oauth2/authorize?response_type=token&client_id=j07v9449bxjpfqx1msfnceaol2uwhx&redirect_uri=https%3A%2F%2Fheychatapp.com%2Fauth&scope=chat%3Aread+chat%3Aedit";

pub const YOUTUBE_AUTHORIZE_URL: &'static str = "https://accounts.google.com/o/oauth2/v2/auth?response_type=token&client_id=672007843378-gdj25iqn8h3eu6mp8qmqbfuvonuc2fkl.apps.googleusercontent.com&redirect_uri=https%3A%2F%2Fheychatapp.com%2Fauth&scope=https%3A%2F%2Fwww.googleapis.com%2Fauth%2Fyoutube.force-ssl+email+profile+openid";

/// The page that starts a Twitch login (implicit grant).
pub fn start_twitch_oauth() -> (r: String)
    ensures
        r@ == TWITCH_AUTHORIZE_URL@,
{
    String::from_str(TWITCH_AUTHORIZE_URL)
}

/// The page that starts a Google login with the YouTube scope (implicit grant).
pub fn start_youtube_oauth() -> (r: String)
    ensures
        r@ == YOUTUBE_AUTHORIZE_URL@,
{
    String::from_str(YOUTUBE_AUTHORIZE_URL)
}

/// What a deep link carries.
#[derive(Clone, Debug)]
pub enum DeepLink {
    /// A bearer token, delivered directly.
    AccessToken(String),
    /// An authorisation code, to be exchanged.
    Code(String),
    /// Neither.
    Ignored,
}

pub enum LinkView {
    AccessToken(Seq<char>),
    Code(Seq<char>),
    Ignored,
}

impl View for DeepLink {
    type V = LinkView;

    open spec fn view(&self) -> LinkView {
        match self {
            DeepLink::AccessToken(t) => LinkView::AccessToken(t@),
            DeepLink::Code(c) => LinkView::Code(c@),
            DeepLink::Ignored => LinkView::Ignored,
        }
    }
}

/// A parameter's value starting at `at`: up to `&`, trimmed, then without
/// surrounding double and single quotes.
pub open spec fn link_value(u: Seq<char>, at: int) -> Seq<char> {
    strip_both(
        strip_both(trimmed(before_char(u, at, '&')), CharClass::Exactly('"')),
        CharClass::Exactly('\''),
    )
}

/// A deep link's payload, trimmed and unquoted; `access_token=` takes
/// precedence over `code=`.
pub open spec fn deep_link_of(payload: Seq<char>) -> LinkView {
    let u = strip_both(trimmed(payload), CharClass::Exactly('"'));
    match find(u, "access_token="@) {
        Some(p) => LinkView::AccessToken(link_value(u, p + 13)),
        None => match find(u, "code="@) {
            Some(p) => LinkView::Code(link_value(u, p + 5)),
            None => LinkView::Ignored,
        },
    }
}

fn link_value_of(u: &Vec<char>, at: usize) -> (r: String)
    requires
        at <= u@.len(),
    ensures
        r@ == link_value(u@, at as int),
{
    let raw = take_until(u, at, '&');
    let a = strip_both_chars(&raw, CharClass::Space);
    let b = strip_both_chars(&a, CharClass::Exactly('"'));
    let c = strip_both_chars(&b, CharClass::Exactly('\''));
    string_of(&c)
}

/// Reads a deep link.
pub fn parse_deep_link(payload: &str) -> (r: DeepLink)
    ensures
        r@ == deep_link_of(payload@),
{
    let t = trim_chars(payload);
    let u = strip_both_chars(&t, CharClass::Exactly('"'));
    let _ul = u.len();
    proof {
        reveal_strlit("access_token=");
        reveal_strlit("code=");
    }
    match find_str(&u, "access_token=") {
        Some(p) => DeepLink::AccessToken(link_value_of(&u, p + 13)),
        None => match find_str(&u, "code=") {
            Some(p) => DeepLink::Code(link_value_of(&u, p + 5)),
            None => DeepLink::Ignored,
        },
    }
}

}
