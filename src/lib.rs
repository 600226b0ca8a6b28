//! Live-chat ingestion for three streaming platforms, normalised into one
//! message model. The protocol decoding, identifier resolution, credential
//! handling and session bookkeeping live here; transports live with the caller.

pub mod json;
pub mod kick;
pub mod links;
pub mod models;
pub mod session;
pub mod text;
pub mod twitch;
pub mod twitch_api;
pub mod youtube;
pub mod youtube_send;

use vstd::prelude::*;
use crate::kick::kick_decode;
use crate::models::{lemma_fitting_spans_fit, spans_fit, spans_view};
use crate::twitch::{notice_message, notice_text, privmsg_message, TwitchPrivmsg, TwitchUserNotice};
use crate::youtube::{lemma_runs_fit, youtube_item};

verus! {

/// Every message that an adapter emits has each inline element inside its
/// body: `start <= end <= length(body)`, in code points.
pub proof fn lemma_inline_elements_fit(
    privmsg: TwitchPrivmsg,
    notice: TwitchUserNotice,
    frame: Seq<char>,
    doc: Seq<char>,
    item: Seq<char>,
    start: u64,
    ts: Seq<char>,
    fallback_id: Seq<char>,
)
    ensures
        spans_fit(privmsg_message(privmsg, ts)),
        spans_fit(notice_message(notice, ts, fallback_id)),
        kick_decode(frame, ts) matches Some(m) ==> spans_fit(m),
        youtube_item(doc, item, start, ts) matches Some(m) ==> spans_fit(m),
{
    lemma_fitting_spans_fit(spans_view(privmsg.emotes@), privmsg.message_text@.len());
    lemma_fitting_spans_fit(spans_view(notice.emotes@), notice_text(notice.message_text).len());
    lemma_runs_fit(doc, item, crate::json::len_or_zero_spec(doc, item + "/message/runs"@));
}

}
