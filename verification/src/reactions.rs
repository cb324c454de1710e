//! How the acknowledgment reaction of a message ends.

use serde_json::Value;
use vstd::prelude::*;
use crate::json;
use crate::json::{json_of, member, text_of, Json};
use crate::text;

verus! {

/// How a message that never ran ends its reaction.
#[derive(Debug, Clone, Copy, PartialEq, Eq, Structural)]
pub enum ChannelAckOutcome {
    Failure,
    Cancelled,
}

/// The contents of what the chat service gave back.
pub open spec fn reply_json<E>(send_result: Result<Value, E>) -> Option<Json> {
    match send_result {
        Ok(payload) => Some(json_of(payload)),
        Err(_) => None,
    }
}

/// How the reaction ends where the chat service gave back `reply`, `None` for an error,
/// before any run: a queued message keeps its reaction, and so does one whose run started.
pub open spec fn early_outcome(reply: Option<Json>) -> Option<ChannelAckOutcome> {
    match reply {
        None => Some(ChannelAckOutcome::Failure),
        Some(payload) => {
            let state = text_of(member(payload, "state"@));
            if member(payload, "queued"@) == Some(Json::Bool(true)) {
                None
            } else if member(payload, "rejected"@) == Some(Json::Bool(true)) {
                Some(ChannelAckOutcome::Failure)
            } else if state == Some("rejected"@) || state == Some("error"@) || state == Some(
                "blocked"@,
            ) {
                Some(ChannelAckOutcome::Failure)
            } else if state == Some("aborted"@) {
                Some(ChannelAckOutcome::Cancelled)
            } else {
                None
            }
        },
    }
}

/// Whether a member is `true`.
fn has_flag(value: &Value, key: &str) -> (r: bool)
    ensures
        r == (member(json_of(*value), key@) == Some(Json::Bool(true))),
{
    match json::get_member(value, key) {
        Some(found) => match found.as_bool() {
            Some(b) => b,
            None => false,
        },
        None => false,
    }
}

/// How the reaction ends where `chat.send` returned before the run executed.
pub fn early_return_outcome<E>(send_result: &Result<Value, E>) -> (r: Option<ChannelAckOutcome>)
    ensures
        r == early_outcome(reply_json(*send_result)),
{
    let payload = match send_result {
        Err(_) => {
            return Some(ChannelAckOutcome::Failure);
        },
        Ok(payload) => payload,
    };
    if has_flag(payload, "queued") {
        return None;
    }
    if has_flag(payload, "rejected") {
        return Some(ChannelAckOutcome::Failure);
    }
    match json::get_member(payload, "state") {
        Some(found) => match found.as_str() {
            Some(state) => {
                if text::same_text(state, "rejected") || text::same_text(state, "error")
                    || text::same_text(state, "blocked") {
                    Some(ChannelAckOutcome::Failure)
                } else if text::same_text(state, "aborted") {
                    Some(ChannelAckOutcome::Cancelled)
                } else {
                    None
                }
            },
            None => None,
        },
        None => None,
    }
}

/// Finalize the acknowledgment reaction only when `chat.send` returned before the run
/// executed: an error, or an `Ok` payload that carries a terminal state. Normal runs
/// finalize from the run's completion, so this leaves their reaction in place.
///
/// Gives the key of the reaction to end and how.
pub fn finalize_reaction_on_early_return<'a, E>(
    ack_key: Option<&'a String>,
    send_result: &Result<Value, E>,
) -> (r: Option<(&'a String, ChannelAckOutcome)>)
    ensures
        match r {
            Some((key, outcome)) => ack_key == Some(key) && early_outcome(reply_json(*send_result))
                == Some(outcome),
            None => ack_key is None || early_outcome(reply_json(*send_result)) is None,
        },
{
    match ack_key {
        Some(key) => match early_return_outcome(send_result) {
            Some(outcome) => Some((key, outcome)),
            None => None,
        },
        None => None,
    }
}

/// A queued message keeps its reaction, whatever else the reply says.
pub proof fn queued_messages_keep_their_reaction(payload: Json)
    requires
        member(payload, "queued"@) == Some(Json::Bool(true)),
    ensures
        early_outcome(Some(payload)) is None,
{
}

/// A state in which a run ended before it started.
pub open spec fn terminal(state: Option<Seq<char>>) -> bool {
    ||| state == Some("rejected"@)
    ||| state == Some("error"@)
    ||| state == Some("blocked"@)
    ||| state == Some("aborted"@)
}

/// A reply that is not flagged as rejected and carries no terminal state is that of a run
/// that started: its reaction stays.
pub proof fn started_runs_keep_their_reaction(payload: Json)
    requires
        member(payload, "rejected"@) != Some(Json::Bool(true)),
        !terminal(text_of(member(payload, "state"@))),
    ensures
        early_outcome(Some(payload)) is None,
{
}

/// An error, and a reply that is not queued and carries a terminal state, ends the
/// reaction: as cancelled where the run was aborted, otherwise as failed.
pub proof fn terminal_replies_end_the_reaction(payload: Json)
    requires
        member(payload, "queued"@) != Some(Json::Bool(true)),
        member(payload, "rejected"@) != Some(Json::Bool(true)),
        terminal(text_of(member(payload, "state"@))),
    ensures
        early_outcome(None) == Some(ChannelAckOutcome::Failure),
        early_outcome(Some(payload)) == Some(
            if text_of(member(payload, "state"@)) == Some("aborted"@) {
                ChannelAckOutcome::Cancelled
            } else {
                ChannelAckOutcome::Failure
            },
        ),
{
    reveal_strlit("aborted");
    reveal_strlit("rejected");
    reveal_strlit("error");
    reveal_strlit("blocked");
    assert("aborted"@[0] != "blocked"@[0]);
    assert("aborted"@.len() == 7);
    assert("rejected"@.len() == 8);
    assert("error"@.len() == 5);
}

/// A reply that is flagged as rejected, and not as queued, fails the reaction, whatever
/// state it carries.
pub proof fn rejected_messages_fail_their_reaction(payload: Json)
    requires
        member(payload, "queued"@) != Some(Json::Bool(true)),
        member(payload, "rejected"@) == Some(Json::Bool(true)),
    ensures
        early_outcome(Some(payload)) == Some(ChannelAckOutcome::Failure),
{
}

/// A reply is judged by what it holds, an error by being one.
pub proof fn replies_are_judged_by_their_contents<E>(
    send_result: &Result<Value, E>,
    r: Option<ChannelAckOutcome>,
)
    requires
        call_ensures(early_return_outcome::<E>, (send_result,), r),
    ensures
        match send_result {
            Ok(payload) => r == early_outcome(Some(json_of(*payload))),
            Err(_) => r == Some(ChannelAckOutcome::Failure),
        },
{
}

} // verus!
