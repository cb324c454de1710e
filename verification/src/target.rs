//! Where a message came from and where its reply goes.

use vstd::prelude::*;

verus! {

/// Where a reply goes.
pub struct ChannelReplyTarget {
    /// Name of the channel type in keys and tables, such as `telegram`.
    pub channel_type: String,
    /// Name of the channel type for people.
    pub display_name: String,
    pub account_id: String,
    pub chat_id: String,
    /// Forum topic, where the chat has topics.
    pub thread_id: Option<String>,
    /// Message that the reply answers.
    pub message_id: Option<String>,
    /// Message that carries the acknowledgment reaction, where the bot was addressed.
    pub ack_message_id: Option<String>,
    /// What the outbound side takes as the recipient.
    pub outbound_to: String,
    /// False only where the channel type proves a one-to-one conversation.
    pub shared_chat: bool,
}

/// The text of an optional string.
pub open spec fn opt_text(o: Option<String>) -> Option<Seq<char>> {
    match o {
        Some(s) => Some(s@),
        None => None,
    }
}

/// The text of an optional string slice.
pub open spec fn opt_str(o: Option<&str>) -> Option<Seq<char>> {
    match o {
        Some(s) => Some(s@),
        None => None,
    }
}

/// An optional string as an optional slice.
pub(crate) fn slice_of(o: &Option<String>) -> (r: Option<&str>)
    ensures
        opt_str(r) == opt_text(*o),
{
    match o {
        Some(s) => Some(s.as_str()),
        None => None,
    }
}

/// A copy of an optional string.
pub(crate) fn copy_text(o: &Option<String>) -> (r: Option<String>)
    ensures
        opt_text(r) == opt_text(*o),
{
    match o {
        Some(s) => Some(s.clone()),
        None => None,
    }
}

/// `type:account:chat`, with the topic appended where the chat has topics.
///
/// Forum topics are known best from Telegram. That the key has this shape for every channel
/// type, and that any type's thread ID is appended in the same way, is this library's
/// reading.
pub open spec fn session_key(
    channel_type: Seq<char>,
    account_id: Seq<char>,
    chat_id: Seq<char>,
    thread_id: Option<Seq<char>>,
) -> Seq<char> {
    let chat = channel_type + ":"@ + account_id + ":"@ + chat_id;
    match thread_id {
        Some(thread) => chat + ":"@ + thread,
        None => chat,
    }
}

impl ChannelReplyTarget {
    /// The session key that the target has by itself.
    pub open spec fn own_key(self) -> Seq<char> {
        session_key(
            self.channel_type@,
            self.account_id@,
            self.chat_id@,
            opt_text(self.thread_id),
        )
    }
}

/// Default (deterministic) session key for a channel chat.
///
/// For forum topics the thread ID is appended so each topic gets its own session:
/// `telegram:bot:chat:thread`.
pub fn default_channel_session_key(target: &ChannelReplyTarget) -> (r: String)
    ensures
        r@ == target.own_key(),
{
    let mut key = target.channel_type.clone();
    key.append(":");
    key.append(target.account_id.as_str());
    key.append(":");
    key.append(target.chat_id.as_str());
    if let Some(thread) = &target.thread_id {
        key.append(":");
        key.append(thread.as_str());
    }
    key
}

/// Resolve the active session key for a channel chat: the override of the forward mapping
/// table where there is one, otherwise the deterministic key.
pub fn resolve_channel_session(target: &ChannelReplyTarget, active: Option<String>) -> (r: String)
    ensures
        r@ == match opt_text(active) {
            Some(key) => key,
            None => target.own_key(),
        },
{
    match active {
        Some(key) => key,
        None => default_channel_session_key(target),
    }
}

/// Unknown chat kinds are treated as shared. Only channel types that can prove a
/// one-to-one conversation may expose private prompt context.
pub fn is_shared_channel_target(reply_to: &ChannelReplyTarget) -> (r: bool)
    ensures
        r == reply_to.shared_chat,
{
    reply_to.shared_chat
}

/// Within one chat each topic has a session of its own, apart from the session of the
/// chat itself.
pub proof fn topics_have_their_own_session(
    channel_type: Seq<char>,
    account_id: Seq<char>,
    chat_id: Seq<char>,
    one: Option<Seq<char>>,
    other: Option<Seq<char>>,
)
    requires
        one != other,
    ensures
        session_key(channel_type, account_id, chat_id, one) != session_key(
            channel_type,
            account_id,
            chat_id,
            other,
        ),
{
    reveal_strlit(":");
    let chat = channel_type + ":"@ + account_id + ":"@ + chat_id;
    let a = session_key(channel_type, account_id, chat_id, one);
    let b = session_key(channel_type, account_id, chat_id, other);
    if a == b {
        if let (Some(x), Some(y)) = (one, other) {
            let start = (chat + ":"@).len() as int;
            assert(a.skip(start) =~= x);
            assert(b.skip(start) =~= y);
        }
    }
}

/// The session key of a target spells its chat, and its topic where it has one: the type,
/// the account and the chat, then the topic, with a colon before each but the first.
pub proof fn session_keys_spell_the_target(target: &ChannelReplyTarget, r: String)
    requires
        call_ensures(default_channel_session_key, (target,), r),
    ensures
        ({
            let chat = target.channel_type@ + ":"@ + target.account_id@ + ":"@ + target.chat_id@;
            &&& chat.is_prefix_of(r@)
            &&& target.thread_id is None ==> r@ == chat
            &&& target.thread_id is Some ==> r@.skip(chat.len() as int) == ":"@
                + target.thread_id->0@
        }),
        r@ == target.own_key(),
{
    if target.thread_id is Some {
        let chat = target.channel_type@ + ":"@ + target.account_id@ + ":"@ + target.chat_id@;
        assert(r@.skip(chat.len() as int) =~= ":"@ + target.thread_id->0@);
    }
}

/// A chat that was switched to a session is in that session; any other is in its own.
pub proof fn switched_chats_are_in_their_session(
    target: &ChannelReplyTarget,
    active: Option<String>,
    r: String,
)
    requires
        call_ensures(resolve_channel_session, (target, active), r),
    ensures
        active is Some ==> r@ == active->0@,
        active is None ==> r@ == target.own_key(),
{
}

/// An optional text is there where the string is, with the same characters.
pub proof fn optional_texts_keep_their_text(s: String, t: &str)
    ensures
        opt_text(Some(s)) == Some(s@),
        opt_text(None) is None,
        opt_str(Some(t)) == Some(t@),
        opt_str(None) is None,
{
}

} // verus!
