//! The model and the agent that a channel session starts with.

use serde_json::Value;
use vstd::prelude::*;
use crate::json;
use crate::json::{json_all, json_of, member, members_of, opt_json, text_of, Json};
use crate::target::{opt_str, opt_text};
use crate::text;
use crate::text::{blank, trimmed};

verus! {

/// What a channel session starts with, where the config says so.
#[derive(Debug)]
pub struct ChannelSessionDefaults {
    pub model: Option<String>,
    pub agent_id: Option<String>,
}

impl Default for ChannelSessionDefaults {
    fn default() -> (r: Self)
        ensures
            r.model is None,
            r.agent_id is None,
    {
        ChannelSessionDefaults { model: None, agent_id: None }
    }
}

/// A setting: the text of a JSON string without the white space around it, unless nothing
/// is left.
pub open spec fn setting(doc: Option<Json>) -> Option<Seq<char>> {
    match text_of(doc) {
        Some(text) => if blank(text) {
            None
        } else {
            Some(trimmed(text))
        },
        None => None,
    }
}

/// A setting of a config.
pub fn config_string(value: Option<&Value>) -> (r: Option<String>)
    ensures
        opt_text(r) == setting(opt_json(value)),
{
    match value {
        Some(value) => match value.as_str() {
            Some(text) => {
                let trimmed = text::trim(text);
                if trimmed.is_empty() {
                    None
                } else {
                    Some(trimmed.to_owned())
                }
            },
            None => None,
        },
        None => None,
    }
}

/// The overrides for one target: the object under the target's ID in the object under
/// `key`.
pub open spec fn overrides_for(config: Json, key: Seq<char>, target_id: Seq<char>) -> Option<Json> {
    match member(config, key) {
        Some(overrides) => match member(overrides, target_id) {
            Some(found) => if found is Object {
                Some(found)
            } else {
                None
            },
            None => None,
        },
        None => None,
    }
}

/// A setting of the overrides for one target.
pub open spec fn override_setting(overrides: Option<Json>, name: Seq<char>) -> Option<Seq<char>> {
    match overrides {
        Some(found) => setting(member(found, name)),
        None => None,
    }
}

/// The overrides for one target.
pub fn override_map<'a>(config: &'a Value, key: &str, target_id: &str) -> (r: Option<
    &'a serde_json::Map<String, Value>,
>)
    ensures
        match r {
            Some(map) => overrides_for(json_of(*config), key@, target_id@) == Some(
                Json::Object(members_of(*map)),
            ),
            None => overrides_for(json_of(*config), key@, target_id@) is None,
        },
{
    match json::get_member(config, key) {
        Some(value) => match value.as_object() {
            Some(overrides) => match json::get_entry(overrides, target_id) {
                Some(found) => found.as_object(),
                None => None,
            },
            None => None,
        },
        None => None,
    }
}

/// A setting of the overrides for one target.
fn override_string(overrides: Option<&serde_json::Map<String, Value>>, name: &str) -> (r: Option<
    String,
>)
    ensures
        opt_text(r) == match overrides {
            Some(map) => setting(member(Json::Object(members_of(*map)), name@)),
            None => None,
        },
{
    match overrides {
        Some(map) => config_string(json::get_entry(map, name)),
        None => None,
    }
}

/// Whose overrides apply to the user: the sender, or the chat where no sender is known.
pub open spec fn override_user(chat_id: Seq<char>, sender_id: Option<Seq<char>>) -> Seq<char> {
    match sender_id {
        Some(sender) => sender,
        None => chat_id,
    }
}

/// The effective setting: user over channel over account default.
pub open spec fn effective_setting(
    config: Json,
    chat_id: Seq<char>,
    sender_id: Option<Seq<char>>,
    name: Seq<char>,
) -> Option<Seq<char>> {
    let user = override_setting(
        overrides_for(config, "user_overrides"@, override_user(chat_id, sender_id)),
        name,
    );
    let channel = override_setting(overrides_for(config, "channel_overrides"@, chat_id), name);
    if user is Some {
        user
    } else if channel is Some {
        channel
    } else {
        setting(member(config, name))
    }
}

/// The effective setting, given the user's and the channel's overrides.
fn resolve_setting(
    user: Option<&serde_json::Map<String, Value>>,
    channel: Option<&serde_json::Map<String, Value>>,
    config: &Value,
    name: &str,
) -> (r: Option<String>)
    ensures
        opt_text(r) == {
            let from_user = match user {
                Some(map) => setting(member(Json::Object(members_of(*map)), name@)),
                None => None,
            };
            let from_channel = match channel {
                Some(map) => setting(member(Json::Object(members_of(*map)), name@)),
                None => None,
            };
            if from_user is Some {
                from_user
            } else if from_channel is Some {
                from_channel
            } else {
                setting(member(json_of(*config), name@))
            }
        },
{
    match override_string(user, name) {
        Some(found) => Some(found),
        None => match override_string(channel, name) {
            Some(found) => Some(found),
            None => config_string(json::get_member(config, name)),
        },
    }
}

/// The defaults that an account's config gives a chat and a sender.
pub fn resolve_channel_session_defaults_from_config(
    config: &Value,
    chat_id: &str,
    sender_id: Option<&str>,
) -> (r: ChannelSessionDefaults)
    ensures
        opt_text(r.model) == effective_setting(
            json_of(*config),
            chat_id@,
            opt_str(sender_id),
            "model"@,
        ),
        opt_text(r.agent_id) == effective_setting(
            json_of(*config),
            chat_id@,
            opt_str(sender_id),
            "agent_id"@,
        ),
{
    let user_id = match sender_id {
        Some(sender) => sender,
        None => chat_id,
    };
    let user = override_map(config, "user_overrides", user_id);
    let channel = override_map(config, "channel_overrides", chat_id);
    ChannelSessionDefaults {
        model: resolve_setting(user, channel, config, "model"),
        agent_id: resolve_setting(user, channel, config, "agent_id"),
    }
}

/// Whether a channel of a status report is that account on that type of channel.
pub open spec fn is_account(channel: Json, account_id: Seq<char>, channel_type: Seq<char>) -> bool {
    text_of(member(channel, "account_id"@)) == Some(account_id) && text_of(
        member(channel, "type"@),
    ) == Some(channel_type)
}

/// The first channel of a list that is that account on that type of channel.
pub open spec fn first_account(
    channels: Seq<Json>,
    account_id: Seq<char>,
    channel_type: Seq<char>,
) -> Option<Json>
    decreases channels.len(),
{
    if channels.len() == 0 {
        None
    } else if is_account(channels[0], account_id, channel_type) {
        Some(channels[0])
    } else {
        first_account(channels.drop_first(), account_id, channel_type)
    }
}

/// The config of an account in a status report.
pub open spec fn account_config(
    status: Option<Json>,
    account_id: Seq<char>,
    channel_type: Seq<char>,
) -> Option<Json> {
    match status {
        Some(report) => match member(report, "channels"@) {
            Some(Json::List(channels)) => match first_account(channels, account_id, channel_type) {
                Some(channel) => member(channel, "config"@),
                None => None,
            },
            _ => None,
        },
        None => None,
    }
}

/// Whether a member is that text.
fn has_text(value: &Value, key: &str, wanted: &str) -> (r: bool)
    ensures
        r == (text_of(member(json_of(*value), key@)) == Some(wanted@)),
{
    match json::get_member(value, key) {
        Some(found) => match found.as_str() {
            Some(text) => text::same_text(text, wanted),
            None => false,
        },
        None => false,
    }
}

/// The first channel of a list that is that account on that type of channel.
fn find_account<'a>(channels: &'a Vec<Value>, account_id: &str, channel_type: &str) -> (r: Option<
    &'a Value,
>)
    ensures
        opt_json(r) == first_account(json_all(channels@), account_id@, channel_type@),
{
    let mut i: usize = 0;
    assert(json_all(channels@).skip(0) =~= json_all(channels@));
    while i < channels.len()
        invariant
            i <= channels@.len(),
            first_account(json_all(channels@), account_id@, channel_type@) == first_account(
                json_all(channels@).skip(i as int),
                account_id@,
                channel_type@,
            ),
        decreases channels@.len() - i,
    {
        let channel = &channels[i];
        let ghost rest = json_all(channels@).skip(i as int);
        assert(rest[0] == json_of(*channel));
        assert(rest.drop_first() =~= json_all(channels@).skip(i + 1));
        if has_text(channel, "account_id", account_id) && has_text(channel, "type", channel_type) {
            return Some(channel);
        }
        i = i + 1;
    }
    None
}

/// The defaults for a chat and a sender, from a status report of the channel service;
/// `None` where the service gave no report.
pub fn resolve_channel_session_defaults(
    status: Option<&Value>,
    account_id: &str,
    channel_type: &str,
    chat_id: &str,
    sender_id: Option<&str>,
) -> (r: ChannelSessionDefaults)
    ensures
        match account_config(opt_json(status), account_id@, channel_type@) {
            Some(config) => {
                &&& opt_text(r.model) == effective_setting(
                    config,
                    chat_id@,
                    opt_str(sender_id),
                    "model"@,
                )
                &&& opt_text(r.agent_id) == effective_setting(
                    config,
                    chat_id@,
                    opt_str(sender_id),
                    "agent_id"@,
                )
            },
            None => r.model is None && r.agent_id is None,
        },
{
    if let Some(report) = status {
        if let Some(listed) = json::get_member(report, "channels") {
            if let Some(channels) = listed.as_array() {
                if let Some(channel) = find_account(channels, account_id, channel_type) {
                    if let Some(config) = json::get_member(channel, "config") {
                        return resolve_channel_session_defaults_from_config(
                            config,
                            chat_id,
                            sender_id,
                        );
                    }
                }
            }
        }
    }
    ChannelSessionDefaults::default()
}

/// A user's override wins over the chat's, a chat's over the account's default.
pub proof fn narrower_settings_win(
    config: Json,
    chat_id: Seq<char>,
    sender_id: Option<Seq<char>>,
    name: Seq<char>,
)
    ensures
        ({
            let user = override_setting(
                overrides_for(config, "user_overrides"@, override_user(chat_id, sender_id)),
                name,
            );
            let channel = override_setting(
                overrides_for(config, "channel_overrides"@, chat_id),
                name,
            );
            let effective = effective_setting(config, chat_id, sender_id, name);
            &&& user is Some ==> effective == user
            &&& user is None && channel is Some ==> effective == channel
            &&& user is None && channel is None ==> effective == setting(member(config, name))
        }),
{
}

/// In a chat whose ID is the sender's, it makes no difference whether the sender is known.
pub proof fn own_chat_is_its_sender(config: Json, chat_id: Seq<char>, name: Seq<char>)
    ensures
        effective_setting(config, chat_id, Some(chat_id), name) == effective_setting(
            config,
            chat_id,
            None,
            name,
        ),
{
}

/// An effective setting is never blank, and never has white space around it.
pub proof fn settings_are_trimmed(
    config: Json,
    chat_id: Seq<char>,
    sender_id: Option<Seq<char>>,
    name: Seq<char>,
)
    ensures
        ({
            let effective = effective_setting(config, chat_id, sender_id, name);
            effective is Some ==> !blank(effective->0) && trimmed(effective->0) == effective->0
        }),
{
    lemma_setting_trimmed(member(config, name));
    if let Some(found) = overrides_for(config, "channel_overrides"@, chat_id) {
        lemma_setting_trimmed(member(found, name));
    }
    if let Some(found) = overrides_for(
        config,
        "user_overrides"@,
        override_user(chat_id, sender_id),
    ) {
        lemma_setting_trimmed(member(found, name));
    }
}

proof fn lemma_setting_trimmed(doc: Option<Json>)
    ensures
        setting(doc) is Some ==> !blank(setting(doc)->0) && trimmed(setting(doc)->0) == setting(
            doc,
        )->0,
{
    if let Some(text) = text_of(doc) {
        text::trimming_is_final(text);
    }
}

/// A setting is a JSON string that is not blank, without the white space around it; any
/// other document sets nothing.
pub proof fn settings_are_strings(value: Option<&Value>, r: Option<String>)
    requires
        call_ensures(config_string, (value,), r),
    ensures
        r is Some <==> value is Some && json_of(*value->0) is Text && !blank(
            json_of(*value->0)->Text_0,
        ),
        r is Some ==> r->0@ == trimmed(json_of(*value->0)->Text_0),
        setting(opt_json(value)) == opt_text(r),
{
}

/// The config sets `value` under `name` for one target: under `key` stands an object, in it
/// under the target's ID another, and in that under `name` a string that is not blank.
pub open spec fn sets_for(
    config: Json,
    key: Seq<char>,
    target_id: Seq<char>,
    name: Seq<char>,
    value: Seq<char>,
) -> bool {
    match member(config, key) {
        Some(overrides) => match member(overrides, target_id) {
            Some(found) => sets(found, name, value),
            None => false,
        },
        None => false,
    }
}

/// The document sets `value` under `name`: there stands a string that is not blank.
pub open spec fn sets(doc: Json, name: Seq<char>, value: Seq<char>) -> bool {
    match member(doc, name) {
        Some(Json::Text(text)) => !blank(text) && value == trimmed(text),
        _ => false,
    }
}

/// What a session starts with is what the config sets for the user; where it sets nothing
/// for the user, what it sets for the chat; where it sets nothing for either, what it sets
/// for the account; else nothing. The user is the sender, or the chat where the sender is
/// not known.
pub proof fn settings_come_from_the_narrowest_level(
    config: Json,
    chat_id: Seq<char>,
    sender_id: Option<Seq<char>>,
    name: Seq<char>,
    user_id: Seq<char>,
)
    requires
        sender_id is Some ==> user_id == sender_id->0,
        sender_id is None ==> user_id == chat_id,
    ensures
        ({
            let r = effective_setting(config, chat_id, sender_id, name);
            let user = |v: Seq<char>| sets_for(config, "user_overrides"@, user_id, name, v);
            let chat = |v: Seq<char>| sets_for(config, "channel_overrides"@, chat_id, name, v);
            let account = |v: Seq<char>| sets(config, name, v);
            &&& forall|v: Seq<char>| #[trigger] user(v) ==> r == Some(v)
            &&& forall|v: Seq<char>| #[trigger] chat(v) && (forall|u: Seq<char>| !#[trigger] user(u)) ==> r
                == Some(v)
            &&& forall|v: Seq<char>| #[trigger]
                account(v) && (forall|u: Seq<char>| !#[trigger] user(u)) && (forall|c: Seq<char>|
                    !#[trigger] chat(c)) ==> r == Some(v)
            &&& r is Some ==> user(r->0) || chat(r->0) || account(r->0)
        }),
{
    let user = |v: Seq<char>| sets_for(config, "user_overrides"@, user_id, name, v);
    let chat = |v: Seq<char>| sets_for(config, "channel_overrides"@, chat_id, name, v);
    let by_user = override_setting(overrides_for(config, "user_overrides"@, user_id), name);
    let by_chat = override_setting(overrides_for(config, "channel_overrides"@, chat_id), name);
    if by_user is Some {
        assert(user(by_user->0));
    }
    if by_chat is Some {
        assert(chat(by_chat->0));
    }
}

/// A channel of a status report belongs to an account where it says so: the account's ID and
/// its type of channel, both.
pub proof fn channels_belong_to_the_account_they_name(
    channel: Json,
    account_id: Seq<char>,
    channel_type: Seq<char>,
)
    ensures
        is_account(channel, account_id, channel_type) <==> member(channel, "account_id"@) == Some(
            Json::Text(account_id),
        ) && member(channel, "type"@) == Some(Json::Text(channel_type)),
{
}

/// The search for an account gives the first channel of the list that belongs to it,
/// wherever that stands, the last place included, and nothing only where none does.
pub proof fn search_gives_the_first_channel_of_the_account(
    channels: Seq<Json>,
    account_id: Seq<char>,
    channel_type: Seq<char>,
    i: int,
)
    requires
        0 <= i < channels.len(),
        is_account(channels[i], account_id, channel_type),
        forall|j: int| 0 <= j < i ==> !is_account(#[trigger] channels[j], account_id, channel_type),
    ensures
        first_account(channels, account_id, channel_type) == Some(channels[i]),
    decreases channels.len(),
{
    if i > 0 {
        let rest = channels.drop_first();
        assert(!is_account(channels[0], account_id, channel_type));
        assert forall|j: int| 0 <= j < i - 1 implies !is_account(
            #[trigger] rest[j],
            account_id,
            channel_type,
        ) by {
            assert(rest[j] == channels[j + 1]);
        }
        search_gives_the_first_channel_of_the_account(rest, account_id, channel_type, i - 1);
    }
}

/// The search for an account gives nothing where no channel of the list belongs to it.
pub proof fn search_gives_nothing_for_a_missing_account(
    channels: Seq<Json>,
    account_id: Seq<char>,
    channel_type: Seq<char>,
)
    requires
        forall|j: int|
            0 <= j < channels.len() ==> !is_account(#[trigger] channels[j], account_id, channel_type),
    ensures
        first_account(channels, account_id, channel_type) is None,
    decreases channels.len(),
{
    if channels.len() > 0 {
        let rest = channels.drop_first();
        assert forall|j: int| 0 <= j < rest.len() implies !is_account(
            #[trigger] rest[j],
            account_id,
            channel_type,
        ) by {
            assert(rest[j] == channels[j + 1]);
        }
        search_gives_nothing_for_a_missing_account(rest, account_id, channel_type);
    }
}

/// The defaults of a chat are those of the config of its account: the config of the first
/// channel in the status report that belongs to the account.
pub proof fn defaults_come_from_the_config_of_the_account(
    status: &Value,
    account_id: &str,
    channel_type: &str,
    chat_id: &str,
    sender_id: Option<&str>,
    channels: Seq<Json>,
    i: int,
    r: ChannelSessionDefaults,
)
    requires
        member(json_of(*status), "channels"@) == Some(Json::List(channels)),
        0 <= i < channels.len(),
        is_account(channels[i], account_id@, channel_type@),
        forall|j: int|
            0 <= j < i ==> !is_account(#[trigger] channels[j], account_id@, channel_type@),
        call_ensures(
            resolve_channel_session_defaults,
            (Some(status), account_id, channel_type, chat_id, sender_id),
            r,
        ),
    ensures
        match member(channels[i], "config"@) {
            Some(config) => opt_text(r.model) == effective_setting(
                config,
                chat_id@,
                opt_str(sender_id),
                "model"@,
            ) && opt_text(r.agent_id) == effective_setting(
                config,
                chat_id@,
                opt_str(sender_id),
                "agent_id"@,
            ),
            None => r.model is None && r.agent_id is None,
        },
{
    search_gives_the_first_channel_of_the_account(channels, account_id@, channel_type@, i);
}

/// Without a status report, without a list of channels in it, and without a channel of the
/// account in the list, a chat has no defaults.
pub proof fn unknown_accounts_have_no_defaults(
    status: Option<&Value>,
    account_id: &str,
    channel_type: &str,
    chat_id: &str,
    sender_id: Option<&str>,
    r: ChannelSessionDefaults,
)
    requires
        match status {
            Some(report) => match member(json_of(*report), "channels"@) {
                Some(Json::List(channels)) => forall|j: int|
                    0 <= j < channels.len() ==> !is_account(
                        #[trigger] channels[j],
                        account_id@,
                        channel_type@,
                    ),
                _ => true,
            },
            None => true,
        },
        call_ensures(
            resolve_channel_session_defaults,
            (status, account_id, channel_type, chat_id, sender_id),
            r,
        ),
    ensures
        r.model is None,
        r.agent_id is None,
{
    if let Some(report) = status {
        if let Some(Json::List(channels)) = member(json_of(*report), "channels"@) {
            search_gives_nothing_for_a_missing_account(channels, account_id@, channel_type@);
        }
    }
}

} // verus!
