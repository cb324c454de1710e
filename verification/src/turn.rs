//! The JSON documents of a turn: what the chat service is sent, and what the web UI and
//! the session store are told.

use serde_json::Value;
use vstd::prelude::*;
use crate::config_view::{UntrustedAudience, UntrustedTools};
use crate::json;
use crate::json::{json_all, json_of, member, opt_json, text_of, writable_members, Json};
use crate::text;

verus! {

/// A name policy that denies every tool.
pub open spec fn deny_all_policy() -> Json {
    Json::Object(map!["deny"@ => Json::List(seq![Json::Text("*"@)])])
}

/// The members of an untrusted turn's request: the audience ceiling and the name policy as
/// the account sets them, and never any private context.
pub open spec fn untrusted_context(
    members: Map<Seq<char>, Json>,
    audience: UntrustedAudience,
    tools: UntrustedTools,
) -> Map<Seq<char>, Json> {
    let limited = if audience == UntrustedAudience::Public {
        members.insert("_tool_audience"@, Json::Text("public"@))
    } else {
        members
    };
    let denied = if tools == UntrustedTools::DenyAll {
        limited.insert("_tool_policy"@, deny_all_policy())
    } else {
        limited
    };
    denied.insert("_private_context"@, Json::Bool(false))
}

/// A JSON string.
fn text_item(text: &str) -> (r: Value)
    ensures
        json_of(r) == Json::Text(text@),
{
    json::text_value(text.to_owned())
}

/// A JSON array of one string.
fn single_text(text: &str) -> (r: Value)
    ensures
        json_of(r) == Json::List(seq![Json::Text(text@)]),
{
    let mut items: Vec<Value> = Vec::new();
    items.push(text_item(text));
    assert(json_all(items@) =~= seq![Json::Text(text@)]);
    json::list_value(items)
}

/// Apply the untrusted channel context at the account's configured ceiling. The defaults
/// reproduce [`apply_untrusted_channel_context`] exactly.
///
/// `_private_context` is deliberately not configurable: owner memory, profile and project
/// context describe the owner rather than the conversation, so a room with other people in
/// it never receives them.
pub fn apply_untrusted_channel_context_with(
    params: &mut Value,
    audience: UntrustedAudience,
    tools: UntrustedTools,
)
    requires
        json_of(*old(params)) is Object || json_of(*old(params)) is Null,
    ensures
        json_of(*final(params)) == Json::Object(
            untrusted_context(writable_members(json_of(*old(params))), audience, tools),
        ),
{
    if audience == UntrustedAudience::Public {
        json::set_member(params, "_tool_audience", text_item("public"));
    }
    if tools == UntrustedTools::DenyAll {
        let mut policy = json::object_value();
        json::set_member(&mut policy, "deny", single_text("*"));
        assert(json_of(policy) == deny_all_policy());
        json::set_member(params, "_tool_policy", policy);
    }
    json::set_member(params, "_private_context", json::bool_value(false));
}

/// Apply the fail-closed context used for every untrusted channel turn.
///
/// The audience ceiling excludes trusted tools, while the deny-all name policy also
/// removes explicitly public tools. Configured policies may narrow this context further
/// but cannot widen it.
pub fn apply_untrusted_channel_context(params: &mut Value)
    requires
        json_of(*old(params)) is Object || json_of(*old(params)) is Null,
    ensures
        json_of(*final(params)) == Json::Object(
            untrusted_context(
                writable_members(json_of(*old(params))),
                UntrustedAudience::Public,
                UntrustedTools::DenyAll,
            ),
        ),
{
    apply_untrusted_channel_context_with(
        params,
        UntrustedAudience::default(),
        UntrustedTools::default(),
    );
}

/// What the web UI is told of a channel user's message.
pub open spec fn user_message_event(
    text: Seq<char>,
    channel: Json,
    session_key: Seq<char>,
) -> Json {
    Json::Object(
        map![
            "state"@ => Json::Text("channel_user"@),
            "text"@ => Json::Text(text),
            "channel"@ => channel,
            "sessionKey"@ => Json::Text(session_key),
        ],
    )
}

/// The document that tells the web UI of a channel user's message. It names no message
/// index: the message is not stored yet, so an index would be stale.
pub fn user_message_payload(text: &str, channel: &Value, session_key: &str) -> (r: Value)
    ensures
        json_of(r) == user_message_event(text@, json_of(*channel), session_key@),
{
    let mut payload = json::object_value();
    json::set_member(&mut payload, "state", text_item("channel_user"));
    json::set_member(&mut payload, "text", text_item(text));
    json::set_member(&mut payload, "channel", json::copy_value(channel));
    json::set_member(&mut payload, "sessionKey", text_item(session_key));
    payload
}

/// The change that gives a session its model.
pub open spec fn model_patch(session_key: Seq<char>, model: Seq<char>) -> Json {
    Json::Object(map!["key"@ => Json::Text(session_key), "model"@ => Json::Text(model)])
}

/// The document that gives a session its model.
pub fn session_model_patch(session_key: &str, model: &str) -> (r: Value)
    ensures
        json_of(r) == model_patch(session_key@, model@),
{
    let mut patch = json::object_value();
    json::set_member(&mut patch, "key", text_item(session_key));
    json::set_member(&mut patch, "model", text_item(model));
    patch
}

/// A message of the thread that a message answers.
pub struct ThreadMessage {
    pub is_bot: bool,
    pub text: String,
    /// Who wrote it, as the channel writes it in JSON.
    pub sender_id: Value,
    /// When it was written, as the channel writes it in JSON.
    pub timestamp: Value,
}

/// A thread message in a request.
pub open spec fn thread_item(message: ThreadMessage) -> Json {
    Json::Object(
        map![
            "role"@ => Json::Text(if message.is_bot { "assistant"@ } else { "user"@ }),
            "text"@ => Json::Text(message.text@),
            "sender_id"@ => json_of(message.sender_id),
            "timestamp"@ => json_of(message.timestamp),
        ],
    )
}

/// The thread messages in a request, in order; nothing where none could be had or there
/// are none.
pub open spec fn thread_context(messages: Option<Seq<ThreadMessage>>) -> Option<Json> {
    match messages {
        Some(list) => if list.len() == 0 {
            None
        } else {
            Some(Json::List(list.map_values(|message: ThreadMessage| thread_item(message))))
        },
        None => None,
    }
}

/// The messages of an optional list.
pub open spec fn opt_messages(messages: Option<Vec<ThreadMessage>>) -> Option<Seq<ThreadMessage>> {
    match messages {
        Some(list) => Some(list@),
        None => None,
    }
}

/// The contents of an optional value.
pub open spec fn opt_doc(value: Option<Value>) -> Option<Json> {
    match value {
        Some(v) => Some(json_of(v)),
        None => None,
    }
}

/// A thread message as JSON.
fn thread_value(message: &ThreadMessage) -> (r: Value)
    ensures
        json_of(r) == thread_item(*message),
{
    let role = if message.is_bot { "assistant" } else { "user" };
    let mut item = json::object_value();
    json::set_member(&mut item, "role", text_item(role));
    json::set_member(&mut item, "text", text_item(message.text.as_str()));
    json::set_member(&mut item, "sender_id", json::copy_value(&message.sender_id));
    json::set_member(&mut item, "timestamp", json::copy_value(&message.timestamp));
    item
}

/// The thread history of a request; `None` where the messages could not be fetched.
pub fn thread_history(messages: Option<Vec<ThreadMessage>>) -> (r: Option<Value>)
    ensures
        opt_doc(r) == thread_context(opt_messages(messages)),
{
    let list = match messages {
        Some(list) => list,
        None => {
            return None;
        },
    };
    if list.len() == 0 {
        return None;
    }
    let mut items: Vec<Value> = Vec::new();
    let mut i: usize = 0;
    while i < list.len()
        invariant
            i <= list@.len(),
            items@.len() == i,
            forall|j: int|
                0 <= j < i ==> json_of(#[trigger] items@[j]) == thread_item(list@[j]),
        decreases list@.len() - i,
    {
        items.push(thread_value(&list[i]));
        i = i + 1;
    }
    assert(json_all(items@) =~= list@.map_values(|message: ThreadMessage| thread_item(message)));
    Some(json::list_value(items))
}

/// The first model of a list that has that ID.
pub open spec fn model_with_id(models: Seq<Json>, id: Seq<char>) -> Option<Json>
    decreases models.len(),
{
    if models.len() == 0 {
        None
    } else if text_of(member(models[0], "id"@)) == Some(id) {
        Some(models[0])
    } else {
        model_with_id(models.drop_first(), id)
    }
}

/// The name of a model for people: its display name, or else its ID.
pub open spec fn display_name(model: Option<Json>, id: Seq<char>) -> Seq<char> {
    match model {
        Some(doc) => match text_of(member(doc, "displayName"@)) {
            Some(name) => name,
            None => id,
        },
        None => id,
    }
}

/// The name for people of the model with that ID in a list of models, which may be missing.
pub open spec fn listed_name(models: Option<Json>, id: Seq<char>) -> Seq<char> {
    match models {
        Some(Json::List(list)) => display_name(model_with_id(list, id), id),
        _ => id,
    }
}

/// The first model of a list, with its ID, where it has one.
pub open spec fn first_model(models: Option<Json>) -> Option<(Seq<char>, Seq<char>)> {
    match models {
        Some(Json::List(list)) => if list.len() > 0 {
            match text_of(member(list[0], "id"@)) {
                Some(id) => Some((id, display_name(Some(list[0]), id))),
                None => None,
            }
        } else {
            None
        },
        _ => None,
    }
}

/// The text of a member that is a string.
fn text_member<'a>(value: &'a Value, key: &str) -> (r: Option<&'a str>)
    ensures
        match r {
            Some(text) => text_of(member(json_of(*value), key@)) == Some(text@),
            None => text_of(member(json_of(*value), key@)) is None,
        },
{
    match json::get_member(value, key) {
        Some(found) => found.as_str(),
        None => None,
    }
}

/// The name of a model for people.
fn name_of_model(model: &Value, id: &str) -> (r: String)
    ensures
        r@ == display_name(Some(json_of(*model)), id@),
{
    match text_member(model, "displayName") {
        Some(name) => name.to_owned(),
        None => id.to_owned(),
    }
}

/// The first model of a list that has that ID.
fn find_model<'a>(list: &'a Vec<Value>, id: &str) -> (r: Option<&'a Value>)
    ensures
        opt_json(r) == model_with_id(json_all(list@), id@),
{
    let mut i: usize = 0;
    assert(json_all(list@).skip(0) =~= json_all(list@));
    while i < list.len()
        invariant
            i <= list@.len(),
            model_with_id(json_all(list@), id@) == model_with_id(json_all(list@).skip(i as int), id@),
        decreases list@.len() - i,
    {
        let model = &list[i];
        let ghost rest = json_all(list@).skip(i as int);
        assert(rest[0] == json_of(*model));
        assert(rest.drop_first() =~= json_all(list@).skip(i + 1));
        if let Some(found) = text_member(model, "id") {
            if text::same_text(found, id) {
                return Some(model);
            }
        }
        i = i + 1;
    }
    None
}

/// The name for people of the model with that ID.
pub fn model_display_name(models: Option<&Value>, id: &str) -> (r: String)
    ensures
        r@ == listed_name(opt_json(models), id@),
{
    if let Some(value) = models {
        if let Some(list) = value.as_array() {
            if let Some(model) = find_model(list, id) {
                return name_of_model(model, id);
            }
        }
    }
    id.to_owned()
}

/// The ID and the name for people of the first model.
pub fn first_listed_model(models: Option<&Value>) -> (r: Option<(String, String)>)
    ensures
        match r {
            Some((id, name)) => first_model(opt_json(models)) == Some((id@, name@)),
            None => first_model(opt_json(models)) is None,
        },
{
    if let Some(value) = models {
        if let Some(list) = value.as_array() {
            if list.len() > 0 {
                let first = &list[0];
                assert(json_all(list@)[0] == json_of(*first));
                if let Some(id) = text_member(first, "id") {
                    return Some((id.to_owned(), name_of_model(first, id)));
                }
            }
        }
    }
    None
}

/// The note that a session uses a model.
pub open spec fn model_note(name: Seq<char>) -> Seq<char> {
    "Using "@ + name + ". Use /model to change."@
}

/// The note that tells which model a session uses.
pub fn model_notice(name: &str) -> (r: String)
    ensures
        r@ == model_note(name@),
{
    text::joined("Using ", name).concat(". Use /model to change.")
}

/// The label of a channel chat's `n`-th session.
pub open spec fn session_label(display_name: Seq<char>, n: nat) -> Seq<char> {
    display_name + " "@ + text::decimal(n)
}

/// The label of the session that follows `existing` others.
pub fn next_session_label(display_name: &str, existing: usize) -> (r: String)
    requires
        existing < usize::MAX,
    ensures
        r@ == session_label(display_name@, (existing + 1) as nat),
{
    text::joined(display_name, " ").concat(text::decimal_text((existing + 1) as u64).as_str())
}

/// What the chat service is sent for a message.
pub struct ChatRequest<'a> {
    pub text: &'a str,
    pub channel: &'a Value,
    pub session_key: &'a str,
    /// Name of the parameter that carries the reply target.
    pub reply_target_name: &'a str,
    pub reply_target: &'a Value,
    pub trusted: bool,
    pub audience: UntrustedAudience,
    pub tools: UntrustedTools,
    /// Name of the parameter that carries the acknowledgment keys.
    pub ack_keys_name: &'a str,
    pub ack_key: Option<&'a str>,
    pub thread: Option<&'a Value>,
    pub audio_filename: Option<&'a str>,
    pub documents: Option<&'a Value>,
    pub model: Option<&'a str>,
}

/// The same over contents.
pub struct Request {
    pub text: Seq<char>,
    pub channel: Json,
    pub session_key: Seq<char>,
    pub reply_target_name: Seq<char>,
    pub reply_target: Json,
    pub trusted: bool,
    pub audience: UntrustedAudience,
    pub tools: UntrustedTools,
    pub ack_keys_name: Seq<char>,
    pub ack_key: Option<Seq<char>>,
    pub thread: Option<Json>,
    pub audio_filename: Option<Seq<char>>,
    pub documents: Option<Json>,
    pub model: Option<Seq<char>>,
}

/// A text as JSON, where there is one.
pub open spec fn text_json(text: Option<Seq<char>>) -> Option<Json> {
    match text {
        Some(t) => Some(Json::Text(t)),
        None => None,
    }
}

/// The members with one more, where there is one.
pub open spec fn with_member(
    members: Map<Seq<char>, Json>,
    key: Seq<char>,
    doc: Option<Json>,
) -> Map<Seq<char>, Json> {
    match doc {
        Some(found) => members.insert(key, found),
        None => members,
    }
}

impl Request {
    /// What every request says.
    pub open spec fn base(self) -> Map<Seq<char>, Json> {
        Map::<Seq<char>, Json>::empty().insert("text"@, Json::Text(self.text)).insert(
            "channel"@,
            self.channel,
        ).insert("_session_key"@, Json::Text(self.session_key)).insert(
            self.reply_target_name,
            self.reply_target,
        ).insert("_native_channel_request"@, Json::Bool(true))
    }

    /// The request under the ceiling of its turn.
    pub open spec fn limited(self) -> Map<Seq<char>, Json> {
        if self.trusted {
            self.base()
        } else {
            untrusted_context(self.base(), self.audience, self.tools)
        }
    }

    /// The whole request.
    pub open spec fn params(self) -> Map<Seq<char>, Json> {
        let acked = with_member(
            self.limited(),
            self.ack_keys_name,
            match self.ack_key {
                Some(key) => Some(Json::List(seq![Json::Text(key)])),
                None => None,
            },
        );
        let threaded = with_member(acked, "_thread_context"@, self.thread);
        let voiced = with_member(threaded, "_audio_filename"@, text_json(self.audio_filename));
        let documented = with_member(voiced, "_document_files"@, self.documents);
        with_member(documented, "model"@, text_json(self.model))
    }
}

impl<'a> ChatRequest<'a> {
    /// The request over contents.
    pub open spec fn contents(self) -> Request {
        Request {
            text: self.text@,
            channel: json_of(*self.channel),
            session_key: self.session_key@,
            reply_target_name: self.reply_target_name@,
            reply_target: json_of(*self.reply_target),
            trusted: self.trusted,
            audience: self.audience,
            tools: self.tools,
            ack_keys_name: self.ack_keys_name@,
            ack_key: crate::target::opt_str(self.ack_key),
            thread: opt_json(self.thread),
            audio_filename: crate::target::opt_str(self.audio_filename),
            documents: opt_json(self.documents),
            model: crate::target::opt_str(self.model),
        }
    }
}

/// The parameters of a request to the chat service.
pub fn chat_params(request: &ChatRequest) -> (r: Value)
    ensures
        json_of(r) == Json::Object(request.contents().params()),
{
    let mut params = json::object_value();
    json::set_member(&mut params, "text", text_item(request.text));
    json::set_member(&mut params, "channel", json::copy_value(request.channel));
    json::set_member(&mut params, "_session_key", text_item(request.session_key));
    json::set_member(
        &mut params,
        request.reply_target_name,
        json::copy_value(request.reply_target),
    );
    json::set_member(&mut params, "_native_channel_request", json::bool_value(true));
    if !request.trusted {
        apply_untrusted_channel_context_with(&mut params, request.audience, request.tools);
    }
    if let Some(key) = request.ack_key {
        json::set_member(&mut params, request.ack_keys_name, single_text(key));
    }
    if let Some(thread) = request.thread {
        json::set_member(&mut params, "_thread_context", json::copy_value(thread));
    }
    if let Some(audio_filename) = request.audio_filename {
        json::set_member(&mut params, "_audio_filename", text_item(audio_filename));
    }
    if let Some(documents) = request.documents {
        json::set_member(&mut params, "_document_files", json::copy_value(documents));
    }
    if let Some(model) = request.model {
        json::set_member(&mut params, "model", text_item(model));
    }
    params
}

/// A member of an object: there with that document, or not there at all.
pub open spec fn holds(members: Map<Seq<char>, Json>, key: Seq<char>, doc: Option<Json>) -> bool {
    match doc {
        Some(found) => members.contains_key(key) && members[key] == found,
        None => !members.contains_key(key),
    }
}

/// The untrusted context sets the audience where the account has the public one, the name
/// policy where the account denies all tools, and never lets private context in; everything
/// else stays as it was.
pub proof fn untrusted_context_limits_what_the_account_limits(
    audience: UntrustedAudience,
    tools: UntrustedTools,
    members: Map<Seq<char>, Json>,
    key: Seq<char>,
)
    ensures
        ({
            let r = untrusted_context(members, audience, tools);
            let kept = if members.contains_key(key) {
                Some(members[key])
            } else {
                None
            };
            &&& audience == UntrustedAudience::Public && key == "_tool_audience"@ ==> holds(
                r,
                key,
                Some(Json::Text("public"@)),
            )
            &&& audience == UntrustedAudience::Trusted && key == "_tool_audience"@ ==> holds(
                r,
                key,
                kept,
            )
            &&& tools == UntrustedTools::DenyAll && key == "_tool_policy"@ ==> holds(
                r,
                key,
                Some(Json::Object(map!["deny"@ => Json::List(seq![Json::Text("*"@)])])),
            )
            &&& tools == UntrustedTools::Policy && key == "_tool_policy"@ ==> holds(r, key, kept)
            &&& key == "_private_context"@ ==> holds(r, key, Some(Json::Bool(false)))
            &&& key != "_tool_audience"@ && key != "_tool_policy"@ && key != "_private_context"@
                ==> holds(r, key, kept)
        }),
{
    lemma_param_names();
}

proof fn lemma_param_names()
    ensures
        "_tool_audience"@.len() == 14,
        "_tool_policy"@.len() == 12,
        "_private_context"@.len() == 16,
        "text"@.len() == 4,
        "channel"@.len() == 7,
        "_session_key"@.len() == 12,
        "_session_key"@ != "_tool_policy"@,
        "_native_channel_request"@.len() == 23,
        "_thread_context"@.len() == 15,
        "_audio_filename"@.len() == 15,
        "_document_files"@.len() == 15,
        "_thread_context"@ != "_audio_filename"@,
        "_thread_context"@ != "_document_files"@,
        "_audio_filename"@ != "_document_files"@,
        "model"@.len() == 5,
{
    reveal_strlit("_tool_audience");
    reveal_strlit("_tool_policy");
    reveal_strlit("_private_context");
    reveal_strlit("text");
    reveal_strlit("channel");
    reveal_strlit("_session_key");
    reveal_strlit("_native_channel_request");
    reveal_strlit("_thread_context");
    reveal_strlit("_audio_filename");
    reveal_strlit("_document_files");
    reveal_strlit("model");
    assert("_session_key"@[1] != "_tool_policy"@[1]);
    assert("_thread_context"@[1] != "_audio_filename"@[1]);
    assert("_thread_context"@[1] != "_document_files"@[1]);
    assert("_audio_filename"@[1] != "_document_files"@[1]);
}

/// What the web UI is told of a message says that a channel user wrote it, what they wrote,
/// what the channel says of it and in which session it is, and nothing else.
pub proof fn web_ui_is_told_of_the_message(
    text: &str,
    channel: &Value,
    session_key: &str,
    key: Seq<char>,
    r: Value,
)
    requires
        call_ensures(user_message_payload, (text, channel, session_key), r),
    ensures
        member(json_of(r), "state"@) == Some(Json::Text("channel_user"@)),
        member(json_of(r), "text"@) == Some(Json::Text(text@)),
        member(json_of(r), "channel"@) == Some(json_of(*channel)),
        member(json_of(r), "sessionKey"@) == Some(Json::Text(session_key@)),
        key != "state"@ && key != "text"@ && key != "channel"@ && key != "sessionKey"@ ==> member(
            json_of(r),
            key,
        ) is None,
        user_message_event(text@, json_of(*channel), session_key@) == json_of(r),
{
    reveal_strlit("state");
    reveal_strlit("text");
    reveal_strlit("channel");
    reveal_strlit("sessionKey");
    assert("state"@.len() == 5 && "text"@.len() == 4 && "channel"@.len() == 7);
    assert("sessionKey"@.len() == 10);
}

/// The change that gives a session its model names the session and the model, and nothing
/// else.
pub proof fn model_patches_name_the_session_and_the_model(
    session_key: &str,
    model: &str,
    key: Seq<char>,
    r: Value,
)
    requires
        call_ensures(session_model_patch, (session_key, model), r),
    ensures
        member(json_of(r), "key"@) == Some(Json::Text(session_key@)),
        member(json_of(r), "model"@) == Some(Json::Text(model@)),
        key != "key"@ && key != "model"@ ==> member(json_of(r), key) is None,
        model_patch(session_key@, model@) == json_of(r),
{
    reveal_strlit("key");
    reveal_strlit("model");
    assert("key"@.len() == 3 && "model"@.len() == 5);
}

/// A thread in a request is all of its messages, in order, each with who wrote it, as bot or
/// as user, what they wrote, their ID and when; a thread without messages is left out.
pub proof fn threads_bring_all_their_messages(
    messages: Option<Vec<ThreadMessage>>,
    i: int,
    key: Seq<char>,
    r: Option<Value>,
)
    requires
        call_ensures(thread_history, (messages,), r),
    ensures
        messages is None || messages->0@.len() == 0 ==> r is None,
        messages is Some && messages->0@.len() > 0 ==> {
            let list = json_of(r->0);
            &&& r is Some
            &&& list is List
            &&& list->List_0.len() == messages->0@.len()
            &&& 0 <= i < messages->0@.len() ==> {
                let message = messages->0@[i];
                let item = list->List_0[i];
                &&& message.is_bot ==> member(item, "role"@) == Some(Json::Text("assistant"@))
                &&& !message.is_bot ==> member(item, "role"@) == Some(Json::Text("user"@))
                &&& member(item, "text"@) == Some(Json::Text(message.text@))
                &&& member(item, "sender_id"@) == Some(json_of(message.sender_id))
                &&& member(item, "timestamp"@) == Some(json_of(message.timestamp))
                &&& key != "role"@ && key != "text"@ && key != "sender_id"@ && key != "timestamp"@
                    ==> member(item, key) is None
            }
        },
        thread_context(opt_messages(messages)) == opt_doc(r),
{
    reveal_strlit("role");
    reveal_strlit("text");
    reveal_strlit("sender_id");
    reveal_strlit("timestamp");
    assert("role"@[0] != "text"@[0] && "sender_id"@[0] != "timestamp"@[0]);
    assert("role"@.len() == 4 && "sender_id"@.len() == 9 && "timestamp"@.len() == 9);
    assert("text"@.len() == 4);
}

/// The model of an ID is the first of the list that has it, wherever that stands.
pub proof fn search_gives_the_first_model_of_the_id(models: Seq<Json>, id: Seq<char>, i: int)
    requires
        0 <= i < models.len(),
        member(models[i], "id"@) == Some(Json::Text(id)),
        forall|j: int|
            0 <= j < i ==> #[trigger] member(models[j], "id"@) != Some(Json::Text(id)),
    ensures
        model_with_id(models, id) == Some(models[i]),
    decreases models.len(),
{
    if i > 0 {
        let rest = models.drop_first();
        assert(member(models[0], "id"@) != Some(Json::Text(id)));
        assert forall|j: int| 0 <= j < i - 1 implies #[trigger] member(rest[j], "id"@) != Some(
            Json::Text(id),
        ) by {
            assert(member(models[j + 1], "id"@) != Some(Json::Text(id)));
        }
        search_gives_the_first_model_of_the_id(rest, id, i - 1);
    }
}

/// The search for a model gives nothing where no model of the list has the ID.
pub proof fn search_gives_nothing_for_an_unlisted_model(models: Seq<Json>, id: Seq<char>)
    requires
        forall|j: int|
            0 <= j < models.len() ==> #[trigger] member(models[j], "id"@) != Some(Json::Text(id)),
    ensures
        model_with_id(models, id) is None,
    decreases models.len(),
{
    if models.len() > 0 {
        let rest = models.drop_first();
        assert(member(models[0], "id"@) != Some(Json::Text(id)));
        assert forall|j: int| 0 <= j < rest.len() implies #[trigger] member(rest[j], "id"@) != Some(
            Json::Text(id),
        ) by {
            assert(member(models[j + 1], "id"@) != Some(Json::Text(id)));
        }
        search_gives_nothing_for_an_unlisted_model(rest, id);
    }
}

/// A listed model is called by its display name where that is a string; a model without one,
/// a model that is not listed and any model where there is no list is called by its ID.
pub proof fn models_are_called_by_their_display_name(
    models: Option<&Value>,
    id: &str,
    i: int,
    name: Seq<char>,
    r: String,
)
    requires
        call_ensures(model_display_name, (models, id), r),
    ensures
        models is None || !(json_of(*models->0) is List) ==> r@ == id@,
        models is Some && json_of(*models->0) is List ==> {
            let list = json_of(*models->0)->List_0;
            &&& (forall|j: int|
                0 <= j < list.len() ==> #[trigger] member(list[j], "id"@) != Some(Json::Text(id@)))
                ==> r@ == id@
            &&& 0 <= i < list.len() && member(list[i], "id"@) == Some(Json::Text(id@)) && (forall|
                j: int,
            |
                0 <= j < i ==> #[trigger] member(list[j], "id"@) != Some(Json::Text(id@))) ==> {
                &&& member(list[i], "displayName"@) == Some(Json::Text(name)) ==> r@ == name
                &&& text_of(member(list[i], "displayName"@)) is None ==> r@ == id@
            }
        },
        listed_name(opt_json(models), id@) == r@,
{
    if models is Some && json_of(*models->0) is List {
        let list = json_of(*models->0)->List_0;
        if forall|j: int|
            0 <= j < list.len() ==> #[trigger] member(list[j], "id"@) != Some(Json::Text(id@)) {
            search_gives_nothing_for_an_unlisted_model(list, id@);
        }
        if 0 <= i < list.len() && member(list[i], "id"@) == Some(Json::Text(id@)) && (forall|j: int|
            0 <= j < i ==> #[trigger] member(list[j], "id"@) != Some(Json::Text(id@))) {
            search_gives_the_first_model_of_the_id(list, id@, i);
        }
    }
}

/// The first model is the first of the list, where it has an ID that is a string, with its
/// display name or else its ID; without a list, and where the first of it has no such ID,
/// there is none.
pub proof fn first_models_are_first_in_the_list(
    models: Option<&Value>,
    list: Seq<Json>,
    r: Option<(String, String)>,
)
    requires
        call_ensures(first_listed_model, (models,), r),
    ensures
        models is None || !(json_of(*models->0) is List) ==> r is None,
        models is Some && json_of(*models->0) == Json::List(list) ==> {
            &&& r is Some <==> list.len() > 0 && text_of(member(list[0], "id"@)) is Some
            &&& r is Some ==> member(list[0], "id"@) == Some(Json::Text((r->0).0@))
            &&& r is Some ==> match text_of(member(list[0], "displayName"@)) {
                Some(name) => (r->0).1@ == name,
                None => (r->0).1@ == (r->0).0@,
            }
        },
        match first_model(opt_json(models)) {
            Some((id, name)) => r is Some && (r->0).0@ == id && (r->0).1@ == name,
            None => r is None,
        },
{
}

/// The note on a model names it, between words that are always the same.
pub proof fn model_notes_name_the_model(name: &str, r: String)
    requires
        call_ensures(model_notice, (name,), r),
    ensures
        r@.len() == 29 + name@.len(),
        r@.take(6) == "Using "@,
        r@.subrange(6, 6 + name@.len() as int) == name@,
        r@.skip(6 + name@.len() as int) == ". Use /model to change."@,
        model_note(name@) == r@,
{
    reveal_strlit("Using ");
    reveal_strlit(". Use /model to change.");
    assert(r@.take(6) =~= "Using "@);
    assert(r@.subrange(6, 6 + name@.len() as int) =~= name@);
    assert(r@.skip(6 + name@.len() as int) =~= ". Use /model to change."@);
}

/// A new session is labelled with the channel's name and the number that follows those of
/// the sessions before it.
pub proof fn labels_number_the_sessions(display_name: &str, existing: usize, r: String)
    requires
        existing < usize::MAX,
        call_ensures(next_session_label, (display_name, existing), r),
    ensures
        display_name@.is_prefix_of(r@),
        r@.len() > display_name@.len(),
        r@[display_name@.len() as int] == ' ',
        r@.skip(display_name@.len() as int + 1) == text::decimal((existing + 1) as nat),
        session_label(display_name@, (existing + 1) as nat) == r@,
{
    reveal_strlit(" ");
    assert(r@.skip(display_name@.len() as int + 1) =~= text::decimal((existing + 1) as nat));
}

/// A name that a request uses for a parameter of its own.
pub open spec fn is_own_param(name: Seq<char>) -> bool {
    ||| name == "text"@
    ||| name == "channel"@
    ||| name == "_session_key"@
    ||| name == "_native_channel_request"@
    ||| name == "_tool_audience"@
    ||| name == "_tool_policy"@
    ||| name == "_private_context"@
    ||| name == "_thread_context"@
    ||| name == "_audio_filename"@
    ||| name == "_document_files"@
    ||| name == "model"@
}

/// The names that the chat service chooses differ from each other and from those that a
/// request uses anyway.
pub open spec fn named_apart(reply_target_name: Seq<char>, ack_keys_name: Seq<char>) -> bool {
    &&& reply_target_name != ack_keys_name
    &&& !is_own_param(reply_target_name)
    &&& !is_own_param(ack_keys_name)
}

/// A request holds what its message brings: the text, what the channel says, the session and
/// the reply target always, and each of the reaction's key, the thread, the saved audio, the
/// documents and the model where there is one and whatever else there is. An untrusted
/// request holds its ceiling besides, a trusted one none, and no request anything else.
pub proof fn requests_hold_what_the_message_brings(request: Request, key: Seq<char>)
    requires
        named_apart(request.reply_target_name, request.ack_keys_name),
    ensures
        holds(request.params(), "text"@, Some(Json::Text(request.text))),
        holds(request.params(), "channel"@, Some(request.channel)),
        holds(request.params(), "_session_key"@, Some(Json::Text(request.session_key))),
        holds(request.params(), request.reply_target_name, Some(request.reply_target)),
        holds(request.params(), "_native_channel_request"@, Some(Json::Bool(true))),
        request.ack_key is Some ==> holds(
            request.params(),
            request.ack_keys_name,
            Some(Json::List(seq![Json::Text(request.ack_key->0)])),
        ),
        request.ack_key is None ==> holds(request.params(), request.ack_keys_name, None),
        holds(request.params(), "_thread_context"@, request.thread),
        request.audio_filename is Some ==> holds(
            request.params(),
            "_audio_filename"@,
            Some(Json::Text(request.audio_filename->0)),
        ),
        request.audio_filename is None ==> holds(request.params(), "_audio_filename"@, None),
        holds(request.params(), "_document_files"@, request.documents),
        request.model is Some ==> holds(
            request.params(),
            "model"@,
            Some(Json::Text(request.model->0)),
        ),
        request.model is None ==> holds(request.params(), "model"@, None),
        !request.trusted && request.audience == UntrustedAudience::Public ==> holds(
            request.params(),
            "_tool_audience"@,
            Some(Json::Text("public"@)),
        ),
        request.trusted || request.audience == UntrustedAudience::Trusted ==> holds(
            request.params(),
            "_tool_audience"@,
            None,
        ),
        !request.trusted && request.tools == UntrustedTools::DenyAll ==> holds(
            request.params(),
            "_tool_policy"@,
            Some(Json::Object(map!["deny"@ => Json::List(seq![Json::Text("*"@)])])),
        ),
        request.trusted || request.tools == UntrustedTools::Policy ==> holds(
            request.params(),
            "_tool_policy"@,
            None,
        ),
        !request.trusted ==> holds(request.params(), "_private_context"@, Some(Json::Bool(false))),
        request.trusted ==> holds(request.params(), "_private_context"@, None),
        key != request.reply_target_name && key != request.ack_keys_name && !is_own_param(key)
            ==> holds(request.params(), key, None),
{
    lemma_param_names();
}

/// The parameters of a request hold what the request is made of, field by field.
pub proof fn params_hold_the_request(request: &ChatRequest, key: Seq<char>, r: Value)
    requires
        named_apart(request.reply_target_name@, request.ack_keys_name@),
        call_ensures(chat_params, (request,), r),
    ensures
        member(json_of(r), "text"@) == Some(Json::Text(request.text@)),
        member(json_of(r), "channel"@) == Some(json_of(*request.channel)),
        member(json_of(r), "_session_key"@) == Some(Json::Text(request.session_key@)),
        member(json_of(r), request.reply_target_name@) == Some(json_of(*request.reply_target)),
        member(json_of(r), "_native_channel_request"@) == Some(Json::Bool(true)),
        member(json_of(r), request.ack_keys_name@) == (match request.ack_key {
            Some(ack_key) => Some(Json::List(seq![Json::Text(ack_key@)])),
            None => None,
        }),
        member(json_of(r), "_thread_context"@) == (match request.thread {
            Some(thread) => Some(json_of(*thread)),
            None => None,
        }),
        member(json_of(r), "_audio_filename"@) == (match request.audio_filename {
            Some(audio_filename) => Some(Json::Text(audio_filename@)),
            None => None,
        }),
        member(json_of(r), "_document_files"@) == (match request.documents {
            Some(documents) => Some(json_of(*documents)),
            None => None,
        }),
        member(json_of(r), "model"@) == (match request.model {
            Some(model) => Some(Json::Text(model@)),
            None => None,
        }),
        member(json_of(r), "_tool_audience"@) == (if !request.trusted && request.audience
            == UntrustedAudience::Public {
            Some(Json::Text("public"@))
        } else {
            None
        }),
        member(json_of(r), "_tool_policy"@) is Some <==> !request.trusted && request.tools
            == UntrustedTools::DenyAll,
        member(json_of(r), "_private_context"@) == (if request.trusted {
            None
        } else {
            Some(Json::Bool(false))
        }),
        key != request.reply_target_name@ && key != request.ack_keys_name@ && !is_own_param(key)
            ==> member(json_of(r), key) is None,
{
    requests_hold_what_the_message_brings(request.contents(), key);
}

/// The entries of an optional list, and the contents of an optional value, are there where
/// the list and the value are.
pub proof fn optional_values_keep_their_contents(value: Value, messages: Vec<ThreadMessage>)
    ensures
        opt_doc(Some(value)) == Some(json_of(value)),
        opt_doc(None) is None,
        opt_messages(Some(messages)) == Some(messages@),
        opt_messages(None) is None,
{
}

} // verus!
