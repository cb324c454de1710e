//! What holds of every dispatch, whatever the services answer.

use vstd::prelude::*;
use crate::config_view::{lists, UntrustedAudience, UntrustedTools};
use crate::json::Json;
use crate::operators::denial;
use crate::progress::{finalizing, Act, Action, Setup};
use crate::reactions::ChannelAckOutcome;
use crate::script::Answers;
use crate::target::opt_text;
use crate::turn::{deny_all_policy, untrusted_context, Request};

verus! {

/// Neither typing nor a request to the chat service.
pub open spec fn plain(actions: Seq<Act>) -> bool {
    forall|i: int|
        0 <= i < actions.len() ==> !(#[trigger] actions[i] is SendChat) && !(actions[i] is StopTyping)
            && !(actions[i] is StartTyping)
}

proof fn lemma_plain_sum(a: Seq<Act>, b: Seq<Act>)
    requires
        plain(a),
        plain(b),
    ensures
        plain(a + b),
{
    assert forall|i: int| 0 <= i < (a + b).len() implies !(#[trigger] (a + b)[i] is SendChat) && !((a
        + b)[i] is StopTyping) && !((a + b)[i] is StartTyping) by {
        if i < a.len() {
            assert((a + b)[i] == a[i]);
        } else {
            assert((a + b)[i] == b[i - a.len()]);
        }
    }
}

proof fn lemma_plain_lookups(setup: Setup, answers: Answers)
    ensures
        plain(setup.lookups(answers)),
{
}

proof fn lemma_plain_binding(setup: Setup, key: Seq<char>, answers: Answers)
    ensures
        plain(setup.binding_part(key, answers)),
{
    assert(plain(setup.agent_part(key, answers)));
    assert(plain(setup.label_part(key, answers)));
}

proof fn lemma_plain_model(setup: Setup, key: Seq<char>, answers: Answers)
    ensures
        plain(setup.model_part(key, answers)),
{
    assert(plain(setup.new_model_part(key, answers)));
}

proof fn lemma_plain_delivery(setup: Setup, answers: Answers)
    ensures
        plain(setup.delivery(answers)),
{
    let key = setup.session_key(answers);
    lemma_plain_binding(setup, key, answers);
    lemma_plain_model(setup, key, answers);
    assert(plain(setup.thread_part()));
}

proof fn lemma_plain_after_typing(
    setup: Setup,
    ack_key: Option<Seq<char>>,
    outcome: Option<ChannelAckOutcome>,
    text: Option<Seq<char>>,
)
    ensures
        plain(finalizing(ack_key, outcome) + setup.texting(text)),
        setup.ending(ack_key, outcome, text) == seq![Action::StopTyping] + (finalizing(
            ack_key,
            outcome,
        ) + setup.texting(text)),
{
    assert(setup.ending(ack_key, outcome, text) =~= seq![Action::StopTyping] + (finalizing(
        ack_key,
        outcome,
    ) + setup.texting(text)));
}

/// The request of a message.
pub open spec fn send_action(setup: Setup, answers: Answers) -> Act {
    Action::SendChat { params: Json::Object(setup.sent_request(answers).params()) }
}

/// The request to the chat service stands there and nowhere else.
pub open spec fn sent_only_at(actions: Seq<Act>, k: int) -> bool {
    &&& 0 <= k < actions.len()
    &&& actions[k] is SendChat
    &&& forall|i: int| 0 <= i < actions.len() && #[trigger] actions[i] is SendChat ==> i == k
}

/// Typing stops there and nowhere else.
pub open spec fn stopped_only_at(actions: Seq<Act>, k: int) -> bool {
    &&& 0 <= k < actions.len()
    &&& actions[k] is StopTyping
    &&& forall|i: int| 0 <= i < actions.len() && #[trigger] actions[i] is StopTyping ==> i == k
}

/// A message that is not refused reaches the chat service exactly once, with the request
/// that its turn calls for.
pub proof fn accepted_messages_are_sent_once(setup: Setup, answers: Answers)
    requires
        !setup.denied(answers),
    ensures
        exists|k: int| #[trigger]
            sent_only_at(setup.script(answers), k) && setup.script(answers)[k] == send_action(
                setup,
                answers,
            ),
{
    let before = seq![setup.start_typing()] + setup.lookups(answers) + setup.delivery(answers);
    let sent = send_action(setup, answers);
    let reply = setup.reply_part(setup.ack_key(answers), answers);
    let outcome = crate::reactions::early_outcome(crate::reactions::reply_json(answers.sent));
    let text = match answers.sent {
        Ok(_) => None,
        Err(error) => Some("⚠️ "@ + error@),
    };
    lemma_plain_lookups(setup, answers);
    lemma_plain_delivery(setup, answers);
    lemma_plain_after_typing(setup, setup.ack_key(answers), outcome, text);
    assert(setup.script(answers) =~= before + seq![sent] + reply);
    let k = before.len() as int;
    assert(setup.script(answers)[k] == sent);
    assert forall|i: int|
        0 <= i < setup.script(answers).len() && #[trigger] setup.script(answers)[i] is SendChat implies i
        == k by {
        if 0 < i < k {
            let rest = setup.lookups(answers) + setup.delivery(answers);
            lemma_plain_sum(setup.lookups(answers), setup.delivery(answers));
            assert(setup.script(answers)[i] == rest[i - 1]);
        }
        if i > k + 1 {
            let tail = finalizing(setup.ack_key(answers), outcome) + setup.texting(text);
            assert(setup.script(answers)[i] == reply[i - k - 1]);
            assert(reply[i - k - 1] == tail[i - k - 2]);
        }
    }
    assert(sent_only_at(setup.script(answers), k));
}

/// A refused message does nothing but look things up, stop typing, fail its reaction and
/// say why: it reaches neither the chat service nor the session store nor the web UI.
pub proof fn refused_messages_go_nowhere(setup: Setup, answers: Answers)
    requires
        setup.denied(answers),
    ensures
        setup.script(answers) == seq![setup.start_typing()] + setup.lookups(answers) + (seq![
            Action::StopTyping,
        ] + finalizing(setup.ack_key(answers), Some(ChannelAckOutcome::Failure)) + setup.texting(
            Some(denial("/sh"@, opt_text(setup.message.sender_id))),
        )),
        forall|i: int|
            0 <= i < setup.script(answers).len() ==> {
                let action = #[trigger] setup.script(answers)[i];
                !(action is SendChat) && !(action is Broadcast) && !(action is UpsertSession)
                    && !(action is SetChannelBinding) && !(action is SetAgent)
                    && !(action is PatchSession) && !(action is MarkSeen)
            },
{
}

/// The reaction of the message ends as failed.
pub open spec fn failed_reaction(answers: Answers) -> Act {
    Action::FinalizeReaction { ack_key: answers.reaction@, outcome: ChannelAckOutcome::Failure }
}

/// A refused message that carries a reaction still settles it.
pub proof fn refused_messages_settle_their_reaction(setup: Setup, answers: Answers)
    requires
        setup.denied(answers),
        setup.reacts(),
    ensures
        setup.script(answers).contains(failed_reaction(answers)),
{
    let script = setup.script(answers);
    let k = 2 + setup.lookups(answers).len() as int;
    assert(script[k] == failed_reaction(answers));
}

/// Typing starts before anything else, and stops exactly once, whatever happens.
pub proof fn typing_starts_first_and_stops_once(setup: Setup, answers: Answers)
    ensures
        setup.script(answers).len() > 0,
        setup.script(answers)[0] == setup.start_typing(),
        exists|k: int| #[trigger] stopped_only_at(setup.script(answers), k),
{
    let outcome = if setup.denied(answers) {
        Some(ChannelAckOutcome::Failure)
    } else {
        crate::reactions::early_outcome(crate::reactions::reply_json(answers.sent))
    };
    let text = if setup.denied(answers) {
        Some(denial("/sh"@, opt_text(setup.message.sender_id)))
    } else {
        match answers.sent {
            Ok(_) => None,
            Err(error) => Some("⚠️ "@ + error@),
        }
    };
    let sent = send_action(setup, answers);
    let work: Seq<Act> = if setup.denied(answers) {
        setup.lookups(answers)
    } else {
        setup.lookups(answers) + setup.delivery(answers) + seq![sent]
    };
    let tail = finalizing(setup.ack_key(answers), outcome) + setup.texting(text);
    lemma_plain_lookups(setup, answers);
    lemma_plain_delivery(setup, answers);
    lemma_plain_sum(setup.lookups(answers), setup.delivery(answers));
    lemma_plain_after_typing(setup, setup.ack_key(answers), outcome, text);
    let script = setup.script(answers);
    assert(script =~= seq![setup.start_typing()] + work + (seq![Action::StopTyping] + tail));
    let k = 1 + work.len() as int;
    assert(script[k] == Action::<Seq<char>, Json>::StopTyping);
    assert forall|i: int| 0 <= i < script.len() && #[trigger] script[i] is StopTyping implies i
        == k by {
        if 0 < i < k {
            assert(script[i] == work[i - 1]);
            if i - 1 < (setup.lookups(answers) + setup.delivery(answers)).len() {
                assert(work[i - 1] == if setup.denied(answers) {
                    setup.lookups(answers)[i - 1]
                } else {
                    (setup.lookups(answers) + setup.delivery(answers))[i - 1]
                });
            }
        }
        if i > k {
            assert(script[i] == tail[i - k - 1]);
        }
    }
    assert(stopped_only_at(script, k));
}

/// Nothing asks for a session's mode.
pub open spec fn asks_no_mode(actions: Seq<Act>) -> bool {
    forall|i: int| 0 <= i < actions.len() ==> !(#[trigger] actions[i] is QueryCommandMode)
}

proof fn lemma_no_mode_sum(a: Seq<Act>, b: Seq<Act>)
    requires
        asks_no_mode(a),
        asks_no_mode(b),
    ensures
        asks_no_mode(a + b),
{
    assert forall|i: int| 0 <= i < (a + b).len() implies !(#[trigger] (a + b)[i]
        is QueryCommandMode) by {
        if i < a.len() {
            assert((a + b)[i] == a[i]);
        } else {
            assert((a + b)[i] == b[i - a.len()]);
        }
    }
}

proof fn lemma_no_mode_ending(
    setup: Setup,
    ack_key: Option<Seq<char>>,
    outcome: Option<ChannelAckOutcome>,
    text: Option<Seq<char>>,
)
    ensures
        asks_no_mode(setup.ending(ack_key, outcome, text)),
{
}

proof fn lemma_no_mode_delivery(setup: Setup, answers: Answers)
    requires
        !setup.uses_tools(answers),
    ensures
        asks_no_mode(setup.delivery(answers)),
{
    let key = setup.session_key(answers);
    assert(asks_no_mode(setup.binding_part(key, answers))) by {
        assert(asks_no_mode(setup.agent_part(key, answers)));
        assert(asks_no_mode(setup.label_part(key, answers)));
    }
    assert(asks_no_mode(setup.model_part(key, answers))) by {
        assert(asks_no_mode(setup.new_model_part(key, answers)));
    }
    assert(asks_no_mode(setup.thread_part()));
}

/// A turn without tools never sees shell mode: the session's mode is not even asked for,
/// and the agent reads the text as it was written.
pub proof fn shell_mode_needs_tools(setup: Setup, answers: Answers)
    requires
        !setup.uses_tools(answers),
    ensures
        setup.agent_text(answers) == setup.message.text@,
        setup.sent_request(answers).text == setup.message.text@,
        asks_no_mode(setup.script(answers)),
{
    let lookups = seq![setup.start_typing()] + setup.lookups(answers);
    assert(asks_no_mode(lookups));
    if setup.denied(answers) {
        let ending = setup.ending(
            setup.ack_key(answers),
            Some(ChannelAckOutcome::Failure),
            Some(denial("/sh"@, opt_text(setup.message.sender_id))),
        );
        lemma_no_mode_ending(
            setup,
            setup.ack_key(answers),
            Some(ChannelAckOutcome::Failure),
            Some(denial("/sh"@, opt_text(setup.message.sender_id))),
        );
        lemma_no_mode_sum(lookups, ending);
    } else {
        let delivery = setup.delivery(answers);
        let sent = seq![send_action(setup, answers)];
        let reply = setup.reply_part(setup.ack_key(answers), answers);
        lemma_no_mode_delivery(setup, answers);
        lemma_no_mode_ending(
            setup,
            setup.ack_key(answers),
            crate::reactions::early_outcome(crate::reactions::reply_json(answers.sent)),
            match answers.sent {
                Ok(_) => None,
                Err(error) => Some("⚠️ "@ + error@),
            },
        );
        lemma_no_mode_sum(delivery, sent);
        lemma_no_mode_sum(delivery + sent, reply);
        lemma_no_mode_sum(lookups, delivery + sent + reply);
    }
}

/// Privilege is decided per message, never per session: whatever session the chat is in and
/// whatever mode somebody put it in, the same sender has the same rights.
pub proof fn privilege_ignores_the_session(setup: Setup, one: Answers, other: Answers)
    requires
        one.operators == other.operators,
        one.ceiling == other.ceiling,
    ensures
        setup.trusted(one) == setup.trusted(other),
        setup.uses_tools(one) == setup.uses_tools(other),
        setup.denied(one) == setup.denied(other),
{
}

/// A session that has a model keeps it.
pub proof fn sessions_keep_their_model(setup: Setup, answers: Answers)
    requires
        setup.has_model(answers),
    ensures
        forall|i: int|
            0 <= i < setup.script(answers).len() ==> {
                let action = #[trigger] setup.script(answers)[i];
                !(action is PatchSession) && !(action is PushStatus)
            },
{
    let key = setup.session_key(answers);
    let binding = setup.binding_part(key, answers);
    assert forall|i: int| 0 <= i < binding.len() implies !(#[trigger] binding[i] is PatchSession)
        && !(binding[i] is PushStatus) by {
        let agent = setup.agent_part(key, answers);
        let label = setup.label_part(key, answers);
        assert(forall|j: int|
            0 <= j < agent.len() ==> !(#[trigger] agent[j] is PatchSession)
                && !(agent[j] is PushStatus));
        assert(forall|j: int|
            0 <= j < label.len() ==> !(#[trigger] label[j] is PatchSession)
                && !(label[j] is PushStatus));
    }
}

/// The parameters that set the ceiling of a turn.
pub open spec fn is_ceiling_param(name: Seq<char>) -> bool {
    name == "_tool_audience"@ || name == "_tool_policy"@ || name == "_private_context"@
}

proof fn lemma_param_names()
    ensures
        "_tool_audience"@ != "_tool_policy"@,
        "_tool_audience"@ != "_private_context"@,
        "_tool_policy"@ != "_private_context"@,
        !is_ceiling_param("text"@),
        !is_ceiling_param("channel"@),
        !is_ceiling_param("_session_key"@),
        !is_ceiling_param("_native_channel_request"@),
        !is_ceiling_param("_thread_context"@),
        !is_ceiling_param("_audio_filename"@),
        !is_ceiling_param("_document_files"@),
        !is_ceiling_param("model"@),
{
    reveal_strlit("_tool_audience");
    reveal_strlit("_tool_policy");
    reveal_strlit("_private_context");
    reveal_strlit("text");
    reveal_strlit("channel");
    reveal_strlit("_session_key");
    reveal_strlit("_native_channel_request");
    reveal_strlit("_thread_context");
    reveal_strlit("_audio_filename");
    reveal_strlit("_document_files");
    reveal_strlit("model");
    assert("_tool_audience"@.len() == 14);
    assert("_tool_policy"@.len() == 12);
    assert("_private_context"@.len() == 16);
    assert("_session_key"@[1] != "_tool_policy"@[1]);
}

/// Every untrusted turn is sent under the ceiling of its account, and without private
/// context whatever the account sets. What the account lifts is left out.
///
/// The chat service chooses two names: the reaction keys' name must not be that of a ceiling
/// parameter, and where the reply target's name is one, nothing is said of what is left out.
pub proof fn untrusted_requests_carry_the_ceiling(request: Request)
    requires
        !request.trusted,
        !is_ceiling_param(request.ack_keys_name),
    ensures
        request.params().contains_key("_private_context"@),
        request.params()["_private_context"@] == Json::Bool(false),
        request.audience == UntrustedAudience::Public ==> request.params().contains_key(
            "_tool_audience"@,
        ) && request.params()["_tool_audience"@] == Json::Text("public"@),
        request.tools == UntrustedTools::DenyAll ==> request.params().contains_key(
            "_tool_policy"@,
        ) && request.params()["_tool_policy"@] == deny_all_policy(),
        !is_ceiling_param(request.reply_target_name) && request.audience
            == UntrustedAudience::Trusted ==> !request.params().contains_key("_tool_audience"@),
        !is_ceiling_param(request.reply_target_name) && request.tools == UntrustedTools::Policy
            ==> !request.params().contains_key("_tool_policy"@),
{
    lemma_param_names();
}

/// Whatever is sent for an untrusted turn is under the ceiling of its account, and without
/// private context; what the account lifts is left out. That rests on trust alone, not on
/// what was refused before.
pub proof fn untrusted_messages_carry_the_ceiling(setup: Setup, answers: Answers, i: int)
    requires
        !setup.trusted(answers),
        !is_ceiling_param(setup.names.ack_keys@),
        0 <= i < setup.script(answers).len(),
        setup.script(answers)[i] is SendChat,
    ensures
        setup.script(answers)[i] == send_action(setup, answers),
        ({
            let params = setup.sent_request(answers).params();
            let (audience, tools) = setup.ceiling(answers);
            let reply_target = setup.names.reply_target@;
            &&& params.contains_key("_private_context"@)
            &&& params["_private_context"@] == Json::Bool(false)
            &&& audience == UntrustedAudience::Public ==> params.contains_key("_tool_audience"@)
                && params["_tool_audience"@] == Json::Text("public"@)
            &&& tools == UntrustedTools::DenyAll ==> params.contains_key("_tool_policy"@)
                && params["_tool_policy"@] == deny_all_policy()
            &&& !is_ceiling_param(reply_target) && audience == UntrustedAudience::Trusted
                ==> !params.contains_key("_tool_audience"@)
            &&& !is_ceiling_param(reply_target) && tools == UntrustedTools::Policy
                ==> !params.contains_key("_tool_policy"@)
        }),
{
    if setup.denied(answers) {
        refused_messages_go_nowhere(setup, answers);
    } else {
        accepted_messages_are_sent_once(setup, answers);
        let k = choose|k: int| #[trigger]
            sent_only_at(setup.script(answers), k) && setup.script(answers)[k] == send_action(
                setup,
                answers,
            );
        assert(i == k);
    }
    untrusted_requests_carry_the_ceiling(setup.sent_request(answers));
}

/// Without a registry, for an account that it does not know and for a sender that is not
/// listed, the turn is untrusted; an unknown account keeps the fail-closed ceiling.
pub proof fn unknown_accounts_fail_closed(setup: Setup, answers: Answers)
    ensures
        !setup.services.channel_registry || answers.operators is None ==> !setup.trusted(answers),
        setup.message.sender_id is None ==> !setup.trusted(answers),
        answers.operators is Some && setup.message.sender_id is Some && !lists(
            answers.operators->0@,
            setup.message.sender_id->0@,
        ) ==> !setup.trusted(answers),
        setup.message.reply_to.shared_chat ==> !setup.trusted(answers),
        !setup.services.channel_registry || answers.ceiling is None ==> setup.ceiling(answers) == (
            UntrustedAudience::Public,
            UntrustedTools::DenyAll,
        ),
{
}

/// A trusted turn is sent without any ceiling.
pub proof fn trusted_requests_have_no_ceiling(request: Request)
    requires
        request.trusted,
        !is_ceiling_param(request.ack_keys_name),
        !is_ceiling_param(request.reply_target_name),
    ensures
        forall|name: Seq<char>| #[trigger]
            is_ceiling_param(name) ==> !request.params().contains_key(name),
{
    lemma_param_names();
}

/// The context of an untrusted turn never holds private context, and an account can lift
/// no more than the audience ceiling and the name policy.
pub proof fn private_context_is_not_configurable(
    members: Map<Seq<char>, Json>,
    audience: UntrustedAudience,
    tools: UntrustedTools,
)
    ensures
        untrusted_context(members, audience, tools)["_private_context"@] == Json::Bool(false),
        forall|name: Seq<char>|
            !is_ceiling_param(name) ==> #[trigger] untrusted_context(
                members,
                audience,
                tools,
            ).contains_key(name) == members.contains_key(name),
        forall|name: Seq<char>|
            !is_ceiling_param(name) && members.contains_key(name) ==> #[trigger] untrusted_context(
                members,
                audience,
                tools,
            )[name] == members[name],
{
    lemma_param_names();
}

/// The request of a message that carries a reaction names the reaction's key, so that the
/// reaction follows the message itself.
pub proof fn reactions_follow_their_message(request: Request)
    requires
        request.ack_key is Some,
        request.ack_keys_name != "_thread_context"@,
        request.ack_keys_name != "_audio_filename"@,
        request.ack_keys_name != "_document_files"@,
        request.ack_keys_name != "model"@,
    ensures
        request.params().contains_key(request.ack_keys_name),
        request.params()[request.ack_keys_name] == Json::List(
            seq![Json::Text(request.ack_key->0)],
        ),
{
}

/// The text that tells the user of an error.
pub open spec fn failure_text(setup: Setup, error: Seq<char>) -> Act {
    Action::SendText {
        account_id: setup.message.reply_to.account_id@,
        to: setup.message.reply_to.outbound_to@,
        text: "⚠️ "@ + error,
        reply_to: opt_text(setup.message.reply_to.message_id),
    }
}

/// Where the chat service fails, the reaction fails and the user is told last of all.
pub proof fn failures_reach_the_user(setup: Setup, answers: Answers)
    requires
        !setup.denied(answers),
        answers.sent is Err,
        setup.services.outbound,
    ensures
        setup.script(answers).last() == failure_text(setup, answers.sent->Err_0@),
        setup.reacts() ==> setup.script(answers)[setup.script(answers).len() - 2]
            == failed_reaction(answers),
{
}

} // verus!
