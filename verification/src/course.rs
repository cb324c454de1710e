//! What is done for a message: which actions, when, and with what, in terms of the message,
//! the gateway's services and their answers.

use vstd::prelude::*;
use crate::config_view::{lists, UntrustedAudience, UntrustedTools};
use crate::json::{json_of, Json};
use crate::operators::denial;
use crate::progress::{
    fits, lacks_agent, Act, Action, Answer, Setup, Stage, StoredSession,
};
use crate::reactions::{early_outcome, ChannelAckOutcome};
use crate::script::{only_if, Answers};
use crate::target::opt_text;
use crate::text;
use crate::text::{blank, trimmed};
use crate::turn::{
    first_model, holds, is_own_param, listed_name, model_note, named_apart, session_label,
    thread_context, user_message_event,
};

verus! {

// What is decided.

/// A turn is trusted where the registry knows the account, the sender is identified, stands
/// in the account's list of operators and writes in a chat that is not shared; nowhere else.
pub proof fn trust_takes_a_listed_sender_in_a_direct_chat(setup: Setup, answers: Answers)
    ensures
        setup.trusted(answers) <==> {
            &&& setup.services.channel_registry
            &&& answers.operators is Some
            &&& setup.message.sender_id is Some
            &&& !blank(setup.message.sender_id->0@)
            &&& lists(answers.operators->0@, setup.message.sender_id->0@)
            &&& !setup.message.reply_to.shared_chat
        },
{
}

/// A turn has tools where it is trusted, or where the registry knows an account that leaves
/// the tools to the policy layers; nowhere else. An explicit shell command without tools is
/// refused, and nothing else is.
pub proof fn tools_take_trust_or_policy(setup: Setup, answers: Answers)
    ensures
        setup.uses_tools(answers) <==> setup.trusted(answers) || (setup.services.channel_registry
            && answers.ceiling is Some && (answers.ceiling->0).1 == UntrustedTools::Policy),
        setup.denied(answers) <==> setup.message.explicit_shell && !setup.uses_tools(answers),
{
}

/// The ceiling is the account's where the registry knows the account, else the tightest.
pub proof fn ceilings_belong_to_the_account(setup: Setup, answers: Answers)
    ensures
        setup.services.channel_registry && answers.ceiling is Some ==> setup.ceiling(answers)
            == answers.ceiling->0,
        !setup.services.channel_registry || answers.ceiling is None ==> setup.ceiling(answers) == (
            UntrustedAudience::Public,
            UntrustedTools::DenyAll,
        ),
{
}

/// The session is the one that the chat was switched to, where the store has one, else the
/// chat's own.
pub proof fn sessions_belong_to_the_chat(setup: Setup, answers: Answers)
    ensures
        setup.services.session_metadata && answers.active_session is Some ==> setup.session_key(
            answers,
        ) == answers.active_session->0@,
        !setup.services.session_metadata || answers.active_session is None ==> setup.session_key(
            answers,
        ) == setup.message.reply_to.own_key(),
{
}

/// The agent reads the text as it was written, or, where the turn has tools and the session
/// is in shell mode, what shell mode makes of it, if anything.
pub proof fn agents_read_the_text_or_what_shell_mode_makes_of_it(setup: Setup, answers: Answers)
    ensures
        ({
            let rewritten = crate::commands::shell_rewrite(setup.message.text@);
            let shell = setup.uses_tools(answers) && answers.command_mode;
            &&& shell && rewritten is Some ==> setup.agent_text(answers) == rewritten->0
            &&& !shell || rewritten is None ==> setup.agent_text(answers) == setup.message.text@
        }),
{
}

/// A request names the model that the channel asks for. Where the channel asks for none, it
/// names none for a session that has a model, and the first registered one for any other.
pub proof fn models_are_asked_for_or_first(setup: Setup, answers: Answers)
    ensures
        setup.has_model(answers) <==> setup.services.session_metadata && answers.model_session
            is Some && (answers.model_session->0).has_model,
        setup.message.model is Some ==> setup.model(answers) == Some(setup.message.model->0@),
        setup.message.model is None && setup.has_model(answers) ==> setup.model(answers) is None,
        setup.message.model is None && !setup.has_model(answers) && answers.models is Some ==> (
        match first_model(Some(json_of(answers.models->0))) {
            Some((id, _)) => setup.model(answers) == Some(id),
            None => setup.model(answers) is None,
        }),
        setup.message.model is None && !setup.has_model(answers) && answers.models is None
            ==> setup.model(answers) is None,
{
}

/// A session without an agent gets the one that the channel asks for, where it is the main
/// agent, where the store knows it and where there is no store; else the store's default, or
/// the main agent where the store has none to give.
pub proof fn new_agents_are_asked_for_or_the_default(setup: Setup, answers: Answers)
    ensures
        ({
            let asked = setup.message.agent_id is Some && !blank(setup.message.agent_id->0@);
            let wanted = trimmed(setup.message.agent_id->0@);
            let stored = setup.services.persona_store;
            let granted = asked && (wanted == "main"@ || answers.agent_known || !stored);
            &&& granted ==> setup.new_agent(answers) == wanted
            &&& !granted && stored && answers.default_agent is Some ==> setup.new_agent(answers)
                == answers.default_agent->0@
            &&& !granted && (!stored || answers.default_agent is None) ==> setup.new_agent(answers)
                == "main"@
        }),
{
}

/// A stored session lacks an agent where it has none, or a blank one.
pub proof fn sessions_lack_agents_that_are_blank(session: StoredSession)
    ensures
        session.agent_id is None ==> lacks_agent(session),
        session.agent_id is Some ==> (lacks_agent(session) <==> text::all_white(
            session.agent_id->0@,
        )),
{
    if session.agent_id is Some {
        text::blank_means_white_space(session.agent_id->0@);
    }
}

// What is done.

/// The kinds of actions, in the order in which they are done. A session is loaded at more
/// than one place.
pub open spec fn kind(action: Act) -> nat {
    match action {
        Action::StartTyping { .. } => 0,
        Action::FindActiveSession { .. } => 1,
        Action::RegisterReaction { .. } => 2,
        Action::LoadOperators { .. } => 3,
        Action::LoadCeiling { .. } => 4,
        Action::QueryCommandMode { .. } => 5,
        Action::Broadcast { .. } => 6,
        Action::CountChannelSessions { .. } => 7,
        Action::UpsertSession { .. } => 8,
        Action::SetChannelBinding { .. } => 9,
        Action::LoadDefaultAgent => 10,
        Action::FindAgent { .. } => 11,
        Action::SetAgent { .. } => 12,
        Action::MarkSeen { .. } => 13,
        Action::FetchThread { .. } => 14,
        Action::ListModels => 15,
        Action::PatchSession { .. } => 16,
        Action::PushStatus { .. } => 17,
        Action::SendChat { .. } => 18,
        Action::StopTyping => 19,
        Action::FinalizeReaction { .. } => 20,
        Action::SendText { .. } => 21,
        Action::LoadSession { .. } => 22,
    }
}

/// The action is done there, and nothing of its kind anywhere else.
pub open spec fn once_at(actions: Seq<Act>, action: Act, k: int) -> bool {
    &&& 0 <= k < actions.len()
    &&& actions[k] == action
    &&& forall|i: int| 0 <= i < actions.len() && kind(#[trigger] actions[i]) == kind(action) ==> i
        == k
}

/// Nothing of that kind is done.
pub open spec fn never(actions: Seq<Act>, sort: nat) -> bool {
    forall|i: int| 0 <= i < actions.len() ==> kind(#[trigger] actions[i]) != sort
}

/// The action is done exactly once, and nothing else of its kind, where the condition holds;
/// elsewhere nothing of its kind is done.
pub open spec fn just(actions: Seq<Act>, condition: bool, action: Act) -> bool {
    if condition {
        exists|k: int| once_at(actions, action, k)
    } else {
        never(actions, kind(action))
    }
}

/// All of the actions are of these kinds, or load a session.
pub open spec fn spans(actions: Seq<Act>, low: nat, high: nat) -> bool {
    forall|i: int|
        0 <= i < actions.len() ==> low <= kind(#[trigger] actions[i]) < high || kind(actions[i])
            == 22
}

proof fn lemma_spans_sum(a: Seq<Act>, b: Seq<Act>, low: nat, middle: nat, high: nat)
    requires
        spans(a, low, middle),
        spans(b, middle, high),
        low <= middle <= high,
    ensures
        spans(a + b, low, high),
{
    assert forall|i: int| 0 <= i < (a + b).len() implies low <= kind(#[trigger] (a + b)[i]) < high
        || kind((a + b)[i]) == 22 by {
        if i < a.len() {
            assert((a + b)[i] == a[i]);
        } else {
            assert((a + b)[i] == b[i - a.len()]);
        }
    }
}

/// What is done once in a part is done once in the whole, where what stands before and after
/// is of other kinds.
proof fn lemma_just(
    before: Seq<Act>,
    part: Seq<Act>,
    rest: Seq<Act>,
    low: nat,
    high: nat,
    condition: bool,
    action: Act,
)
    requires
        spans(before, 0, low),
        spans(rest, high, 22),
        low <= kind(action) < high <= 22,
        just(part, condition, action),
    ensures
        just(before + part + rest, condition, action),
{
    let all = before + part + rest;
    let n = before.len() as int;
    assert forall|i: int| 0 <= i < all.len() && kind(#[trigger] all[i]) == kind(action) implies n
        <= i < n + part.len() && all[i] == part[i - n] by {
        if i < n {
            assert(all[i] == before[i]);
        } else if i >= n + part.len() {
            assert(all[i] == rest[i - n - part.len()]);
        }
    }
    if condition {
        let k = choose|k: int| once_at(part, action, k);
        assert(all[n + k] == part[k]);
        assert(once_at(all, action, n + k));
    }
}


/// The message is not refused and its session is bound to the channel.
pub open spec fn binds(setup: Setup, answers: Answers) -> bool {
    !setup.denied(answers) && setup.message.binding is Some && setup.services.session_metadata
}

/// The message binds a session that is not bound yet.
pub open spec fn labels(setup: Setup, answers: Answers) -> bool {
    binds(setup, answers) && (answers.session is None || !(answers.session->0).bound)
}

/// The message binds a session that lacks an agent.
pub open spec fn gives_agent(setup: Setup, answers: Answers) -> bool {
    binds(setup, answers) && answers.bound_session is Some && lacks_agent(answers.bound_session->0)
}

/// The channel asks for an agent that the store has to be asked for.
pub open spec fn asks_store(setup: Setup) -> bool {
    &&& setup.services.persona_store
    &&& setup.message.agent_id is Some
    &&& !blank(setup.message.agent_id->0@)
    &&& trimmed(setup.message.agent_id->0@) != "main"@
}

/// The message is not refused and its session has no model.
pub open spec fn gives_model(setup: Setup, answers: Answers) -> bool {
    !setup.denied(answers) && !setup.has_model(answers)
}

/// The ID and the name for people of the model that a session without one gets, if any.
pub open spec fn given_model(setup: Setup, answers: Answers) -> Option<(Seq<char>, Seq<char>)> {
    let models = match answers.models {
        Some(value) => Some(json_of(value)),
        None => None,
    };
    match setup.message.model {
        Some(model) => Some((model@, listed_name(models, model@))),
        None => first_model(models),
    }
}

/// How the message's reaction ends, if it ends here.
pub open spec fn final_outcome(setup: Setup, answers: Answers) -> Option<ChannelAckOutcome> {
    if setup.denied(answers) {
        Some(ChannelAckOutcome::Failure)
    } else {
        match answers.sent {
            Ok(payload) => early_outcome(Some(json_of(payload))),
            Err(_) => Some(ChannelAckOutcome::Failure),
        }
    }
}

/// What the user is told, if anything.
pub open spec fn final_text(setup: Setup, answers: Answers) -> Option<Seq<char>> {
    if setup.denied(answers) {
        Some(denial("/sh"@, opt_text(setup.message.sender_id)))
    } else {
        match answers.sent {
            Ok(_) => None,
            Err(error) => Some("⚠️ "@ + error@),
        }
    }
}

spec fn find_action(setup: Setup) -> Act {
    Action::FindActiveSession {
        channel_type: setup.message.reply_to.channel_type@,
        account_id: setup.message.reply_to.account_id@,
        chat_id: setup.message.reply_to.chat_id@,
        topic_id: opt_text(setup.message.reply_to.thread_id),
    }
}

spec fn register_action(setup: Setup) -> Act {
    Action::RegisterReaction {
        account_id: setup.message.reply_to.account_id@,
        chat_id: setup.message.reply_to.chat_id@,
        message_id: setup.message.reply_to.ack_message_id->0@,
    }
}

spec fn count_action(setup: Setup) -> Act {
    Action::CountChannelSessions {
        channel_type: setup.message.reply_to.channel_type@,
        account_id: setup.message.reply_to.account_id@,
        chat_id: setup.message.reply_to.chat_id@,
    }
}

spec fn upsert_action(setup: Setup, answers: Answers) -> Act {
    Action::UpsertSession {
        session_key: setup.session_key(answers),
        label: session_label(
            setup.message.reply_to.display_name@,
            (answers.session_count + 1) as nat,
        ),
    }
}

spec fn fetch_action(setup: Setup) -> Act {
    Action::FetchThread {
        account_id: setup.message.reply_to.account_id@,
        chat_id: setup.message.reply_to.chat_id@,
        thread_id: setup.message.reply_to.message_id->0@,
        limit: 20,
    }
}

spec fn patch_action(setup: Setup, answers: Answers) -> Act {
    Action::PatchSession {
        patch: crate::turn::model_patch(
            setup.session_key(answers),
            (given_model(setup, answers)->0).0,
        ),
    }
}

spec fn status_action(setup: Setup, answers: Answers) -> Act {
    Action::PushStatus {
        session_key: setup.session_key(answers),
        message: model_note((given_model(setup, answers)->0).1),
    }
}

spec fn text_action(setup: Setup, answers: Answers) -> Act {
    Action::SendText {
        account_id: setup.message.reply_to.account_id@,
        to: setup.message.reply_to.outbound_to@,
        text: final_text(setup, answers)->0,
        reply_to: opt_text(setup.message.reply_to.message_id),
    }
}

/// The parts of a script: the actions of one kind each, and the loads that go with them.
spec fn part(setup: Setup, answers: Answers, n: nat) -> Seq<Act> {
    let key = setup.session_key(answers);
    let load: Act = Action::LoadSession { session_key: key };
    let account_id = setup.message.reply_to.account_id@;
    let accepted = !setup.denied(answers);
    if n == 0 {
        seq![setup.start_typing()]
    } else if n == 1 {
        only_if(setup.services.session_metadata, find_action(setup))
    } else if n == 2 {
        only_if(setup.reacts(), register_action(setup))
    } else if n == 3 {
        only_if(setup.services.channel_registry, Action::LoadOperators { account_id })
    } else if n == 4 {
        only_if(setup.services.channel_registry, Action::LoadCeiling { account_id })
    } else if n == 5 {
        only_if(
            accepted && setup.uses_tools(answers),
            Action::QueryCommandMode { session_key: key },
        )
    } else if n == 6 {
        only_if(accepted, setup.telling(key))
    } else if n == 7 {
        only_if(binds(setup, answers), load) + only_if(labels(setup, answers), count_action(setup))
    } else if n == 8 {
        only_if(labels(setup, answers), upsert_action(setup, answers))
    } else if n == 9 {
        only_if(
            binds(setup, answers),
            Action::SetChannelBinding { session_key: key, binding: setup.message.binding->0@ },
        ) + only_if(binds(setup, answers), load)
    } else if n == 10 {
        only_if(
            gives_agent(setup, answers) && setup.services.persona_store,
            Action::LoadDefaultAgent,
        )
    } else if n == 11 {
        only_if(
            gives_agent(setup, answers) && asks_store(setup),
            Action::FindAgent { agent_id: trimmed(setup.message.agent_id->0@) },
        )
    } else if n == 12 {
        only_if(
            gives_agent(setup, answers),
            Action::SetAgent { session_key: key, agent_id: setup.new_agent(answers) },
        )
    } else if n == 13 {
        only_if(accepted, Action::MarkSeen { session_key: key })
    } else if n == 14 {
        only_if(accepted && setup.fetches_thread(), fetch_action(setup))
    } else if n == 15 {
        let patches = gives_model(setup, answers) && given_model(setup, answers) is Some;
        only_if(accepted && setup.services.session_metadata, load) + only_if(
            patches && setup.message.model is Some,
            patch_action(setup, answers),
        ) + only_if(gives_model(setup, answers), Action::ListModels) + only_if(
            patches && setup.message.model is None,
            patch_action(setup, answers),
        )
    } else if n == 17 {
        only_if(
            gives_model(setup, answers) && given_model(setup, answers) is Some,
            status_action(setup, answers),
        )
    } else if n == 18 {
        only_if(
            accepted,
            Action::SendChat { params: Json::Object(setup.sent_request(answers).params()) },
        )
    } else if n == 19 {
        seq![Action::StopTyping]
    } else if n == 20 {
        only_if(
            setup.reacts() && final_outcome(setup, answers) is Some,
            Action::FinalizeReaction {
                ack_key: answers.reaction@,
                outcome: final_outcome(setup, answers)->0,
            },
        )
    } else if n == 21 {
        only_if(
            setup.services.outbound && final_text(setup, answers) is Some,
            text_action(setup, answers),
        )
    } else {
        Seq::empty()
    }
}

/// The kind that a part begins with.
spec fn first_kind(n: nat) -> nat {
    if n == 16 {
        17
    } else {
        n
    }
}

/// The parts from one up to another.
spec fn parts(setup: Setup, answers: Answers, from: nat, to: nat) -> Seq<Act>
    decreases to - from,
{
    if from >= to {
        Seq::empty()
    } else {
        parts(setup, answers, from, (to - 1) as nat) + part(setup, answers, (to - 1) as nat)
    }
}

proof fn lemma_only_if(condition: bool, action: Act)
    ensures
        just(only_if(condition, action), condition, action),
{
    if condition {
        assert(once_at(only_if(condition, action), action, 0));
    }
}

proof fn lemma_part_spans(setup: Setup, answers: Answers, n: nat)
    requires
        n < 22,
    ensures
        spans(part(setup, answers, n), first_kind(n), first_kind(n + 1)),
{
}

proof fn lemma_parts_span(setup: Setup, answers: Answers, from: nat, to: nat)
    requires
        from <= to <= 22,
    ensures
        spans(parts(setup, answers, from, to), first_kind(from), first_kind(to)),
    decreases to - from,
{
    if from < to {
        let last = (to - 1) as nat;
        lemma_parts_span(setup, answers, from, last);
        lemma_part_spans(setup, answers, last);
        lemma_spans_sum(
            parts(setup, answers, from, last),
            part(setup, answers, last),
            first_kind(from),
            first_kind(last),
            first_kind(to),
        );
    }
}

proof fn lemma_split(setup: Setup, answers: Answers, from: nat, middle: nat, to: nat)
    requires
        from <= middle <= to,
    ensures
        parts(setup, answers, from, to) == parts(setup, answers, from, middle) + parts(
            setup,
            answers,
            middle,
            to,
        ),
    decreases to - middle,
{
    if middle < to {
        let last = (to - 1) as nat;
        lemma_split(setup, answers, from, middle, last);
        assert(parts(setup, answers, from, to) =~= parts(setup, answers, from, middle) + parts(
            setup,
            answers,
            middle,
            to,
        ));
    } else {
        assert(parts(setup, answers, middle, to) =~= Seq::<Act>::empty());
        assert(parts(setup, answers, from, to) =~= parts(setup, answers, from, middle)
            + Seq::<Act>::empty());
    }
}

/// A script is its parts, one after the other.
proof fn lemma_script(setup: Setup, answers: Answers)
    ensures
        setup.script(answers) == parts(setup, answers, 0, 22),
{
    lemma_split(setup, answers, 0, 1, 22);
    lemma_split(setup, answers, 1, 5, 22);
    lemma_split(setup, answers, 5, 19, 22);
    lemma_lookup_parts(setup, answers);
    lemma_ending_parts(setup, answers);
    lemma_start_parts(setup, answers);
    let start = seq![setup.start_typing()];
    let lookups = setup.lookups(answers);
    let ending = parts(setup, answers, 19, 22);
    if setup.denied(answers) {
        lemma_denied_parts(setup, answers);
        assert(start + (lookups + (Seq::<Act>::empty() + ending)) =~= start + lookups + ending);
    } else {
        lemma_split(setup, answers, 5, 18, 19);
        lemma_delivery_parts(setup, answers);
        let sent: Seq<Act> = seq![
            Action::SendChat { params: Json::Object(setup.sent_request(answers).params()) },
        ];
        assert(parts(setup, answers, 18, 19) =~= sent) by {
            reveal_with_fuel(parts, 2);
        }
        let delivery = setup.delivery(answers);
        assert(start + (lookups + ((delivery + sent) + ending)) =~= start + lookups + (delivery
            + sent + ending));
    }
}

proof fn lemma_start_parts(setup: Setup, answers: Answers)
    ensures
        parts(setup, answers, 0, 1) == seq![setup.start_typing()],
{
    reveal_with_fuel(parts, 2);
    assert(parts(setup, answers, 0, 1) =~= seq![setup.start_typing()]);
}

proof fn lemma_lookup_parts(setup: Setup, answers: Answers)
    ensures
        parts(setup, answers, 1, 5) == setup.lookups(answers),
{
    reveal_with_fuel(parts, 5);
    assert(parts(setup, answers, 1, 5) =~= setup.lookups(answers));
}

proof fn lemma_ending_parts(setup: Setup, answers: Answers)
    ensures
        parts(setup, answers, 19, 22) == (if setup.denied(answers) {
            setup.ending(
                setup.ack_key(answers),
                Some(ChannelAckOutcome::Failure),
                Some(denial("/sh"@, opt_text(setup.message.sender_id))),
            )
        } else {
            setup.reply_part(setup.ack_key(answers), answers)
        }),
{
    reveal_with_fuel(parts, 4);
    let parted = parts(setup, answers, 19, 22);
    if setup.denied(answers) {
        assert(parted =~= setup.ending(
            setup.ack_key(answers),
            Some(ChannelAckOutcome::Failure),
            Some(denial("/sh"@, opt_text(setup.message.sender_id))),
        ));
    } else {
        assert(parted =~= setup.reply_part(setup.ack_key(answers), answers));
    }
}

proof fn lemma_denied_parts(setup: Setup, answers: Answers)
    requires
        setup.denied(answers),
    ensures
        parts(setup, answers, 5, 19) == Seq::<Act>::empty(),
{
    lemma_no_parts(setup, answers, 19);
}

proof fn lemma_no_parts(setup: Setup, answers: Answers, to: nat)
    requires
        setup.denied(answers),
        5 <= to <= 19,
    ensures
        parts(setup, answers, 5, to) == Seq::<Act>::empty(),
    decreases to,
{
    if to > 5 {
        lemma_no_parts(setup, answers, (to - 1) as nat);
        assert(part(setup, answers, (to - 1) as nat) =~= Seq::<Act>::empty());
        assert(parts(setup, answers, 5, to) =~= Seq::<Act>::empty());
    }
}

proof fn lemma_binding_parts(setup: Setup, answers: Answers)
    requires
        !setup.denied(answers),
    ensures
        parts(setup, answers, 7, 13) == setup.binding_part(setup.session_key(answers), answers),
{
    let key = setup.session_key(answers);
    let load: Act = Action::LoadSession { session_key: key };
    lemma_split(setup, answers, 7, 9, 13);
    lemma_split(setup, answers, 9, 10, 13);
    let first = parts(setup, answers, 7, 9);
    let second = parts(setup, answers, 9, 10);
    let third = parts(setup, answers, 10, 13);
    reveal_with_fuel(parts, 4);
    if binds(setup, answers) {
        let set = Action::SetChannelBinding {
            session_key: key,
            binding: setup.message.binding->0@,
        };
        assert(first =~= seq![load] + setup.label_part(key, answers));
        assert(second =~= seq![set, load]);
        assert(third =~= setup.agent_part(key, answers));
        assert(first + (second + third) =~= first + second + third);
    } else {
        assert(first =~= Seq::<Act>::empty());
        assert(second =~= Seq::<Act>::empty());
        assert(third =~= Seq::<Act>::empty());
        assert(first + (second + third) =~= Seq::<Act>::empty());
    }
}

proof fn lemma_model_parts(setup: Setup, answers: Answers)
    requires
        !setup.denied(answers),
    ensures
        parts(setup, answers, 15, 18) == setup.model_part(setup.session_key(answers), answers),
{
    reveal_with_fuel(parts, 4);
    assert(parts(setup, answers, 15, 18) =~= setup.model_part(setup.session_key(answers), answers));
}

proof fn lemma_delivery_parts(setup: Setup, answers: Answers)
    requires
        !setup.denied(answers),
    ensures
        parts(setup, answers, 5, 18) == setup.delivery(answers),
{
    let key = setup.session_key(answers);
    lemma_split(setup, answers, 5, 7, 18);
    lemma_split(setup, answers, 7, 13, 18);
    lemma_split(setup, answers, 13, 15, 18);
    lemma_binding_parts(setup, answers);
    lemma_model_parts(setup, answers);
    let mode: Seq<Act> = only_if(
        setup.uses_tools(answers),
        Action::QueryCommandMode { session_key: key },
    );
    let told: Seq<Act> = seq![setup.telling(key)];
    let seen: Seq<Act> = seq![Action::MarkSeen { session_key: key }];
    let thread = setup.thread_part();
    let bound = setup.binding_part(key, answers);
    let model = setup.model_part(key, answers);
    lemma_mode_parts(setup, answers);
    lemma_seen_parts(setup, answers);
    lemma_regrouped(mode + told, bound, seen, thread, model);
}

proof fn lemma_mode_parts(setup: Setup, answers: Answers)
    requires
        !setup.denied(answers),
    ensures
        parts(setup, answers, 5, 7) == only_if(
            setup.uses_tools(answers),
            Action::QueryCommandMode { session_key: setup.session_key(answers) },
        ) + seq![setup.telling(setup.session_key(answers))],
{
    reveal_with_fuel(parts, 3);
    assert(parts(setup, answers, 5, 7) =~= only_if(
        setup.uses_tools(answers),
        Action::QueryCommandMode { session_key: setup.session_key(answers) },
    ) + seq![setup.telling(setup.session_key(answers))]);
}

proof fn lemma_seen_parts(setup: Setup, answers: Answers)
    requires
        !setup.denied(answers),
    ensures
        parts(setup, answers, 13, 15) == seq![
            Action::MarkSeen { session_key: setup.session_key(answers) },
        ] + setup.thread_part(),
{
    reveal_with_fuel(parts, 3);
    assert(parts(setup, answers, 13, 15) =~= seq![
        Action::MarkSeen { session_key: setup.session_key(answers) },
    ] + setup.thread_part());
}

proof fn lemma_regrouped(
    told: Seq<Act>,
    bound: Seq<Act>,
    seen: Seq<Act>,
    thread: Seq<Act>,
    model: Seq<Act>,
)
    ensures
        told + (bound + ((seen + thread) + model)) == told + bound + seen + thread + model,
{
    assert(told + (bound + ((seen + thread) + model)) =~= told + bound + seen + thread + model);
}

/// What is done once in a part is done once in the script.
proof fn lemma_once(setup: Setup, answers: Answers, n: nat, condition: bool, action: Act)
    requires
        n < 22,
        just(part(setup, answers, n), condition, action),
        first_kind(n) <= kind(action) < first_kind(n + 1),
    ensures
        just(setup.script(answers), condition, action),
{
    lemma_script(setup, answers);
    lemma_split(setup, answers, 0, n, 22);
    lemma_split(setup, answers, n, n + 1, 22);
    lemma_parts_span(setup, answers, 0, n);
    lemma_parts_span(setup, answers, n + 1, 22);
    let before = parts(setup, answers, 0, n);
    let rest = parts(setup, answers, n + 1, 22);
    reveal_with_fuel(parts, 2);
    assert(parts(setup, answers, n, n + 1) =~= part(setup, answers, n));
    lemma_just(
        before,
        part(setup, answers, n),
        rest,
        first_kind(n),
        first_kind(n + 1),
        condition,
        action,
    );
    assert(setup.script(answers) =~= before + part(setup, answers, n) + rest);
}

/// Typing starts in the chat of the message, always. The session that the chat was switched
/// to is looked up where there is a store; the reaction is put on the message that is to
/// carry it where there is a way out; the operators and the ceiling of the account are
/// looked up where there is a registry. Each is done once.
pub proof fn dispatches_look_up_the_chat_and_the_account(setup: Setup, answers: Answers)
    ensures
        just(
            setup.script(answers),
            true,
            (Action::StartTyping {
                account_id: setup.message.reply_to.account_id@,
                chat_id: setup.message.reply_to.chat_id@,
            }),
        ),
        just(
            setup.script(answers),
            setup.services.session_metadata,
            (Action::FindActiveSession {
                channel_type: setup.message.reply_to.channel_type@,
                account_id: setup.message.reply_to.account_id@,
                chat_id: setup.message.reply_to.chat_id@,
                topic_id: match setup.message.reply_to.thread_id {
                    Some(thread_id) => Some(thread_id@),
                    None => None,
                },
            }),
        ),
        just(
            setup.script(answers),
            setup.message.reply_to.ack_message_id is Some && setup.services.outbound,
            (Action::RegisterReaction {
                account_id: setup.message.reply_to.account_id@,
                chat_id: setup.message.reply_to.chat_id@,
                message_id: setup.message.reply_to.ack_message_id->0@,
            }),
        ),
        just(
            setup.script(answers),
            setup.services.channel_registry,
            (Action::LoadOperators { account_id: setup.message.reply_to.account_id@ }),
        ),
        just(
            setup.script(answers),
            setup.services.channel_registry,
            (Action::LoadCeiling { account_id: setup.message.reply_to.account_id@ }),
        ),
{
    let account_id = setup.message.reply_to.account_id@;
    let registry = setup.services.channel_registry;
    lemma_only_if(true, setup.start_typing());
    lemma_once(setup, answers, 0, true, setup.start_typing());
    lemma_only_if(setup.services.session_metadata, find_action(setup));
    lemma_once(setup, answers, 1, setup.services.session_metadata, find_action(setup));
    lemma_only_if(setup.reacts(), register_action(setup));
    lemma_once(setup, answers, 2, setup.reacts(), register_action(setup));
    lemma_only_if(registry, Action::LoadOperators { account_id });
    lemma_once(setup, answers, 3, registry, Action::LoadOperators { account_id });
    lemma_only_if(registry, Action::LoadCeiling { account_id });
    lemma_once(setup, answers, 4, registry, Action::LoadCeiling { account_id });
}

/// The mode of the session is asked for where the turn has tools. The web UI is told of
/// every message that is not refused, as it was written, and no listener may miss it.
pub proof fn accepted_messages_are_broadcast(setup: Setup, answers: Answers)
    ensures
        just(
            setup.script(answers),
            !setup.denied(answers) && setup.uses_tools(answers),
            (Action::QueryCommandMode { session_key: setup.session_key(answers) }),
        ),
        just(
            setup.script(answers),
            !setup.denied(answers),
            (Action::Broadcast {
                event: "chat"@,
                payload: user_message_event(
                    setup.message.text@,
                    json_of(setup.message.channel),
                    setup.session_key(answers),
                ),
                drop_if_slow: false,
            }),
        ),
{
    let key = setup.session_key(answers);
    let asked = !setup.denied(answers) && setup.uses_tools(answers);
    lemma_only_if(asked, Action::QueryCommandMode { session_key: key });
    lemma_once(setup, answers, 5, asked, Action::QueryCommandMode { session_key: key });
    lemma_only_if(!setup.denied(answers), setup.telling(key));
    lemma_once(setup, answers, 6, !setup.denied(answers), setup.telling(key));
}

/// The session of a message that is not refused is bound to the channel where there is a
/// store and the target could be written. A session that is not bound yet is labelled with
/// the next number of the chat.
pub proof fn sessions_are_labelled_and_bound(setup: Setup, answers: Answers)
    ensures
        ({
            let bound = !setup.denied(answers) && setup.message.binding is Some
                && setup.services.session_metadata;
            let fresh = answers.session is None || !(answers.session->0).bound;
            &&& just(
                setup.script(answers),
                bound && fresh,
                (Action::CountChannelSessions {
                    channel_type: setup.message.reply_to.channel_type@,
                    account_id: setup.message.reply_to.account_id@,
                    chat_id: setup.message.reply_to.chat_id@,
                }),
            )
            &&& just(
                setup.script(answers),
                bound && fresh,
                (Action::UpsertSession {
                    session_key: setup.session_key(answers),
                    label: session_label(
                        setup.message.reply_to.display_name@,
                        (answers.session_count + 1) as nat,
                    ),
                }),
            )
            &&& just(
                setup.script(answers),
                bound,
                (Action::SetChannelBinding {
                    session_key: setup.session_key(answers),
                    binding: setup.message.binding->0@,
                }),
            )
        }),
{
    let key = setup.session_key(answers);
    let count = count_action(setup);
    let fresh = labels(setup, answers);
    if fresh {
        assert(once_at(part(setup, answers, 7), count, 1));
    }
    lemma_once(setup, answers, 7, fresh, count);
    lemma_only_if(fresh, upsert_action(setup, answers));
    lemma_once(setup, answers, 8, fresh, upsert_action(setup, answers));
    let set = Action::SetChannelBinding { session_key: key, binding: setup.message.binding->0@ };
    if binds(setup, answers) {
        assert(once_at(part(setup, answers, 9), set, 0));
    }
    lemma_once(setup, answers, 9, binds(setup, answers), set);
}

/// A bound session that lacks an agent gets one: the store is asked for its default where
/// there is a store, and for the agent that the channel asks for where that is neither blank
/// nor the main agent. A session that has an agent keeps it.
pub proof fn bound_sessions_get_an_agent(setup: Setup, answers: Answers)
    ensures
        ({
            let gets = !setup.denied(answers) && setup.message.binding is Some
                && setup.services.session_metadata && answers.bound_session is Some && lacks_agent(
                answers.bound_session->0,
            );
            let asked = setup.message.agent_id is Some && !blank(setup.message.agent_id->0@)
                && trimmed(setup.message.agent_id->0@) != "main"@;
            &&& just(
                setup.script(answers),
                gets && setup.services.persona_store,
                Action::LoadDefaultAgent,
            )
            &&& just(
                setup.script(answers),
                gets && setup.services.persona_store && asked,
                (Action::FindAgent { agent_id: trimmed(setup.message.agent_id->0@) }),
            )
            &&& just(
                setup.script(answers),
                gets,
                (Action::SetAgent {
                    session_key: setup.session_key(answers),
                    agent_id: setup.new_agent(answers),
                }),
            )
        }),
{
    let key = setup.session_key(answers);
    let gets = gives_agent(setup, answers);
    let stored = gets && setup.services.persona_store;
    let asked = gets && asks_store(setup);
    let find = Action::FindAgent { agent_id: trimmed(setup.message.agent_id->0@) };
    let set = Action::SetAgent { session_key: key, agent_id: setup.new_agent(answers) };
    lemma_only_if(stored, Action::LoadDefaultAgent);
    lemma_once(setup, answers, 10, stored, Action::LoadDefaultAgent);
    lemma_only_if(asked, find);
    lemma_once(setup, answers, 11, asked, find);
    lemma_only_if(gets, set);
    lemma_once(setup, answers, 12, gets, set);
}

/// The session of a message that is not refused is marked as seen. Where the message answers
/// another and there is a registry, up to twenty messages of its thread are fetched.
pub proof fn accepted_messages_are_seen_and_bring_their_thread(setup: Setup, answers: Answers)
    ensures
        just(
            setup.script(answers),
            !setup.denied(answers),
            (Action::MarkSeen { session_key: setup.session_key(answers) }),
        ),
        just(
            setup.script(answers),
            !setup.denied(answers) && setup.message.reply_to.message_id is Some
                && setup.services.channel_registry,
            (Action::FetchThread {
                account_id: setup.message.reply_to.account_id@,
                chat_id: setup.message.reply_to.chat_id@,
                thread_id: setup.message.reply_to.message_id->0@,
                limit: 20,
            }),
        ),
{
    let accepted = !setup.denied(answers);
    let seen = Action::MarkSeen { session_key: setup.session_key(answers) };
    lemma_only_if(accepted, seen);
    lemma_once(setup, answers, 13, accepted, seen);
    lemma_only_if(accepted && setup.fetches_thread(), fetch_action(setup));
    lemma_once(setup, answers, 14, accepted && setup.fetches_thread(), fetch_action(setup));
}

/// The models are listed for a message that is not refused and whose session has no model.
/// The session then gets the model that the channel asks for, or else the first of the list,
/// and the user is told its name. Where there is none to give, nothing is set or told.
pub proof fn sessions_without_a_model_get_one(
    setup: Setup,
    answers: Answers,
    models: Option<Json>,
    given: Option<(Seq<char>, Seq<char>)>,
)
    requires
        answers.models is Some ==> models == Some(json_of(answers.models->0)),
        answers.models is None ==> models is None,
        setup.message.model is Some ==> given == Some(
            (setup.message.model->0@, listed_name(models, setup.message.model->0@)),
        ),
        setup.message.model is None ==> given == first_model(models),
    ensures
        ({
            let gets = !setup.denied(answers) && !setup.has_model(answers);
            &&& just(setup.script(answers), gets, Action::ListModels)
            &&& just(
                setup.script(answers),
                gets && given is Some,
                (Action::PatchSession {
                    patch: crate::turn::model_patch(setup.session_key(answers), (given->0).0),
                }),
            )
            &&& just(
                setup.script(answers),
                gets && given is Some,
                (Action::PushStatus {
                    session_key: setup.session_key(answers),
                    message: model_note((given->0).1),
                }),
            )
        }),
{
    let gets = gives_model(setup, answers);
    let patches = gets && given is Some;
    assert(given == given_model(setup, answers));
    let middle = part(setup, answers, 15);
    let loaded: int = if !setup.denied(answers) && setup.services.session_metadata {
        1
    } else {
        0
    };
    let asked: int = if patches && setup.message.model is Some {
        1
    } else {
        0
    };
    if gets {
        assert(once_at(middle, Action::ListModels, loaded + asked));
    }
    lemma_once(setup, answers, 15, gets, Action::ListModels);
    if patches {
        assert(once_at(middle, patch_action(setup, answers), loaded + 1 - asked));
    }
    lemma_once(setup, answers, 15, patches, patch_action(setup, answers));
    lemma_only_if(patches, status_action(setup, answers));
    lemma_once(setup, answers, 17, patches, status_action(setup, answers));
}

/// A message that is not refused is sent once. The request holds what the agent reads, what
/// the channel says of the message, its session and its reply target, and, each where there
/// is one and whatever else there is, its reaction's key, its thread, its saved audio, its
/// documents and its model; in an untrusted turn the ceiling of the account besides; and
/// nothing else.
pub proof fn accepted_messages_are_sent_with_all_they_bring(
    setup: Setup,
    answers: Answers,
    key: Seq<char>,
)
    requires
        named_apart(setup.names.reply_target@, setup.names.ack_keys@),
    ensures
        ({
            let params = setup.sent_request(answers).params();
            let message = setup.message;
            let (audience, tools) = setup.ceiling(answers);
            let fetched = message.reply_to.message_id is Some && setup.services.channel_registry;
            &&& just(
                setup.script(answers),
                !setup.denied(answers),
                Action::SendChat { params: Json::Object(params) },
            )
            &&& holds(params, "text"@, Some(Json::Text(setup.agent_text(answers))))
            &&& holds(params, "channel"@, Some(json_of(message.channel)))
            &&& holds(params, "_session_key"@, Some(Json::Text(setup.session_key(answers))))
            &&& holds(params, setup.names.reply_target@, Some(json_of(message.reply_target)))
            &&& holds(params, "_native_channel_request"@, Some(Json::Bool(true)))
            &&& holds(
                params,
                setup.names.ack_keys@,
                if message.reply_to.ack_message_id is Some && setup.services.outbound {
                    Some(Json::List(seq![Json::Text(answers.reaction@)]))
                } else {
                    None
                },
            )
            &&& fetched && answers.thread is Some ==> holds(
                params,
                "_thread_context"@,
                thread_context(Some(answers.thread->0@)),
            )
            &&& !fetched || answers.thread is None ==> holds(params, "_thread_context"@, None)
            &&& message.audio_filename is Some ==> holds(
                params,
                "_audio_filename"@,
                Some(Json::Text(message.audio_filename->0@)),
            )
            &&& message.audio_filename is None ==> holds(params, "_audio_filename"@, None)
            &&& message.documents is Some ==> holds(
                params,
                "_document_files"@,
                Some(json_of(message.documents->0)),
            )
            &&& message.documents is None ==> holds(params, "_document_files"@, None)
            &&& setup.model(answers) is Some ==> holds(
                params,
                "model"@,
                Some(Json::Text(setup.model(answers)->0)),
            )
            &&& setup.model(answers) is None ==> holds(params, "model"@, None)
            &&& holds(
                params,
                "_tool_audience"@,
                if !setup.trusted(answers) && audience == UntrustedAudience::Public {
                    Some(Json::Text("public"@))
                } else {
                    None
                },
            )
            &&& holds(
                params,
                "_tool_policy"@,
                if !setup.trusted(answers) && tools == UntrustedTools::DenyAll {
                    Some(Json::Object(map!["deny"@ => Json::List(seq![Json::Text("*"@)])]))
                } else {
                    None
                },
            )
            &&& holds(
                params,
                "_private_context"@,
                if setup.trusted(answers) {
                    None
                } else {
                    Some(Json::Bool(false))
                },
            )
            &&& key != setup.names.reply_target@ && key != setup.names.ack_keys@ && !is_own_param(
                key,
            ) ==> holds(params, key, None)
        }),
{
    let accepted = !setup.denied(answers);
    let request = setup.sent_request(answers);
    let send = Action::SendChat { params: Json::Object(request.params()) };
    lemma_only_if(accepted, send);
    lemma_once(setup, answers, 18, accepted, send);
    crate::turn::requests_hold_what_the_message_brings(request, key);
}

/// Typing stops once, always. A reaction ends as failed for a refused message and for an
/// error of the chat service, and as the service's reply says for any other message, if it
/// says so. The user is told why a message was refused, and of an error, where there is a way
/// out.
pub proof fn dispatches_settle_what_they_started(setup: Setup, answers: Answers)
    ensures
        ({
            let reacts = setup.message.reply_to.ack_message_id is Some && setup.services.outbound;
            let refused = setup.denied(answers);
            let failed = refused || answers.sent is Err;
            let judged = early_outcome(Some(json_of(answers.sent->Ok_0)));
            &&& just(setup.script(answers), true, Action::StopTyping)
            &&& failed ==> just(
                setup.script(answers),
                reacts,
                Action::FinalizeReaction {
                    ack_key: answers.reaction@,
                    outcome: ChannelAckOutcome::Failure,
                },
            )
            &&& !failed ==> just(
                setup.script(answers),
                reacts && judged is Some,
                Action::FinalizeReaction { ack_key: answers.reaction@, outcome: judged->0 },
            )
            &&& just(
                setup.script(answers),
                failed && setup.services.outbound,
                Action::SendText {
                    account_id: setup.message.reply_to.account_id@,
                    to: setup.message.reply_to.outbound_to@,
                    text: if refused {
                        denial(
                            "/sh"@,
                            match setup.message.sender_id {
                                Some(id) => Some(id@),
                                None => None,
                            },
                        )
                    } else {
                        "⚠️ "@ + answers.sent->Err_0@
                    },
                    reply_to: match setup.message.reply_to.message_id {
                        Some(message_id) => Some(message_id@),
                        None => None,
                    },
                },
            )
        }),
{
    let outcome = final_outcome(setup, answers);
    let ends = setup.reacts() && outcome is Some;
    let finalize = Action::FinalizeReaction { ack_key: answers.reaction@, outcome: outcome->0 };
    let told = setup.services.outbound && final_text(setup, answers) is Some;
    lemma_only_if(true, Action::StopTyping);
    lemma_once(setup, answers, 19, true, Action::StopTyping);
    lemma_only_if(ends, finalize);
    lemma_once(setup, answers, 20, ends, finalize);
    lemma_only_if(told, text_action(setup, answers));
    lemma_once(setup, answers, 21, told, text_action(setup, answers));
}

/// Where an action stands among the others: by its kind, but listing the models and setting
/// one take turns.
pub open spec fn place(action: Act) -> nat {
    if kind(action) == 16 {
        15
    } else {
        kind(action)
    }
}

/// The actions are done in the order of their places, whenever a session is loaded.
pub open spec fn in_order(actions: Seq<Act>) -> bool {
    forall|i: int, j: int|
        #![trigger actions[i], actions[j]]
        0 <= i < j < actions.len() && !(actions[i] is LoadSession) && !(actions[j] is LoadSession)
            ==> place(actions[i]) <= place(actions[j])
}

proof fn lemma_order(setup: Setup, answers: Answers, to: nat)
    requires
        to <= 22,
    ensures
        in_order(parts(setup, answers, 0, to)),
    decreases to,
{
    if to > 0 {
        let last = (to - 1) as nat;
        let before = parts(setup, answers, 0, last);
        let next = part(setup, answers, last);
        lemma_order(setup, answers, last);
        lemma_parts_span(setup, answers, 0, last);
        lemma_part_spans(setup, answers, last);
        let all = parts(setup, answers, 0, to);
        assert forall|i: int, j: int|
            #![trigger all[i], all[j]]
            0 <= i < j < all.len() && !(all[i] is LoadSession) && !(all[j]
                is LoadSession) implies place(all[i]) <= place(all[j]) by {
            let n = before.len() as int;
            if j < n {
                assert(all[i] == before[i] && all[j] == before[j]);
            } else if i < n {
                assert(all[i] == before[i] && all[j] == next[j - n]);
            } else {
                assert(all[i] == next[i - n] && all[j] == next[j - n]);
            }
        }
    }
}

/// Everything is done in this order: typing starts, the chat and the account are looked up,
/// the web UI is told, the session is labelled, then bound, then given its agent, then
/// marked as seen, the thread is fetched, the model is settled and noted, the message is
/// sent, typing stops, the reaction ends, and the user is told last.
pub proof fn steps_come_in_order(setup: Setup, answers: Answers)
    ensures
        in_order(setup.script(answers)),
{
    lemma_script(setup, answers);
    lemma_order(setup, answers, 22);
}

/// A session is loaded where it is read, and nowhere else: right after the broadcast where
/// it is to be bound, right after it was bound, and, where there is a store, right before
/// its model is settled; always the session of the message.
pub proof fn sessions_are_loaded_where_they_are_read(setup: Setup, answers: Answers, i: int)
    requires
        0 <= i < setup.script(answers).len(),
    ensures
        ({
            let script = setup.script(answers);
            let load: Act = Action::LoadSession { session_key: setup.session_key(answers) };
            let bound = setup.message.binding is Some && setup.services.session_metadata;
            let last_before_model = if setup.message.reply_to.message_id is Some
                && setup.services.channel_registry {
                script[i] is FetchThread
            } else {
                script[i] is MarkSeen
            };
            let loads_next = {
                ||| script[i] is Broadcast && bound
                ||| script[i] is SetChannelBinding
                ||| last_before_model && setup.services.session_metadata
            };
            &&& loads_next ==> i + 1 < script.len() && script[i + 1] == load
            &&& i + 1 < script.len() && script[i + 1] is LoadSession ==> loads_next
            &&& !(script[0] is LoadSession)
        }),
{
    lemma_script(setup, answers);
    let script = setup.script(answers);
    lemma_load_follows(setup, answers, i);
    if i + 1 < script.len() && script[i + 1] is LoadSession {
        lemma_loads_follow(setup, answers, i);
    }
    lemma_split(setup, answers, 0, 1, 22);
    lemma_start_parts(setup, answers);
    assert(script[0] == setup.start_typing());
}

/// The parts up to one, that part, and the parts after it.
proof fn lemma_around(setup: Setup, answers: Answers, n: nat)
    requires
        n < 22,
    ensures
        setup.script(answers) == parts(setup, answers, 0, n) + part(setup, answers, n) + parts(
            setup,
            answers,
            n + 1,
            22,
        ),
{
    lemma_script(setup, answers);
    lemma_split(setup, answers, 0, n, 22);
    lemma_split(setup, answers, n, n + 1, 22);
    assert(parts(setup, answers, n, n + 1) =~= part(setup, answers, n)) by {
        reveal_with_fuel(parts, 2);
    }
    assert(setup.script(answers) =~= parts(setup, answers, 0, n) + part(setup, answers, n) + parts(
        setup,
        answers,
        n + 1,
        22,
    ));
}

/// The part that the action at an index stands in.
proof fn lemma_located(setup: Setup, answers: Answers, to: nat, i: int) -> (n: nat)
    requires
        to <= 22,
        0 <= i < parts(setup, answers, 0, to).len(),
    ensures
        n < to,
        parts(setup, answers, 0, n).len() <= i < parts(setup, answers, 0, n).len() + part(
            setup,
            answers,
            n,
        ).len(),
        parts(setup, answers, 0, to)[i] == part(setup, answers, n)[i - parts(
            setup,
            answers,
            0,
            n,
        ).len()],
    decreases to,
{
    let last = (to - 1) as nat;
    if i < parts(setup, answers, 0, last).len() {
        let n = lemma_located(setup, answers, last, i);
        assert(parts(setup, answers, 0, to)[i] == parts(setup, answers, 0, last)[i]);
        n
    } else {
        last
    }
}

proof fn lemma_starts_with(setup: Setup, answers: Answers, n: nat, action: Act)
    requires
        n < 22,
        part(setup, answers, n).len() > 0,
        part(setup, answers, n)[0] == action,
    ensures
        parts(setup, answers, 0, n).len() < setup.script(answers).len(),
        setup.script(answers)[parts(setup, answers, 0, n).len() as int] == action,
{
    lemma_around(setup, answers, n);
}

/// Where the action at an index stands, by its kind.
proof fn lemma_located_kind(setup: Setup, answers: Answers, i: int) -> (n: nat)
    requires
        0 <= i < setup.script(answers).len(),
        kind(setup.script(answers)[i]) < 15,
    ensures
        n == kind(setup.script(answers)[i]),
        parts(setup, answers, 0, n).len() <= i < parts(setup, answers, 0, n).len() + part(
            setup,
            answers,
            n,
        ).len(),
        setup.script(answers)[i] == part(setup, answers, n)[i - parts(
            setup,
            answers,
            0,
            n,
        ).len()],
{
    lemma_script(setup, answers);
    let n = lemma_located(setup, answers, 22, i);
    lemma_part_spans(setup, answers, n);
    let within = part(setup, answers, n);
    let k = i - parts(setup, answers, 0, n).len();
    assert(first_kind(n) <= kind(within[k]) < first_kind(n + 1) || kind(within[k]) == 22);
    n
}

proof fn lemma_load_after_broadcast(setup: Setup, answers: Answers, i: int)
    requires
        0 <= i < setup.script(answers).len(),
        setup.script(answers)[i] is Broadcast,
        setup.message.binding is Some,
        setup.services.session_metadata,
    ensures
        i + 1 < setup.script(answers).len(),
        setup.script(answers)[i + 1] == loading(setup, answers),
{
    let n = lemma_located_kind(setup, answers, i);
    assert(!setup.denied(answers));
    assert(part(setup, answers, 6).len() == 1);
    assert(parts(setup, answers, 0, 7) == parts(setup, answers, 0, 6) + part(setup, answers, 6));
    lemma_starts_with(setup, answers, 7, loading(setup, answers));
}

proof fn lemma_load_after_binding(setup: Setup, answers: Answers, i: int)
    requires
        0 <= i < setup.script(answers).len(),
        setup.script(answers)[i] is SetChannelBinding,
    ensures
        i + 1 < setup.script(answers).len(),
        setup.script(answers)[i + 1] == loading(setup, answers),
{
    let n = lemma_located_kind(setup, answers, i);
    lemma_around(setup, answers, 9);
    assert(binds(setup, answers));
    assert(part(setup, answers, 9).len() == 2);
    assert(part(setup, answers, 9)[1] == loading(setup, answers));
    let start = parts(setup, answers, 0, 9).len() as int;
    assert(part(setup, answers, 9)[i - start] is SetChannelBinding);
    assert(i == start);
    assert(setup.script(answers)[start + 1] == part(setup, answers, 9)[1]);
}

proof fn lemma_load_before_model(setup: Setup, answers: Answers, i: int)
    requires
        0 <= i < setup.script(answers).len(),
        setup.services.session_metadata,
        if setup.fetches_thread() {
            setup.script(answers)[i] is FetchThread
        } else {
            setup.script(answers)[i] is MarkSeen
        },
    ensures
        i + 1 < setup.script(answers).len(),
        setup.script(answers)[i + 1] == loading(setup, answers),
{
    let n = lemma_located_kind(setup, answers, i);
    assert(!setup.denied(answers));
    assert(part(setup, answers, n).len() == 1);
    assert(parts(setup, answers, 0, 14) == parts(setup, answers, 0, 13) + part(setup, answers, 13));
    assert(parts(setup, answers, 0, 15) == parts(setup, answers, 0, 14) + part(setup, answers, 14));
    if n == 13 {
        assert(part(setup, answers, 14).len() == 0);
    }
    lemma_starts_with(setup, answers, 15, loading(setup, answers));
}

/// The load of the session of the message.
spec fn loading(setup: Setup, answers: Answers) -> Act {
    Action::LoadSession { session_key: setup.session_key(answers) }
}

proof fn lemma_load_follows(setup: Setup, answers: Answers, i: int)
    requires
        0 <= i < setup.script(answers).len(),
    ensures
        ({
            let script = setup.script(answers);
            let load: Act = Action::LoadSession { session_key: setup.session_key(answers) };
            &&& script[i] is Broadcast && setup.message.binding is Some
                && setup.services.session_metadata ==> i + 1 < script.len() && script[i + 1] == load
            &&& script[i] is SetChannelBinding ==> i + 1 < script.len() && script[i + 1] == load
            &&& script[i] is MarkSeen && !setup.fetches_thread() && setup.services.session_metadata
                ==> i + 1 < script.len() && script[i + 1] == load
            &&& script[i] is FetchThread && setup.fetches_thread()
                && setup.services.session_metadata ==> i + 1 < script.len() && script[i + 1] == load
        }),
{
    let script = setup.script(answers);
    if script[i] is Broadcast && setup.message.binding is Some && setup.services.session_metadata {
        lemma_load_after_broadcast(setup, answers, i);
    }
    if script[i] is SetChannelBinding {
        lemma_load_after_binding(setup, answers, i);
    }
    if setup.services.session_metadata && (script[i] is MarkSeen && !setup.fetches_thread()
        || script[i] is FetchThread && setup.fetches_thread()) {
        lemma_load_before_model(setup, answers, i);
    }
}

proof fn lemma_loads_follow(setup: Setup, answers: Answers, i: int)
    requires
        0 <= i,
        i + 1 < setup.script(answers).len(),
        setup.script(answers)[i + 1] is LoadSession,
    ensures
        ({
            let script = setup.script(answers);
            ||| script[i] is Broadcast && setup.message.binding is Some
                && setup.services.session_metadata
            ||| script[i] is SetChannelBinding
            ||| script[i] is MarkSeen && !setup.fetches_thread() && setup.services.session_metadata
            ||| script[i] is FetchThread && setup.fetches_thread()
                && setup.services.session_metadata
        }),
{
    lemma_script(setup, answers);
    let script = setup.script(answers);
    let n = lemma_located(setup, answers, 22, i + 1);
    let start = parts(setup, answers, 0, n).len() as int;
    assert(n == 7 || n == 9 || n == 15);
    lemma_around(setup, answers, n);
    if n == 9 {
        assert(part(setup, answers, 9)[0] is SetChannelBinding);
        assert(i + 1 == start + 1);
        assert(script[i] == part(setup, answers, 9)[0]);
    } else {
        assert(i + 1 == start);
        if n == 7 {
            lemma_last_part(setup, answers, 6);
        } else if setup.fetches_thread() {
            lemma_last_part(setup, answers, 14);
        } else {
            assert(parts(setup, answers, 0, 15) == parts(setup, answers, 0, 14) + part(
                setup,
                answers,
                14,
            ));
            assert(part(setup, answers, 14).len() == 0);
            assert(parts(setup, answers, 0, 15) =~= parts(setup, answers, 0, 14));
            lemma_last_part(setup, answers, 13);
        }
        assert(script[i] == parts(setup, answers, 0, n)[i]);
    }
}

proof fn lemma_last_part(setup: Setup, answers: Answers, n: nat)
    requires
        part(setup, answers, n).len() == 1,
    ensures
        parts(setup, answers, 0, n + 1).len() > 0,
        parts(setup, answers, 0, n + 1).last() == part(setup, answers, n)[0],
{
}

/// A session gets the model that the channel asks for before the models are listed for its
/// name, and the first of the list right after they were.
pub proof fn models_are_set_next_to_the_list(setup: Setup, answers: Answers, i: int)
    requires
        0 <= i < setup.script(answers).len(),
        setup.script(answers)[i] is PatchSession,
    ensures
        setup.message.model is Some ==> i + 1 < setup.script(answers).len() && setup.script(
            answers,
        )[i + 1] is ListModels,
        setup.message.model is None ==> i > 0 && setup.script(answers)[i - 1] is ListModels,
{
    lemma_script(setup, answers);
    let n = lemma_located(setup, answers, 22, i);
    lemma_part_spans(setup, answers, n);
    assert(n == 15);
    lemma_around(setup, answers, 15);
    let start = parts(setup, answers, 0, 15).len() as int;
    let middle = part(setup, answers, 15);
    let script = setup.script(answers);
    assert(forall|j: int| 0 <= j < middle.len() ==> script[start + j] == #[trigger] middle[j]);
    let k = i - start;
    if setup.message.model is Some {
        assert(middle[k + 1] is ListModels);
        assert(script[start + (k + 1)] == middle[k + 1]);
    } else {
        assert(middle[k - 1] is ListModels);
        assert(script[start + (k - 1)] == middle[k - 1]);
    }
}

// What is answered.

/// A dispatch takes any answer to the question that it asked, and no answer to another. The
/// one bound is that of a machine number: there must be a next one.
pub proof fn questions_take_any_answer(stage: Stage, answers: Answers, answer: Answer)
    ensures
        stage != Stage::Done && answers.session_count < usize::MAX ==> fits(
            stage,
            answers.at(stage),
        ),
        fits(stage, answer) ==> match stage {
            Stage::ActiveSession => answer is ActiveSession,
            Stage::Reaction => answer is Reaction,
            Stage::Operators => answer is Operators,
            Stage::Ceiling => answer is Ceiling,
            Stage::CommandMode => answer is CommandMode,
            Stage::Session | Stage::BoundSession | Stage::SessionModel => answer is Session,
            Stage::SessionCount => answer is SessionCount,
            Stage::DefaultAgent => answer is DefaultAgent,
            Stage::AgentKnown => answer is AgentKnown,
            Stage::Thread => answer is Thread,
            Stage::Models => answer is Models,
            Stage::Sent => answer is Sent,
            Stage::Done => false,
        },
{
}

} // verus!
