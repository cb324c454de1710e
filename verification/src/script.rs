//! A dispatch as a whole: everything that is done for a message, in order, and what always
//! holds of it.

use serde_json::Value;
use vstd::prelude::*;
use crate::agent::{agent_choice, fallback_agent, session_agent, AgentChoiceView};
use crate::config_view::{ceiling_of, UntrustedAudience, UntrustedTools};
use crate::json::{json_of, Json};
use crate::operators::{denial, role_of, trusted_turn};
use crate::progress::{
    after, ask, effective_text, finalizing, lacks_agent, may_use_tools, opt_vec, with_ceiling, Act,
    Action, Advance, Answer, Progress, Setup, Stage, StoredSession, THREAD_LIMIT,
};
use crate::reactions::{early_outcome, reply_json, ChannelAckOutcome};
use crate::target::opt_text;
use crate::turn::{
    first_model, listed_name, model_note, model_patch, opt_doc, opt_messages, session_label,
    thread_context, Request, ThreadMessage,
};

verus! {

/// What a gateway's services would answer to each question of a dispatch.
pub struct Answers {
    pub active_session: Option<String>,
    pub reaction: String,
    pub operators: Option<Vec<String>>,
    pub ceiling: Option<(UntrustedAudience, UntrustedTools)>,
    pub command_mode: bool,
    pub session: Option<StoredSession>,
    pub session_count: usize,
    pub bound_session: Option<StoredSession>,
    pub default_agent: Option<String>,
    pub agent_known: bool,
    pub thread: Option<Vec<ThreadMessage>>,
    pub model_session: Option<StoredSession>,
    pub models: Option<Value>,
    pub sent: Result<Value, String>,
}

impl Answers {
    /// The answer that a stage waits for.
    pub open spec fn at(self, stage: Stage) -> Answer {
        match stage {
            Stage::ActiveSession => Answer::ActiveSession(self.active_session),
            Stage::Reaction => Answer::Reaction(self.reaction),
            Stage::Operators => Answer::Operators(self.operators),
            Stage::Ceiling => Answer::Ceiling(self.ceiling),
            Stage::CommandMode => Answer::CommandMode(self.command_mode),
            Stage::Session => Answer::Session(self.session),
            Stage::SessionCount => Answer::SessionCount(self.session_count),
            Stage::BoundSession => Answer::Session(self.bound_session),
            Stage::DefaultAgent => Answer::DefaultAgent(self.default_agent),
            Stage::AgentKnown => Answer::AgentKnown(self.agent_known),
            Stage::Thread => Answer::Thread(self.thread),
            Stage::SessionModel => Answer::Session(self.model_session),
            Stage::Models => Answer::Models(self.models),
            Stage::Sent => Answer::Sent(self.sent),
            Stage::Done => Answer::CommandMode(false),
        }
    }
}

/// How many answers a dispatch can still wait for.
pub open spec fn rank(stage: Stage) -> nat {
    match stage {
        Stage::ActiveSession => 14,
        Stage::Reaction => 13,
        Stage::Operators => 12,
        Stage::Ceiling => 11,
        Stage::CommandMode => 10,
        Stage::Session => 9,
        Stage::SessionCount => 8,
        Stage::BoundSession => 7,
        Stage::DefaultAgent => 6,
        Stage::AgentKnown => 5,
        Stage::Thread => 4,
        Stage::SessionModel => 3,
        Stage::Models => 2,
        Stage::Sent => 1,
        Stage::Done => 0,
    }
}

/// What a stretch waits for at its end.
pub open spec fn waits(advance: Advance) -> nat {
    rank(advance.progress.stage)
}

/// Whether an action asks for something.
pub open spec fn asks(action: Act) -> bool {
    match action {
        Action::FindActiveSession { .. } => true,
        Action::RegisterReaction { .. } => true,
        Action::LoadOperators { .. } => true,
        Action::LoadCeiling { .. } => true,
        Action::QueryCommandMode { .. } => true,
        Action::LoadSession { .. } => true,
        Action::CountChannelSessions { .. } => true,
        Action::LoadDefaultAgent => true,
        Action::FindAgent { .. } => true,
        Action::FetchThread { .. } => true,
        Action::ListModels => true,
        Action::SendChat { .. } => true,
        _ => false,
    }
}

/// Whether an action asks for what a stage waits for.
pub open spec fn asks_for(action: Act, stage: Stage) -> bool {
    match stage {
        Stage::ActiveSession => action is FindActiveSession,
        Stage::Reaction => action is RegisterReaction,
        Stage::Operators => action is LoadOperators,
        Stage::Ceiling => action is LoadCeiling,
        Stage::CommandMode => action is QueryCommandMode,
        Stage::Session => action is LoadSession,
        Stage::SessionCount => action is CountChannelSessions,
        Stage::BoundSession => action is LoadSession,
        Stage::DefaultAgent => action is LoadDefaultAgent,
        Stage::AgentKnown => action is FindAgent,
        Stage::Thread => action is FetchThread,
        Stage::SessionModel => action is LoadSession,
        Stage::Models => action is ListModels,
        Stage::Sent => action is SendChat,
        Stage::Done => false,
    }
}

/// No action asks for anything.
pub open spec fn quiet(actions: Seq<Act>) -> bool {
    forall|i: int| 0 <= i < actions.len() ==> !asks(#[trigger] actions[i])
}

/// Only the last action of a stretch asks for something, and it asks for what the dispatch
/// then waits for; where the dispatch is done, none does.
#[verifier::opaque]
pub open spec fn asks_last(advance: Advance) -> bool {
    if advance.progress.stage == Stage::Done {
        quiet(advance.actions)
    } else {
        &&& advance.actions.len() > 0
        &&& quiet(advance.actions.drop_last())
        &&& asks_for(advance.actions.last(), advance.progress.stage)
    }
}

proof fn lemma_asks(p: Progress, stage: Stage, action: Act)
    requires
        asks_for(action, stage),
    ensures
        asks_last(ask(p, stage, action)),
{
    reveal(asks_last);
}

proof fn lemma_asks_after(first: Seq<Act>, rest: Advance)
    requires
        quiet(first),
        asks_last(rest),
    ensures
        asks_last(after(first, rest)),
{
    reveal(asks_last);
    let actions = first + rest.actions;
    if rest.progress.stage != Stage::Done {
        assert(actions.drop_last() =~= first + rest.actions.drop_last());
        assert(actions.last() == rest.actions.last());
    }
}

proof fn lemma_waits_send(setup: Setup, p: Progress, model: Option<Seq<char>>)
    ensures
        waits(setup.at_send(p, model)) <= 1,
        asks_last(setup.at_send(p, model)),
{
    let action = Action::SendChat { params: Json::Object(setup.request(p, model).params()) };
    lemma_asks(p, Stage::Sent, action);
}

proof fn lemma_waits_models(setup: Setup, p: Progress, models: Option<Json>)
    ensures
        waits(setup.at_models(p, models)) <= 1,
        asks_last(setup.at_models(p, models)),
{
    match setup.message.model {
        Some(model) => {
            lemma_waits_send(setup, p, Some(model@));
            lemma_asks_after(
                seq![
                    Action::PushStatus {
                        session_key: p.session_key,
                        message: model_note(listed_name(models, model@)),
                    },
                ],
                setup.at_send(p, Some(model@)),
            );
        },
        None => match first_model(models) {
            Some((id, name)) => {
                lemma_waits_send(setup, p, Some(id));
                lemma_asks_after(
                    seq![
                        Action::PatchSession { patch: model_patch(p.session_key, id) },
                        Action::PushStatus { session_key: p.session_key, message: model_note(name) },
                    ],
                    setup.at_send(p, Some(id)),
                );
            },
            None => {
                lemma_waits_send(setup, p, None);
            },
        },
    }
}

proof fn lemma_waits_first_model(setup: Setup, p: Progress)
    ensures
        waits(setup.at_first_model(p)) <= 2,
        asks_last(setup.at_first_model(p)),
{
    let patched: Seq<Act> = match setup.message.model {
        Some(model) => seq![Action::PatchSession { patch: model_patch(p.session_key, model@) }],
        None => Seq::empty(),
    };
    lemma_asks(p, Stage::Models, Action::ListModels);
    lemma_asks_after(patched, ask(p, Stage::Models, Action::ListModels));
}

proof fn lemma_waits_model(setup: Setup, p: Progress)
    ensures
        waits(setup.at_model(p)) <= 3,
        asks_last(setup.at_model(p)),
{
    lemma_asks(p, Stage::SessionModel, Action::LoadSession { session_key: p.session_key });
    lemma_waits_first_model(setup, p);
}

proof fn lemma_waits_seen(setup: Setup, p: Progress)
    ensures
        waits(setup.at_seen(p)) <= 4,
        asks_last(setup.at_seen(p)),
{
    reveal(Setup::at_seen);
    let seen: Seq<Act> = seq![Action::MarkSeen { session_key: p.session_key }];
    lemma_waits_model(setup, p);
    if let Some(thread_id) = setup.message.reply_to.message_id {
        let action = Action::FetchThread {
            account_id: setup.message.reply_to.account_id@,
            chat_id: setup.message.reply_to.chat_id@,
            thread_id: thread_id@,
            limit: THREAD_LIMIT,
        };
        lemma_asks(p, Stage::Thread, action);
        lemma_asks_after(seen, ask(p, Stage::Thread, action));
    }
    lemma_asks_after(seen, setup.at_model(p));
}

proof fn lemma_waits_agent_set(setup: Setup, p: Progress, agent_id: Seq<char>)
    ensures
        waits(setup.at_agent_set(p, agent_id)) <= 4,
        asks_last(setup.at_agent_set(p, agent_id)),
{
    lemma_waits_seen(setup, p);
    lemma_asks_after(
        seq![Action::SetAgent { session_key: p.session_key, agent_id }],
        setup.at_seen(p),
    );
}

proof fn lemma_waits_agent_choice(setup: Setup, p: Progress)
    ensures
        waits(setup.at_agent_choice(p)) <= 5,
        asks_last(setup.at_agent_choice(p)),
{
    match setup.choice(p) {
        AgentChoiceView::LookUp(agent_id) => {
            lemma_asks(p, Stage::AgentKnown, Action::FindAgent { agent_id });
        },
        AgentChoiceView::Settled(agent_id) => {
            lemma_waits_agent_set(setup, p, agent_id);
        },
    }
}

proof fn lemma_waits_agent(setup: Setup, p: Progress, session: Option<StoredSession>)
    ensures
        waits(setup.at_agent(p, session)) <= 6,
        asks_last(setup.at_agent(p, session)),
{
    lemma_asks(p, Stage::DefaultAgent, Action::LoadDefaultAgent);
    lemma_waits_seen(setup, p);
    lemma_waits_agent_choice(setup, Progress { fallback: fallback_agent(None), ..p });
}

proof fn lemma_waits_binding(setup: Setup, p: Progress)
    ensures
        waits(setup.at_binding(p)) <= 7,
        asks_last(setup.at_binding(p)),
{
    let bound: Seq<Act> = match setup.message.binding {
        Some(binding) => seq![
            Action::SetChannelBinding { session_key: p.session_key, binding: binding@ },
        ],
        None => Seq::empty(),
    };
    let action = Action::LoadSession { session_key: p.session_key };
    lemma_asks(p, Stage::BoundSession, action);
    lemma_asks_after(bound, ask(p, Stage::BoundSession, action));
}

proof fn lemma_waits_label(setup: Setup, p: Progress, session: Option<StoredSession>)
    ensures
        waits(setup.at_label(p, session)) <= 8,
        asks_last(setup.at_label(p, session)),
{
    let action = Action::CountChannelSessions {
        channel_type: setup.message.reply_to.channel_type@,
        account_id: setup.message.reply_to.account_id@,
        chat_id: setup.message.reply_to.chat_id@,
    };
    lemma_asks(p, Stage::SessionCount, action);
    lemma_waits_binding(setup, p);
}

proof fn lemma_waits_broadcast(setup: Setup, p: Progress)
    ensures
        waits(setup.at_broadcast(p)) <= 9,
        asks_last(setup.at_broadcast(p)),
{
    reveal(Setup::at_broadcast);
    let told: Seq<Act> = seq![
        setup.telling(p.session_key),
    ];
    let action = Action::LoadSession { session_key: p.session_key };
    lemma_asks(p, Stage::Session, action);
    lemma_asks_after(told, ask(p, Stage::Session, action));
    lemma_waits_seen(setup, p);
    lemma_asks_after(told, setup.at_seen(p));
}

proof fn lemma_waits_settle(
    setup: Setup,
    p: Progress,
    outcome: Option<ChannelAckOutcome>,
    text: Option<Seq<char>>,
)
    ensures
        waits(setup.settle(p, outcome, text)) == 0,
        asks_last(setup.settle(p, outcome, text)),
{
    reveal(asks_last);
}

proof fn lemma_waits_gate(setup: Setup, p: Progress)
    ensures
        waits(setup.at_gate(p)) <= 10,
        asks_last(setup.at_gate(p)),
{
    reveal(Setup::at_gate);
    lemma_waits_settle(
        setup,
        p,
        Some(ChannelAckOutcome::Failure),
        Some(denial("/sh"@, opt_text(setup.message.sender_id))),
    );
    lemma_asks(p, Stage::CommandMode, Action::QueryCommandMode { session_key: p.session_key });
    lemma_waits_broadcast(setup, p);
}

proof fn lemma_waits_ceiling(setup: Setup, p: Progress)
    ensures
        waits(setup.at_ceiling(p)) <= 11,
        asks_last(setup.at_ceiling(p)),
{
    let action = Action::LoadCeiling { account_id: setup.message.reply_to.account_id@ };
    lemma_asks(p, Stage::Ceiling, action);
    lemma_waits_gate(setup, with_ceiling(p, None));
}

proof fn lemma_waits_role(setup: Setup, p: Progress)
    ensures
        waits(setup.at_role(p)) <= 12,
        asks_last(setup.at_role(p)),
{
    let action = Action::LoadOperators { account_id: setup.message.reply_to.account_id@ };
    lemma_asks(p, Stage::Operators, action);
    lemma_waits_ceiling(setup, setup.with_operators(p, None));
}

proof fn lemma_waits_reaction(setup: Setup, p: Progress)
    ensures
        waits(setup.at_reaction(p)) <= 13,
        asks_last(setup.at_reaction(p)),
{
    if let Some(message_id) = setup.message.reply_to.ack_message_id {
        let action = Action::RegisterReaction {
            account_id: setup.message.reply_to.account_id@,
            chat_id: setup.message.reply_to.chat_id@,
            message_id: message_id@,
        };
        lemma_asks(p, Stage::Reaction, action);
    }
    lemma_waits_role(setup, p);
}

proof fn lemma_waits_session(setup: Setup, p: Progress)
    ensures
        waits(setup.at_session(p)) <= 14,
        asks_last(setup.at_session(p)),
{
    let action = Action::FindActiveSession {
        channel_type: setup.message.reply_to.channel_type@,
        account_id: setup.message.reply_to.account_id@,
        chat_id: setup.message.reply_to.chat_id@,
        topic_id: opt_text(setup.message.reply_to.thread_id),
    };
    lemma_asks(p, Stage::ActiveSession, action);
    lemma_waits_reaction(setup, Progress { session_key: setup.message.reply_to.own_key(), ..p });
}

/// How a dispatch goes on where the services answer so.
#[verifier::opaque]
pub open spec fn answered(setup: Setup, p: Progress, answers: Answers) -> Advance {
    setup.next(p, answers.at(p.stage))
}

/// Every answer brings a dispatch closer to its end, so a dispatch ends after at most
/// fourteen answers.
pub proof fn answers_bring_the_end_closer(setup: Setup, p: Progress, answers: Answers)
    requires
        p.stage != Stage::Done,
    ensures
        rank(answered(setup, p, answers).progress.stage) < rank(p.stage),
        rank(setup.begin().progress.stage) <= 14,
{
    lemma_waits_begin(setup);
    lemma_answers(setup, p, answers);
}

/// Whatever a dispatch does between two answers, it asks at most one question, asks it
/// last, and then waits for the answer to it.
pub proof fn questions_come_last(setup: Setup, p: Progress, answers: Answers)
    requires
        p.stage != Stage::Done,
    ensures
        asks_last(setup.begin()),
        asks_last(answered(setup, p, answers)),
{
    lemma_waits_begin(setup);
    lemma_answers(setup, p, answers);
}

proof fn lemma_answers(setup: Setup, p: Progress, answers: Answers)
    requires
        p.stage != Stage::Done,
    ensures
        waits(answered(setup, p, answers)) < rank(p.stage),
        asks_last(answered(setup, p, answers)),
{
    if p.stage == Stage::ActiveSession || p.stage == Stage::Reaction || p.stage == Stage::Operators
        || p.stage == Stage::Ceiling {
        lemma_early_answers(setup, p, answers);
    } else if p.stage == Stage::CommandMode || p.stage == Stage::Session || p.stage
        == Stage::SessionCount {
        lemma_middle_answers(setup, p, answers);
    } else if p.stage == Stage::BoundSession || p.stage == Stage::DefaultAgent || p.stage
        == Stage::AgentKnown {
        lemma_agent_answers(setup, p, answers);
    } else {
        lemma_late_answers(setup, p, answers);
    }
}

proof fn lemma_waits_begin(setup: Setup)
    ensures
        waits(setup.begin()) <= 14,
        asks_last(setup.begin()),
{
    let p = Progress {
        stage: Stage::Done,
        session_key: Seq::empty(),
        ack_key: None,
        trusted: false,
        audience: UntrustedAudience::Public,
        tools: UntrustedTools::DenyAll,
        text: setup.message.text@,
        fallback: crate::agent::MAIN_AGENT@,
        thread: None,
    };
    lemma_waits_session(setup, p);
    lemma_asks_after(seq![setup.start_typing()], setup.at_session(p));
}

proof fn lemma_early_answers(setup: Setup, p: Progress, answers: Answers)
    requires
        p.stage == Stage::ActiveSession || p.stage == Stage::Reaction || p.stage
            == Stage::Operators || p.stage == Stage::Ceiling,
    ensures
        waits(answered(setup, p, answers)) < rank(p.stage),
        asks_last(answered(setup, p, answers)),
{
    reveal(answered);
    if p.stage == Stage::ActiveSession {
        let key = match opt_text(answers.active_session) {
            Some(key) => key,
            None => setup.message.reply_to.own_key(),
        };
        lemma_waits_reaction(setup, Progress { session_key: key, ..p });
    } else if p.stage == Stage::Reaction {
        lemma_waits_role(setup, Progress { ack_key: Some(answers.reaction@), ..p });
    } else if p.stage == Stage::Operators {
        lemma_waits_ceiling(setup, setup.with_operators(p, opt_vec(answers.operators)));
    } else {
        lemma_waits_gate(setup, with_ceiling(p, answers.ceiling));
    }
}

proof fn lemma_middle_answers(setup: Setup, p: Progress, answers: Answers)
    requires
        p.stage == Stage::CommandMode || p.stage == Stage::Session || p.stage == Stage::SessionCount,
    ensures
        waits(answered(setup, p, answers)) < rank(p.stage),
        asks_last(answered(setup, p, answers)),
{
    reveal(answered);
    if p.stage == Stage::CommandMode {
        lemma_waits_broadcast(
            setup,
            Progress { text: effective_text(setup.message.text@, answers.command_mode), ..p },
        );
    } else if p.stage == Stage::Session {
        lemma_waits_label(setup, p, answers.session);
    } else {
        let upsert = Action::UpsertSession {
            session_key: p.session_key,
            label: session_label(
                setup.message.reply_to.display_name@,
                (answers.session_count + 1) as nat,
            ),
        };
        lemma_waits_binding(setup, p);
        lemma_asks_after(seq![upsert], setup.at_binding(p));
    }
}

proof fn lemma_agent_answers(setup: Setup, p: Progress, answers: Answers)
    requires
        p.stage == Stage::BoundSession || p.stage == Stage::DefaultAgent || p.stage == Stage::AgentKnown,
    ensures
        waits(answered(setup, p, answers)) < rank(p.stage),
        asks_last(answered(setup, p, answers)),
{
    reveal(answered);
    if p.stage == Stage::BoundSession {
        lemma_waits_agent(setup, p, answers.bound_session);
    } else if p.stage == Stage::DefaultAgent {
        lemma_waits_agent_choice(
            setup,
            Progress { fallback: fallback_agent(opt_text(answers.default_agent)), ..p },
        );
    } else {
        lemma_waits_agent_set(
            setup,
            p,
            session_agent(setup.choice(p), p.fallback, answers.agent_known),
        );
    }
}

proof fn lemma_late_answers(setup: Setup, p: Progress, answers: Answers)
    requires
        p.stage == Stage::Thread || p.stage == Stage::SessionModel || p.stage == Stage::Models
            || p.stage == Stage::Sent,
    ensures
        waits(answered(setup, p, answers)) < rank(p.stage),
        asks_last(answered(setup, p, answers)),
{
    reveal(answered);
    if p.stage == Stage::Thread {
        lemma_waits_model(
            setup,
            Progress { thread: thread_context(opt_messages(answers.thread)), ..p },
        );
    } else if p.stage == Stage::SessionModel {
        lemma_waits_first_model(setup, p);
        lemma_waits_send(setup, p, opt_text(setup.message.model));
    } else if p.stage == Stage::Models {
        lemma_waits_models(setup, p, opt_doc(answers.models));
    } else {
        lemma_waits_settle(
            setup,
            p,
            early_outcome(reply_json(answers.sent)),
            match answers.sent {
                Ok(_) => None,
                Err(error) => Some("⚠️ "@ + error@),
            },
        );
    }
}

/// What is still done from here on, where the services answer so.
pub open spec fn remaining(setup: Setup, p: Progress, answers: Answers) -> Seq<Act>
    decreases rank(p.stage),
{
    if p.stage == Stage::Done {
        Seq::empty()
    } else {
        proof {
            answers_bring_the_end_closer(setup, p, answers);
        }
        answered(setup, p, answers).actions + remaining(
            setup,
            answered(setup, p, answers).progress,
            answers,
        )
    }
}

/// A stretch of a dispatch and all that follows it.
pub open spec fn complete(setup: Setup, advance: Advance, answers: Answers) -> Seq<Act> {
    advance.actions + remaining(setup, advance.progress, answers)
}

/// All that is done for a message.
pub open spec fn performed(setup: Setup, answers: Answers) -> Seq<Act> {
    complete(setup, setup.begin(), answers)
}

/// The action where the condition holds.
pub open spec fn only_if(condition: bool, action: Act) -> Seq<Act> {
    if condition {
        seq![action]
    } else {
        Seq::empty()
    }
}

impl Setup {
    /// The session of the message: the one that the chat was switched to, or its own.
    pub open spec fn session_key(self, answers: Answers) -> Seq<char> {
        match opt_text(answers.active_session) {
            Some(key) => if self.services.session_metadata {
                key
            } else {
                self.message.reply_to.own_key()
            },
            None => self.message.reply_to.own_key(),
        }
    }

    /// Whether the message carries an acknowledgment reaction.
    pub open spec fn reacts(self) -> bool {
        self.message.reply_to.ack_message_id is Some && self.services.outbound
    }

    /// The key of the reaction.
    pub open spec fn ack_key(self, answers: Answers) -> Option<Seq<char>> {
        if self.reacts() {
            Some(answers.reaction@)
        } else {
            None
        }
    }

    /// Whether an operator wrote in a proven direct chat.
    pub open spec fn trusted(self, answers: Answers) -> bool {
        self.services.channel_registry && trusted_turn(
            role_of(opt_vec(answers.operators), opt_text(self.message.sender_id)),
            self.message.reply_to.shared_chat,
        )
    }

    /// The ceiling for untrusted turns.
    pub open spec fn ceiling(self, answers: Answers) -> (UntrustedAudience, UntrustedTools) {
        ceiling_of(
            if self.services.channel_registry {
                answers.ceiling
            } else {
                None
            },
        )
    }

    /// Whether the turn may use tools.
    pub open spec fn uses_tools(self, answers: Answers) -> bool {
        self.trusted(answers) || self.ceiling(answers).1 == UntrustedTools::Policy
    }

    /// Whether the message is refused.
    pub open spec fn denied(self, answers: Answers) -> bool {
        !self.uses_tools(answers) && self.message.explicit_shell
    }

    /// What the agent reads.
    pub open spec fn agent_text(self, answers: Answers) -> Seq<char> {
        if self.uses_tools(answers) {
            effective_text(self.message.text@, answers.command_mode)
        } else {
            self.message.text@
        }
    }

    /// What is looked up before anything is decided.
    pub open spec fn lookups(self, answers: Answers) -> Seq<Act> {
        only_if(
            self.services.session_metadata,
            Action::FindActiveSession {
                channel_type: self.message.reply_to.channel_type@,
                account_id: self.message.reply_to.account_id@,
                chat_id: self.message.reply_to.chat_id@,
                topic_id: opt_text(self.message.reply_to.thread_id),
            },
        ) + only_if(
            self.reacts(),
            Action::RegisterReaction {
                account_id: self.message.reply_to.account_id@,
                chat_id: self.message.reply_to.chat_id@,
                message_id: self.message.reply_to.ack_message_id->0@,
            },
        ) + only_if(
            self.services.channel_registry,
            Action::LoadOperators { account_id: self.message.reply_to.account_id@ },
        ) + only_if(
            self.services.channel_registry,
            Action::LoadCeiling { account_id: self.message.reply_to.account_id@ },
        )
    }

    /// The agent that a session without one gets.
    pub open spec fn new_agent(self, answers: Answers) -> Seq<char> {
        let fallback = self.agent_fallback(answers);
        session_agent(self.new_agent_choice(answers), fallback, answers.agent_known)
    }

    /// The agent where the channel asks for none, or for one that is not known.
    pub open spec fn agent_fallback(self, answers: Answers) -> Seq<char> {
        if self.services.persona_store {
            fallback_agent(opt_text(answers.default_agent))
        } else {
            fallback_agent(None)
        }
    }

    /// The agent that the channel asks for, before the store is asked for it.
    pub open spec fn new_agent_choice(self, answers: Answers) -> AgentChoiceView {
        agent_choice(
            opt_text(self.message.agent_id),
            self.agent_fallback(answers),
            self.services.persona_store,
        )
    }

    /// How a session without an agent gets one.
    pub open spec fn agent_part(self, key: Seq<char>, answers: Answers) -> Seq<Act> {
        if answers.bound_session is Some && lacks_agent(answers.bound_session->0) {
            only_if(self.services.persona_store, Action::LoadDefaultAgent) + (match self.new_agent_choice(
                answers,
            ) {
                AgentChoiceView::LookUp(agent_id) => seq![Action::FindAgent { agent_id }],
                AgentChoiceView::Settled(_) => Seq::empty(),
            }) + seq![Action::SetAgent { session_key: key, agent_id: self.new_agent(answers) }]
        } else {
            Seq::empty()
        }
    }

    /// How the session is labelled, where it is not bound yet.
    pub open spec fn label_part(self, key: Seq<char>, answers: Answers) -> Seq<Act> {
        if answers.session is None || !answers.session->0.bound {
            seq![
                Action::CountChannelSessions {
                    channel_type: self.message.reply_to.channel_type@,
                    account_id: self.message.reply_to.account_id@,
                    chat_id: self.message.reply_to.chat_id@,
                },
                Action::UpsertSession {
                    session_key: key,
                    label: session_label(
                        self.message.reply_to.display_name@,
                        (answers.session_count + 1) as nat,
                    ),
                },
            ]
        } else {
            Seq::empty()
        }
    }

    /// How the session is bound to the channel.
    pub open spec fn binding_part(self, key: Seq<char>, answers: Answers) -> Seq<Act> {
        match self.message.binding {
            Some(binding) => if self.services.session_metadata {
                seq![Action::LoadSession { session_key: key }] + self.label_part(key, answers)
                    + seq![
                    Action::SetChannelBinding { session_key: key, binding: binding@ },
                    Action::LoadSession { session_key: key },
                ] + self.agent_part(key, answers)
            } else {
                Seq::empty()
            },
            None => Seq::empty(),
        }
    }

    /// Whether the thread of the message is fetched.
    pub open spec fn fetches_thread(self) -> bool {
        self.message.reply_to.message_id is Some && self.services.channel_registry
    }

    /// How the thread of the message is fetched.
    pub open spec fn thread_part(self) -> Seq<Act> {
        only_if(
            self.fetches_thread(),
            Action::FetchThread {
                account_id: self.message.reply_to.account_id@,
                chat_id: self.message.reply_to.chat_id@,
                thread_id: self.message.reply_to.message_id->0@,
                limit: THREAD_LIMIT,
            },
        )
    }

    /// The thread that the request carries.
    pub open spec fn thread(self, answers: Answers) -> Option<Json> {
        if self.fetches_thread() {
            thread_context(opt_messages(answers.thread))
        } else {
            None
        }
    }

    /// Whether the session has a model already.
    pub open spec fn has_model(self, answers: Answers) -> bool {
        self.services.session_metadata && answers.model_session is Some
            && answers.model_session->0.has_model
    }

    /// The model that the request names.
    pub open spec fn model(self, answers: Answers) -> Option<Seq<char>> {
        match self.message.model {
            Some(model) => Some(model@),
            None => if self.has_model(answers) {
                None
            } else {
                match first_model(opt_doc(answers.models)) {
                    Some((id, _)) => Some(id),
                    None => None,
                }
            },
        }
    }

    /// How a session without a model gets one.
    pub open spec fn new_model_part(self, key: Seq<char>, answers: Answers) -> Seq<Act> {
        match self.message.model {
            Some(model) => seq![
                Action::PatchSession { patch: model_patch(key, model@) },
                Action::ListModels,
                Action::PushStatus {
                    session_key: key,
                    message: model_note(listed_name(opt_doc(answers.models), model@)),
                },
            ],
            None => match first_model(opt_doc(answers.models)) {
                Some((id, name)) => seq![
                    Action::ListModels,
                    Action::PatchSession { patch: model_patch(key, id) },
                    Action::PushStatus { session_key: key, message: model_note(name) },
                ],
                None => seq![Action::ListModels],
            },
        }
    }

    /// How the session's model is looked up, and set where there is none.
    pub open spec fn model_part(self, key: Seq<char>, answers: Answers) -> Seq<Act> {
        only_if(
            self.services.session_metadata,
            Action::LoadSession { session_key: key },
        ) + if self.has_model(answers) {
            Seq::empty()
        } else {
            self.new_model_part(key, answers)
        }
    }

    /// What the chat service is sent.
    pub open spec fn sent_request(self, answers: Answers) -> Request {
        Request {
            text: self.agent_text(answers),
            channel: json_of(self.message.channel),
            session_key: self.session_key(answers),
            reply_target_name: self.names.reply_target@,
            reply_target: json_of(self.message.reply_target),
            trusted: self.trusted(answers),
            audience: self.ceiling(answers).0,
            tools: self.ceiling(answers).1,
            ack_keys_name: self.names.ack_keys@,
            ack_key: self.ack_key(answers),
            thread: self.thread(answers),
            audio_filename: opt_text(self.message.audio_filename),
            documents: opt_doc(self.message.documents),
            model: self.model(answers),
        }
    }

    /// The end of a dispatch: typing stops, the reaction is finalized where an outcome is
    /// known, and the user gets a text where there is one to give.
    pub open spec fn ending(
        self,
        ack_key: Option<Seq<char>>,
        outcome: Option<ChannelAckOutcome>,
        text: Option<Seq<char>>,
    ) -> Seq<Act> {
        seq![Action::StopTyping] + finalizing(ack_key, outcome) + self.texting(text)
    }

    /// What is done where the chat service replied.
    pub open spec fn reply_part(self, ack_key: Option<Seq<char>>, answers: Answers) -> Seq<Act> {
        self.ending(
            ack_key,
            early_outcome(reply_json(answers.sent)),
            match answers.sent {
                Ok(_) => None,
                Err(error) => Some("⚠️ "@ + error@),
            },
        )
    }

    /// What is done for a message that is not refused, from the broadcast up to the send.
    pub open spec fn delivery(self, answers: Answers) -> Seq<Act> {
        let key = self.session_key(answers);
        only_if(
            self.uses_tools(answers),
            Action::QueryCommandMode { session_key: key },
        ) + seq![
            self.telling(key),
        ] + self.binding_part(key, answers) + seq![Action::MarkSeen { session_key: key }]
            + self.thread_part() + self.model_part(key, answers)
    }

    /// All that is done for a message, in order.
    pub open spec fn script(self, answers: Answers) -> Seq<Act> {
        seq![self.start_typing()] + self.lookups(answers) + if self.denied(answers) {
            self.ending(
                self.ack_key(answers),
                Some(ChannelAckOutcome::Failure),
                Some(denial("/sh"@, opt_text(self.message.sender_id))),
            )
        } else {
            self.delivery(answers) + seq![
                Action::SendChat { params: Json::Object(self.sent_request(answers).params()) },
            ] + self.reply_part(self.ack_key(answers), answers)
        }
    }
}

proof fn lemma_after(setup: Setup, first: Seq<Act>, rest: Advance, answers: Answers)
    ensures
        complete(setup, after(first, rest), answers) == first + complete(setup, rest, answers),
{
    assert(complete(setup, after(first, rest), answers) =~= first + complete(setup, rest, answers));
}

proof fn lemma_asked(setup: Setup, p: Progress, stage: Stage, action: Act, answers: Answers)
    requires
        stage != Stage::Done,
    ensures
        complete(setup, ask(p, stage, action), answers) == seq![action] + complete(
            setup,
            answered(setup, Progress { stage, ..p }, answers),
            answers,
        ),
{
}

proof fn lemma_settled(
    setup: Setup,
    p: Progress,
    outcome: Option<ChannelAckOutcome>,
    text: Option<Seq<char>>,
    answers: Answers,
)
    ensures
        complete(setup, setup.settle(p, outcome, text), answers) == setup.ending(
            p.ack_key,
            outcome,
            text,
        ),
{
    assert(complete(setup, setup.settle(p, outcome, text), answers) =~= setup.ending(
        p.ack_key,
        outcome,
        text,
    ));
}

/// The request and the end of the dispatch, where the request names that model.
#[verifier::opaque]
pub open spec fn sending(
    setup: Setup,
    p: Progress,
    model: Option<Seq<char>>,
    answers: Answers,
) -> Seq<Act> {
    seq![Action::SendChat { params: Json::Object(setup.request(p, model).params()) }]
        + setup.reply_part(p.ack_key, answers)
}

proof fn lemma_sending(setup: Setup, p: Progress, model: Option<Seq<char>>, answers: Answers)
    ensures
        complete(setup, setup.at_send(p, model), answers) == sending(setup, p, model, answers),
        forall|stage: Stage| #[trigger]
            sending(setup, (Progress { stage, ..p }), model, answers) == sending(
                setup,
                p,
                model,
                answers,
            ),
{
    reveal(sending);
    reveal(answered);
    let action = Action::SendChat { params: Json::Object(setup.request(p, model).params()) };
    let waiting = Progress { stage: Stage::Sent, ..p };
    lemma_asked(setup, p, Stage::Sent, action, answers);
    let outcome = early_outcome(reply_json(answers.sent));
    let text = match answers.sent {
        Ok(_) => None,
        Err(error) => Some("⚠️ "@ + error@),
    };
    assert(answered(setup, waiting, answers) == setup.settle(waiting, outcome, text));
    lemma_settled(setup, waiting, outcome, text, answers);
    assert forall|stage: Stage| #[trigger]
        sending(setup, (Progress { stage, ..p }), model, answers) == sending(
            setup,
            p,
            model,
            answers,
        ) by {
        assert(setup.request(Progress { stage, ..p }, model) == setup.request(p, model));
    }
}

proof fn lemma_new_model(setup: Setup, p: Progress, answers: Answers)
    requires
        !setup.has_model(answers),
    ensures
        complete(setup, setup.at_first_model(p), answers) == setup.new_model_part(
            p.session_key,
            answers,
        ) + sending(setup, p, setup.model(answers), answers),
{
    reveal(answered);
    let waiting = Progress { stage: Stage::Models, ..p };
    let patched: Seq<Act> = match setup.message.model {
        Some(model) => seq![Action::PatchSession { patch: model_patch(p.session_key, model@) }],
        None => Seq::empty(),
    };
    let models = opt_doc(answers.models);
    lemma_after(setup, patched, ask(p, Stage::Models, Action::ListModels), answers);
    lemma_asked(setup, p, Stage::Models, Action::ListModels, answers);
    assert(answered(setup, waiting, answers) == setup.at_models(waiting, models));
    let model = setup.model(answers);
    lemma_sending(setup, p, model, answers);
    lemma_sending(setup, waiting, model, answers);
    let sent = sending(setup, p, model, answers);
    assert(sending(setup, waiting, model, answers) == sent);
    let rest: Seq<Act> = match setup.message.model {
        Some(model) => seq![
            Action::PushStatus {
                session_key: p.session_key,
                message: model_note(listed_name(models, model@)),
            },
        ],
        None => match first_model(models) {
            Some((id, name)) => seq![
                Action::PatchSession { patch: model_patch(p.session_key, id) },
                Action::PushStatus { session_key: p.session_key, message: model_note(name) },
            ],
            None => Seq::empty(),
        },
    };
    if setup.message.model is Some || first_model(models) is Some {
        lemma_after(setup, rest, setup.at_send(waiting, model), answers);
    }
    assert(complete(setup, setup.at_models(waiting, models), answers) =~= rest + sent);
    assert(patched + (seq![Action::ListModels] + (rest + sent)) =~= setup.new_model_part(
        p.session_key,
        answers,
    ) + sent);
}

/// The model and all that follows.
#[verifier::opaque]
pub open spec fn modelling(setup: Setup, p: Progress, answers: Answers) -> Seq<Act> {
    setup.model_part(p.session_key, answers) + sending(setup, p, setup.model(answers), answers)
}

proof fn lemma_modelling(setup: Setup, p: Progress, answers: Answers)
    ensures
        complete(setup, setup.at_model(p), answers) == modelling(setup, p, answers),
        forall|stage: Stage| #[trigger]
            modelling(setup, (Progress { stage, ..p }), answers) == modelling(setup, p, answers),
{
    reveal(modelling);
    let model = setup.model(answers);
    let waiting = Progress { stage: Stage::SessionModel, ..p };
    let sent = sending(setup, p, model, answers);
    let action = Action::LoadSession { session_key: p.session_key };
    lemma_sending(setup, p, model, answers);
    assert(sending(setup, waiting, model, answers) == sent);
    if setup.services.session_metadata {
        lemma_asked(setup, p, Stage::SessionModel, action, answers);
        reveal(answered);
        if setup.has_model(answers) {
            assert(answered(setup, waiting, answers) == setup.at_send(
                waiting,
                opt_text(setup.message.model),
            ));
            lemma_sending(setup, waiting, model, answers);
            assert(seq![action] + sent =~= modelling(setup, p, answers));
        } else {
            assert(answered(setup, waiting, answers) == setup.at_first_model(waiting));
            lemma_new_model(setup, waiting, answers);
            let part = setup.new_model_part(p.session_key, answers);
            assert(seq![action] + (part + sent) =~= modelling(setup, p, answers));
        }
    } else {
        lemma_new_model(setup, p, answers);
        let part = setup.new_model_part(p.session_key, answers);
        assert(part + sent =~= modelling(setup, p, answers));
    }
}

/// The mark that the session was seen, and all that follows.
#[verifier::opaque]
pub open spec fn seeing(setup: Setup, p: Progress, answers: Answers) -> Seq<Act> {
    seq![Action::MarkSeen { session_key: p.session_key }] + setup.thread_part() + modelling(
        setup,
        Progress { thread: setup.thread(answers), ..p },
        answers,
    )
}

proof fn lemma_seeing(setup: Setup, p: Progress, answers: Answers)
    requires
        p.thread is None,
    ensures
        complete(setup, setup.at_seen(p), answers) == seeing(setup, p, answers),
        forall|stage: Stage, fallback: Seq<char>| #[trigger]
            seeing(setup, (Progress { stage, fallback, ..p }), answers) == seeing(
                setup,
                p,
                answers,
            ),
{
    reveal(Setup::at_seen);
    reveal(seeing);
    let seen = seq![Action::MarkSeen { session_key: p.session_key }];
    let threaded = Progress { thread: setup.thread(answers), ..p };
    lemma_modelling(setup, threaded, answers);
    let rest = modelling(setup, threaded, answers);
    if setup.fetches_thread() {
        let action = Action::FetchThread {
            account_id: setup.message.reply_to.account_id@,
            chat_id: setup.message.reply_to.chat_id@,
            thread_id: setup.message.reply_to.message_id->0@,
            limit: THREAD_LIMIT,
        };
        let waiting = Progress { stage: Stage::Thread, ..p };
        let read = Progress { stage: Stage::Thread, ..threaded };
        lemma_asked(setup, p, Stage::Thread, action, answers);
        assert(answered(setup, waiting, answers) == setup.at_model(read)) by {
            reveal(answered);
        }
        lemma_modelling(setup, read, answers);
        assert(modelling(setup, read, answers) == rest);
        lemma_after(setup, seen, ask(p, Stage::Thread, action), answers);
        assert(seen + (seq![action] + rest) =~= seeing(setup, p, answers));
    } else {
        assert(threaded == p);
        lemma_after(setup, seen, setup.at_model(p), answers);
        assert(seen + rest =~= seeing(setup, p, answers));
    }
    assert forall|stage: Stage, fallback: Seq<char>| #[trigger]
        seeing(setup, (Progress { stage, fallback, ..p }), answers) == seeing(setup, p, answers) by {
        let other = Progress { stage, fallback, ..threaded };
        assert(modelling(setup, other, answers) == rest) by {
            reveal(modelling);
            reveal(sending);
            assert(setup.request(other, setup.model(answers)) == setup.request(
                threaded,
                setup.model(answers),
            ));
        }
    }
}

proof fn lemma_agent_choice(setup: Setup, p: Progress, answers: Answers)
    requires
        p.thread is None,
        p.fallback == setup.agent_fallback(answers),
    ensures
        complete(setup, setup.at_agent_choice(p), answers) == (match setup.new_agent_choice(answers) {
            AgentChoiceView::LookUp(agent_id) => seq![Action::FindAgent { agent_id }],
            AgentChoiceView::Settled(_) => Seq::empty(),
        }) + seq![
            Action::SetAgent { session_key: p.session_key, agent_id: setup.new_agent(answers) },
        ] + seeing(setup, p, answers),
{
    let agent_id = setup.new_agent(answers);
    let set = seq![Action::SetAgent { session_key: p.session_key, agent_id }];
    let rest = seeing(setup, p, answers);
    lemma_seeing(setup, p, answers);
    match setup.new_agent_choice(answers) {
        AgentChoiceView::LookUp(wanted) => {
            let waiting = Progress { stage: Stage::AgentKnown, ..p };
            lemma_asked(setup, p, Stage::AgentKnown, Action::FindAgent { agent_id: wanted }, answers);
            assert(answered(setup, waiting, answers) == setup.at_agent_set(waiting, agent_id)) by {
                reveal(answered);
            }
            lemma_seeing(setup, waiting, answers);
            assert(seeing(
                setup,
                (Progress { stage: Stage::AgentKnown, fallback: p.fallback, ..p }),
                answers,
            ) == rest);
            lemma_after(setup, set, setup.at_seen(waiting), answers);
            assert(seq![Action::<Seq<char>, Json>::FindAgent { agent_id: wanted }] + (set + rest)
                =~= seq![Action::<Seq<char>, Json>::FindAgent { agent_id: wanted }] + set + rest);
        },
        AgentChoiceView::Settled(_) => {
            lemma_after(setup, set, setup.at_seen(p), answers);
            assert(Seq::<Act>::empty() + set + rest =~= set + rest);
        },
    }
}

proof fn lemma_agent(setup: Setup, p: Progress, answers: Answers)
    requires
        p.thread is None,
    ensures
        complete(setup, setup.at_agent(p, answers.bound_session), answers) == setup.agent_part(
            p.session_key,
            answers,
        ) + seeing(setup, p, answers),
{
    lemma_seeing(setup, p, answers);
    let rest = seeing(setup, p, answers);
    if answers.bound_session is Some && lacks_agent(answers.bound_session->0) {
        let fallback = setup.agent_fallback(answers);
        let stage = if setup.services.persona_store {
            Stage::DefaultAgent
        } else {
            p.stage
        };
        let ready = Progress { stage, fallback, ..p };
        assert(seeing(setup, ready, answers) == rest);
        lemma_agent_choice(setup, ready, answers);
        if setup.services.persona_store {
            let waiting = Progress { stage: Stage::DefaultAgent, ..p };
            lemma_asked(setup, p, Stage::DefaultAgent, Action::LoadDefaultAgent, answers);
            assert(answered(setup, waiting, answers) == setup.at_agent_choice(ready)) by {
                reveal(answered);
            }
        } else {
            assert(setup.at_agent(p, answers.bound_session) == setup.at_agent_choice(ready));
        }
        assert(complete(setup, setup.at_agent(p, answers.bound_session), answers)
            =~= setup.agent_part(p.session_key, answers) + rest);
    } else {
        assert(Seq::<Act>::empty() + rest =~= rest);
    }
}

proof fn lemma_binding(setup: Setup, p: Progress, answers: Answers)
    requires
        p.thread is None,
        setup.message.binding is Some,
    ensures
        complete(setup, setup.at_binding(p), answers) == seq![
            Action::SetChannelBinding {
                session_key: p.session_key,
                binding: setup.message.binding->0@,
            },
            Action::LoadSession { session_key: p.session_key },
        ] + setup.agent_part(p.session_key, answers) + seeing(setup, p, answers),
{
    let bound: Seq<Act> = seq![
        Action::SetChannelBinding {
            session_key: p.session_key,
            binding: setup.message.binding->0@,
        },
    ];
    let load = Action::LoadSession { session_key: p.session_key };
    let waiting = Progress { stage: Stage::BoundSession, ..p };
    lemma_after(setup, bound, ask(p, Stage::BoundSession, load), answers);
    lemma_asked(setup, p, Stage::BoundSession, load, answers);
    assert(answered(setup, waiting, answers) == setup.at_agent(waiting, answers.bound_session)) by {
        reveal(answered);
    }
    lemma_agent(setup, waiting, answers);
    lemma_seeing(setup, p, answers);
    assert(seeing(
        setup,
        (Progress { stage: Stage::BoundSession, fallback: p.fallback, ..p }),
        answers,
    ) == seeing(setup, p, answers));
    let part = setup.agent_part(p.session_key, answers);
    let rest = seeing(setup, p, answers);
    assert(bound + (seq![load] + (part + rest)) =~= seq![bound[0], load] + part + rest);
}

/// The broadcast and all that follows.
#[verifier::opaque]
pub open spec fn broadcasting(setup: Setup, p: Progress, answers: Answers) -> Seq<Act> {
    seq![
        setup.telling(p.session_key),
    ] + setup.binding_part(p.session_key, answers) + seeing(setup, p, answers)
}

proof fn lemma_label(setup: Setup, p: Progress, answers: Answers)
    requires
        p.thread is None,
        setup.message.binding is Some,
    ensures
        complete(setup, setup.at_label(p, answers.session), answers) == setup.label_part(
            p.session_key,
            answers,
        ) + seq![
            Action::SetChannelBinding {
                session_key: p.session_key,
                binding: setup.message.binding->0@,
            },
            Action::LoadSession { session_key: p.session_key },
        ] + setup.agent_part(p.session_key, answers) + seeing(setup, p, answers),
{
    let set: Seq<Act> = seq![
        Action::SetChannelBinding {
            session_key: p.session_key,
            binding: setup.message.binding->0@,
        },
        Action::LoadSession { session_key: p.session_key },
    ];
    let part = setup.agent_part(p.session_key, answers);
    let rest = seeing(setup, p, answers);
    lemma_seeing(setup, p, answers);
    lemma_binding(setup, p, answers);
    if answers.session is None || !answers.session->0.bound {
        let count = Action::CountChannelSessions {
            channel_type: setup.message.reply_to.channel_type@,
            account_id: setup.message.reply_to.account_id@,
            chat_id: setup.message.reply_to.chat_id@,
        };
        let upsert = Action::UpsertSession {
            session_key: p.session_key,
            label: session_label(
                setup.message.reply_to.display_name@,
                (answers.session_count + 1) as nat,
            ),
        };
        let waiting = Progress { stage: Stage::SessionCount, ..p };
        lemma_asked(setup, p, Stage::SessionCount, count, answers);
        assert(answered(setup, waiting, answers) == after(seq![upsert], setup.at_binding(waiting)))
            by {
            reveal(answered);
        }
        lemma_after(setup, seq![upsert], setup.at_binding(waiting), answers);
        lemma_binding(setup, waiting, answers);
        assert(seeing(
            setup,
            (Progress { stage: Stage::SessionCount, fallback: p.fallback, ..p }),
            answers,
        ) == rest);
        assert(seq![count] + (seq![upsert] + (set + part + rest)) =~= setup.label_part(
            p.session_key,
            answers,
        ) + set + part + rest);
    } else {
        assert(Seq::<Act>::empty() + set + part + rest =~= set + part + rest);
    }
}

proof fn lemma_broadcasting(setup: Setup, p: Progress, answers: Answers)
    requires
        p.thread is None,
    ensures
        complete(setup, setup.at_broadcast(p), answers) == broadcasting(setup, p, answers),
{
    reveal(Setup::at_broadcast);
    reveal(broadcasting);
    let told: Seq<Act> = seq![
        setup.telling(p.session_key),
    ];
    let rest = seeing(setup, p, answers);
    lemma_seeing(setup, p, answers);
    if setup.message.binding is Some && setup.services.session_metadata {
        let load = Action::LoadSession { session_key: p.session_key };
        let waiting = Progress { stage: Stage::Session, ..p };
        lemma_after(setup, told, ask(p, Stage::Session, load), answers);
        lemma_asked(setup, p, Stage::Session, load, answers);
        assert(answered(setup, waiting, answers) == setup.at_label(waiting, answers.session)) by {
            reveal(answered);
        }
        lemma_label(setup, waiting, answers);
        assert(seeing(
            setup,
            (Progress { stage: Stage::Session, fallback: p.fallback, ..p }),
            answers,
        ) == rest);
        assert(complete(setup, setup.at_broadcast(p), answers) =~= broadcasting(setup, p, answers));
    } else {
        lemma_after(setup, told, setup.at_seen(p), answers);
        assert(told + rest =~= broadcasting(setup, p, answers));
    }
}

/// The decision on the message and all that follows.
#[verifier::opaque]
pub open spec fn gating(setup: Setup, p: Progress, answers: Answers) -> Seq<Act> {
    if !may_use_tools(p) && setup.message.explicit_shell {
        setup.ending(
            p.ack_key,
            Some(ChannelAckOutcome::Failure),
            Some(denial("/sh"@, opt_text(setup.message.sender_id))),
        )
    } else if may_use_tools(p) {
        seq![Action::QueryCommandMode { session_key: p.session_key }] + broadcasting(
            setup,
            Progress {
                stage: Stage::CommandMode,
                text: effective_text(setup.message.text@, answers.command_mode),
                ..p
            },
            answers,
        )
    } else {
        broadcasting(setup, p, answers)
    }
}

proof fn lemma_gating(setup: Setup, p: Progress, answers: Answers)
    requires
        p.thread is None,
    ensures
        complete(setup, setup.at_gate(p), answers) == gating(setup, p, answers),
{
    reveal(Setup::at_gate);
    reveal(gating);
    if !may_use_tools(p) && setup.message.explicit_shell {
        lemma_settled(
            setup,
            p,
            Some(ChannelAckOutcome::Failure),
            Some(denial("/sh"@, opt_text(setup.message.sender_id))),
            answers,
        );
    } else if may_use_tools(p) {
        let action = Action::QueryCommandMode { session_key: p.session_key };
        let waiting = Progress { stage: Stage::CommandMode, ..p };
        let read = Progress {
            text: effective_text(setup.message.text@, answers.command_mode),
            ..waiting
        };
        lemma_asked(setup, p, Stage::CommandMode, action, answers);
        assert(answered(setup, waiting, answers) == setup.at_broadcast(read)) by {
            reveal(answered);
        }
        lemma_broadcasting(setup, read, answers);
    } else {
        lemma_broadcasting(setup, p, answers);
    }
}

proof fn lemma_privilege(setup: Setup, p: Progress, answers: Answers) -> (judged: Progress)
    requires
        p.thread is None,
    ensures
        judged == (Progress {
            stage: judged.stage,
            trusted: setup.trusted(answers),
            audience: setup.ceiling(answers).0,
            tools: setup.ceiling(answers).1,
            ..p
        }),
        complete(setup, setup.at_role(p), answers) == only_if(
            setup.services.channel_registry,
            Action::LoadOperators { account_id: setup.message.reply_to.account_id@ },
        ) + only_if(
            setup.services.channel_registry,
            Action::LoadCeiling { account_id: setup.message.reply_to.account_id@ },
        ) + gating(setup, judged, answers),
{
    if setup.services.channel_registry {
        let operators = Action::LoadOperators { account_id: setup.message.reply_to.account_id@ };
        let ceiling = Action::LoadCeiling { account_id: setup.message.reply_to.account_id@ };
        let first = Progress { stage: Stage::Operators, ..p };
        let ranked = setup.with_operators(first, opt_vec(answers.operators));
        let second = Progress { stage: Stage::Ceiling, ..ranked };
        let judged = with_ceiling(second, answers.ceiling);
        lemma_asked(setup, p, Stage::Operators, operators, answers);
        assert(answered(setup, first, answers) == setup.at_ceiling(ranked)) by {
            reveal(answered);
        }
        lemma_asked(setup, ranked, Stage::Ceiling, ceiling, answers);
        assert(answered(setup, second, answers) == setup.at_gate(judged)) by {
            reveal(answered);
        }
        lemma_gating(setup, judged, answers);
        let rest = gating(setup, judged, answers);
        assert(seq![operators] + (seq![ceiling] + rest) =~= seq![operators] + seq![ceiling] + rest);
        judged
    } else {
        let judged = with_ceiling(setup.with_operators(p, None), None);
        lemma_gating(setup, judged, answers);
        let rest = gating(setup, judged, answers);
        assert(Seq::<Act>::empty() + Seq::<Act>::empty() + rest =~= rest);
        judged
    }
}

proof fn lemma_start(setup: Setup, answers: Answers) -> (judged: Progress)
    ensures
        judged == (Progress {
            stage: judged.stage,
            session_key: setup.session_key(answers),
            ack_key: setup.ack_key(answers),
            trusted: setup.trusted(answers),
            audience: setup.ceiling(answers).0,
            tools: setup.ceiling(answers).1,
            text: setup.message.text@,
            fallback: crate::agent::MAIN_AGENT@,
            thread: None,
        }),
        performed(setup, answers) == seq![setup.start_typing()] + setup.lookups(answers) + gating(
            setup,
            judged,
            answers,
        ),
{
    let fresh = Progress {
        stage: Stage::Done,
        session_key: Seq::empty(),
        ack_key: None,
        trusted: false,
        audience: UntrustedAudience::Public,
        tools: UntrustedTools::DenyAll,
        text: setup.message.text@,
        fallback: crate::agent::MAIN_AGENT@,
        thread: None,
    };
    let find = Action::FindActiveSession {
        channel_type: setup.message.reply_to.channel_type@,
        account_id: setup.message.reply_to.account_id@,
        chat_id: setup.message.reply_to.chat_id@,
        topic_id: opt_text(setup.message.reply_to.thread_id),
    };
    let register = Action::RegisterReaction {
        account_id: setup.message.reply_to.account_id@,
        chat_id: setup.message.reply_to.chat_id@,
        message_id: setup.message.reply_to.ack_message_id->0@,
    };
    let stage = if setup.services.session_metadata {
        Stage::ActiveSession
    } else {
        Stage::Done
    };
    let keyed = Progress { stage, session_key: setup.session_key(answers), ..fresh };
    let asking = Progress { stage: Stage::Reaction, ..keyed };
    let acked = if setup.reacts() {
        Progress { ack_key: setup.ack_key(answers), ..asking }
    } else {
        keyed
    };
    let judged = lemma_privilege(setup, acked, answers);
    let rest = complete(setup, setup.at_role(acked), answers);
    lemma_after(setup, seq![setup.start_typing()], setup.at_session(fresh), answers);
    if setup.services.session_metadata {
        lemma_asked(setup, fresh, Stage::ActiveSession, find, answers);
        let waiting = Progress { stage: Stage::ActiveSession, ..fresh };
        assert(answered(setup, waiting, answers) == setup.at_reaction(keyed)) by {
            reveal(answered);
        }
    }
    if setup.reacts() {
        lemma_asked(setup, keyed, Stage::Reaction, register, answers);
        assert(answered(setup, asking, answers) == setup.at_role(acked)) by {
            reveal(answered);
        }
    }
    assert(complete(setup, setup.at_reaction(keyed), answers) =~= only_if(
        setup.reacts(),
        register,
    ) + rest);
    assert(complete(setup, setup.at_session(fresh), answers) =~= only_if(
        setup.services.session_metadata,
        find,
    ) + (only_if(setup.reacts(), register) + rest));
    assert(performed(setup, answers) =~= seq![setup.start_typing()] + setup.lookups(answers)
        + gating(setup, judged, answers));
    judged
}

proof fn lemma_delivery(setup: Setup, p: Progress, answers: Answers)
    requires
        !setup.denied(answers),
        p == (Progress {
            stage: p.stage,
            session_key: setup.session_key(answers),
            ack_key: setup.ack_key(answers),
            trusted: setup.trusted(answers),
            audience: setup.ceiling(answers).0,
            tools: setup.ceiling(answers).1,
            text: setup.agent_text(answers),
            fallback: p.fallback,
            thread: None,
        }),
    ensures
        only_if(
            setup.uses_tools(answers),
            Action::QueryCommandMode { session_key: setup.session_key(answers) },
        ) + broadcasting(setup, p, answers) == setup.delivery(answers) + seq![
            Action::SendChat { params: Json::Object(setup.sent_request(answers).params()) },
        ] + setup.reply_part(setup.ack_key(answers), answers),
{
    reveal(broadcasting);
    reveal(seeing);
    reveal(modelling);
    reveal(sending);
    let threaded = Progress { thread: setup.thread(answers), ..p };
    assert(setup.request(threaded, setup.model(answers)) == setup.sent_request(answers));
    let key = setup.session_key(answers);
    lemma_regrouped(
        only_if(setup.uses_tools(answers), Action::QueryCommandMode { session_key: key }),
        seq![
            setup.telling(key),
        ],
        setup.binding_part(key, answers),
        seq![Action::MarkSeen { session_key: key }],
        setup.thread_part(),
        setup.model_part(key, answers),
        seq![Action::SendChat { params: Json::Object(setup.sent_request(answers).params()) }],
        setup.reply_part(setup.ack_key(answers), answers),
    );
}

proof fn lemma_regrouped(
    mode: Seq<Act>,
    told: Seq<Act>,
    bound: Seq<Act>,
    seen: Seq<Act>,
    thread: Seq<Act>,
    model: Seq<Act>,
    sent: Seq<Act>,
    reply: Seq<Act>,
)
    ensures
        mode + (told + bound + (seen + thread + (model + (sent + reply)))) == mode + told + bound
            + seen + thread + model + sent + reply,
{
    assert(mode + (told + bound + (seen + thread + (model + (sent + reply)))) =~= mode + told
        + bound + seen + thread + model + sent + reply);
}

/// A dispatch follows the script: whatever the services answer, the machine does exactly
/// what the script says, in that order.
pub proof fn dispatch_follows_the_script(setup: Setup, answers: Answers)
    ensures
        performed(setup, answers) == setup.script(answers),
{
    let judged = lemma_start(setup, answers);
    reveal(gating);
    assert(may_use_tools(judged) == setup.uses_tools(answers));
    if !setup.denied(answers) {
        let p = if setup.uses_tools(answers) {
            Progress {
                stage: Stage::CommandMode,
                text: effective_text(setup.message.text@, answers.command_mode),
                ..judged
            }
        } else {
            judged
        };
        lemma_delivery(setup, p, answers);
        assert(gating(setup, judged, answers) =~= only_if(
            setup.uses_tools(answers),
            Action::QueryCommandMode { session_key: setup.session_key(answers) },
        ) + broadcasting(setup, p, answers));
    }
}

} // verus!
