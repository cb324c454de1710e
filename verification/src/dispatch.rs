//! The dispatch of a message: a machine that says what to do next, and goes on with what
//! came back.

use serde_json::Value;
use vstd::prelude::*;
use crate::agent;
use crate::agent::AgentChoice;
use crate::commands::rewrite_for_shell_mode;
use crate::config_view::{resolve_untrusted_ceiling, UntrustedAudience, UntrustedTools};
use crate::operators::{is_trusted_channel_turn, operator_denied_message, resolve_sender_role};
use crate::progress::{
    contents_all, effective_text, finalizing, fits, lacks_agent, may_use_tools, opt_vec, Act,
    Action, Answer, Progress, Setup, Stage, StoredSession, CHAT_EVENT, THREAD_LIMIT,
};
use crate::reactions::{early_return_outcome, ChannelAckOutcome};
use crate::target::{
    copy_text, default_channel_session_key, opt_text, resolve_channel_session, slice_of,
};
use crate::text;
use crate::turn;
use crate::turn::{opt_doc, ChatRequest};

verus! {

/// A message on its way through the gateway.
pub struct Dispatch {
    setup: Setup,
    stage: Stage,
    session_key: String,
    ack_key: Option<String>,
    trusted: bool,
    audience: UntrustedAudience,
    tools: UntrustedTools,
    text: String,
    fallback: String,
    thread: Option<Value>,
}

/// What to do, in order. Only the last action can ask for something.
pub type Actions = Vec<Action<String, Value>>;

fn no_action() -> (r: Actions)
    ensures
        contents_all(r@) == Seq::<Act>::empty(),
{
    let actions: Actions = Vec::new();
    assert(contents_all(actions@) =~= Seq::<Act>::empty());
    actions
}

fn one(action: Action<String, Value>) -> (r: Actions)
    ensures
        contents_all(r@) == seq![action.contents()],
{
    let mut actions: Actions = Vec::new();
    actions.push(action);
    assert(contents_all(actions@) =~= seq![action.contents()]);
    actions
}

fn followed_by(first: Actions, rest: Actions) -> (r: Actions)
    ensures
        contents_all(r@) == contents_all(first@) + contents_all(rest@),
{
    let mut actions = first;
    let mut rest = rest;
    let ghost tail = rest@;
    actions.append(&mut rest);
    assert(contents_all(actions@) =~= contents_all(first@) + contents_all(tail));
    actions
}

impl Dispatch {
    /// What stays the same.
    pub closed spec fn setup(self) -> Setup {
        self.setup
    }

    /// What is known so far.
    pub closed spec fn progress(self) -> Progress {
        Progress {
            stage: self.stage,
            session_key: self.session_key@,
            ack_key: opt_text(self.ack_key),
            trusted: self.trusted,
            audience: self.audience,
            tools: self.tools,
            text: self.text@,
            fallback: self.fallback@,
            thread: opt_doc(self.thread),
        }
    }

    /// Start with a message.
    pub fn begin(setup: Setup) -> (r: (Dispatch, Actions))
        ensures
            r.0.setup() == setup,
            r.0.progress() == setup.begin().progress,
            contents_all(r.1@) == setup.begin().actions,
    {
        let typing = one(
            Action::StartTyping {
                account_id: setup.message.reply_to.account_id.clone(),
                chat_id: setup.message.reply_to.chat_id.clone(),
            },
        );
        let text = setup.message.text.clone();
        let dispatch = Dispatch {
            setup,
            stage: Stage::Done,
            session_key: String::new(),
            ack_key: None,
            trusted: false,
            audience: UntrustedAudience::default(),
            tools: UntrustedTools::default(),
            text,
            fallback: agent::MAIN_AGENT.to_owned(),
            thread: None,
        };
        let (dispatch, rest) = dispatch.at_session();
        (dispatch, followed_by(typing, rest))
    }

    fn ask(self, stage: Stage, action: Action<String, Value>) -> (r: (Dispatch, Actions))
        ensures
            r.0.setup() == self.setup(),
            r.0.progress() == crate::progress::ask(self.progress(), stage, action.contents()).progress,
            contents_all(r.1@) == crate::progress::ask(
                self.progress(),
                stage,
                action.contents(),
            ).actions,
    {
        let mut dispatch = self;
        dispatch.stage = stage;
        (dispatch, one(action))
    }

    fn at_session(self) -> (r: (Dispatch, Actions))
        ensures
            r.0.setup() == self.setup(),
            r.0.progress() == self.setup().at_session(self.progress()).progress,
            contents_all(r.1@) == self.setup().at_session(self.progress()).actions,
    {
        if self.setup.services.session_metadata {
            let action = Action::FindActiveSession {
                channel_type: self.setup.message.reply_to.channel_type.clone(),
                account_id: self.setup.message.reply_to.account_id.clone(),
                chat_id: self.setup.message.reply_to.chat_id.clone(),
                topic_id: copy_text(&self.setup.message.reply_to.thread_id),
            };
            self.ask(Stage::ActiveSession, action)
        } else {
            let mut dispatch = self;
            dispatch.session_key = default_channel_session_key(&dispatch.setup.message.reply_to);
            dispatch.at_reaction()
        }
    }

    fn at_reaction(self) -> (r: (Dispatch, Actions))
        ensures
            r.0.setup() == self.setup(),
            r.0.progress() == self.setup().at_reaction(self.progress()).progress,
            contents_all(r.1@) == self.setup().at_reaction(self.progress()).actions,
    {
        match copy_text(&self.setup.message.reply_to.ack_message_id) {
            Some(message_id) => {
                if self.setup.services.outbound {
                    let action = Action::RegisterReaction {
                        account_id: self.setup.message.reply_to.account_id.clone(),
                        chat_id: self.setup.message.reply_to.chat_id.clone(),
                        message_id,
                    };
                    self.ask(Stage::Reaction, action)
                } else {
                    self.at_role()
                }
            },
            None => self.at_role(),
        }
    }

    fn at_role(self) -> (r: (Dispatch, Actions))
        ensures
            r.0.setup() == self.setup(),
            r.0.progress() == self.setup().at_role(self.progress()).progress,
            contents_all(r.1@) == self.setup().at_role(self.progress()).actions,
    {
        if self.setup.services.channel_registry {
            let action = Action::LoadOperators {
                account_id: self.setup.message.reply_to.account_id.clone(),
            };
            self.ask(Stage::Operators, action)
        } else {
            self.with_operators(None).at_ceiling()
        }
    }

    fn with_operators(self, operators: Option<Vec<String>>) -> (r: Dispatch)
        ensures
            r.setup() == self.setup(),
            r.progress() == self.setup().with_operators(self.progress(), opt_vec(operators)),
    {
        let mut dispatch = self;
        let role = {
            let list = match &operators {
                Some(entries) => Some(entries.as_slice()),
                None => None,
            };
            resolve_sender_role(list, slice_of(&dispatch.setup.message.sender_id))
        };
        dispatch.trusted = is_trusted_channel_turn(role, &dispatch.setup.message.reply_to);
        dispatch
    }

    fn at_ceiling(self) -> (r: (Dispatch, Actions))
        ensures
            r.0.setup() == self.setup(),
            r.0.progress() == self.setup().at_ceiling(self.progress()).progress,
            contents_all(r.1@) == self.setup().at_ceiling(self.progress()).actions,
    {
        if self.setup.services.channel_registry {
            let action = Action::LoadCeiling {
                account_id: self.setup.message.reply_to.account_id.clone(),
            };
            self.ask(Stage::Ceiling, action)
        } else {
            self.with_ceiling(None).at_gate()
        }
    }

    fn with_ceiling(self, ceiling: Option<(UntrustedAudience, UntrustedTools)>) -> (r: Dispatch)
        ensures
            r.setup() == self.setup(),
            r.progress() == crate::progress::with_ceiling(self.progress(), ceiling),
    {
        let mut dispatch = self;
        let (audience, tools) = resolve_untrusted_ceiling(ceiling);
        dispatch.audience = audience;
        dispatch.tools = tools;
        dispatch
    }

    fn at_gate(self) -> (r: (Dispatch, Actions))
        ensures
            r.0.setup() == self.setup(),
            r.0.progress() == self.setup().at_gate(self.progress()).progress,
            contents_all(r.1@) == self.setup().at_gate(self.progress()).actions,
    {
        proof {
            reveal(Setup::at_gate);
        }
        let turn_may_use_tools: bool = self.trusted || self.tools == UntrustedTools::Policy;
        assert(turn_may_use_tools == may_use_tools(self.progress()));
        if !turn_may_use_tools && self.setup.message.explicit_shell {
            let denial = operator_denied_message("/sh", slice_of(&self.setup.message.sender_id));
            self.settle(Some(ChannelAckOutcome::Failure), Some(denial))
        } else if turn_may_use_tools {
            let action = Action::QueryCommandMode { session_key: self.session_key.clone() };
            self.ask(Stage::CommandMode, action)
        } else {
            self.at_broadcast()
        }
    }

    fn at_broadcast(self) -> (r: (Dispatch, Actions))
        ensures
            r.0.setup() == self.setup(),
            r.0.progress() == self.setup().at_broadcast(self.progress()).progress,
            contents_all(r.1@) == self.setup().at_broadcast(self.progress()).actions,
    {
        proof {
            reveal(Setup::at_broadcast);
        }
        let told = one(
            Action::Broadcast {
                event: CHAT_EVENT.to_owned(),
                payload: turn::user_message_payload(
                    self.setup.message.text.as_str(),
                    &self.setup.message.channel,
                    self.session_key.as_str(),
                ),
                drop_if_slow: false,
            },
        );
        let (dispatch, rest) = if self.setup.message.binding.is_some()
            && self.setup.services.session_metadata {
            let action = Action::LoadSession { session_key: self.session_key.clone() };
            self.ask(Stage::Session, action)
        } else {
            self.at_seen()
        };
        (dispatch, followed_by(told, rest))
    }

    fn at_label(self, session: Option<StoredSession>) -> (r: (Dispatch, Actions))
        ensures
            r.0.setup() == self.setup(),
            r.0.progress() == self.setup().at_label(self.progress(), session).progress,
            contents_all(r.1@) == self.setup().at_label(self.progress(), session).actions,
    {
        let bound: bool = match &session {
            Some(stored) => stored.bound,
            None => false,
        };
        if !bound {
            let action = Action::CountChannelSessions {
                channel_type: self.setup.message.reply_to.channel_type.clone(),
                account_id: self.setup.message.reply_to.account_id.clone(),
                chat_id: self.setup.message.reply_to.chat_id.clone(),
            };
            self.ask(Stage::SessionCount, action)
        } else {
            self.at_binding()
        }
    }

    fn at_binding(self) -> (r: (Dispatch, Actions))
        ensures
            r.0.setup() == self.setup(),
            r.0.progress() == self.setup().at_binding(self.progress()).progress,
            contents_all(r.1@) == self.setup().at_binding(self.progress()).actions,
    {
        let bound = match copy_text(&self.setup.message.binding) {
            Some(binding) => one(
                Action::SetChannelBinding { session_key: self.session_key.clone(), binding },
            ),
            None => no_action(),
        };
        let action = Action::LoadSession { session_key: self.session_key.clone() };
        let (dispatch, rest) = self.ask(Stage::BoundSession, action);
        (dispatch, followed_by(bound, rest))
    }

    fn at_agent(self, session: Option<StoredSession>) -> (r: (Dispatch, Actions))
        ensures
            r.0.setup() == self.setup(),
            r.0.progress() == self.setup().at_agent(self.progress(), session).progress,
            contents_all(r.1@) == self.setup().at_agent(self.progress(), session).actions,
    {
        let lacks: bool = match &session {
            Some(stored) => match &stored.agent_id {
                Some(id) => text::trim(id.as_str()).is_empty(),
                None => true,
            },
            None => false,
        };
        assert(lacks == (session is Some && lacks_agent(session->0)));
        if lacks {
            if self.setup.services.persona_store {
                self.ask(Stage::DefaultAgent, Action::LoadDefaultAgent)
            } else {
                let mut dispatch = self;
                dispatch.fallback = agent::agent_fallback(None);
                dispatch.at_agent_choice()
            }
        } else {
            self.at_seen()
        }
    }

    fn choice(&self) -> (r: AgentChoice)
        ensures
            r.texts() == self.setup().choice(self.progress()),
    {
        agent::choose_agent(
            slice_of(&self.setup.message.agent_id),
            self.fallback.as_str(),
            self.setup.services.persona_store,
        )
    }

    fn at_agent_choice(self) -> (r: (Dispatch, Actions))
        ensures
            r.0.setup() == self.setup(),
            r.0.progress() == self.setup().at_agent_choice(self.progress()).progress,
            contents_all(r.1@) == self.setup().at_agent_choice(self.progress()).actions,
    {
        match self.choice() {
            AgentChoice::LookUp(agent_id) => self.ask(
                Stage::AgentKnown,
                Action::FindAgent { agent_id },
            ),
            AgentChoice::Settled(agent_id) => self.at_agent_set(agent_id),
        }
    }

    fn at_agent_set(self, agent_id: String) -> (r: (Dispatch, Actions))
        ensures
            r.0.setup() == self.setup(),
            r.0.progress() == self.setup().at_agent_set(self.progress(), agent_id@).progress,
            contents_all(r.1@) == self.setup().at_agent_set(self.progress(), agent_id@).actions,
    {
        let set = one(Action::SetAgent { session_key: self.session_key.clone(), agent_id });
        let (dispatch, rest) = self.at_seen();
        (dispatch, followed_by(set, rest))
    }

    fn at_seen(self) -> (r: (Dispatch, Actions))
        ensures
            r.0.setup() == self.setup(),
            r.0.progress() == self.setup().at_seen(self.progress()).progress,
            contents_all(r.1@) == self.setup().at_seen(self.progress()).actions,
    {
        proof {
            reveal(Setup::at_seen);
        }
        let seen = one(Action::MarkSeen { session_key: self.session_key.clone() });
        let (dispatch, rest) = match copy_text(&self.setup.message.reply_to.message_id) {
            Some(thread_id) => {
                if self.setup.services.channel_registry {
                    let action = Action::FetchThread {
                        account_id: self.setup.message.reply_to.account_id.clone(),
                        chat_id: self.setup.message.reply_to.chat_id.clone(),
                        thread_id,
                        limit: THREAD_LIMIT,
                    };
                    self.ask(Stage::Thread, action)
                } else {
                    self.at_model()
                }
            },
            None => self.at_model(),
        };
        (dispatch, followed_by(seen, rest))
    }

    fn at_model(self) -> (r: (Dispatch, Actions))
        ensures
            r.0.setup() == self.setup(),
            r.0.progress() == self.setup().at_model(self.progress()).progress,
            contents_all(r.1@) == self.setup().at_model(self.progress()).actions,
    {
        if self.setup.services.session_metadata {
            let action = Action::LoadSession { session_key: self.session_key.clone() };
            self.ask(Stage::SessionModel, action)
        } else {
            self.at_first_model()
        }
    }

    fn at_first_model(self) -> (r: (Dispatch, Actions))
        ensures
            r.0.setup() == self.setup(),
            r.0.progress() == self.setup().at_first_model(self.progress()).progress,
            contents_all(r.1@) == self.setup().at_first_model(self.progress()).actions,
    {
        let patched = match &self.setup.message.model {
            Some(model) => one(
                Action::PatchSession {
                    patch: turn::session_model_patch(self.session_key.as_str(), model.as_str()),
                },
            ),
            None => no_action(),
        };
        let (dispatch, rest) = self.ask(Stage::Models, Action::ListModels);
        (dispatch, followed_by(patched, rest))
    }

    fn at_models(self, models: Option<Value>) -> (r: (Dispatch, Actions))
        ensures
            r.0.setup() == self.setup(),
            r.0.progress() == self.setup().at_models(self.progress(), opt_doc(models)).progress,
            contents_all(r.1@) == self.setup().at_models(self.progress(), opt_doc(models)).actions,
    {
        let list = match &models {
            Some(value) => Some(value),
            None => None,
        };
        match copy_text(&self.setup.message.model) {
            Some(model) => {
                let name = turn::model_display_name(list, model.as_str());
                let noted = one(
                    Action::PushStatus {
                        session_key: self.session_key.clone(),
                        message: turn::model_notice(name.as_str()),
                    },
                );
                let (dispatch, rest) = self.at_send(Some(model));
                (dispatch, followed_by(noted, rest))
            },
            None => match turn::first_listed_model(list) {
                Some((id, name)) => {
                    let patched = one(
                        Action::PatchSession {
                            patch: turn::session_model_patch(self.session_key.as_str(), id.as_str()),
                        },
                    );
                    let noted = one(
                        Action::PushStatus {
                            session_key: self.session_key.clone(),
                            message: turn::model_notice(name.as_str()),
                        },
                    );
                    let told = followed_by(patched, noted);
                    let (dispatch, rest) = self.at_send(Some(id));
                    (dispatch, followed_by(told, rest))
                },
                None => self.at_send(None),
            },
        }
    }

    fn at_send(self, model: Option<String>) -> (r: (Dispatch, Actions))
        ensures
            r.0.setup() == self.setup(),
            r.0.progress() == self.setup().at_send(self.progress(), opt_text(model)).progress,
            contents_all(r.1@) == self.setup().at_send(self.progress(), opt_text(model)).actions,
    {
        let thread = match &self.thread {
            Some(value) => Some(value),
            None => None,
        };
        let documents = match &self.setup.message.documents {
            Some(value) => Some(value),
            None => None,
        };
        let request = ChatRequest {
            text: self.text.as_str(),
            channel: &self.setup.message.channel,
            session_key: self.session_key.as_str(),
            reply_target_name: self.setup.names.reply_target.as_str(),
            reply_target: &self.setup.message.reply_target,
            trusted: self.trusted,
            audience: self.audience,
            tools: self.tools,
            ack_keys_name: self.setup.names.ack_keys.as_str(),
            ack_key: slice_of(&self.ack_key),
            thread,
            audio_filename: slice_of(&self.setup.message.audio_filename),
            documents,
            model: slice_of(&model),
        };
        assert(request.contents() == self.setup().request(self.progress(), opt_text(model)));
        let params = turn::chat_params(&request);
        self.ask(Stage::Sent, Action::SendChat { params })
    }

    fn finalizing(&self, outcome: Option<ChannelAckOutcome>) -> (r: Actions)
        ensures
            contents_all(r@) == finalizing(self.progress().ack_key, outcome),
    {
        match (copy_text(&self.ack_key), outcome) {
            (Some(ack_key), Some(outcome)) => one(Action::FinalizeReaction { ack_key, outcome }),
            _ => no_action(),
        }
    }

    fn texting(&self, text: Option<String>) -> (r: Actions)
        ensures
            contents_all(r@) == self.setup().texting(opt_text(text)),
    {
        match text {
            Some(text) => {
                if self.setup.services.outbound {
                    one(
                        Action::SendText {
                            account_id: self.setup.message.reply_to.account_id.clone(),
                            to: self.setup.message.reply_to.outbound_to.clone(),
                            text,
                            reply_to: copy_text(&self.setup.message.reply_to.message_id),
                        },
                    )
                } else {
                    no_action()
                }
            },
            None => no_action(),
        }
    }

    fn settle(self, outcome: Option<ChannelAckOutcome>, text: Option<String>) -> (r: (
        Dispatch,
        Actions,
    ))
        ensures
            r.0.setup() == self.setup(),
            r.0.progress() == self.setup().settle(
                self.progress(),
                outcome,
                opt_text(text),
            ).progress,
            contents_all(r.1@) == self.setup().settle(
                self.progress(),
                outcome,
                opt_text(text),
            ).actions,
    {
        let finalized = self.finalizing(outcome);
        let texted = self.texting(text);
        let mut dispatch = self;
        dispatch.stage = Stage::Done;
        let stopped = followed_by(one(Action::StopTyping), finalized);
        (dispatch, followed_by(stopped, texted))
    }

    /// Whether nothing is left to do.
    pub fn is_done(&self) -> (r: bool)
        ensures
            r == (self.progress().stage == Stage::Done),
    {
        self.stage == Stage::Done
    }

    /// Whether an answer is what the dispatch waits for.
    pub fn awaits(&self, answer: &Answer) -> (r: bool)
        ensures
            r == fits(self.progress().stage, *answer),
    {
        match answer {
            Answer::ActiveSession(_) => self.stage == Stage::ActiveSession,
            Answer::Reaction(_) => self.stage == Stage::Reaction,
            Answer::Operators(_) => self.stage == Stage::Operators,
            Answer::Ceiling(_) => self.stage == Stage::Ceiling,
            Answer::CommandMode(_) => self.stage == Stage::CommandMode,
            Answer::Session(_) => self.stage == Stage::Session || self.stage == Stage::BoundSession
                || self.stage == Stage::SessionModel,
            Answer::SessionCount(existing) => self.stage == Stage::SessionCount && *existing
                < usize::MAX,
            Answer::DefaultAgent(_) => self.stage == Stage::DefaultAgent,
            Answer::AgentKnown(_) => self.stage == Stage::AgentKnown,
            Answer::Thread(_) => self.stage == Stage::Thread,
            Answer::Models(_) => self.stage == Stage::Models,
            Answer::Sent(_) => self.stage == Stage::Sent,
        }
    }

    /// Go on with an answer to the last action.
    pub fn step(self, answer: Answer) -> (r: (Dispatch, Actions))
        requires
            fits(self.progress().stage, answer),
        ensures
            r.0.setup() == self.setup(),
            r.0.progress() == self.setup().next(self.progress(), answer).progress,
            contents_all(r.1@) == self.setup().next(self.progress(), answer).actions,
    {
        let mut dispatch = self;
        match answer {
            Answer::ActiveSession(active) => {
                dispatch.session_key =
                resolve_channel_session(&dispatch.setup.message.reply_to, active);
                dispatch.at_reaction()
            },
            Answer::Reaction(key) => {
                dispatch.ack_key = Some(key);
                dispatch.at_role()
            },
            Answer::Operators(operators) => dispatch.with_operators(operators).at_ceiling(),
            Answer::Ceiling(ceiling) => dispatch.with_ceiling(ceiling).at_gate(),
            Answer::CommandMode(enabled) => {
                let ghost text = dispatch.setup.message.text@;
                let rewritten = if enabled {
                    rewrite_for_shell_mode(dispatch.setup.message.text.as_str())
                } else {
                    None
                };
                dispatch.text =
                match rewritten {
                    Some(rewritten) => rewritten,
                    None => dispatch.setup.message.text.clone(),
                };
                assert(dispatch.text@ == effective_text(text, enabled));
                dispatch.at_broadcast()
            },
            Answer::Session(session) => {
                if dispatch.stage == Stage::Session {
                    dispatch.at_label(session)
                } else if dispatch.stage == Stage::BoundSession {
                    dispatch.at_agent(session)
                } else {
                    let has_model: bool = match &session {
                        Some(stored) => stored.has_model,
                        None => false,
                    };
                    if has_model {
                        let model = copy_text(&dispatch.setup.message.model);
                        dispatch.at_send(model)
                    } else {
                        dispatch.at_first_model()
                    }
                }
            },
            Answer::SessionCount(existing) => {
                let labelled = one(
                    Action::UpsertSession {
                        session_key: dispatch.session_key.clone(),
                        label: turn::next_session_label(
                            dispatch.setup.message.reply_to.display_name.as_str(),
                            existing,
                        ),
                    },
                );
                let (dispatch, rest) = dispatch.at_binding();
                (dispatch, followed_by(labelled, rest))
            },
            Answer::DefaultAgent(id) => {
                dispatch.fallback = agent::agent_fallback(id);
                dispatch.at_agent_choice()
            },
            Answer::AgentKnown(known) => {
                let agent_id = match dispatch.choice() {
                    AgentChoice::Settled(id) => id,
                    AgentChoice::LookUp(id) => if known {
                        id
                    } else {
                        dispatch.fallback.clone()
                    },
                };
                dispatch.at_agent_set(agent_id)
            },
            Answer::Thread(messages) => {
                dispatch.thread = turn::thread_history(messages);
                dispatch.at_model()
            },
            Answer::Models(models) => dispatch.at_models(models),
            Answer::Sent(reply) => {
                let outcome = early_return_outcome(&reply);
                let failure = match &reply {
                    Ok(_) => None,
                    Err(error) => Some(text::joined("⚠️ ", error.as_str())),
                };
                dispatch.settle(outcome, failure)
            },
        }
    }
}

/// What is done for a message where the gateway is ready, and `setup` says with what: the
/// dispatch begins. A gateway that is not ready does nothing.
pub fn dispatch_to_chat(setup: Option<Setup>) -> (r: Option<(Dispatch, Actions)>)
    ensures
        match (setup, r) {
            (Some(given), Some((dispatch, actions))) => {
                &&& dispatch.setup() == given
                &&& dispatch.progress() == given.begin().progress
                &&& contents_all(actions@) == given.begin().actions
            },
            (None, None) => true,
            _ => false,
        },
{
    match setup {
        Some(given) => Some(Dispatch::begin(given)),
        None => None,
    }
}

} // verus!
