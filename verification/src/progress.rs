//! The course of a dispatch: what a gateway does, step by step, with a message that a
//! channel delivers.

use serde_json::Value;
use vstd::prelude::*;
use crate::agent;
use crate::agent::{AgentChoiceView, agent_choice, fallback_agent, session_agent};
use crate::commands::shell_rewrite;
use crate::config_view::{ceiling_of, UntrustedAudience, UntrustedTools};
use crate::json::{json_of, Json};
use crate::operators::{denial, role_of, trusted_turn};
use crate::reactions::{early_outcome, reply_json, ChannelAckOutcome};
use crate::target::{opt_text, ChannelReplyTarget};
use crate::text::blank;
use crate::turn::{
    first_model, listed_name, model_note, model_patch, opt_doc, opt_messages, session_label,
    thread_context, user_message_event, Request, ThreadMessage,
};

verus! {

/// How many messages of a thread a request carries at most.
pub const THREAD_LIMIT: usize = 20;

/// The event under which the web UI is told of messages.
pub const CHAT_EVENT: &'static str = "chat";

/// A message that a channel delivered.
pub struct ChannelMessage {
    pub text: String,
    pub reply_to: ChannelReplyTarget,
    pub sender_id: Option<String>,
    /// Agent that the channel asks for.
    pub agent_id: Option<String>,
    /// Model that the channel asks for.
    pub model: Option<String>,
    /// File that the saved voice message is in.
    pub audio_filename: Option<String>,
    /// The saved documents, as JSON.
    pub documents: Option<Value>,
    /// What the channel says of the message, as JSON.
    pub channel: Value,
    /// The reply target, as JSON.
    pub reply_target: Value,
    /// The reply target as the session store keeps it, where it could be written.
    pub binding: Option<String>,
    /// Whether the text is an explicit shell command.
    pub explicit_shell: bool,
}

/// Which services the gateway has.
#[derive(Debug, Clone, Copy, PartialEq, Eq, Structural)]
pub struct Services {
    pub outbound: bool,
    pub session_metadata: bool,
    pub channel_registry: bool,
    pub persona_store: bool,
}

/// Names of the request parameters that the chat service chooses.
pub struct ParamNames {
    pub reply_target: String,
    pub ack_keys: String,
}

/// What stays the same while a message is dispatched.
pub struct Setup {
    pub message: ChannelMessage,
    pub services: Services,
    pub names: ParamNames,
}

/// What the gateway does for a message. Some actions ask for something, and the dispatch
/// goes on with the answer.
pub enum Action<T, D> {
    /// Shows in the chat that the bot is typing, until [`Action::StopTyping`].
    StartTyping { account_id: T, chat_id: T },
    StopTyping,
    /// Asks for the session that the chat was switched to.
    FindActiveSession { channel_type: T, account_id: T, chat_id: T, topic_id: Option<T> },
    /// Puts the acknowledgment reaction on the message; asks for the reaction's key.
    RegisterReaction { account_id: T, chat_id: T, message_id: T },
    /// Asks for the operators of the account.
    LoadOperators { account_id: T },
    /// Asks for the ceiling that the account sets for untrusted turns.
    LoadCeiling { account_id: T },
    /// Asks whether the session is in shell command mode.
    QueryCommandMode { session_key: T },
    /// Tells the web UI of an event; a slow listener may miss it only where it may be dropped.
    Broadcast { event: T, payload: D, drop_if_slow: bool },
    /// Asks for the stored session.
    LoadSession { session_key: T },
    /// Asks how many sessions the chat has.
    CountChannelSessions { channel_type: T, account_id: T, chat_id: T },
    UpsertSession { session_key: T, label: T },
    SetChannelBinding { session_key: T, binding: T },
    /// Asks for the default agent.
    LoadDefaultAgent,
    /// Asks whether an agent is known.
    FindAgent { agent_id: T },
    SetAgent { session_key: T, agent_id: T },
    MarkSeen { session_key: T },
    /// Asks for the messages of a thread.
    FetchThread { account_id: T, chat_id: T, thread_id: T, limit: usize },
    PatchSession { patch: D },
    /// Asks for the models.
    ListModels,
    PushStatus { session_key: T, message: T },
    /// Sends the message to the chat service; asks for its reply.
    SendChat { params: D },
    FinalizeReaction { ack_key: T, outcome: ChannelAckOutcome },
    SendText { account_id: T, to: T, text: T, reply_to: Option<T> },
}

/// An action over contents.
pub type Act = Action<Seq<char>, Json>;

impl Action<String, Value> {
    /// The action over contents.
    pub open spec fn contents(self) -> Act {
        match self {
            Action::StartTyping { account_id, chat_id } => Action::StartTyping {
                account_id: account_id@,
                chat_id: chat_id@,
            },
            Action::StopTyping => Action::StopTyping,
            Action::FindActiveSession { channel_type, account_id, chat_id, topic_id } => {
                Action::FindActiveSession {
                    channel_type: channel_type@,
                    account_id: account_id@,
                    chat_id: chat_id@,
                    topic_id: opt_text(topic_id),
                }
            },
            Action::RegisterReaction { account_id, chat_id, message_id } => {
                Action::RegisterReaction {
                    account_id: account_id@,
                    chat_id: chat_id@,
                    message_id: message_id@,
                }
            },
            Action::LoadOperators { account_id } => Action::LoadOperators {
                account_id: account_id@,
            },
            Action::LoadCeiling { account_id } => Action::LoadCeiling { account_id: account_id@ },
            Action::QueryCommandMode { session_key } => Action::QueryCommandMode {
                session_key: session_key@,
            },
            Action::Broadcast { event, payload, drop_if_slow } => Action::Broadcast {
                event: event@,
                payload: json_of(payload),
                drop_if_slow,
            },
            Action::LoadSession { session_key } => Action::LoadSession {
                session_key: session_key@,
            },
            Action::CountChannelSessions { channel_type, account_id, chat_id } => {
                Action::CountChannelSessions {
                    channel_type: channel_type@,
                    account_id: account_id@,
                    chat_id: chat_id@,
                }
            },
            Action::UpsertSession { session_key, label } => Action::UpsertSession {
                session_key: session_key@,
                label: label@,
            },
            Action::SetChannelBinding { session_key, binding } => Action::SetChannelBinding {
                session_key: session_key@,
                binding: binding@,
            },
            Action::LoadDefaultAgent => Action::LoadDefaultAgent,
            Action::FindAgent { agent_id } => Action::FindAgent { agent_id: agent_id@ },
            Action::SetAgent { session_key, agent_id } => Action::SetAgent {
                session_key: session_key@,
                agent_id: agent_id@,
            },
            Action::MarkSeen { session_key } => Action::MarkSeen { session_key: session_key@ },
            Action::FetchThread { account_id, chat_id, thread_id, limit } => Action::FetchThread {
                account_id: account_id@,
                chat_id: chat_id@,
                thread_id: thread_id@,
                limit,
            },
            Action::PatchSession { patch } => Action::PatchSession { patch: json_of(patch) },
            Action::ListModels => Action::ListModels,
            Action::PushStatus { session_key, message } => Action::PushStatus {
                session_key: session_key@,
                message: message@,
            },
            Action::SendChat { params } => Action::SendChat { params: json_of(params) },
            Action::FinalizeReaction { ack_key, outcome } => Action::FinalizeReaction {
                ack_key: ack_key@,
                outcome,
            },
            Action::SendText { account_id, to, text, reply_to } => Action::SendText {
                account_id: account_id@,
                to: to@,
                text: text@,
                reply_to: opt_text(reply_to),
            },
        }
    }
}

/// The actions over contents, in order.
pub open spec fn contents_all(actions: Seq<Action<String, Value>>) -> Seq<Act> {
    actions.map_values(|action: Action<String, Value>| action.contents())
}

/// What the dispatch reads of a stored session.
pub struct StoredSession {
    /// Whether the session is bound to a channel.
    pub bound: bool,
    pub agent_id: Option<String>,
    pub has_model: bool,
}

/// What came back for an action that asks for something.
pub enum Answer {
    /// The session that the chat was switched to, if any.
    ActiveSession(Option<String>),
    /// The key of the registered reaction.
    Reaction(String),
    /// The operators of the account, if it is known.
    Operators(Option<Vec<String>>),
    /// The ceiling for untrusted turns, if the account is known.
    Ceiling(Option<(UntrustedAudience, UntrustedTools)>),
    CommandMode(bool),
    /// The stored session, if there is one.
    Session(Option<StoredSession>),
    SessionCount(usize),
    /// The default agent, unless the store failed.
    DefaultAgent(Option<String>),
    /// Whether the store knows the agent.
    AgentKnown(bool),
    /// The messages of the thread, unless they could not be fetched.
    Thread(Option<Vec<ThreadMessage>>),
    /// The list of models, unless it could not be had.
    Models(Option<Value>),
    /// The reply of the chat service, or what its error says.
    Sent(Result<Value, String>),
}

/// What a dispatch waits for.
#[derive(Debug, Clone, Copy, PartialEq, Eq, Structural)]
pub enum Stage {
    ActiveSession,
    Reaction,
    Operators,
    Ceiling,
    CommandMode,
    /// The session, before it is bound.
    Session,
    SessionCount,
    /// The session, after it was bound.
    BoundSession,
    DefaultAgent,
    AgentKnown,
    Thread,
    /// The session, for its model.
    SessionModel,
    Models,
    Sent,
    /// Nothing: the message is dealt with.
    Done,
}

/// What a dispatch knows so far.
pub struct Progress {
    pub stage: Stage,
    pub session_key: Seq<char>,
    pub ack_key: Option<Seq<char>>,
    pub trusted: bool,
    pub audience: UntrustedAudience,
    pub tools: UntrustedTools,
    /// What the agent reads: the text, or what shell mode makes of it.
    pub text: Seq<char>,
    pub fallback: Seq<char>,
    pub thread: Option<Json>,
}

/// A stretch of a dispatch: the actions, and where it stands after them.
pub struct Advance {
    pub progress: Progress,
    pub actions: Seq<Act>,
}

/// The actions first, then the stretch.
pub open spec fn after(first: Seq<Act>, rest: Advance) -> Advance {
    Advance { progress: rest.progress, actions: first + rest.actions }
}

/// An action that asks for something, and the wait for the answer.
pub open spec fn ask(progress: Progress, stage: Stage, action: Act) -> Advance {
    Advance { progress: Progress { stage, ..progress }, actions: seq![action] }
}

impl Setup {
    /// The typing indicator, in the chat of the message.
    pub open spec fn start_typing(self) -> Act {
        Action::StartTyping {
            account_id: self.message.reply_to.account_id@,
            chat_id: self.message.reply_to.chat_id@,
        }
    }

    /// The broadcast of the message, as it was written, to every listener.
    pub open spec fn telling(self, session_key: Seq<char>) -> Act {
        Action::Broadcast {
            event: CHAT_EVENT@,
            payload: user_message_event(
                self.message.text@,
                json_of(self.message.channel),
                session_key,
            ),
            drop_if_slow: false,
        }
    }

    /// A dispatch starts with a typing indicator, so that what follows does not delay it.
    pub open spec fn begin(self) -> Advance {
        after(
            seq![self.start_typing()],
            self.at_session(
                Progress {
                    stage: Stage::Done,
                    session_key: Seq::empty(),
                    ack_key: None,
                    trusted: false,
                    audience: UntrustedAudience::Public,
                    tools: UntrustedTools::DenyAll,
                    text: self.message.text@,
                    fallback: agent::MAIN_AGENT@,
                    thread: None,
                },
            ),
        )
    }

    /// The session that the chat was switched to, or the chat's own.
    pub open spec fn at_session(self, p: Progress) -> Advance {
        if self.services.session_metadata {
            ask(
                p,
                Stage::ActiveSession,
                Action::FindActiveSession {
                    channel_type: self.message.reply_to.channel_type@,
                    account_id: self.message.reply_to.account_id@,
                    chat_id: self.message.reply_to.chat_id@,
                    topic_id: opt_text(self.message.reply_to.thread_id),
                },
            )
        } else {
            self.at_reaction(
                Progress { session_key: self.message.reply_to.own_key(), ..p },
            )
        }
    }

    /// The reaction comes before authorization, so that a denied turn still settles it.
    pub open spec fn at_reaction(self, p: Progress) -> Advance {
        match self.message.reply_to.ack_message_id {
            Some(message_id) => if self.services.outbound {
                ask(
                    p,
                    Stage::Reaction,
                    Action::RegisterReaction {
                        account_id: self.message.reply_to.account_id@,
                        chat_id: self.message.reply_to.chat_id@,
                        message_id: message_id@,
                    },
                )
            } else {
                self.at_role(p)
            },
            None => self.at_role(p),
        }
    }

    /// Privilege is resolved per message, never per session.
    pub open spec fn at_role(self, p: Progress) -> Advance {
        if self.services.channel_registry {
            ask(
                p,
                Stage::Operators,
                Action::LoadOperators { account_id: self.message.reply_to.account_id@ },
            )
        } else {
            self.at_ceiling(self.with_operators(p, None))
        }
    }

    /// Whether the turn is trusted, where the account has these operators.
    pub open spec fn with_operators(self, p: Progress, operators: Option<Seq<String>>) -> Progress {
        Progress {
            trusted: trusted_turn(
                role_of(operators, opt_text(self.message.sender_id)),
                self.message.reply_to.shared_chat,
            ),
            ..p
        }
    }

    /// The ceiling for untrusted turns; without a registry the fail-closed defaults stand.
    pub open spec fn at_ceiling(self, p: Progress) -> Advance {
        if self.services.channel_registry {
            ask(
                p,
                Stage::Ceiling,
                Action::LoadCeiling { account_id: self.message.reply_to.account_id@ },
            )
        } else {
            self.at_gate(with_ceiling(p, None))
        }
    }

    /// An explicit shell command in a turn without tools is denied; shell mode matters to
    /// the other turns that have tools.
    #[verifier::opaque]
    pub open spec fn at_gate(self, p: Progress) -> Advance {
        if !may_use_tools(p) && self.message.explicit_shell {
            self.settle(
                p,
                Some(ChannelAckOutcome::Failure),
                Some(denial("/sh"@, opt_text(self.message.sender_id))),
            )
        } else if may_use_tools(p) {
            ask(
                p,
                Stage::CommandMode,
                Action::QueryCommandMode { session_key: p.session_key },
            )
        } else {
            self.at_broadcast(p)
        }
    }

    /// The web UI is told, then the session is bound to the channel.
    #[verifier::opaque]
    pub open spec fn at_broadcast(self, p: Progress) -> Advance {
        after(
            seq![
                self.telling(p.session_key),
            ],
            if self.message.binding is Some && self.services.session_metadata {
                ask(p, Stage::Session, Action::LoadSession { session_key: p.session_key })
            } else {
                self.at_seen(p)
            },
        )
    }

    /// A session that is not bound yet gets a label first.
    pub open spec fn at_label(self, p: Progress, session: Option<StoredSession>) -> Advance {
        if session is None || !session->0.bound {
            ask(
                p,
                Stage::SessionCount,
                Action::CountChannelSessions {
                    channel_type: self.message.reply_to.channel_type@,
                    account_id: self.message.reply_to.account_id@,
                    chat_id: self.message.reply_to.chat_id@,
                },
            )
        } else {
            self.at_binding(p)
        }
    }

    /// The session is bound, then read again for its agent.
    pub open spec fn at_binding(self, p: Progress) -> Advance {
        after(
            match self.message.binding {
                Some(binding) => seq![
                    Action::SetChannelBinding { session_key: p.session_key, binding: binding@ },
                ],
                None => Seq::empty(),
            },
            ask(p, Stage::BoundSession, Action::LoadSession { session_key: p.session_key }),
        )
    }

    /// A session without an agent gets one.
    pub open spec fn at_agent(self, p: Progress, session: Option<StoredSession>) -> Advance {
        if session is Some && lacks_agent(session->0) {
            if self.services.persona_store {
                ask(p, Stage::DefaultAgent, Action::LoadDefaultAgent)
            } else {
                self.at_agent_choice(Progress { fallback: fallback_agent(None), ..p })
            }
        } else {
            self.at_seen(p)
        }
    }

    /// The agent that the channel asks for, before the store is asked for it.
    pub open spec fn choice(self, p: Progress) -> AgentChoiceView {
        agent_choice(opt_text(self.message.agent_id), p.fallback, self.services.persona_store)
    }

    /// The agent that the channel asks for, or the fallback.
    pub open spec fn at_agent_choice(self, p: Progress) -> Advance {
        match self.choice(p) {
            AgentChoiceView::LookUp(agent_id) => ask(
                p,
                Stage::AgentKnown,
                Action::FindAgent { agent_id },
            ),
            AgentChoiceView::Settled(agent_id) => self.at_agent_set(p, agent_id),
        }
    }

    /// The session gets its agent.
    pub open spec fn at_agent_set(self, p: Progress, agent_id: Seq<char>) -> Advance {
        after(
            seq![Action::SetAgent { session_key: p.session_key, agent_id }],
            self.at_seen(p),
        )
    }

    /// The user's message marks the session as seen; a reply in a thread brings the
    /// thread along.
    #[verifier::opaque]
    pub open spec fn at_seen(self, p: Progress) -> Advance {
        after(
            seq![Action::MarkSeen { session_key: p.session_key }],
            match self.message.reply_to.message_id {
                Some(thread_id) => if self.services.channel_registry {
                    ask(
                        p,
                        Stage::Thread,
                        Action::FetchThread {
                            account_id: self.message.reply_to.account_id@,
                            chat_id: self.message.reply_to.chat_id@,
                            thread_id: thread_id@,
                            limit: THREAD_LIMIT,
                        },
                    )
                } else {
                    self.at_model(p)
                },
                None => self.at_model(p),
            },
        )
    }

    /// Whether the session has a model already.
    pub open spec fn at_model(self, p: Progress) -> Advance {
        if self.services.session_metadata {
            ask(p, Stage::SessionModel, Action::LoadSession { session_key: p.session_key })
        } else {
            self.at_first_model(p)
        }
    }

    /// A session without a model gets the one that the channel asks for, or else the first
    /// registered one.
    pub open spec fn at_first_model(self, p: Progress) -> Advance {
        after(
            match self.message.model {
                Some(model) => seq![Action::PatchSession { patch: model_patch(p.session_key, model@) }],
                None => Seq::empty(),
            },
            ask(p, Stage::Models, Action::ListModels),
        )
    }

    /// The session's new model is noted, then the message is sent.
    pub open spec fn at_models(self, p: Progress, models: Option<Json>) -> Advance {
        match self.message.model {
            Some(model) => after(
                seq![
                    Action::PushStatus {
                        session_key: p.session_key,
                        message: model_note(listed_name(models, model@)),
                    },
                ],
                self.at_send(p, Some(model@)),
            ),
            None => match first_model(models) {
                Some((id, name)) => after(
                    seq![
                        Action::PatchSession { patch: model_patch(p.session_key, id) },
                        Action::PushStatus { session_key: p.session_key, message: model_note(name) },
                    ],
                    self.at_send(p, Some(id)),
                ),
                None => self.at_send(p, None),
            },
        }
    }

    /// What the chat service is sent.
    pub open spec fn request(self, p: Progress, model: Option<Seq<char>>) -> Request {
        Request {
            text: p.text,
            channel: json_of(self.message.channel),
            session_key: p.session_key,
            reply_target_name: self.names.reply_target@,
            reply_target: json_of(self.message.reply_target),
            trusted: p.trusted,
            audience: p.audience,
            tools: p.tools,
            ack_keys_name: self.names.ack_keys@,
            ack_key: p.ack_key,
            thread: p.thread,
            audio_filename: opt_text(self.message.audio_filename),
            documents: opt_doc(self.message.documents),
            model,
        }
    }

    /// The message is sent.
    pub open spec fn at_send(self, p: Progress, model: Option<Seq<char>>) -> Advance {
        ask(
            p,
            Stage::Sent,
            Action::SendChat { params: Json::Object(self.request(p, model).params()) },
        )
    }

    /// The end of a dispatch: typing stops, the reaction is finalized where an outcome is
    /// known, and the user gets a text where there is one to give.
    pub open spec fn settle(
        self,
        p: Progress,
        outcome: Option<ChannelAckOutcome>,
        text: Option<Seq<char>>,
    ) -> Advance {
        Advance {
            progress: Progress { stage: Stage::Done, ..p },
            actions: seq![Action::StopTyping] + finalizing(p.ack_key, outcome) + self.texting(text),
        }
    }

    /// The text for the user, where there is one and a way to send it.
    pub open spec fn texting(self, text: Option<Seq<char>>) -> Seq<Act> {
        if text is Some && self.services.outbound {
            seq![
                Action::SendText {
                    account_id: self.message.reply_to.account_id@,
                    to: self.message.reply_to.outbound_to@,
                    text: text->0,
                    reply_to: opt_text(self.message.reply_to.message_id),
                },
            ]
        } else {
            Seq::empty()
        }
    }

    /// How a dispatch goes on with an answer.
    pub open spec fn next(self, p: Progress, answer: Answer) -> Advance {
        match answer {
            Answer::ActiveSession(active) => self.at_reaction(
                Progress {
                    session_key: match opt_text(active) {
                        Some(key) => key,
                        None => self.message.reply_to.own_key(),
                    },
                    ..p
                },
            ),
            Answer::Reaction(key) => self.at_role(Progress { ack_key: Some(key@), ..p }),
            Answer::Operators(operators) => self.at_ceiling(
                self.with_operators(p, opt_vec(operators)),
            ),
            Answer::Ceiling(ceiling) => self.at_gate(with_ceiling(p, ceiling)),
            Answer::CommandMode(enabled) => self.at_broadcast(
                Progress { text: effective_text(self.message.text@, enabled), ..p },
            ),
            Answer::Session(session) => if p.stage == Stage::Session {
                self.at_label(p, session)
            } else if p.stage == Stage::BoundSession {
                self.at_agent(p, session)
            } else if session is Some && session->0.has_model {
                self.at_send(p, opt_text(self.message.model))
            } else {
                self.at_first_model(p)
            },
            Answer::SessionCount(existing) => after(
                seq![
                    Action::UpsertSession {
                        session_key: p.session_key,
                        label: session_label(
                            self.message.reply_to.display_name@,
                            (existing + 1) as nat,
                        ),
                    },
                ],
                self.at_binding(p),
            ),
            Answer::DefaultAgent(id) => self.at_agent_choice(
                Progress { fallback: fallback_agent(opt_text(id)), ..p },
            ),
            Answer::AgentKnown(known) => self.at_agent_set(
                p,
                session_agent(self.choice(p), p.fallback, known),
            ),
            Answer::Thread(messages) => self.at_model(
                Progress { thread: thread_context(opt_messages(messages)), ..p },
            ),
            Answer::Models(models) => self.at_models(p, opt_doc(models)),
            Answer::Sent(reply) => self.settle(
                p,
                early_outcome(reply_json(reply)),
                match reply {
                    Ok(_) => None,
                    Err(error) => Some("⚠️ "@ + error@),
                },
            ),
        }
    }
}

/// The reaction's end, where there is a reaction and an outcome.
pub open spec fn finalizing(
    ack_key: Option<Seq<char>>,
    outcome: Option<ChannelAckOutcome>,
) -> Seq<Act> {
    if ack_key is Some && outcome is Some {
        seq![Action::FinalizeReaction { ack_key: ack_key->0, outcome: outcome->0 }]
    } else {
        Seq::empty()
    }
}

/// What is known with the ceiling for untrusted turns.
pub open spec fn with_ceiling(
    p: Progress,
    ceiling: Option<(UntrustedAudience, UntrustedTools)>,
) -> Progress {
    Progress { audience: ceiling_of(ceiling).0, tools: ceiling_of(ceiling).1, ..p }
}

/// Whether a turn may use tools: a trusted one, or one whose account leaves the tools to
/// the policy layers.
pub open spec fn may_use_tools(p: Progress) -> bool {
    p.trusted || p.tools == UntrustedTools::Policy
}

/// What the agent reads of a turn that may use tools.
pub open spec fn effective_text(text: Seq<char>, command_mode: bool) -> Seq<char> {
    if command_mode && shell_rewrite(text) is Some {
        shell_rewrite(text)->0
    } else {
        text
    }
}

/// Whether a stored session has no agent, or a blank one.
pub open spec fn lacks_agent(session: StoredSession) -> bool {
    match opt_text(session.agent_id) {
        Some(id) => blank(id),
        None => true,
    }
}

/// The entries of an optional list.
pub open spec fn opt_vec(list: Option<Vec<String>>) -> Option<Seq<String>> {
    match list {
        Some(entries) => Some(entries@),
        None => None,
    }
}

/// Whether an answer is what a stage waits for.
pub open spec fn fits(stage: Stage, answer: Answer) -> bool {
    match answer {
        Answer::ActiveSession(_) => stage == Stage::ActiveSession,
        Answer::Reaction(_) => stage == Stage::Reaction,
        Answer::Operators(_) => stage == Stage::Operators,
        Answer::Ceiling(_) => stage == Stage::Ceiling,
        Answer::CommandMode(_) => stage == Stage::CommandMode,
        Answer::Session(_) => stage == Stage::Session || stage == Stage::BoundSession || stage
            == Stage::SessionModel,
        Answer::SessionCount(existing) => stage == Stage::SessionCount && existing < usize::MAX,
        Answer::DefaultAgent(_) => stage == Stage::DefaultAgent,
        Answer::AgentKnown(_) => stage == Stage::AgentKnown,
        Answer::Thread(_) => stage == Stage::Thread,
        Answer::Models(_) => stage == Stage::Models,
        Answer::Sent(_) => stage == Stage::Sent,
    }
}

/// Over contents an action is of the same kind, with the characters of each of its texts, the
/// contents of each of its documents and its other fields as they are, each in its place.
pub proof fn contents_keep_every_field(action: Action<String, Value>)
    ensures
        match (action, action.contents()) {
            (
                Action::StartTyping { account_id: l0, chat_id: l1 },
                Action::StartTyping { account_id: r0, chat_id: r1 },
            ) => {
                &&& r0 == l0@
                &&& r1 == l1@
            },
            (Action::StopTyping, Action::StopTyping) => true,
            (
                Action::FindActiveSession { channel_type: l0, account_id: l1, chat_id: l2, topic_id: l3 },
                Action::FindActiveSession { channel_type: r0, account_id: r1, chat_id: r2, topic_id: r3 },
            ) => {
                &&& r0 == l0@
                &&& r1 == l1@
                &&& r2 == l2@
                &&& (l3 is None <==> r3 is None) && (l3 is Some ==> r3 == Some(l3->0@))
            },
            (
                Action::RegisterReaction { account_id: l0, chat_id: l1, message_id: l2 },
                Action::RegisterReaction { account_id: r0, chat_id: r1, message_id: r2 },
            ) => {
                &&& r0 == l0@
                &&& r1 == l1@
                &&& r2 == l2@
            },
            (
                Action::LoadOperators { account_id: l0 },
                Action::LoadOperators { account_id: r0 },
            ) => {
                &&& r0 == l0@
            },
            (
                Action::LoadCeiling { account_id: l0 },
                Action::LoadCeiling { account_id: r0 },
            ) => {
                &&& r0 == l0@
            },
            (
                Action::QueryCommandMode { session_key: l0 },
                Action::QueryCommandMode { session_key: r0 },
            ) => {
                &&& r0 == l0@
            },
            (
                Action::Broadcast { event: l0, payload: l1, drop_if_slow: l2 },
                Action::Broadcast { event: r0, payload: r1, drop_if_slow: r2 },
            ) => {
                &&& r0 == l0@
                &&& r1 == json_of(l1)
                &&& r2 == l2
            },
            (
                Action::LoadSession { session_key: l0 },
                Action::LoadSession { session_key: r0 },
            ) => {
                &&& r0 == l0@
            },
            (
                Action::CountChannelSessions { channel_type: l0, account_id: l1, chat_id: l2 },
                Action::CountChannelSessions { channel_type: r0, account_id: r1, chat_id: r2 },
            ) => {
                &&& r0 == l0@
                &&& r1 == l1@
                &&& r2 == l2@
            },
            (
                Action::UpsertSession { session_key: l0, label: l1 },
                Action::UpsertSession { session_key: r0, label: r1 },
            ) => {
                &&& r0 == l0@
                &&& r1 == l1@
            },
            (
                Action::SetChannelBinding { session_key: l0, binding: l1 },
                Action::SetChannelBinding { session_key: r0, binding: r1 },
            ) => {
                &&& r0 == l0@
                &&& r1 == l1@
            },
            (Action::LoadDefaultAgent, Action::LoadDefaultAgent) => true,
            (
                Action::FindAgent { agent_id: l0 },
                Action::FindAgent { agent_id: r0 },
            ) => {
                &&& r0 == l0@
            },
            (
                Action::SetAgent { session_key: l0, agent_id: l1 },
                Action::SetAgent { session_key: r0, agent_id: r1 },
            ) => {
                &&& r0 == l0@
                &&& r1 == l1@
            },
            (
                Action::MarkSeen { session_key: l0 },
                Action::MarkSeen { session_key: r0 },
            ) => {
                &&& r0 == l0@
            },
            (
                Action::FetchThread { account_id: l0, chat_id: l1, thread_id: l2, limit: l3 },
                Action::FetchThread { account_id: r0, chat_id: r1, thread_id: r2, limit: r3 },
            ) => {
                &&& r0 == l0@
                &&& r1 == l1@
                &&& r2 == l2@
                &&& r3 == l3
            },
            (
                Action::PatchSession { patch: l0 },
                Action::PatchSession { patch: r0 },
            ) => {
                &&& r0 == json_of(l0)
            },
            (Action::ListModels, Action::ListModels) => true,
            (
                Action::PushStatus { session_key: l0, message: l1 },
                Action::PushStatus { session_key: r0, message: r1 },
            ) => {
                &&& r0 == l0@
                &&& r1 == l1@
            },
            (
                Action::SendChat { params: l0 },
                Action::SendChat { params: r0 },
            ) => {
                &&& r0 == json_of(l0)
            },
            (
                Action::FinalizeReaction { ack_key: l0, outcome: l1 },
                Action::FinalizeReaction { ack_key: r0, outcome: r1 },
            ) => {
                &&& r0 == l0@
                &&& r1 == l1
            },
            (
                Action::SendText { account_id: l0, to: l1, text: l2, reply_to: l3 },
                Action::SendText { account_id: r0, to: r1, text: r2, reply_to: r3 },
            ) => {
                &&& r0 == l0@
                &&& r1 == l1@
                &&& r2 == l2@
                &&& (l3 is None <==> r3 is None) && (l3 is Some ==> r3 == Some(l3->0@))
            },
            _ => false,
        },
{
}

/// Over contents a row of actions is as long as before, and each action in its place.
pub proof fn contents_keep_every_action(actions: Seq<Action<String, Value>>, i: int)
    ensures
        contents_all(actions).len() == actions.len(),
        0 <= i < actions.len() ==> contents_all(actions)[i] == actions[i].contents(),
{
}

/// The entries of an optional list are there where the list is.
pub proof fn optional_lists_keep_their_entries(list: Vec<String>)
    ensures
        opt_vec(Some(list)) == Some(list@),
        opt_vec(None) is None,
{
}

} // verus!
