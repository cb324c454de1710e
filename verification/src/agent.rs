//! Which agent a channel session gets.

use vstd::prelude::*;
use crate::target::{opt_str, opt_text};
use crate::text;
use crate::text::{blank, trimmed};

verus! {

/// The agent that is always there.
pub const MAIN_AGENT: &'static str = "main";

/// What can be said of the requested agent before the store is asked for it.
pub enum AgentChoice {
    /// The session gets this agent.
    Settled(String),
    /// The store has to say whether it knows this agent.
    LookUp(String),
}

/// The choice over the texts.
pub enum AgentChoiceView {
    Settled(Seq<char>),
    LookUp(Seq<char>),
}

impl AgentChoice {
    /// The choice over the texts.
    pub open spec fn texts(self) -> AgentChoiceView {
        match self {
            AgentChoice::Settled(id) => AgentChoiceView::Settled(id@),
            AgentChoice::LookUp(id) => AgentChoiceView::LookUp(id@),
        }
    }
}

/// The fallback: the store's default, or the main agent where the store has none to give.
pub open spec fn fallback_agent(default_id: Option<Seq<char>>) -> Seq<char> {
    match default_id {
        Some(id) => id,
        None => MAIN_AGENT@,
    }
}

/// A blank request gets the fallback and the main agent is always known; any other request
/// is looked up where there is a store, and taken as it is where there is none.
pub open spec fn agent_choice(
    requested: Option<Seq<char>>,
    fallback: Seq<char>,
    has_store: bool,
) -> AgentChoiceView {
    match requested {
        Some(id) => if blank(id) {
            AgentChoiceView::Settled(fallback)
        } else if trimmed(id) == MAIN_AGENT@ || !has_store {
            AgentChoiceView::Settled(trimmed(id))
        } else {
            AgentChoiceView::LookUp(trimmed(id))
        },
        None => AgentChoiceView::Settled(fallback),
    }
}

/// The agent of a session: the choice, where an agent that the store does not know gives
/// way to the fallback.
pub open spec fn session_agent(choice: AgentChoiceView, fallback: Seq<char>, known: bool) -> Seq<
    char,
> {
    match choice {
        AgentChoiceView::Settled(id) => id,
        AgentChoiceView::LookUp(id) => if known {
            id
        } else {
            fallback
        },
    }
}

/// The fallback agent; `default_id` is `None` where there is no store or it failed.
pub fn agent_fallback(default_id: Option<String>) -> (r: String)
    ensures
        r@ == fallback_agent(opt_text(default_id)),
{
    match default_id {
        Some(id) => id,
        None => MAIN_AGENT.to_owned(),
    }
}

/// What can be said of a request before the store is asked for it.
pub fn choose_agent(requested: Option<&str>, fallback: &str, has_store: bool) -> (r: AgentChoice)
    ensures
        r.texts() == agent_choice(opt_str(requested), fallback@, has_store),
{
    match requested {
        Some(id) => {
            let id = text::trim(id);
            if id.is_empty() {
                AgentChoice::Settled(fallback.to_owned())
            } else if text::same_text(id, MAIN_AGENT) || !has_store {
                AgentChoice::Settled(id.to_owned())
            } else {
                AgentChoice::LookUp(id.to_owned())
            }
        },
        None => AgentChoice::Settled(fallback.to_owned()),
    }
}

/// The agent of a channel session, where `default_id` is the store's default (`None` where
/// there is no store or it failed) and `known` whether the store knows the request.
pub fn resolve_channel_agent_id(
    requested_agent_id: Option<&str>,
    default_id: Option<String>,
    has_store: bool,
    known: bool,
) -> (r: String)
    ensures
        r@ == session_agent(
            agent_choice(
                opt_str(requested_agent_id),
                fallback_agent(opt_text(default_id)),
                has_store,
            ),
            fallback_agent(opt_text(default_id)),
            known,
        ),
{
    let fallback = agent_fallback(default_id);
    match choose_agent(requested_agent_id, fallback.as_str(), has_store) {
        AgentChoice::Settled(id) => id,
        AgentChoice::LookUp(id) => if known {
            id
        } else {
            fallback
        },
    }
}

/// A request for the main agent is granted whatever the store holds.
pub proof fn main_agent_is_always_granted(
    requested: Seq<char>,
    fallback: Seq<char>,
    has_store: bool,
    known: bool,
)
    requires
        trimmed(requested) == MAIN_AGENT@,
    ensures
        session_agent(agent_choice(Some(requested), fallback, has_store), fallback, known)
            == MAIN_AGENT@,
{
    reveal_strlit("main");
}

/// With a store, every session gets the fallback, the main agent or an agent that the
/// store knows.
pub proof fn unknown_agents_fall_back(
    requested: Option<Seq<char>>,
    fallback: Seq<char>,
    known: bool,
)
    ensures
        ({
            let agent = session_agent(agent_choice(requested, fallback, true), fallback, known);
            ||| agent == fallback
            ||| agent == MAIN_AGENT@
            ||| known && requested is Some && agent == trimmed(requested->0)
        }),
{
}

/// A known agent that the channel asks for is the session's, whatever the fallback: where
/// the store knows it, and where there is no store to ask. Only a store that does not know
/// it makes it give way to the fallback, and never the main agent.
pub proof fn requested_agents_are_granted(
    requested: &str,
    default_id: Option<String>,
    has_store: bool,
    known: bool,
    r: String,
)
    requires
        !blank(requested@),
        call_ensures(
            resolve_channel_agent_id,
            (Some(requested), default_id, has_store, known),
            r,
        ),
    ensures
        known || !has_store || trimmed(requested@) == "main"@ ==> r@ == trimmed(requested@),
        !known && has_store && trimmed(requested@) != "main"@ ==> r@ == (match default_id {
            Some(id) => id@,
            None => "main"@,
        }),
{
}

/// Where the channel asks for no agent, or for a blank one, the session gets the store's
/// default, or the main agent where the store has none to give.
pub proof fn sessions_without_a_request_get_the_default(
    requested: Option<&str>,
    default_id: Option<String>,
    has_store: bool,
    known: bool,
    r: String,
)
    requires
        requested is None || blank(requested->0@),
        call_ensures(resolve_channel_agent_id, (requested, default_id, has_store, known), r),
    ensures
        r@ == (match default_id {
            Some(id) => id@,
            None => "main"@,
        }),
{
}

/// The store is asked for an agent where there is a store, and the request is neither blank
/// nor for the main agent; it is asked for just what was requested.
pub proof fn only_other_agents_are_looked_up(
    requested: Option<Seq<char>>,
    fallback: Seq<char>,
    has_store: bool,
)
    ensures
        has_store && requested is Some && !blank(requested->0) && trimmed(requested->0) != "main"@
            ==> agent_choice(requested, fallback, has_store) == AgentChoiceView::LookUp(
            trimmed(requested->0),
        ),
        !has_store || requested is None || blank(requested->0) || trimmed(requested->0) == "main"@
            ==> agent_choice(requested, fallback, has_store) is Settled,
{
}

} // verus!
