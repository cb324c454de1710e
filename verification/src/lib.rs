//! Channel events: what a gateway decides when a chat channel delivers a message.
//!
//! [`dispatch::Dispatch`] takes a message from its arrival to the chat service's reply. It
//! performs nothing itself: it says what to do next and goes on with what came back.
//! [`progress`] says what each of its steps is, [`script`] what a whole dispatch comes to,
//! [`course`] which actions that takes and when, and [`laws`] what holds of every dispatch.
//! The other modules decide the single questions on the way: who is trusted, what the agent
//! reads, which session, model and agent a chat gets, what the documents of a turn hold,
//! what the user is told and how long the typing indicator lasts.

pub mod agent;
pub mod commands;
pub mod config_view;
pub mod course;
pub mod defaults;
pub mod dispatch;
pub mod json;
pub mod laws;
pub mod listing;
pub mod operators;
pub mod progress;
pub mod reactions;
pub mod script;
pub mod target;
pub mod text;
pub mod turn;
pub mod typing;
