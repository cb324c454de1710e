use channel_events::config_view::{UntrustedAudience, UntrustedTools};
use channel_events::dispatch::{dispatch_to_chat, Dispatch};
use channel_events::operators::operator_denied_message;
use channel_events::progress::{
    Action, Answer, ChannelMessage, ParamNames, Services, Setup, StoredSession,
};
use channel_events::reactions::ChannelAckOutcome;
use channel_events::target::ChannelReplyTarget;
use channel_events::turn::ThreadMessage;
use serde_json::Value;

fn doc(text: &str) -> Value {
    serde_json::from_str(text).unwrap()
}

fn setup(text: &str) -> Setup {
    Setup {
        message: ChannelMessage {
            text: text.to_string(),
            reply_to: ChannelReplyTarget {
                channel_type: "telegram".to_string(),
                display_name: "Telegram".to_string(),
                account_id: "bot".to_string(),
                chat_id: "chat".to_string(),
                thread_id: None,
                message_id: Some("m1".to_string()),
                ack_message_id: Some("m1".to_string()),
                outbound_to: "chat".to_string(),
                shared_chat: false,
            },
            sender_id: Some("42".to_string()),
            agent_id: Some("coder".to_string()),
            model: None,
            audio_filename: Some("voice.ogg".to_string()),
            documents: Some(doc("[\"a.pdf\"]")),
            channel: doc(r#"{"sender": "42"}"#),
            reply_target: doc(r#"{"chat": "chat"}"#),
            binding: Some("{binding}".to_string()),
            explicit_shell: text.starts_with("/sh "),
        },
        services: Services {
            outbound: true,
            session_metadata: true,
            channel_registry: true,
            persona_store: true,
        },
        names: ParamNames {
            reply_target: "_reply_target".to_string(),
            ack_keys: "_ack".to_string(),
        },
    }
}

struct World {
    operators: Option<Vec<String>>,
    ceiling: Option<(UntrustedAudience, UntrustedTools)>,
    command_mode: bool,
    bound: bool,
    has_model: bool,
    agent_known: bool,
    models: Option<Value>,
    sent: Result<Value, String>,
}

fn world() -> World {
    World {
        operators: Some(vec!["42".to_string()]),
        ceiling: Some((UntrustedAudience::Public, UntrustedTools::DenyAll)),
        command_mode: false,
        bound: false,
        has_model: false,
        agent_known: true,
        models: Some(doc(r#"[{"id": "gpt", "displayName": "GPT"}]"#)),
        sent: Ok(doc(r#"{"ok": true}"#)),
    }
}

/// Runs a dispatch to its end; gives what was done, and what was sent to the chat service.
fn run(setup: Setup, world: World) -> (Vec<String>, Option<Value>) {
    let mut log = Vec::new();
    let mut params_sent = None;
    let (mut dispatch, mut actions) = Dispatch::begin(setup);
    loop {
        let mut answer = None;
        for action in actions {
            assert!(answer.is_none());
            let (line, reply) = match action {
                Action::StartTyping { account_id, chat_id } => {
                    (format!("start typing {} {}", account_id, chat_id), None)
                },
                Action::StopTyping => ("stop typing".to_string(), None),
                Action::FindActiveSession { channel_type, account_id, chat_id, topic_id } => (
                    format!("active {} {} {} {:?}", channel_type, account_id, chat_id, topic_id),
                    Some(Answer::ActiveSession(None)),
                ),
                Action::RegisterReaction { account_id, chat_id, message_id } => (
                    format!("react {} {} {}", account_id, chat_id, message_id),
                    Some(Answer::Reaction("ack1".to_string())),
                ),
                Action::LoadOperators { account_id } => (
                    format!("operators {}", account_id),
                    Some(Answer::Operators(world.operators.clone())),
                ),
                Action::LoadCeiling { account_id } => {
                    (format!("ceiling {}", account_id), Some(Answer::Ceiling(world.ceiling)))
                },
                Action::QueryCommandMode { session_key } => (
                    format!("mode {}", session_key),
                    Some(Answer::CommandMode(world.command_mode)),
                ),
                Action::Broadcast { event, payload, drop_if_slow } => {
                    assert!(!drop_if_slow);
                    (format!("broadcast {} {}", event, payload), None)
                },
                Action::LoadSession { session_key } => (
                    format!("load {}", session_key),
                    Some(Answer::Session(Some(StoredSession {
                        bound: world.bound,
                        agent_id: Some(" ".to_string()),
                        has_model: world.has_model,
                    }))),
                ),
                Action::CountChannelSessions { channel_type, account_id, chat_id } => (
                    format!("count {} {} {}", channel_type, account_id, chat_id),
                    Some(Answer::SessionCount(2)),
                ),
                Action::UpsertSession { session_key, label } => {
                    (format!("upsert {} {}", session_key, label), None)
                },
                Action::SetChannelBinding { session_key, binding } => {
                    (format!("bind {} {}", session_key, binding), None)
                },
                Action::LoadDefaultAgent => (
                    "default agent".to_string(),
                    Some(Answer::DefaultAgent(Some("helper".to_string()))),
                ),
                Action::FindAgent { agent_id } => {
                    (format!("find {}", agent_id), Some(Answer::AgentKnown(world.agent_known)))
                },
                Action::SetAgent { session_key, agent_id } => {
                    (format!("agent {} {}", session_key, agent_id), None)
                },
                Action::MarkSeen { session_key } => (format!("seen {}", session_key), None),
                Action::FetchThread { account_id, chat_id, thread_id, limit } => (
                    format!("thread {} {} {} {}", account_id, chat_id, thread_id, limit),
                    Some(Answer::Thread(Some(vec![ThreadMessage {
                        is_bot: true,
                        text: "before".to_string(),
                        sender_id: doc("null"),
                        timestamp: doc("1"),
                    }]))),
                ),
                Action::PatchSession { patch } => (format!("patch {}", patch), None),
                Action::ListModels => {
                    ("models".to_string(), Some(Answer::Models(world.models.clone())))
                },
                Action::PushStatus { session_key, message } => {
                    (format!("status {} {}", session_key, message), None)
                },
                Action::SendChat { params } => {
                    assert!(params_sent.is_none());
                    params_sent = Some(params);
                    ("send".to_string(), Some(Answer::Sent(world.sent.clone())))
                },
                Action::FinalizeReaction { ack_key, outcome } => {
                    (format!("finalize {} {:?}", ack_key, outcome), None)
                },
                Action::SendText { account_id, to, text, reply_to } => {
                    (format!("text {} {} {:?} {}", account_id, to, reply_to, text), None)
                },
            };
            log.push(line);
            answer = reply;
        }
        if dispatch.is_done() {
            assert!(answer.is_none());
            return (log, params_sent);
        }
        let answer = answer.unwrap();
        assert!(dispatch.awaits(&answer));
        let (next, more) = dispatch.step(answer);
        dispatch = next;
        actions = more;
    }
}

#[test]
fn operator_message_runs_the_whole_course() {
    let (log, params) = run(setup("hello"), world());
    let expected = [
        "start typing bot chat",
        "active telegram bot chat None",
        "react bot chat m1",
        "operators bot",
        "ceiling bot",
        "mode telegram:bot:chat",
        r#"broadcast chat {"channel":{"sender":"42"},"sessionKey":"telegram:bot:chat","state":"channel_user","text":"hello"}"#,
        "load telegram:bot:chat",
        "count telegram bot chat",
        "upsert telegram:bot:chat Telegram 3",
        "bind telegram:bot:chat {binding}",
        "load telegram:bot:chat",
        "default agent",
        "find coder",
        "agent telegram:bot:chat coder",
        "seen telegram:bot:chat",
        "thread bot chat m1 20",
        "load telegram:bot:chat",
        "models",
        r#"patch {"key":"telegram:bot:chat","model":"gpt"}"#,
        "status telegram:bot:chat Using GPT. Use /model to change.",
        "send",
        "stop typing",
    ];
    assert_eq!(log, expected);
    assert_eq!(
        params.unwrap(),
        doc(
            r#"{"text": "hello", "channel": {"sender": "42"},
                "_session_key": "telegram:bot:chat", "_reply_target": {"chat": "chat"},
                "_native_channel_request": true, "_ack": ["ack1"],
                "_thread_context": [{"role": "assistant", "text": "before", "sender_id": null,
                                     "timestamp": 1}],
                "_audio_filename": "voice.ogg", "_document_files": ["a.pdf"], "model": "gpt"}"#
        )
    );
}

#[test]
fn explicit_shell_command_of_a_guest_is_refused() {
    let mut from_guest = setup("/sh ls");
    from_guest.message.sender_id = Some("43".to_string());
    let (log, params) = run(from_guest, world());
    let denial = format!("text bot chat Some(\"m1\") {}", operator_denied_message("/sh", Some("43")));
    assert_eq!(
        log,
        [
            "start typing bot chat",
            "active telegram bot chat None",
            "react bot chat m1",
            "operators bot",
            "ceiling bot",
            "stop typing",
            "finalize ack1 Failure",
            denial.as_str(),
        ]
    );
    assert!(params.is_none());
}

#[test]
fn explicit_shell_command_passes_where_the_policy_layers_decide() {
    let mut from_guest = setup("/sh ls");
    from_guest.message.sender_id = None;
    let open = World {
        ceiling: Some((UntrustedAudience::Trusted, UntrustedTools::Policy)),
        ..world()
    };
    let (_, params) = run(from_guest, open);
    let params = params.unwrap();
    assert_eq!(params["text"], doc("\"/sh ls\""));
    assert_eq!(params["_private_context"], doc("false"));
    assert!(params.get("_tool_audience").is_none());
    assert!(params.get("_tool_policy").is_none());
}

#[test]
fn untrusted_messages_go_out_under_the_ceiling() {
    let mut shared = setup("hello");
    shared.message.reply_to.shared_chat = true;
    let unknown = World { ceiling: None, command_mode: true, ..world() };
    let (log, params) = run(shared, unknown);
    let params = params.unwrap();
    assert_eq!(params["text"], doc("\"hello\""));
    assert_eq!(params["_tool_audience"], doc("\"public\""));
    assert_eq!(params["_tool_policy"], doc(r#"{"deny": ["*"]}"#));
    assert_eq!(params["_private_context"], doc("false"));
    assert!(!log.iter().any(|line| line.starts_with("mode ")));
}

#[test]
fn shell_mode_rewrites_for_operators() {
    let (log, params) = run(setup(" ls "), World { command_mode: true, ..world() });
    assert_eq!(params.unwrap()["text"], doc("\"/sh ls\""));
    assert!(log.iter().any(|line| line.starts_with("broadcast") && line.contains("\" ls \"")));
    let (_, params) = run(setup("/new"), World { command_mode: true, ..world() });
    assert_eq!(params.unwrap()["text"], doc("\"/new\""));
}

#[test]
fn bare_gateway_still_sends() {
    let mut bare = setup("hello");
    bare.services = Services {
        outbound: false,
        session_metadata: false,
        channel_registry: false,
        persona_store: false,
    };
    bare.message.reply_to.thread_id = Some("7".to_string());
    let (log, params) = run(bare, World { models: None, ..world() });
    assert_eq!(
        log,
        [
            "start typing bot chat",
            r#"broadcast chat {"channel":{"sender":"42"},"sessionKey":"telegram:bot:chat:7","state":"channel_user","text":"hello"}"#,
            "seen telegram:bot:chat:7",
            "models",
            "send",
            "stop typing",
        ]
    );
    let params = params.unwrap();
    assert!(params.get("model").is_none());
    assert!(params.get("_ack").is_none());
    assert_eq!(params["_tool_audience"], doc("\"public\""));
}

#[test]
fn requested_model_is_used_and_noted_once() {
    let mut asked = setup("hello");
    asked.message.model = Some("gpt".to_string());
    let (log, params) = run(asked, world());
    assert_eq!(params.unwrap()["model"], doc("\"gpt\""));
    let patch = log.iter().position(|line| line.starts_with("patch")).unwrap();
    assert_eq!(log[patch], r#"patch {"key":"telegram:bot:chat","model":"gpt"}"#);
    assert_eq!(log[patch + 1], "models");
    assert_eq!(log[patch + 2], "status telegram:bot:chat Using GPT. Use /model to change.");

    let mut asked = setup("hello");
    asked.message.model = Some("gpt".to_string());
    let (log, params) = run(asked, World { has_model: true, ..world() });
    assert_eq!(params.unwrap()["model"], doc("\"gpt\""));
    assert!(!log.iter().any(|line| line.starts_with("patch") || line.starts_with("status")));
}

#[test]
fn session_with_a_model_keeps_it() {
    let (log, params) = run(setup("hello"), World { has_model: true, ..world() });
    assert!(params.unwrap().get("model").is_none());
    assert!(!log.iter().any(|line| line.starts_with("patch") || line == "models"));
}

#[test]
fn bound_session_keeps_its_label() {
    let (log, _) = run(setup("hello"), World { bound: true, ..world() });
    assert!(!log.iter().any(|line| line.starts_with("upsert") || line.starts_with("count")));
    assert!(log.contains(&"bind telegram:bot:chat {binding}".to_string()));
}

#[test]
fn unknown_agent_gives_way_to_the_default() {
    let (log, _) = run(setup("hello"), World { agent_known: false, ..world() });
    assert!(log.contains(&"agent telegram:bot:chat helper".to_string()));
}

#[test]
fn failure_is_told_last() {
    let (log, _) = run(setup("hello"), World { sent: Err("no model".to_string()), ..world() });
    let n = log.len();
    assert_eq!(
        log[n - 4..],
        [
            "send".to_string(),
            "stop typing".to_string(),
            format!("finalize ack1 {:?}", ChannelAckOutcome::Failure),
            "text bot chat Some(\"m1\") ⚠️ no model".to_string(),
        ]
    );
}

#[test]
fn aborted_run_cancels_its_reaction() {
    let aborted = World { sent: Ok(doc(r#"{"state": "aborted"}"#)), ..world() };
    let (log, _) = run(setup("hello"), aborted);
    assert_eq!(log.last().unwrap(), "finalize ack1 Cancelled");
    let queued = World { sent: Ok(doc(r#"{"queued": true}"#)), ..world() };
    let (log, _) = run(setup("hello"), queued);
    assert_eq!(log.last().unwrap(), "stop typing");
}

#[test]
fn answers_out_of_turn_are_not_awaited() {
    let (dispatch, _) = Dispatch::begin(setup("hello"));
    assert!(dispatch.awaits(&Answer::ActiveSession(None)));
    assert!(!dispatch.awaits(&Answer::CommandMode(true)));
    assert!(!dispatch.awaits(&Answer::SessionCount(0)));
    assert!(!dispatch.is_done());
}

#[test]
fn privilege_follows_the_sender() {
    for command_mode in [false, true] {
        let mut from_guest = setup("/sh ls");
        from_guest.message.sender_id = Some("43".to_string());
        let (_, params) = run(from_guest, World { command_mode, ..world() });
        assert!(params.is_none());
        let (_, params) = run(setup("/sh ls"), World { command_mode, ..world() });
        assert_eq!(params.unwrap()["text"], doc("\"/sh ls\""));
    }
}

#[test]
fn gateway_that_is_not_ready_does_nothing() {
    assert!(dispatch_to_chat(None).is_none());
    let (dispatch, actions) = dispatch_to_chat(Some(setup("hello"))).unwrap();
    assert!(!dispatch.is_done());
    assert_eq!(actions.len(), 2);
    assert!(matches!(
        &actions[0],
        Action::StartTyping { account_id, chat_id } if account_id == "bot" && chat_id == "chat"
    ));
    assert!(matches!(&actions[1], Action::FindActiveSession { .. }));
}

#[test]
fn lifted_ceilings_are_left_out() {
    let half = |audience: UntrustedAudience, tools: UntrustedTools| {
        let mut from_guest = setup("hello");
        from_guest.message.sender_id = Some("43".to_string());
        let (_, params) = run(from_guest, World { ceiling: Some((audience, tools)), ..world() });
        params.unwrap()
    };
    let heard = half(UntrustedAudience::Trusted, UntrustedTools::DenyAll);
    assert!(heard.get("_tool_audience").is_none());
    assert_eq!(heard["_tool_policy"], doc(r#"{"deny": ["*"]}"#));
    let ruled = half(UntrustedAudience::Public, UntrustedTools::Policy);
    assert_eq!(ruled["_tool_audience"], doc("\"public\""));
    assert!(ruled.get("_tool_policy").is_none());
}
