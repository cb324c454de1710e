use channel_events::agent::resolve_channel_agent_id;
use channel_events::config_view::{UntrustedAudience, UntrustedTools};
use channel_events::defaults::{
    config_string, override_map, resolve_channel_session_defaults,
    resolve_channel_session_defaults_from_config, ChannelSessionDefaults,
};
use channel_events::reactions::{
    early_return_outcome, finalize_reaction_on_early_return, ChannelAckOutcome,
};
use channel_events::turn::{
    apply_untrusted_channel_context, apply_untrusted_channel_context_with, first_listed_model,
    model_display_name, model_notice, next_session_label, session_model_patch, thread_history,
    user_message_payload, ThreadMessage,
};
use serde_json::Value;

fn doc(text: &str) -> Value {
    serde_json::from_str(text).unwrap()
}

#[test]
fn settings_are_trimmed_strings() {
    assert_eq!(config_string(Some(&doc("\" gpt \""))), Some("gpt".to_string()));
    assert_eq!(config_string(Some(&doc("\"  \""))), None);
    assert_eq!(config_string(Some(&doc("3"))), None);
    assert_eq!(config_string(None), None);
}

#[test]
fn overrides_are_objects_in_objects() {
    let config = doc(r#"{"user_overrides": {"u": {"model": "m"}, "v": "m"}, "x": []}"#);
    assert!(override_map(&config, "user_overrides", "u").unwrap().contains_key("model"));
    assert!(override_map(&config, "user_overrides", "v").is_none());
    assert!(override_map(&config, "user_overrides", "w").is_none());
    assert!(override_map(&config, "x", "u").is_none());
    assert!(override_map(&config, "channel_overrides", "u").is_none());
    assert!(override_map(&doc("[]"), "user_overrides", "u").is_none());
}

fn both(defaults: ChannelSessionDefaults) -> (Option<String>, Option<String>) {
    (defaults.model, defaults.agent_id)
}

fn some(text: &str) -> Option<String> {
    Some(text.to_string())
}

const CONFIG: &str = r#"{
    "model": "account",
    "agent_id": " account-agent ",
    "user_overrides": {"u": {"model": "user", "agent_id": " "}, "c": {"model": "self"}},
    "channel_overrides": {"c": {"model": "channel", "agent_id": "channel-agent"}}
}"#;

#[test]
fn user_overrides_channel_overrides_account() {
    let config = doc(CONFIG);
    let resolve = |chat: &str, sender: Option<&str>| {
        both(resolve_channel_session_defaults_from_config(&config, chat, sender))
    };
    assert_eq!(resolve("c", Some("u")), (some("user"), some("channel-agent")));
    assert_eq!(resolve("c", Some("v")), (some("channel"), some("channel-agent")));
    assert_eq!(resolve("d", Some("v")), (some("account"), some("account-agent")));
    assert_eq!(resolve("d", Some("u")), (some("user"), some("account-agent")));
    assert_eq!(resolve("c", None), (some("self"), some("channel-agent")));
    assert_eq!(resolve("c", Some("c")), resolve("c", None));
    let empty = doc("{}");
    assert_eq!(
        both(resolve_channel_session_defaults_from_config(&empty, "c", Some("u"))),
        (None, None)
    );
}

#[test]
fn defaults_come_from_the_first_matching_channel() {
    let status = doc(&format!(
        r#"{{"channels": [
            {{"account_id": "bot", "type": "slack", "config": {{"model": "slack"}}}},
            {{"account_id": "other", "type": "telegram", "config": {{"model": "other"}}}},
            {{"account_id": "bot", "type": "telegram", "config": {}}},
            {{"account_id": "bot", "type": "telegram", "config": {{"model": "second"}}}},
            {{"account_id": "bare", "type": "telegram"}}
        ]}}"#,
        CONFIG
    ));
    let resolve = |account: &str, kind: &str| {
        both(resolve_channel_session_defaults(Some(&status), account, kind, "d", Some("u")))
    };
    assert_eq!(resolve("bot", "telegram"), (some("user"), some("account-agent")));
    assert_eq!(resolve("bot", "slack"), (some("slack"), None));
    assert_eq!(resolve("bare", "telegram"), (None, None));
    assert_eq!(resolve("nobody", "telegram"), (None, None));
    assert_eq!(
        both(resolve_channel_session_defaults(None, "bot", "telegram", "d", None)),
        (None, None)
    );
    assert_eq!(
        both(resolve_channel_session_defaults(Some(&doc("{}")), "bot", "telegram", "d", None)),
        (None, None)
    );
    let report = doc(r#"{"channels": {}}"#);
    assert_eq!(
        both(resolve_channel_session_defaults(Some(&report), "bot", "telegram", "d", None)),
        (None, None)
    );
}

#[test]
fn reactions_end_early_only_where_nothing_runs() {
    let outcome = |text: &str| early_return_outcome::<()>(&Ok(doc(text)));
    assert_eq!(early_return_outcome(&Err("down")), Some(ChannelAckOutcome::Failure));
    assert_eq!(outcome(r#"{"ok": true, "runId": "r"}"#), None);
    assert_eq!(outcome(r#"{"queued": true, "state": "error"}"#), None);
    assert_eq!(outcome(r#"{"queued": false, "state": "error"}"#), Some(ChannelAckOutcome::Failure));
    assert_eq!(outcome(r#"{"rejected": true}"#), Some(ChannelAckOutcome::Failure));
    assert_eq!(outcome(r#"{"rejected": "true"}"#), None);
    assert_eq!(outcome(r#"{"state": "rejected"}"#), Some(ChannelAckOutcome::Failure));
    assert_eq!(outcome(r#"{"state": "blocked"}"#), Some(ChannelAckOutcome::Failure));
    assert_eq!(outcome(r#"{"state": "aborted"}"#), Some(ChannelAckOutcome::Cancelled));
    assert_eq!(outcome(r#"{"state": "running"}"#), None);
    assert_eq!(outcome("[]"), None);
    let key = "k".to_string();
    assert_eq!(
        finalize_reaction_on_early_return(Some(&key), &Err::<Value, _>(())),
        Some((&key, ChannelAckOutcome::Failure))
    );
    assert_eq!(finalize_reaction_on_early_return(None, &Err::<Value, _>(())), None);
    assert_eq!(finalize_reaction_on_early_return::<()>(Some(&key), &Ok(doc("{}"))), None);
}

#[test]
fn agents_fall_back() {
    let resolve = |requested: Option<&str>, default: Option<&str>, store: bool, known: bool| {
        resolve_channel_agent_id(requested, default.map(str::to_string), store, known)
    };
    assert_eq!(resolve(None, Some("helper"), true, false), "helper");
    assert_eq!(resolve(Some("  "), Some("helper"), true, true), "helper");
    assert_eq!(resolve(None, None, false, false), "main");
    assert_eq!(resolve(Some(" main "), Some("helper"), true, false), "main");
    assert_eq!(resolve(Some(" coder "), None, false, false), "coder");
    assert_eq!(resolve(Some(" coder "), Some("helper"), true, true), "coder");
    assert_eq!(resolve(Some("coder"), Some("helper"), true, false), "helper");
    assert_eq!(resolve(Some("coder"), None, true, false), "main");
}

#[test]
fn untrusted_context_is_limited_and_never_private() {
    let mut params = doc(r#"{"text": "hi", "_private_context": true}"#);
    apply_untrusted_channel_context(&mut params);
    assert_eq!(
        params,
        doc(
            r#"{"text": "hi", "_tool_audience": "public", "_tool_policy": {"deny": ["*"]},
                "_private_context": false}"#
        )
    );
    let mut same = doc(r#"{"text": "hi", "_private_context": true}"#);
    apply_untrusted_channel_context_with(
        &mut same,
        UntrustedAudience::default(),
        UntrustedTools::default(),
    );
    assert_eq!(same, params);
    let mut open = doc(r#"{"text": "hi"}"#);
    apply_untrusted_channel_context_with(
        &mut open,
        UntrustedAudience::Trusted,
        UntrustedTools::Policy,
    );
    assert_eq!(open, doc(r#"{"text": "hi", "_private_context": false}"#));
    let mut null = Value::Null;
    apply_untrusted_channel_context_with(
        &mut null,
        UntrustedAudience::Trusted,
        UntrustedTools::DenyAll,
    );
    assert_eq!(null, doc(r#"{"_tool_policy": {"deny": ["*"]}, "_private_context": false}"#));
}

#[test]
fn payloads() {
    assert_eq!(
        user_message_payload("hi", &doc(r#"{"sender_id": "u", "n": 1.5}"#), "key"),
        doc(
            r#"{"state": "channel_user", "text": "hi", "channel": {"sender_id": "u", "n": 1.5},
                "sessionKey": "key"}"#
        )
    );
    assert_eq!(session_model_patch("key", "m"), doc(r#"{"key": "key", "model": "m"}"#));
    assert_eq!(model_notice("GPT"), "Using GPT. Use /model to change.");
    assert_eq!(next_session_label("Telegram", 0), "Telegram 1");
    assert_eq!(next_session_label("Slack", 9), "Slack 10");
}

#[test]
fn thread_history_keeps_order_and_roles() {
    let message = |is_bot: bool, text: &str| ThreadMessage {
        is_bot,
        text: text.to_string(),
        sender_id: doc("\"u\""),
        timestamp: doc("17"),
    };
    assert_eq!(thread_history(None), None);
    assert_eq!(thread_history(Some(Vec::new())), None);
    assert_eq!(
        thread_history(Some(vec![message(false, "q"), message(true, "a")])),
        Some(doc(
            r#"[{"role": "user", "text": "q", "sender_id": "u", "timestamp": 17},
                {"role": "assistant", "text": "a", "sender_id": "u", "timestamp": 17}]"#
        ))
    );
}

#[test]
fn models_are_shown_by_name() {
    let models = doc(
        r#"[{"id": "a", "displayName": "Model A"}, {"id": "b"}, {"id": "a", "displayName": "Z"}]"#,
    );
    assert_eq!(model_display_name(Some(&models), "a"), "Model A");
    assert_eq!(model_display_name(Some(&models), "b"), "b");
    assert_eq!(model_display_name(Some(&models), "c"), "c");
    assert_eq!(model_display_name(Some(&doc("{}")), "c"), "c");
    assert_eq!(model_display_name(None, "c"), "c");
    assert_eq!(
        first_listed_model(Some(&models)),
        Some(("a".to_string(), "Model A".to_string()))
    );
    assert_eq!(
        first_listed_model(Some(&doc(r#"[{"id": "b"}]"#))),
        Some(("b".to_string(), "b".to_string()))
    );
    assert_eq!(first_listed_model(Some(&doc(r#"[{"name": "b"}, {"id": "c"}]"#))), None);
    assert_eq!(first_listed_model(Some(&doc("[]"))), None);
    assert_eq!(first_listed_model(None), None);
}
