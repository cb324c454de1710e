use channel_events::config_view::{
    resolve_untrusted_ceiling, sender_matches_allowlist, ChannelConfigView, UntrustedAudience,
    UntrustedTools,
};
use channel_events::operators::{
    is_channel_command_authorized, is_sender_authorized_for_target, is_trusted_channel_turn,
    operator_denied_message, resolve_sender_role, ChannelSenderRole, CommandPrivilege,
};
use channel_events::target::{
    default_channel_session_key, is_shared_channel_target, resolve_channel_session,
    ChannelReplyTarget,
};

fn target(thread: Option<&str>, shared: bool) -> ChannelReplyTarget {
    ChannelReplyTarget {
        channel_type: "telegram".to_string(),
        display_name: "Telegram".to_string(),
        account_id: "bot".to_string(),
        chat_id: "chat".to_string(),
        thread_id: thread.map(str::to_string),
        message_id: None,
        ack_message_id: None,
        outbound_to: "chat".to_string(),
        shared_chat: shared,
    }
}

fn list(entries: &[&str]) -> Vec<String> {
    entries.iter().map(|e| e.to_string()).collect()
}

#[test]
fn operators_are_exact_ids() {
    let operators = list(&["42", "alice"]);
    let role = |id: Option<&str>| resolve_sender_role(Some(&operators), id);
    assert_eq!(role(Some("42")), ChannelSenderRole::Operator);
    assert_eq!(role(Some("alice")), ChannelSenderRole::Operator);
    assert_eq!(role(Some("Alice")), ChannelSenderRole::Guest);
    assert_eq!(role(Some("4")), ChannelSenderRole::Guest);
    assert_eq!(role(None), ChannelSenderRole::Guest);
}

#[test]
fn privilege_fails_closed() {
    assert_eq!(resolve_sender_role(None, Some("42")), ChannelSenderRole::Guest);
    assert_eq!(resolve_sender_role(Some(&[]), Some("42")), ChannelSenderRole::Guest);
    assert_eq!(resolve_sender_role(Some(&list(&[""])), Some("")), ChannelSenderRole::Guest);
    assert_eq!(resolve_sender_role(Some(&list(&[" "])), Some(" ")), ChannelSenderRole::Guest);
}

#[test]
fn trust_takes_an_operator_in_a_direct_chat() {
    let direct = target(None, false);
    let shared = target(None, true);
    assert!(!is_shared_channel_target(&direct));
    assert!(is_shared_channel_target(&shared));
    assert!(is_trusted_channel_turn(ChannelSenderRole::Operator, &direct));
    assert!(!is_trusted_channel_turn(ChannelSenderRole::Operator, &shared));
    assert!(!is_trusted_channel_turn(ChannelSenderRole::Guest, &direct));
    assert!(ChannelSenderRole::Operator.is_operator());
    assert!(!ChannelSenderRole::Guest.is_operator());
    let operators = list(&["42"]);
    assert!(is_sender_authorized_for_target(Some(&operators), &direct, Some("42")));
    assert!(!is_sender_authorized_for_target(Some(&operators), &shared, Some("42")));
    assert!(!is_sender_authorized_for_target(Some(&operators), &direct, Some("43")));
    assert!(!is_sender_authorized_for_target(None, &direct, Some("42")));
}

#[test]
fn public_commands_are_open_to_all() {
    let shared = target(None, true);
    let direct = target(None, false);
    let guest = ChannelSenderRole::Guest;
    let operator = ChannelSenderRole::Operator;
    assert!(is_channel_command_authorized(CommandPrivilege::Public, guest, &shared));
    assert!(is_channel_command_authorized(CommandPrivilege::OperatorDirect, operator, &direct));
    assert!(!is_channel_command_authorized(CommandPrivilege::OperatorDirect, operator, &shared));
    assert!(!is_channel_command_authorized(CommandPrivilege::OperatorDirect, guest, &direct));
}

#[test]
fn denial_names_the_action_and_echoes_the_sender() {
    let denial = "/sh is restricted to this bot's operators in direct chats. Shared chats and \
chats that cannot be verified as direct are denied.\n\nOpen a direct chat first. If you own this \
moltis instance and are still denied, add yourself under Settings → Channels → (your account) → \
Edit → Operators in the web UI, or set `operators` for the account in moltis.toml. Entries must be \
exact platform sender IDs.";
    assert_eq!(operator_denied_message("/sh", None), denial);
    assert_eq!(operator_denied_message("/sh", Some("  ")), denial);
    assert_eq!(
        operator_denied_message("/sh", Some(" 42\n")),
        format!("{}\n\nYour sender ID here is: 42", denial)
    );
    assert!(operator_denied_message("Shell access", None).starts_with("Shell access is restricted"));
}

#[test]
fn each_topic_has_its_own_session() {
    assert_eq!(default_channel_session_key(&target(None, true)), "telegram:bot:chat");
    assert_eq!(default_channel_session_key(&target(Some("7"), true)), "telegram:bot:chat:7");
    assert_eq!(default_channel_session_key(&target(Some(""), true)), "telegram:bot:chat:");
    assert_eq!(
        resolve_channel_session(&target(Some("7"), true), Some("session:x".to_string())),
        "session:x"
    );
    assert_eq!(resolve_channel_session(&target(Some("7"), true), None), "telegram:bot:chat:7");
}

#[derive(Debug)]
struct Plain {
    allowlist: Vec<String>,
}

impl ChannelConfigView for Plain {
    type DmPolicy = &'static str;
    type GroupPolicy = &'static str;

    fn allowlist(&self) -> &[String] {
        &self.allowlist
    }

    fn group_allowlist(&self) -> &[String] {
        &[]
    }

    fn dm_policy(&self) -> &'static str {
        "open"
    }

    fn group_policy(&self) -> &'static str {
        "open"
    }

    fn model(&self) -> Option<&str> {
        Some("account-model")
    }

    fn model_provider(&self) -> Option<&str> {
        None
    }
}

#[test]
fn config_defaults_are_fail_closed() {
    let config = Plain { allowlist: list(&["alice"]) };
    assert!(config.operators().is_empty());
    assert_eq!(config.untrusted_audience(), UntrustedAudience::Public);
    assert_eq!(config.untrusted_tools(), UntrustedTools::DenyAll);
    assert_eq!(UntrustedAudience::default(), UntrustedAudience::Public);
    assert_eq!(UntrustedTools::default(), UntrustedTools::DenyAll);
    assert_eq!(config.agent_id(), None);
    assert_eq!(config.resolve_model("c", "u"), Some("account-model"));
    assert_eq!(config.resolve_model_provider("c", "u"), None);
    assert_eq!(config.resolve_agent_id("c", "u"), None);
    assert!(config.sender_on_allowlist("alice"));
    assert!(!config.sender_on_allowlist("bob"));
    assert!(Plain { allowlist: Vec::new() }.sender_on_allowlist("bob"));
    assert!(sender_matches_allowlist("bob", &[]));
    assert!(!sender_matches_allowlist("bob", &list(&["alice"])));
}

#[test]
fn ceiling_falls_back_to_the_defaults() {
    let open = (UntrustedAudience::Trusted, UntrustedTools::Policy);
    assert_eq!(resolve_untrusted_ceiling(Some(open)), open);
    assert_eq!(
        resolve_untrusted_ceiling(None),
        (UntrustedAudience::Public, UntrustedTools::DenyAll)
    );
}

#[derive(Debug)]
struct Layered;

impl ChannelConfigView for Layered {
    type DmPolicy = ();
    type GroupPolicy = ();

    fn allowlist(&self) -> &[String] {
        &[]
    }

    fn group_allowlist(&self) -> &[String] {
        &[]
    }

    fn dm_policy(&self) {}

    fn group_policy(&self) {}

    fn model(&self) -> Option<&str> {
        Some("account")
    }

    fn model_provider(&self) -> Option<&str> {
        Some("account-provider")
    }

    fn agent_id(&self) -> Option<&str> {
        Some("account-agent")
    }

    fn channel_model(&self, channel_id: &str) -> Option<&str> {
        if channel_id == "c" { Some("channel") } else { None }
    }

    fn channel_model_provider(&self, channel_id: &str) -> Option<&str> {
        if channel_id == "c" { Some("channel-provider") } else { None }
    }

    fn user_model(&self, user_id: &str) -> Option<&str> {
        if user_id == "u" { Some("user") } else { None }
    }

    fn user_model_provider(&self, user_id: &str) -> Option<&str> {
        if user_id == "u" { Some("user-provider") } else { None }
    }

    fn channel_agent_id(&self, channel_id: &str) -> Option<&str> {
        if channel_id == "c" { Some("channel-agent") } else { None }
    }

    fn user_agent_id(&self, user_id: &str) -> Option<&str> {
        if user_id == "u" { Some("user-agent") } else { None }
    }
}

#[test]
fn user_wins_over_channel_over_account() {
    assert_eq!(Layered.resolve_model("c", "u"), Some("user"));
    assert_eq!(Layered.resolve_model("c", "x"), Some("channel"));
    assert_eq!(Layered.resolve_model("x", "x"), Some("account"));
    assert_eq!(Layered.resolve_model_provider("c", "u"), Some("user-provider"));
    assert_eq!(Layered.resolve_model_provider("c", "x"), Some("channel-provider"));
    assert_eq!(Layered.resolve_model_provider("x", "x"), Some("account-provider"));
    assert_eq!(Layered.resolve_agent_id("c", "u"), Some("user-agent"));
    assert_eq!(Layered.resolve_agent_id("c", "x"), Some("channel-agent"));
    assert_eq!(Layered.resolve_agent_id("x", "x"), Some("account-agent"));
}

#[derive(Debug)]
struct OtherModels;

impl ChannelConfigView for OtherModels {
    type DmPolicy = ();
    type GroupPolicy = ();

    fn allowlist(&self) -> &[String] {
        &[]
    }

    fn group_allowlist(&self) -> &[String] {
        &[]
    }

    fn dm_policy(&self) {}

    fn group_policy(&self) {}

    fn model(&self) -> Option<&str> {
        None
    }

    fn model_provider(&self) -> Option<&str> {
        Layered.model_provider()
    }

    fn channel_model_provider(&self, channel_id: &str) -> Option<&str> {
        Layered.channel_model_provider(channel_id)
    }

    fn user_model_provider(&self, user_id: &str) -> Option<&str> {
        Layered.user_model_provider(user_id)
    }
}

#[test]
fn provider_does_not_follow_the_model() {
    for channel in ["c", "x"] {
        for user in ["u", "x"] {
            assert_ne!(
                OtherModels.resolve_model(channel, user),
                Layered.resolve_model(channel, user)
            );
            assert_eq!(
                OtherModels.resolve_model_provider(channel, user),
                Layered.resolve_model_provider(channel, user)
            );
        }
    }
}
