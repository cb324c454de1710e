use channel_events::commands::{
    is_channel_control_command_name, parse_numbered_selection, rewrite_for_shell_mode,
    slash_command_name, ChannelError,
};

#[test]
fn slash_command_is_the_first_word() {
    assert_eq!(slash_command_name("/new"), Some("new"));
    assert_eq!(slash_command_name("  /model gpt"), Some("model"));
    assert_eq!(slash_command_name("/ new x"), Some("new"));
    assert_eq!(slash_command_name("//x y"), Some("/x"));
    assert_eq!(slash_command_name("/"), None);
    assert_eq!(slash_command_name("/  "), None);
    assert_eq!(slash_command_name("new"), None);
    assert_eq!(slash_command_name(""), None);
    assert_eq!(slash_command_name("a /new"), None);
}

#[test]
fn control_commands_are_these_sixteen() {
    for cmd in [
        "new", "clear", "compact", "context", "model", "sandbox", "sessions", "attach",
        "approvals", "approve", "deny", "agent", "help", "sh", "peek", "stop",
    ] {
        assert!(is_channel_control_command_name(cmd), "{}", cmd);
    }
    for cmd in ["", "New", "ne", "news", "update", "bash", "/new"] {
        assert!(!is_channel_control_command_name(cmd), "{}", cmd);
    }
}

#[test]
fn shell_mode_rewrites_what_is_not_a_control_command() {
    assert_eq!(rewrite_for_shell_mode(" ls -la \n"), Some("/sh ls -la".to_string()));
    assert_eq!(rewrite_for_shell_mode("/usr/bin/env"), Some("/sh /usr/bin/env".to_string()));
    assert_eq!(rewrite_for_shell_mode("/"), Some("/sh /".to_string()));
    assert_eq!(rewrite_for_shell_mode(" /new"), None);
    assert_eq!(rewrite_for_shell_mode("/sh ls"), None);
    assert_eq!(rewrite_for_shell_mode("  \t"), None);
    assert_eq!(rewrite_for_shell_mode(""), None);
}

#[test]
fn shell_mode_rewrites_once() {
    let once = rewrite_for_shell_mode("  pwd ").unwrap();
    assert_eq!(once, "/sh pwd");
    assert_eq!(rewrite_for_shell_mode(&once), None);
}

#[test]
fn numbered_selections() {
    assert!(matches!(parse_numbered_selection("3", "attach"), Ok(3)));
    assert!(matches!(parse_numbered_selection("+12", "attach"), Ok(12)));
    for arg in ["", "x", "3 ", "-1", "99999999999999999999999"] {
        match parse_numbered_selection(arg, "sessions") {
            Err(ChannelError::InvalidInput(usage)) => {
                assert_eq!(usage, "usage: /sessions [number]")
            },
            Ok(n) => panic!("{} read as {}", arg, n),
        }
    }
}
