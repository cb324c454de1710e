use channel_events::commands::parse_numbered_selection;
use channel_events::listing::{
    format_attachable_sessions_list, format_channel_sessions_list, format_pending_approvals_list,
    is_attachable_session, session_list_label, PendingApprovalView, SessionEntry,
};

fn entry(key: &str, label: Option<&str>, message_count: u64, archived: bool) -> SessionEntry {
    SessionEntry {
        key: key.to_string(),
        label: label.map(str::to_string),
        message_count,
        archived,
    }
}

#[test]
fn archived_and_cron_sessions_stay_where_they_are() {
    assert!(is_attachable_session(&entry("main", None, 0, false)));
    assert!(!is_attachable_session(&entry("main", None, 0, true)));
    assert!(!is_attachable_session(&entry("cron:daily", None, 0, false)));
    assert!(is_attachable_session(&entry("cron", None, 0, false)));
    assert!(is_attachable_session(&entry("", None, 0, false)));
}

#[test]
fn label_falls_back_to_the_key() {
    assert_eq!(session_list_label(&entry("k", Some("Label"), 0, false)), "Label");
    assert_eq!(session_list_label(&entry("k", None, 0, false)), "k");
}

#[test]
fn session_list_marks_the_current_one() {
    let sessions = [entry("a", Some("First"), 3, false), entry("b", None, 12, false)];
    assert_eq!(
        format_channel_sessions_list(&sessions, "b"),
        "1. First (3 msgs)\n2. b (12 msgs) *\n\nUse /sessions N to switch."
    );
    assert_eq!(format_channel_sessions_list(&[], "b"), "\nUse /sessions N to switch.");
}

#[test]
fn attachable_list_shows_keys_behind_labels() {
    let sessions = [entry("a", Some("First"), 3, false), entry("b", None, 0, false)];
    assert_eq!(
        format_attachable_sessions_list(&sessions, "a"),
        "1. First [a] (3 msgs) *\n2. b (0 msgs)\n\nUse /attach N to move an existing session to \
this chat. This rebinds it from any previous channel chat."
    );
}

#[test]
fn approvals_are_numbered() {
    let requests = [
        PendingApprovalView { preview: "ls".to_string() },
        PendingApprovalView { preview: "rm -r x".to_string() },
    ];
    assert_eq!(
        format_pending_approvals_list(&requests),
        "1. `ls`\n2. `rm -r x`\n\nUse /approve N or /deny N."
    );
}

#[test]
fn listed_numbers_can_be_given_back() {
    let sessions: Vec<SessionEntry> =
        (0..25).map(|i| entry(&format!("s{}", i), None, i, false)).collect();
    let list = format_channel_sessions_list(&sessions, "");
    for (i, line) in list.lines().take(25).enumerate() {
        let number = line.split('.').next().unwrap();
        assert!(matches!(parse_numbered_selection(number, "sessions"), Ok(n) if n == i + 1));
    }
}
