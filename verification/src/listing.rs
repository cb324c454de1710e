//! Lists that a channel user picks from by number.

use vstd::prelude::*;
use crate::target::opt_text;
use crate::text;
use crate::text::{decimal, spelled_number};

verus! {

/// What the lists read of a stored session.
pub struct SessionEntry {
    pub key: String,
    pub label: Option<String>,
    pub message_count: u64,
    pub archived: bool,
}

/// What the list of approvals reads of a pending request.
pub struct PendingApprovalView {
    /// The command, cut to the length of a preview.
    pub preview: String,
}

/// Whether a session can be moved to a chat: it is not archived and no cron job owns it.
pub fn is_attachable_session(entry: &SessionEntry) -> (r: bool)
    ensures
        r == (!entry.archived && !"cron:"@.is_prefix_of(entry.key@)),
{
    !entry.archived && !text::begins_with(entry.key.as_str(), "cron:")
}

impl SessionEntry {
    /// The label of a session in a list: its own label, or else its key.
    pub open spec fn list_label(self) -> Seq<char> {
        match opt_text(self.label) {
            Some(label) => label,
            None => self.key@,
        }
    }
}

/// The label of a session in a list.
pub fn session_list_label(entry: &SessionEntry) -> (r: &str)
    ensures
        r@ == entry.list_label(),
{
    match &entry.label {
        Some(label) => label.as_str(),
        None => entry.key.as_str(),
    }
}

/// The mark of the session that the chat is on.
pub open spec fn current_mark(entry: SessionEntry, current: Seq<char>) -> Seq<char> {
    if entry.key@ == current {
        " *"@
    } else {
        ""@
    }
}

/// The mark of the session that the chat is on.
fn mark_of(entry: &SessionEntry, current: &str) -> (r: &'static str)
    ensures
        r@ == current_mark(*entry, current@),
{
    if text::same_text(entry.key.as_str(), current) {
        " *"
    } else {
        ""
    }
}

/// The first `n` lines, each ended by a line break.
pub open spec fn lines_up_to(line: spec_fn(int) -> Seq<char>, n: nat) -> Seq<char>
    decreases n,
{
    if n == 0 {
        Seq::empty()
    } else {
        lines_up_to(line, (n - 1) as nat) + line(n - 1) + "\n"@
    }
}

/// `1. label (3 msgs)`, with the mark of the current session.
pub open spec fn session_lines(sessions: Seq<SessionEntry>, current: Seq<char>) -> spec_fn(
    int,
) -> Seq<char> {
    |i: int|
        decimal((i + 1) as nat) + ". "@ + sessions[i].list_label() + " ("@ + decimal(
            sessions[i].message_count as nat,
        ) + " msgs)"@ + current_mark(sessions[i], current)
}

/// The sessions of a chat, to switch to.
pub fn format_channel_sessions_list(sessions: &[SessionEntry], current_session_key: &str) -> (r:
    String)
    ensures
        r@ == lines_up_to(session_lines(sessions@, current_session_key@), sessions@.len())
            + "\nUse /sessions N to switch."@,
{
    let mut out = String::new();
    let mut i: usize = 0;
    while i < sessions.len()
        invariant
            i <= sessions@.len(),
            out@ == lines_up_to(session_lines(sessions@, current_session_key@), i as nat),
        decreases sessions@.len() - i,
    {
        let session = &sessions[i];
        let mut line = text::decimal_text((i + 1) as u64);
        line.append(". ");
        line.append(session_list_label(session));
        line.append(" (");
        line.append(text::decimal_text(session.message_count).as_str());
        line.append(" msgs)");
        line.append(mark_of(session, current_session_key));
        assert(line@ == session_lines(sessions@, current_session_key@)(i as int));
        out.append(line.as_str());
        out.append("\n");
        i = i + 1;
    }
    out.append("\nUse /sessions N to switch.");
    out
}

/// The key of a session in brackets, where its label does not show it.
pub open spec fn key_suffix(entry: SessionEntry) -> Seq<char> {
    if entry.list_label() == entry.key@ {
        Seq::empty()
    } else {
        " ["@ + entry.key@ + "]"@
    }
}

/// `1. label [key] (3 msgs)`, with the mark of the current session.
pub open spec fn attachable_lines(sessions: Seq<SessionEntry>, current: Seq<char>) -> spec_fn(
    int,
) -> Seq<char> {
    |i: int|
        decimal((i + 1) as nat) + ". "@ + sessions[i].list_label() + key_suffix(sessions[i]) + " ("@
            + decimal(sessions[i].message_count as nat) + " msgs)"@ + current_mark(
            sessions[i],
            current,
        )
}

/// What the list of attachable sessions ends with.
pub const ATTACH_NOTE: &'static str = "\nUse /attach N to move an existing session to this chat. This rebinds it from any previous channel chat.";

/// The sessions that can be moved to a chat.
pub fn format_attachable_sessions_list(sessions: &[SessionEntry], current_session_key: &str) -> (r:
    String)
    ensures
        r@ == lines_up_to(attachable_lines(sessions@, current_session_key@), sessions@.len())
            + ATTACH_NOTE@,
{
    let mut out = String::new();
    let mut i: usize = 0;
    while i < sessions.len()
        invariant
            i <= sessions@.len(),
            out@ == lines_up_to(attachable_lines(sessions@, current_session_key@), i as nat),
        decreases sessions@.len() - i,
    {
        let session = &sessions[i];
        let label = session_list_label(session);
        let mut line = text::decimal_text((i + 1) as u64);
        line.append(". ");
        line.append(label);
        let ghost labelled = line@;
        if !text::same_text(label, session.key.as_str()) {
            line.append(" [");
            line.append(session.key.as_str());
            line.append("]");
        }
        assert(line@ =~= labelled + key_suffix(*session));
        line.append(" (");
        line.append(text::decimal_text(session.message_count).as_str());
        line.append(" msgs)");
        line.append(mark_of(session, current_session_key));
        assert(line@ == attachable_lines(sessions@, current_session_key@)(i as int));
        out.append(line.as_str());
        out.append("\n");
        i = i + 1;
    }
    out.append(ATTACH_NOTE);
    out
}

/// `1.` and the preview in backquotes.
pub open spec fn approval_lines(requests: Seq<PendingApprovalView>) -> spec_fn(int) -> Seq<char> {
    |i: int| decimal((i + 1) as nat) + ". `"@ + requests[i].preview@ + "`"@
}

/// The commands that wait for approval.
pub fn format_pending_approvals_list(requests: &[PendingApprovalView]) -> (r: String)
    ensures
        r@ == lines_up_to(approval_lines(requests@), requests@.len())
            + "\nUse /approve N or /deny N."@,
{
    let mut out = String::new();
    let mut i: usize = 0;
    while i < requests.len()
        invariant
            i <= requests@.len(),
            out@ == lines_up_to(approval_lines(requests@), i as nat),
        decreases requests@.len() - i,
    {
        let mut line = text::decimal_text((i + 1) as u64);
        line.append(". `");
        line.append(requests[i].preview.as_str());
        line.append("`");
        assert(line@ == approval_lines(requests@)(i as int));
        out.append(line.as_str());
        out.append("\n");
        i = i + 1;
    }
    out.append("\nUse /approve N or /deny N.");
    out
}

/// A line that starts with the number `n` and a full stop.
pub open spec fn numbered(line: Seq<char>, n: nat) -> bool {
    (decimal(n) + "."@).is_prefix_of(line)
}

/// In every list the line at index `i` is numbered `i + 1`, and that number, given back as
/// it is written there, is read as `i + 1`.
pub proof fn listed_numbers_select_their_line(
    sessions: Seq<SessionEntry>,
    current: Seq<char>,
    requests: Seq<PendingApprovalView>,
    i: nat,
)
    ensures
        numbered(session_lines(sessions, current)(i as int), i + 1),
        numbered(attachable_lines(sessions, current)(i as int), i + 1),
        numbered(approval_lines(requests)(i as int), i + 1),
        spelled_number(decimal(i + 1)) == Some(i + 1),
{
    reveal_strlit(".");
    reveal_strlit(". ");
    reveal_strlit(". `");
    text::decimal_round_trip(i + 1);
}

/// How a session is called in a list: by its label where it has one, else by its key.
pub proof fn sessions_are_listed_by_their_label(entry: &SessionEntry, r: &str)
    requires
        call_ensures(session_list_label, (entry,), r),
    ensures
        entry.label is Some ==> r@ == entry.label->0@,
        entry.label is None ==> r@ == entry.key@,
        entry.list_label() == r@,
{
}

/// Of every list of sessions the line at index `i` shows the number `i + 1`, the session's
/// label, or else its key, and how many messages it has, whether or not it is the current
/// session; the current one is marked, and no other.
pub proof fn session_lines_show_their_session(
    sessions: Seq<SessionEntry>,
    current: Seq<char>,
    i: int,
    name: Seq<char>,
)
    requires
        0 <= i < sessions.len(),
        match sessions[i].label {
            Some(label) => name == label@,
            None => name == sessions[i].key@,
        },
    ensures
        ({
            let line = session_lines(sessions, current)(i);
            let shown = decimal((i + 1) as nat) + ". "@ + name + " ("@;
            let counted = shown + decimal(sessions[i].message_count as nat) + " msgs)"@;
            &&& shown.is_prefix_of(line)
            &&& counted.is_prefix_of(line)
            &&& sessions[i].key@ == current ==> line.skip(counted.len() as int) == " *"@
            &&& sessions[i].key@ != current ==> line.len() == counted.len()
        }),
{
    reveal_strlit("");
    let line = session_lines(sessions, current)(i);
    let counted = decimal((i + 1) as nat) + ". "@ + name + " ("@ + decimal(
        sessions[i].message_count as nat,
    ) + " msgs)"@;
    if sessions[i].key@ == current {
        assert(line.skip(counted.len() as int) =~= " *"@);
    }
}

/// Of every list of attachable sessions the line at index `i` shows the number `i + 1`, the
/// session's label, or else its key, the key in brackets where the label is another text,
/// and how many messages it has; the current session is marked, and no other.
pub proof fn attachable_lines_show_their_session(
    sessions: Seq<SessionEntry>,
    current: Seq<char>,
    i: int,
    name: Seq<char>,
)
    requires
        0 <= i < sessions.len(),
        match sessions[i].label {
            Some(label) => name == label@,
            None => name == sessions[i].key@,
        },
    ensures
        ({
            let line = attachable_lines(sessions, current)(i);
            let named = decimal((i + 1) as nat) + ". "@ + name;
            let keyed = named + " ["@ + sessions[i].key@ + "]"@;
            let counted = " ("@ + decimal(sessions[i].message_count as nat) + " msgs)"@;
            let shown = if name == sessions[i].key@ {
                named + counted
            } else {
                keyed + counted
            };
            &&& shown.is_prefix_of(line)
            &&& sessions[i].key@ == current ==> line.skip(shown.len() as int) == " *"@
            &&& sessions[i].key@ != current ==> line.len() == shown.len()
        }),
{
    reveal_strlit("");
    let line = attachable_lines(sessions, current)(i);
    let named = decimal((i + 1) as nat) + ". "@ + name;
    let keyed = named + " ["@ + sessions[i].key@ + "]"@;
    let counted = " ("@ + decimal(sessions[i].message_count as nat) + " msgs)"@;
    let shown = if name == sessions[i].key@ {
        named + counted
    } else {
        keyed + counted
    };
    let mark = current_mark(sessions[i], current);
    assert(line =~= shown + mark);
    assert((shown + mark).skip(shown.len() as int) =~= mark);
}

/// Of every list of approvals the line at index `i` shows the number `i + 1` and the preview
/// of the request there.
pub proof fn approval_lines_show_their_request(requests: Seq<PendingApprovalView>, i: int)
    requires
        0 <= i < requests.len(),
    ensures
        ({
            let line = approval_lines(requests)(i);
            let number = decimal((i + 1) as nat) + ". `"@;
            &&& number.is_prefix_of(line)
            &&& line.skip(number.len() as int) == requests[i].preview@ + "`"@
        }),
{
    let line = approval_lines(requests)(i);
    let number = decimal((i + 1) as nat) + ". `"@;
    assert(line.skip(number.len() as int) =~= requests[i].preview@ + "`"@);
}

/// A list holds all of its lines, in order, each with one line break after it, and nothing
/// else: the line at index `i` stands right behind those before it.
pub proof fn lists_hold_their_lines_in_order(line: spec_fn(int) -> Seq<char>, n: nat, i: nat)
    requires
        i < n,
    ensures
        lines_up_to(line, 0).len() == 0,
        lines_up_to(line, i + 1).len() == lines_up_to(line, i).len() + line(i as int).len() + 1,
        lines_up_to(line, i).is_prefix_of(lines_up_to(line, n)),
        lines_up_to(line, n).skip(lines_up_to(line, i).len() as int).take(
            line(i as int).len() as int,
        ) == line(i as int),
        lines_up_to(line, n)[(lines_up_to(line, i).len() + line(i as int).len()) as int] == '\n',
    decreases n,
{
    reveal_strlit("\n");
    let all = lines_up_to(line, n);
    let start = lines_up_to(line, i);
    if i + 1 == n {
        assert(all.skip(start.len() as int).take(line(i as int).len() as int) =~= line(i as int));
    } else {
        let fewer = lines_up_to(line, (n - 1) as nat);
        lists_hold_their_lines_in_order(line, (n - 1) as nat, i);
        lemma_lines_grow(line, i + 1, (n - 1) as nat);
        assert(fewer.is_prefix_of(all));
        assert(start.is_prefix_of(all));
        assert(all.skip(start.len() as int).take(line(i as int).len() as int) =~= fewer.skip(
            start.len() as int,
        ).take(line(i as int).len() as int));
    }
}

proof fn lemma_lines_grow(line: spec_fn(int) -> Seq<char>, few: nat, many: nat)
    requires
        few <= many,
    ensures
        lines_up_to(line, few).len() <= lines_up_to(line, many).len(),
    decreases many,
{
    if few < many {
        lemma_lines_grow(line, few, (many - 1) as nat);
    }
}

/// What a chat user is shown of its sessions is the lines and the note on how to switch.
pub proof fn session_lists_are_their_lines(
    sessions: &[SessionEntry],
    current_session_key: &str,
    r: String,
)
    requires
        call_ensures(format_channel_sessions_list, (sessions, current_session_key), r),
    ensures
        ({
            let lines = lines_up_to(
                session_lines(sessions@, current_session_key@),
                sessions@.len(),
            );
            lines.is_prefix_of(r@) && r@.skip(lines.len() as int) == "\nUse /sessions N to switch."@
        }),
{
    let lines = lines_up_to(session_lines(sessions@, current_session_key@), sessions@.len());
    assert(r@.skip(lines.len() as int) =~= "\nUse /sessions N to switch."@);
}

/// What a chat user is shown of the sessions that can be moved there is the lines and the
/// note on how to move one.
pub proof fn attachable_lists_are_their_lines(
    sessions: &[SessionEntry],
    current_session_key: &str,
    r: String,
)
    requires
        call_ensures(format_attachable_sessions_list, (sessions, current_session_key), r),
    ensures
        ({
            let lines = lines_up_to(
                attachable_lines(sessions@, current_session_key@),
                sessions@.len(),
            );
            lines.is_prefix_of(r@) && r@.skip(lines.len() as int) == ATTACH_NOTE@
        }),
{
    let lines = lines_up_to(attachable_lines(sessions@, current_session_key@), sessions@.len());
    assert(r@.skip(lines.len() as int) =~= ATTACH_NOTE@);
}

/// What a chat user is shown of the pending approvals is the lines and the note on how to
/// answer.
pub proof fn approval_lists_are_their_lines(requests: &[PendingApprovalView], r: String)
    requires
        call_ensures(format_pending_approvals_list, (requests,), r),
    ensures
        ({
            let lines = lines_up_to(approval_lines(requests@), requests@.len());
            lines.is_prefix_of(r@) && r@.skip(lines.len() as int) == "\nUse /approve N or /deny N."@
        }),
{
    let lines = lines_up_to(approval_lines(requests@), requests@.len());
    assert(r@.skip(lines.len() as int) =~= "\nUse /approve N or /deny N."@);
}

/// A session can be moved unless it is archived or its key starts with `cron:`.
pub proof fn archived_and_cron_sessions_stay(entry: &SessionEntry, rest: Seq<char>, r: bool)
    requires
        call_ensures(is_attachable_session, (entry,), r),
    ensures
        entry.archived ==> !r,
        entry.key@ == "cron:"@ + rest ==> !r,
        !entry.archived && (entry.key@.len() < 5 || entry.key@.take(5) != "cron:"@) ==> r,
{
    reveal_strlit("cron:");
    if !entry.archived && "cron:"@.is_prefix_of(entry.key@) {
        assert(entry.key@.take(5) =~= "cron:"@);
    }
}

} // verus!
