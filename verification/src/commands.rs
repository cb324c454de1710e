//! Slash commands, the shell mode and numbered selections.

use vstd::prelude::*;
use crate::text;
use crate::text::{
    all_white, blank, spelled_number, trimmed, trimmed_start, up_to_space, white_space,
};

verus! {

/// Why a channel request was refused.
#[derive(Debug)]
pub enum ChannelError {
    InvalidInput(String),
}

/// The name of the command that a text is: a slash, then the first word.
pub open spec fn command_name(s: Seq<char>) -> Option<Seq<char>> {
    let t = trimmed_start(s);
    if t.len() > 0 && t[0] == '/' {
        let word = up_to_space(trimmed_start(t.drop_first()));
        if word.len() == 0 {
            None
        } else {
            Some(word)
        }
    } else {
        None
    }
}

/// The name of the slash command that a text is, if it is one.
pub fn slash_command_name(text: &str) -> (r: Option<&str>)
    ensures
        match r {
            Some(cmd) => command_name(text@) == Some(cmd@),
            None => command_name(text@) is None,
        },
{
    let trimmed = text::trim_start(text);
    let n: usize = trimmed.unicode_len();
    if n == 0 || trimmed.get_char(0) != '/' {
        return None;
    }
    let rest = trimmed.substring_char(1, n);
    proof {
        assert(rest@ =~= trimmed@.drop_first());
    }
    let cmd = text::head_word(text::trim_start(rest));
    if cmd.is_empty() {
        None
    } else {
        Some(cmd)
    }
}

/// The commands that control the channel itself.
pub open spec fn control_command(cmd: Seq<char>) -> bool {
    ||| cmd == "new"@
    ||| cmd == "clear"@
    ||| cmd == "compact"@
    ||| cmd == "context"@
    ||| cmd == "model"@
    ||| cmd == "sandbox"@
    ||| cmd == "sessions"@
    ||| cmd == "attach"@
    ||| cmd == "approvals"@
    ||| cmd == "approve"@
    ||| cmd == "deny"@
    ||| cmd == "agent"@
    ||| cmd == "help"@
    ||| cmd == "sh"@
    ||| cmd == "peek"@
    ||| cmd == "stop"@
}

/// Whether a command controls the channel itself.
pub fn is_channel_control_command_name(cmd: &str) -> (r: bool)
    ensures
        r == control_command(cmd@),
{
    text::same_text(cmd, "new") || text::same_text(cmd, "clear") || text::same_text(cmd, "compact")
        || text::same_text(cmd, "context") || text::same_text(cmd, "model") || text::same_text(
        cmd,
        "sandbox",
    ) || text::same_text(cmd, "sessions") || text::same_text(cmd, "attach") || text::same_text(
        cmd,
        "approvals",
    ) || text::same_text(cmd, "approve") || text::same_text(cmd, "deny") || text::same_text(
        cmd,
        "agent",
    ) || text::same_text(cmd, "help") || text::same_text(cmd, "sh") || text::same_text(cmd, "peek")
        || text::same_text(cmd, "stop")
}

/// What a text becomes in shell mode: a shell command, unless it is blank or controls the
/// channel.
pub open spec fn shell_rewrite(s: Seq<char>) -> Option<Seq<char>> {
    if blank(s) {
        None
    } else if command_name(trimmed(s)) is Some && control_command(command_name(trimmed(s))->0) {
        None
    } else {
        Some("/sh "@ + trimmed(s))
    }
}

/// What shell mode makes of a text; `None` where it leaves the text alone.
pub fn rewrite_for_shell_mode(text: &str) -> (r: Option<String>)
    ensures
        match r {
            Some(rewritten) => shell_rewrite(text@) == Some(rewritten@),
            None => shell_rewrite(text@) is None,
        },
{
    let trimmed = text::trim(text);
    if trimmed.is_empty() {
        return None;
    }
    if let Some(cmd) = slash_command_name(trimmed) {
        if is_channel_control_command_name(cmd) {
            return None;
        }
    }
    Some(text::joined("/sh ", trimmed))
}

/// The usage note of a command that takes a number.
pub open spec fn number_usage(command_name: Seq<char>) -> Seq<char> {
    "usage: /"@ + command_name + " [number]"@
}

/// The number that a command was given, or how the command is used.
pub fn parse_numbered_selection(arg: &str, command_name: &str) -> (r: Result<usize, ChannelError>)
    ensures
        match r {
            Ok(n) => spelled_number(arg@) == Some(n as nat),
            Err(ChannelError::InvalidInput(message)) => {
                &&& message@ == number_usage(command_name@)
                &&& spelled_number(arg@) is None || spelled_number(arg@)->0 > usize::MAX
            },
        },
{
    match text::parse_number(arg) {
        Some(n) => Ok(n),
        None => {
            let usage = text::joined("usage: /", command_name).concat(" [number]");
            Err(ChannelError::InvalidInput(usage))
        },
    }
}

/// Shell mode rewrites a text once: what it makes of a text is itself a command that it
/// leaves alone.
pub proof fn shell_rewrite_is_final(s: Seq<char>)
    requires
        shell_rewrite(s) is Some,
    ensures
        shell_rewrite(shell_rewrite(s)->0) is None,
{
    let t = trimmed(s);
    let r = "/sh "@ + t;
    reveal_strlit("/sh ");
    reveal_strlit("sh");
    text::trimming_is_final(s);
    assert(r.last() == t.last());
    assert(trimmed_start(r) == r);
    assert(trimmed(r) == r);
    let rest = r.drop_first();
    assert(rest[0] == 's');
    assert(trimmed_start(rest) == rest);
    assert(up_to_space(rest) =~= "sh"@) by {
        let rest1 = rest.drop_first();
        let rest2 = rest1.drop_first();
        assert(rest2[0] == ' ');
        assert(up_to_space(rest2) =~= Seq::<char>::empty());
        assert(up_to_space(rest1) =~= seq!['h']);
    }
}

/// Shell mode keeps the text: what it runs is the text without the white space around it.
pub proof fn shell_rewrite_keeps_the_text(s: Seq<char>)
    requires
        shell_rewrite(s) is Some,
    ensures
        shell_rewrite(s)->0.skip(4) == trimmed(s),
        shell_rewrite(s)->0.take(4) == "/sh "@,
{
    reveal_strlit("/sh ");
    assert(("/sh "@ + trimmed(s)).skip(4) =~= trimmed(s));
    assert(("/sh "@ + trimmed(s)).take(4) =~= "/sh "@);
}

/// A word without white space.
pub open spec fn is_word(s: Seq<char>) -> bool {
    s.len() > 0 && forall|i: int| 0 <= i < s.len() ==> !white_space(#[trigger] s[i])
}

/// A slash with white space around it or not, then a word, then nothing or white space and
/// anything, is the command of that name.
pub proof fn commands_are_named_by_their_first_word(
    lead: Seq<char>,
    gap: Seq<char>,
    word: Seq<char>,
    rest: Seq<char>,
)
    requires
        all_white(lead),
        all_white(gap),
        is_word(word),
        rest.len() > 0 ==> white_space(rest[0]),
    ensures
        command_name(lead + seq!['/'] + gap + word + rest) == Some(word),
{
    let s = lead + seq!['/'] + gap + word + rest;
    let t = seq!['/'] + gap + word + rest;
    lemma_trimmed_start_of(lead, t);
    assert(lead + t =~= s);
    assert(t.drop_first() =~= gap + (word + rest));
    assert((word + rest)[0] == word[0]);
    lemma_trimmed_start_of(gap, word + rest);
    text::first_word_ends_at_white_space(word, rest);
}

proof fn lemma_trimmed_start_of(lead: Seq<char>, rest: Seq<char>)
    requires
        all_white(lead),
        rest.len() > 0 ==> !white_space(rest[0]),
    ensures
        trimmed_start(lead + rest) == rest,
    decreases lead.len(),
{
    if lead.len() > 0 {
        let fewer = lead.drop_first();
        assert(white_space(lead[0]));
        assert forall|i: int| 0 <= i < fewer.len() implies white_space(#[trigger] fewer[i]) by {
            assert(fewer[i] == lead[i + 1]);
        }
        lemma_trimmed_start_of(fewer, rest);
        assert((lead + rest).drop_first() =~= fewer + rest);
        assert((lead + rest)[0] == lead[0]);
    } else {
        assert(lead + rest =~= rest);
    }
}

/// A text without a slash at its start, and a slash without a word, is no command.
pub proof fn other_texts_are_no_commands(
    lead: Seq<char>,
    c: char,
    rest: Seq<char>,
    gap: Seq<char>,
)
    requires
        all_white(lead),
        !white_space(c) && c != '/',
        all_white(gap),
    ensures
        command_name(lead) is None,
        command_name(lead + seq![c] + rest) is None,
        command_name(lead + seq!['/'] + gap) is None,
{
    let none = Seq::<char>::empty();
    lemma_trimmed_start_of(lead, none);
    assert(lead + none =~= lead);
    lemma_trimmed_start_of(lead, seq![c] + rest);
    assert(lead + (seq![c] + rest) =~= lead + seq![c] + rest);
    lemma_trimmed_start_of(lead, seq!['/'] + gap);
    assert(lead + (seq!['/'] + gap) =~= lead + seq!['/'] + gap);
    assert((seq!['/'] + gap).drop_first() =~= gap);
    lemma_trimmed_start_of(gap, none);
    assert(gap + none =~= gap);
}

proof fn lemma_command_of_trimmed(s: Seq<char>)
    ensures
        command_name(trimmed(s)) == command_name(s),
{
    let core = trimmed(s);
    let (lead, tail) = text::trimming_takes_only_white_space(s);
    let none = Seq::<char>::empty();
    if core.len() == 0 {
        assert(core =~= none);
        text::trimming_leaves_the_text(lead, none, tail);
    } else {
        text::trimming_leaves_the_text(lead, core, tail);
        assert(trimmed_start(core) == core);
        let inner = core.drop_first();
        assert((core + tail).drop_first() =~= inner + tail);
        if inner.len() == 0 {
            lemma_trimmed_start_of(tail, none);
            assert(tail + none =~= tail);
            assert(inner + tail =~= tail);
            assert(inner =~= none);
        } else {
            lemma_gap(inner, tail);
            let after = trimmed_start(inner);
            lemma_word_before(after, tail);
        }
    }
}

proof fn lemma_gap(inner: Seq<char>, tail: Seq<char>) 
    requires
        inner.len() > 0,
        !white_space(inner.last()),
    ensures
        trimmed_start(inner + tail) == trimmed_start(inner) + tail,
    decreases inner.len(),
{
    if white_space(inner[0]) {
        assert((inner + tail).drop_first() =~= inner.drop_first() + tail);
        assert(inner.drop_first().last() == inner.last());
        lemma_gap(inner.drop_first(), tail);
    }
}

proof fn lemma_word_before(s: Seq<char>, tail: Seq<char>)
    requires
        all_white(tail),
    ensures
        up_to_space(s + tail) == up_to_space(s),
    decreases s.len(),
{
    if s.len() > 0 && !white_space(s[0]) {
        assert((s + tail).drop_first() =~= s.drop_first() + tail);
        lemma_word_before(s.drop_first(), tail);
    } else if s.len() == 0 {
        assert(s + tail =~= tail);
        if tail.len() > 0 {
            assert(white_space(tail[0]));
        }
    }
}

/// Shell mode leaves every control command alone, whatever its arguments and whatever white
/// space stands around it.
pub proof fn shell_mode_leaves_control_commands_alone(
    lead: Seq<char>,
    gap: Seq<char>,
    name: Seq<char>,
    rest: Seq<char>,
    text: &str,
    r: Option<String>,
)
    requires
        all_white(lead),
        all_white(gap),
        rest.len() > 0 ==> white_space(rest[0]),
        control_command(name),
        text@ == lead + seq!['/'] + gap + name + rest,
        call_ensures(rewrite_for_shell_mode, (text,), r),
    ensures
        r is None,
{
    lemma_control_words(name);
    commands_are_named_by_their_first_word(lead, gap, name, rest);
    lemma_command_of_trimmed(text@);
}

proof fn lemma_control_words(name: Seq<char>)
    requires
        control_command(name),
    ensures
        is_word(name),
{
    reveal_strlit("new");
    reveal_strlit("clear");
    reveal_strlit("compact");
    reveal_strlit("context");
    reveal_strlit("model");
    reveal_strlit("sandbox");
    reveal_strlit("sessions");
    reveal_strlit("attach");
    reveal_strlit("approvals");
    reveal_strlit("approve");
    reveal_strlit("deny");
    reveal_strlit("agent");
    reveal_strlit("help");
    reveal_strlit("sh");
    reveal_strlit("peek");
    reveal_strlit("stop");
}

/// Shell mode runs every other text that is not blank: a text that is no command, or a
/// command by another name. What it runs is the text without the white space around it.
pub proof fn shell_mode_runs_everything_else(text: &str, r: Option<String>)
    requires
        !blank(text@),
        match command_name(text@) {
            Some(name) => !control_command(name),
            None => true,
        },
        call_ensures(rewrite_for_shell_mode, (text,), r),
    ensures
        r is Some,
        r->0@ == "/sh "@ + trimmed(text@),
{
    lemma_command_of_trimmed(text@);
}

/// Shell mode leaves a blank text alone.
pub proof fn shell_mode_leaves_blank_texts_alone(text: &str, r: Option<String>)
    requires
        all_white(text@),
        call_ensures(rewrite_for_shell_mode, (text,), r),
    ensures
        r is None,
{
    text::blank_means_white_space(text@);
}

/// The commands that control the channel are these, and no others.
pub proof fn control_commands_are_these(name: Seq<char>)
    ensures
        control_command(name) <==> name == "new"@ || name == "clear"@ || name == "compact"@ || name
            == "context"@ || name == "model"@ || name == "sandbox"@ || name == "sessions"@ || name
            == "attach"@ || name == "approvals"@ || name == "approve"@ || name == "deny"@ || name
            == "agent"@ || name == "help"@ || name == "sh"@ || name == "peek"@ || name == "stop"@,
{
}

/// The usage note names the command: nothing of it is left out, and nothing else changes.
pub proof fn usage_names_the_command(name: Seq<char>)
    ensures
        number_usage(name).len() == 17 + name.len(),
        number_usage(name).take(8) == "usage: /"@,
        number_usage(name).subrange(8, (8 + name.len()) as int) == name,
        number_usage(name).skip((8 + name.len()) as int) == " [number]"@,
{
    reveal_strlit("usage: /");
    reveal_strlit(" [number]");
    assert(number_usage(name).take(8) =~= "usage: /"@);
    assert(number_usage(name).subrange(8, (8 + name.len()) as int) =~= name);
    assert(number_usage(name).skip((8 + name.len()) as int) =~= " [number]"@);
}

/// A selection is the number that the argument spells, in digits with or without a plus
/// sign before them; any other argument, and a number that does not fit, gets the usage
/// note.
pub proof fn selections_are_the_numbers_given(
    arg: &str,
    command_name: &str,
    r: Result<usize, ChannelError>,
)
    requires
        call_ensures(parse_numbered_selection, (arg, command_name), r),
    ensures
        match r {
            Ok(n) => spelled_number(arg@) == Some(n as nat),
            Err(ChannelError::InvalidInput(note)) => note@ == number_usage(command_name@)
                && forall|n: usize| spelled_number(arg@) != Some(n as nat),
        },
{
}

} // verus!
