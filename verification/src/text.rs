//! Text: white space, words, decimal numbers, and the few string operations that the
//! other modules build their messages with.

use vstd::prelude::*;

verus! {

/// The characters with the Unicode property `White_Space`.
pub open spec fn white_space(c: char) -> bool {
    ||| '\u{9}' <= c <= '\u{d}'
    ||| c == '\u{20}'
    ||| c == '\u{85}'
    ||| c == '\u{a0}'
    ||| c == '\u{1680}'
    ||| '\u{2000}' <= c <= '\u{200a}'
    ||| c == '\u{2028}'
    ||| c == '\u{2029}'
    ||| c == '\u{202f}'
    ||| c == '\u{205f}'
    ||| c == '\u{3000}'
}

/// `char::is_whitespace`: whether the character has the property `White_Space` of the
/// Unicode Character Database.
pub assume_specification[ char::is_whitespace ](c: char) -> (r: bool)
    ensures
        r == white_space(c),
;

/// Whether two texts are the same characters in the same order.
pub(crate) fn same_text(a: &str, b: &str) -> (r: bool)
    ensures
        r == (a@ == b@),
{
    a.to_owned() == b.to_owned()
}

/// The text without its leading white space.
pub open spec fn trimmed_start(s: Seq<char>) -> Seq<char>
    decreases s.len(),
{
    if s.len() > 0 && white_space(s[0]) {
        trimmed_start(s.drop_first())
    } else {
        s
    }
}

/// The text without its trailing white space.
pub open spec fn trimmed_end(s: Seq<char>) -> Seq<char>
    decreases s.len(),
{
    if s.len() > 0 && white_space(s.last()) {
        trimmed_end(s.drop_last())
    } else {
        s
    }
}

/// The text without white space at either end.
pub open spec fn trimmed(s: Seq<char>) -> Seq<char> {
    trimmed_end(trimmed_start(s))
}

/// Nothing but white space.
pub open spec fn blank(s: Seq<char>) -> bool {
    trimmed(s).len() == 0
}

/// What stands before the first white space.
pub open spec fn up_to_space(s: Seq<char>) -> Seq<char>
    decreases s.len(),
{
    if s.len() == 0 || white_space(s[0]) {
        Seq::empty()
    } else {
        seq![s[0]] + up_to_space(s.drop_first())
    }
}

proof fn lemma_trimmed_start_at(s: Seq<char>, k: int)
    requires
        0 <= k <= s.len(),
        forall|i: int| 0 <= i < k ==> white_space(#[trigger] s[i]),
        k < s.len() ==> !white_space(s[k]),
    ensures
        trimmed_start(s) == s.skip(k),
    decreases k,
{
    if k > 0 {
        let rest = s.drop_first();
        assert forall|i: int| 0 <= i < k - 1 implies white_space(#[trigger] rest[i]) by {
            assert(rest[i] == s[i + 1]);
        }
        lemma_trimmed_start_at(rest, k - 1);
        assert(rest.skip(k - 1) =~= s.skip(k));
    } else {
        assert(s.skip(0) =~= s);
    }
}

proof fn lemma_trimmed_end_at(s: Seq<char>, k: int)
    requires
        0 <= k <= s.len(),
        forall|i: int| k <= i < s.len() ==> white_space(#[trigger] s[i]),
        k > 0 ==> !white_space(s[k - 1]),
    ensures
        trimmed_end(s) == s.take(k),
    decreases s.len() - k,
{
    if k < s.len() {
        assert(white_space(s[s.len() - 1]));
        lemma_trimmed_end_at(s.drop_last(), k);
        assert(s.drop_last().take(k) =~= s.take(k));
    } else {
        assert(s.take(k) =~= s);
    }
}

proof fn lemma_up_to_space_at(s: Seq<char>, k: int)
    requires
        0 <= k <= s.len(),
        forall|i: int| 0 <= i < k ==> !white_space(#[trigger] s[i]),
        k < s.len() ==> white_space(s[k]),
    ensures
        up_to_space(s) == s.take(k),
    decreases k,
{
    if k > 0 {
        let rest = s.drop_first();
        assert forall|i: int| 0 <= i < k - 1 implies !white_space(#[trigger] rest[i]) by {
            assert(rest[i] == s[i + 1]);
        }
        lemma_up_to_space_at(rest, k - 1);
        assert(s.take(k) =~= seq![s[0]] + rest.take(k - 1));
    } else {
        assert(s.take(0) =~= Seq::empty());
    }
}

/// The text without its leading white space.
pub fn trim_start(s: &str) -> (r: &str)
    ensures
        r@ == trimmed_start(s@),
{
    let n: usize = s.unicode_len();
    let mut start: usize = 0;
    let mut found: bool = false;
    for c in it: s.chars()
        invariant
            it.seq() == s@,
            n == s@.len(),
            start <= n,
            !found ==> start == it.index(),
            found ==> start < it.index() && !white_space(s@[start as int]),
            forall|i: int| 0 <= i < start ==> white_space(#[trigger] s@[i]),
    {
        if !found {
            if c.is_whitespace() {
                start = start + 1;
            } else {
                found = true;
            }
        }
    }
    proof {
        lemma_trimmed_start_at(s@, start as int);
        assert(s@.skip(start as int) =~= s@.subrange(start as int, n as int));
    }
    s.substring_char(start, n)
}

/// The text without its trailing white space.
fn trim_end(s: &str) -> (r: &str)
    ensures
        r@ == trimmed_end(s@),
{
    let n: usize = s.unicode_len();
    let mut end: usize = 0;
    let mut seen: usize = 0;
    for c in it: s.chars()
        invariant
            it.seq() == s@,
            n == s@.len(),
            seen == it.index(),
            seen <= n,
            end <= seen,
            end > 0 ==> !white_space(s@[end - 1]),
            forall|i: int| end <= i < seen ==> white_space(#[trigger] s@[i]),
    {
        seen = seen + 1;
        if !c.is_whitespace() {
            end = seen;
        }
    }
    proof {
        lemma_trimmed_end_at(s@, end as int);
        assert(s@.take(end as int) =~= s@.subrange(0, end as int));
    }
    s.substring_char(0, end)
}

/// The text without white space at either end.
pub fn trim(s: &str) -> (r: &str)
    ensures
        r@ == trimmed(s@),
{
    trim_end(trim_start(s))
}

/// What stands before the first white space.
pub(crate) fn head_word(s: &str) -> (r: &str)
    ensures
        r@ == up_to_space(s@),
{
    let n: usize = s.unicode_len();
    let mut end: usize = 0;
    let mut found: bool = false;
    for c in it: s.chars()
        invariant
            it.seq() == s@,
            n == s@.len(),
            end <= n,
            !found ==> end == it.index(),
            found ==> end < it.index() && white_space(s@[end as int]),
            forall|i: int| 0 <= i < end ==> !white_space(#[trigger] s@[i]),
    {
        if !found {
            if c.is_whitespace() {
                found = true;
            } else {
                end = end + 1;
            }
        }
    }
    proof {
        lemma_up_to_space_at(s@, end as int);
        assert(s@.take(end as int) =~= s@.subrange(0, end as int));
    }
    s.substring_char(0, end)
}

/// Whether the text begins with `prefix`.
pub(crate) fn begins_with(s: &str, prefix: &str) -> (r: bool)
    ensures
        r == prefix@.is_prefix_of(s@),
{
    let n: usize = prefix.unicode_len();
    if s.unicode_len() < n {
        return false;
    }
    same_text(s.substring_char(0, n), prefix)
}

/// The two texts, one after the other.
pub(crate) fn joined(a: &str, b: &str) -> (r: String)
    ensures
        r@ == a@ + b@,
{
    a.to_owned().concat(b)
}

/// The digit for a number below ten.
pub open spec fn digit(d: nat) -> char {
    if d == 0 {
        '0'
    } else if d == 1 {
        '1'
    } else if d == 2 {
        '2'
    } else if d == 3 {
        '3'
    } else if d == 4 {
        '4'
    } else if d == 5 {
        '5'
    } else if d == 6 {
        '6'
    } else if d == 7 {
        '7'
    } else if d == 8 {
        '8'
    } else {
        '9'
    }
}

/// A number written in decimal, without leading zeros.
pub open spec fn decimal(n: nat) -> Seq<char>
    decreases n,
{
    if n < 10 {
        seq![digit(n)]
    } else {
        decimal(n / 10).push(digit(n % 10))
    }
}

/// One of the ten decimal digits.
pub open spec fn is_digit(c: char) -> bool {
    '0' <= c <= '9'
}

/// The number that a row of digits stands for.
pub open spec fn digits_value(s: Seq<char>) -> nat
    decreases s.len(),
{
    if s.len() == 0 {
        0
    } else {
        digits_value(s.drop_last()) * 10 + (s.last() as nat - '0' as nat) as nat
    }
}

/// Digits and nothing else.
pub open spec fn all_digits(s: Seq<char>) -> bool {
    forall|i: int| 0 <= i < s.len() ==> is_digit(#[trigger] s[i])
}

/// The text without a leading plus sign.
pub open spec fn after_sign(s: Seq<char>) -> Seq<char> {
    if s.len() > 0 && s[0] == '+' {
        s.drop_first()
    } else {
        s
    }
}

/// The number that a text spells: an optional plus sign, then digits and nothing else.
pub open spec fn spelled_number(s: Seq<char>) -> Option<nat> {
    if after_sign(s).len() > 0 && all_digits(after_sign(s)) {
        Some(digits_value(after_sign(s)))
    } else {
        None
    }
}

/// The digit for a number below ten.
fn digit_text(d: u64) -> (r: &'static str)
    requires
        d < 10,
    ensures
        r@ == seq![digit(d as nat)],
{
    proof {
        reveal_strlit("0");
        reveal_strlit("1");
        reveal_strlit("2");
        reveal_strlit("3");
        reveal_strlit("4");
        reveal_strlit("5");
        reveal_strlit("6");
        reveal_strlit("7");
        reveal_strlit("8");
        reveal_strlit("9");
    }
    if d == 0 {
        "0"
    } else if d == 1 {
        "1"
    } else if d == 2 {
        "2"
    } else if d == 3 {
        "3"
    } else if d == 4 {
        "4"
    } else if d == 5 {
        "5"
    } else if d == 6 {
        "6"
    } else if d == 7 {
        "7"
    } else if d == 8 {
        "8"
    } else {
        "9"
    }
}

/// A number written in decimal.
pub fn decimal_text(n: u64) -> (r: String)
    ensures
        r@ == decimal(n as nat),
    decreases n,
{
    if n < 10 {
        digit_text(n).to_owned()
    } else {
        let mut out = decimal_text(n / 10);
        out.append(digit_text(n % 10));
        proof {
            assert(decimal((n / 10) as nat) + seq![digit((n % 10) as nat)] =~= decimal(n as nat));
        }
        out
    }
}

proof fn lemma_all_digits_next(s: Seq<char>, k: int)
    requires
        0 <= k < s.len(),
    ensures
        all_digits(s.take(k + 1)) == (all_digits(s.take(k)) && is_digit(s[k])),
{
    let longer = s.take(k + 1);
    assert(longer[k] == s[k]);
    assert forall|i: int| all_digits(longer) && 0 <= i < k implies is_digit(
        #[trigger] s.take(k)[i],
    ) by {
        assert(longer[i] == s[i]);
    }
    assert forall|i: int| all_digits(s.take(k)) && is_digit(s[k]) && 0 <= i < k + 1 implies is_digit(
        #[trigger] longer[i],
    ) by {
        if i < k {
            assert(s.take(k)[i] == s[i]);
        }
    }
}

/// The number that a text spells, where it fits in `usize`.
pub fn parse_number(s: &str) -> (r: Option<usize>)
    ensures
        match r {
            Some(n) => spelled_number(s@) == Some(n as nat),
            None => match spelled_number(s@) {
                Some(n) => n > usize::MAX,
                None => true,
            },
        },
{
    let n: usize = s.unicode_len();
    if n == 0 {
        return None;
    }
    let signed: bool = s.get_char(0) == '+';
    let body = if signed { s.substring_char(1, n) } else { s };
    assert(body@ =~= after_sign(s@));
    if body.is_empty() {
        return None;
    }
    let mut value: usize = 0;
    let mut digits: bool = true;
    let mut fits: bool = true;
    for c in it: body.chars()
        invariant
            it.seq() == body@,
            digits == all_digits(body@.take(it.index() as int)),
            digits && fits ==> value == digits_value(body@.take(it.index() as int)),
            digits && !fits ==> digits_value(body@.take(it.index() as int)) > usize::MAX,
    {
        proof {
            let k = it.index() as int;
            assert(body@.take(k + 1).drop_last() =~= body@.take(k));
            assert(body@.take(k + 1).last() == body@[k]);
            assert(c == body@[k]);
            lemma_all_digits_next(body@, k);
        }
        if '0' <= c && c <= '9' {
            if digits && fits {
                let d: usize = (c as u32 - '0' as u32) as usize;
                match value.checked_mul(10) {
                    Some(tens) => match tens.checked_add(d) {
                        Some(next) => {
                            value = next;
                        },
                        None => {
                            fits = false;
                        },
                    },
                    None => {
                        fits = false;
                    },
                }
            }
        } else {
            digits = false;
        }
    }
    proof {
        assert(body@.take(body@.len() as int) =~= body@);
    }
    if digits && fits {
        Some(value)
    } else {
        None
    }
}

/// Nothing but white space, character by character.
pub open spec fn all_white(s: Seq<char>) -> bool {
    forall|i: int| 0 <= i < s.len() ==> white_space(#[trigger] s[i])
}

/// A text that is empty, or has white space at neither end.
pub open spec fn bare(s: Seq<char>) -> bool {
    s.len() > 0 ==> !white_space(s[0]) && !white_space(s.last())
}

/// Of a text with white space before and after it, trimming leaves the text: all of it, and
/// nothing else.
pub proof fn trimming_leaves_the_text(lead: Seq<char>, core: Seq<char>, tail: Seq<char>)
    requires
        all_white(lead),
        bare(core),
        all_white(tail),
    ensures
        trimmed(lead + core + tail) == core,
        core.len() > 0 ==> trimmed_start(lead + core + tail) == core + tail,
        core.len() == 0 ==> trimmed_start(lead + core + tail).len() == 0,
{
    let s = lead + core + tail;
    if core.len() > 0 {
        assert(s[lead.len() as int] == core[0]);
        assert forall|i: int| 0 <= i < lead.len() implies white_space(#[trigger] s[i]) by {
            assert(s[i] == lead[i]);
        }
        lemma_trimmed_start_at(s, lead.len() as int);
        let t = core + tail;
        assert(s.skip(lead.len() as int) =~= t);
        assert forall|i: int| core.len() <= i < t.len() implies white_space(#[trigger] t[i]) by {
            assert(t[i] == tail[i - core.len()]);
        }
        assert(t[core.len() - 1] == core.last());
        lemma_trimmed_end_at(t, core.len() as int);
        assert(t.take(core.len() as int) =~= core);
    } else {
        assert forall|i: int| 0 <= i < s.len() implies white_space(#[trigger] s[i]) by {
            if i < lead.len() {
                assert(s[i] == lead[i]);
            } else {
                assert(s[i] == tail[i - lead.len()]);
            }
        }
        lemma_trimmed_start_at(s, s.len() as int);
        assert(trimmed_start(s).len() == 0);
        assert(trimmed(s) =~= core);
    }
}

/// Every text is what trimming leaves of it, with white space before and after.
pub proof fn trimming_takes_only_white_space(s: Seq<char>) -> (ends: (Seq<char>, Seq<char>))
    ensures
        s == ends.0 + trimmed(s) + ends.1,
        all_white(ends.0),
        bare(trimmed(s)),
        all_white(ends.1),
{
    let lead = lemma_lead(s);
    trimming_is_final(s);
    let t = trimmed_start(s);
    let tail = lemma_tail(t);
    assert(s =~= lead + trimmed(s) + tail);
    (lead, tail)
}

proof fn lemma_lead(s: Seq<char>) -> (lead: Seq<char>)
    ensures
        s == lead + trimmed_start(s),
        all_white(lead),
    decreases s.len(),
{
    if s.len() > 0 && white_space(s[0]) {
        let rest = lemma_lead(s.drop_first());
        let lead = seq![s[0]] + rest;
        assert(s =~= seq![s[0]] + s.drop_first());
        assert(seq![s[0]] + (rest + trimmed_start(s)) =~= lead + trimmed_start(s));
        assert forall|i: int| 0 <= i < lead.len() implies white_space(#[trigger] lead[i]) by {
            if i > 0 {
                assert(lead[i] == rest[i - 1]);
            }
        }
        lead
    } else {
        assert(s =~= Seq::<char>::empty() + s);
        Seq::empty()
    }
}

proof fn lemma_tail(s: Seq<char>) -> (tail: Seq<char>)
    ensures
        s == trimmed_end(s) + tail,
        all_white(tail),
    decreases s.len(),
{
    if s.len() > 0 && white_space(s.last()) {
        let rest = lemma_tail(s.drop_last());
        let tail = rest.push(s.last());
        assert(s =~= s.drop_last().push(s.last()));
        assert((trimmed_end(s) + rest).push(s.last()) =~= trimmed_end(s) + tail);
        assert forall|i: int| 0 <= i < tail.len() implies white_space(#[trigger] tail[i]) by {
            if i < rest.len() {
                assert(tail[i] == rest[i]);
            }
        }
        tail
    } else {
        assert(s =~= s + Seq::<char>::empty());
        Seq::empty()
    }
}

/// A text is blank where each of its characters is white space, and nowhere else.
pub proof fn blank_means_white_space(s: Seq<char>)
    ensures
        blank(s) <==> all_white(s),
{
    if all_white(s) {
        let none = Seq::<char>::empty();
        trimming_leaves_the_text(s, none, none);
        assert(s + none + none =~= s);
    } else {
        let ends = trimming_takes_only_white_space(s);
        if blank(s) {
            assert(trimmed(s) =~= Seq::<char>::empty());
            assert forall|i: int| 0 <= i < s.len() implies white_space(#[trigger] s[i]) by {
                if i < ends.0.len() {
                    assert(s[i] == ends.0[i]);
                } else {
                    assert(s[i] == ends.1[i - ends.0.len()]);
                }
            }
        }
    }
}

/// The first word is what stands before the first white space: all of it, and nothing else.
pub proof fn first_word_ends_at_white_space(word: Seq<char>, rest: Seq<char>)
    requires
        forall|i: int| 0 <= i < word.len() ==> !white_space(#[trigger] word[i]),
        rest.len() > 0 ==> white_space(rest[0]),
    ensures
        up_to_space(word + rest) == word,
{
    let s = word + rest;
    assert forall|i: int| 0 <= i < word.len() implies !white_space(#[trigger] s[i]) by {
        assert(s[i] == word[i]);
    }
    if rest.len() > 0 {
        assert(s[word.len() as int] == rest[0]);
    }
    lemma_up_to_space_at(s, word.len() as int);
    assert(s.take(word.len() as int) =~= word);
}

/// A digit stands for its place after zero, the digits before it for ten times as much, and
/// no digits for nothing; so a number's last digit is what is left over by ten.
pub proof fn digits_are_places(s: Seq<char>, c: char, n: nat, d: nat)
    requires
        is_digit(c),
        d < 10,
    ensures
        digits_value(Seq::<char>::empty()) == 0,
        digits_value(s.push(c)) == 10 * digits_value(s) + (c as int - 48),
        digit(d) as int == 48 + d,
        decimal(d) == seq![digit(d)],
        n > 0 ==> decimal(10 * n + d) == decimal(n).push(digit(d)),
{
    assert(s.push(c).drop_last() =~= s);
    if n > 0 {
        assert((10 * n + d) / 10 == n);
        assert((10 * n + d) % 10 == d);
    }
}

/// A number is spelled by digits, at least one, with or without a plus sign before them, and
/// by nothing else.
pub proof fn numbers_are_spelled_by_digits(s: Seq<char>)
    ensures
        s.len() > 0 && (forall|i: int| 0 <= i < s.len() ==> '0' <= #[trigger] s[i] <= '9') ==> {
            &&& spelled_number(s) == Some(digits_value(s))
            &&& spelled_number(seq!['+'] + s) == Some(digits_value(s))
        },
        spelled_number(s) is Some ==> s.len() > 0 && (s[0] == '+' ==> s.len() > 1) && (forall|i: int|
            (0 < i < s.len() || i == 0 && s[0] != '+') ==> '0' <= #[trigger] s[i] <= '9'),
{
    assert((seq!['+'] + s).drop_first() =~= s);
    if s.len() > 0 {
        assert(s.skip(1) =~= s.drop_first());
        assert(is_digit(s[0]) ==> s[0] != '+');
    }
    if s.len() > 0 && (forall|i: int| 0 <= i < s.len() ==> '0' <= #[trigger] s[i] <= '9') {
        assert(all_digits(s));
        assert('0' <= s[0]);
    }
    if spelled_number(s) is Some {
        let digits = after_sign(s);
        assert forall|i: int| (0 < i < s.len() || i == 0 && s[0] != '+') implies '0'
            <= #[trigger] s[i] <= '9' by {
            if s[0] == '+' {
                assert(digits[i - 1] == s[i]);
                assert(is_digit(digits[i - 1]));
            } else {
                assert(is_digit(digits[i]));
            }
        }
    }
}

/// A trimmed text neither starts nor ends with white space, and a second trim changes
/// nothing.
pub proof fn trimming_is_final(s: Seq<char>)
    ensures
        trimmed(s).len() > 0 ==> !white_space(trimmed(s)[0]) && !white_space(trimmed(s).last()),
        trimmed(trimmed(s)) == trimmed(s),
{
    lemma_trimmed_start_ends(s);
    lemma_trimmed_end_ends(trimmed_start(s));
}

proof fn lemma_trimmed_start_ends(s: Seq<char>)
    ensures
        trimmed_start(s).len() > 0 ==> !white_space(trimmed_start(s)[0]),
    decreases s.len(),
{
    if s.len() > 0 && white_space(s[0]) {
        lemma_trimmed_start_ends(s.drop_first());
    }
}

proof fn lemma_trimmed_end_ends(s: Seq<char>)
    ensures
        trimmed_end(s).len() <= s.len(),
        trimmed_end(s) == s.take(trimmed_end(s).len() as int),
        trimmed_end(s).len() > 0 ==> !white_space(trimmed_end(s).last()),
    decreases s.len(),
{
    if s.len() > 0 && white_space(s.last()) {
        lemma_trimmed_end_ends(s.drop_last());
        let k = trimmed_end(s).len() as int;
        assert(s.drop_last().take(k) =~= s.take(k));
    } else {
        assert(s.take(s.len() as int) =~= s);
    }
}

/// A number written in decimal is read back as the same number.
pub proof fn decimal_round_trip(n: nat)
    ensures
        spelled_number(decimal(n)) == Some(n),
{
    lemma_decimal_digits(n);
    let s = decimal(n);
    assert(is_digit(s[0]));
}

proof fn lemma_decimal_digits(n: nat)
    ensures
        decimal(n).len() > 0,
        all_digits(decimal(n)),
        digits_value(decimal(n)) == n,
    decreases n,
{
    if n < 10 {
        assert(decimal(n).drop_last() =~= Seq::<char>::empty());
        assert(digits_value(decimal(n).drop_last()) == 0);
    } else {
        lemma_decimal_digits(n / 10);
        assert(decimal(n).drop_last() =~= decimal(n / 10));
    }
}

} // verus!
