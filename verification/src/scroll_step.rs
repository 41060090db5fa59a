//! How far one press of a scroll key travels.
//!
//! The step is the setting `scroll_lines` of the configuration file. It is read with
//! a tolerant scan of the lines: a missing or malformed value falls back to the
//! default, and one out of range is clamped.
use crate::text;
use crate::text::{
    chars_of, find_char, parse_u32, part_of, split_at_char, string_of, text_eq, trim_chars,
    CharClass,
};
use vstd::prelude::*;
use vstd::string::*;

verus! {

/// The lines that one press travels when nothing is configured. A key that moves
/// several lines at once reads as a jump rather than a scroll.
pub const DEFAULT_SCROLL_LINES: u32 = 1;

/// The largest step. A larger one is far more likely to be a typo than an intent.
pub const MAX_SCROLL_LINES: u32 = 200;

/// What a line sets `scroll_lines` to, as it is written; nothing if the line is a
/// comment or sets something else.
pub open spec fn set_by(line: Seq<char>) -> Option<Seq<char>> {
    let l = text::trimmed(line);
    let at = text::find_in(l, '=');
    if l.len() > 0 && l[0] == '#' {
        None
    } else if at < l.len() && text::trimmed(l.take(at)) == "scroll_lines"@ {
        Some(l.skip(at + 1))
    } else {
        None
    }
}

/// What the first line that sets `scroll_lines` sets it to.
pub open spec fn first_setting(lines: Seq<Seq<char>>) -> Option<Seq<char>>
    decreases lines.len(),
{
    if lines.len() == 0 {
        None
    } else if set_by(lines[0]) is Some {
        set_by(lines[0])
    } else {
        first_setting(lines.skip(1))
    }
}

/// A value without the comment that follows it, the white space around it, and its
/// quotes.
pub open spec fn bare_value(value: Seq<char>) -> Seq<char> {
    let before_comment = value.take(text::find_in(value, '#'));
    text::trim_of(
        text::trim_of(text::trimmed(before_comment), CharClass::Exactly('"')),
        CharClass::Exactly('\''),
    )
}

/// A step brought into range. Nought would make the scroll keys dead.
pub open spec fn clamped(n: int) -> int {
    if n < 1 {
        1
    } else if n > MAX_SCROLL_LINES {
        MAX_SCROLL_LINES as int
    } else {
        n
    }
}

/// The step that a configuration sets, if it sets a number. Only the first line that
/// sets one counts.
pub open spec fn configured(raw: Seq<char>) -> Option<int> {
    match first_setting(text::pieces(raw, '\n')) {
        Some(value) => match text::number_in(bare_value(value), 0, u32::MAX as int) {
            Some(n) => Some(clamped(n)),
            None => None,
        },
        None => None,
    }
}

/// The step for a configuration, or for none.
pub open spec fn resolved(config_text: Option<Seq<char>>) -> int {
    match config_text {
        Some(raw) => match configured(raw) {
            Some(n) => n,
            None => DEFAULT_SCROLL_LINES as int,
        },
        None => DEFAULT_SCROLL_LINES as int,
    }
}

fn line_setting(line: &Vec<char>) -> (r: Option<Vec<char>>)
    ensures
        match r {
            Some(value) => set_by(line@) == Some(value@),
            None => set_by(line@) is None,
        },
{
    let l: Vec<char> = trim_chars(line, CharClass::White);
    if l.len() > 0 && l[0] == '#' {
        return None;
    }
    let at: usize = find_char(&l, '=', 0);
    assert(l@.skip(0) == l@);
    if at >= l.len() {
        return None;
    }
    let key: Vec<char> = trim_chars(&part_of(&l, 0, at), CharClass::White);
    assert(l@.subrange(0, at as int) == l@.take(at as int));
    if text_eq(string_of(&key).as_str(), "scroll_lines") {
        assert(l@.subrange(at + 1, l@.len() as int) == l@.skip(at + 1));
        Some(part_of(&l, at + 1, l.len()))
    } else {
        None
    }
}

fn bare(value: &Vec<char>) -> (r: Vec<char>)
    ensures
        r@ == bare_value(value@),
{
    assert(value@.skip(0) == value@);
    let end: usize = find_char(value, '#', 0);
    assert(value@.subrange(0, end as int) == value@.take(end as int));
    let inner: Vec<char> = trim_chars(&part_of(value, 0, end), CharClass::White);
    trim_chars(&trim_chars(&inner, CharClass::Exactly('"')), CharClass::Exactly('\''))
}

/// The step that a configuration sets, if it sets a number.
pub fn configured_scroll_lines(raw: &str) -> (r: Option<u32>)
    ensures
        match r {
            Some(n) => configured(raw@) == Some(n as int),
            None => configured(raw@) is None,
        },
{
    let lines: Vec<Vec<char>> = split_at_char(&chars_of(raw), '\n');
    let ghost all = text::pieces(raw@, '\n');
    let mut i: usize = 0;
    assert(all.skip(0) == all);
    while i < lines.len()
        invariant
            i <= lines@.len(),
            all == text::pieces(raw@, '\n'),
            lines@.len() == all.len(),
            forall|k: int| 0 <= k < lines@.len() ==> (#[trigger] lines@[k])@ == all[k],
            first_setting(all) == first_setting(all.skip(i as int)),
        decreases lines@.len() - i,
    {
        assert(all.skip(i as int)[0] == all[i as int]);
        assert(all.skip(i as int).skip(1) == all.skip(i + 1));
        if let Some(value) = line_setting(&lines[i]) {
            return match parse_u32(&bare(&value)) {
                Some(n) => Some(
                    if n < 1 {
                        1
                    } else if n > MAX_SCROLL_LINES {
                        MAX_SCROLL_LINES
                    } else {
                        n
                    },
                ),
                None => None,
            };
        }
        i += 1;
    }
    None
}

/// The step for a configuration, or for none.
pub fn resolve(config_text: Option<&str>) -> (r: u32)
    ensures
        r == resolved(text::opt_str_view(config_text)),
        1 <= r <= MAX_SCROLL_LINES,
{
    match config_text {
        Some(raw) => match configured_scroll_lines(raw) {
            Some(n) => n,
            None => DEFAULT_SCROLL_LINES,
        },
        None => DEFAULT_SCROLL_LINES,
    }
}

/// A scroll key is never dead and never leaps: whatever is configured, the step is
/// in range.
pub proof fn step_is_in_range(config_text: Option<Seq<char>>)
    ensures
        1 <= resolved(config_text) <= MAX_SCROLL_LINES,
{
}

/// A step in range that a configuration sets is the step that is used.
pub proof fn a_set_step_is_used(n: nat)
    requires
        1 <= n <= MAX_SCROLL_LINES,
    ensures
        resolved(Some("scroll_lines = "@ + text::decimal(n))) == n,
{
    reveal_strlit("scroll_lines = ");
    reveal_strlit("scroll_lines");
    let d = text::decimal(n);
    text::lemma_decimal_denotes(n);
    let raw = "scroll_lines = "@ + d;
    assert(d[0] == raw[15]);
    assert(text::is_digit(d[0]) && text::is_digit(d.last()));
    assert forall|k: int| 0 <= k < raw.len() implies raw[k] != '\n' && raw[k] != '#' by {
        if k >= 15 {
            assert(raw[k] == d[k - 15]);
            assert(text::is_digit(d[k - 15]));
        }
    }
    text::lemma_find_in_unique(raw, '\n', raw.len() as int);
    assert(text::pieces(raw, '\n') == seq![raw]);
    assert(raw.last() == d.last());
    assert(text::trimmed(raw) == raw);
    text::lemma_find_in_unique(raw, '=', 13);
    let key = raw.take(13);
    assert(key.drop_last() == "scroll_lines"@);
    assert(text::trim_start_of(key, CharClass::White) == key);
    assert(text::trim_end_of(key.drop_last(), CharClass::White) == "scroll_lines"@);
    assert(text::trimmed(key) == "scroll_lines"@);
    let value = raw.skip(14);
    assert(set_by(raw) == Some(value));
    assert forall|k: int| 0 <= k < value.len() implies value[k] != '#' by {
        assert(value[k] == raw[k + 14]);
    }
    text::lemma_find_in_unique(value, '#', value.len() as int);
    assert(value.take(value.len() as int) == value);
    assert(value.skip(1) == d);
    assert(text::trim_start_of(d, CharClass::White) == d);
    assert(text::trimmed(value) == d);
    assert(text::trim_of(d, CharClass::Exactly('"')) == d);
    assert(text::trim_of(d, CharClass::Exactly('\'')) == d);
    assert(bare_value(value) == d);
    assert(text::number_in(d, 0, u32::MAX as int) == Some(n as int));
}

/// A line sets the step where its key, in front of the first `=` and without the white
/// space around it, is `scroll_lines`. It sets it to what follows the `=`, without the
/// white space at the end of the line.
pub proof fn a_line_sets_what_follows_the_sign(
    before: Seq<char>,
    between: Seq<char>,
    value: Seq<char>,
    after: Seq<char>,
)
    requires
        forall|i: int| 0 <= i < before.len() ==> CharClass::White.has(#[trigger] before[i]),
        forall|i: int| 0 <= i < between.len() ==> CharClass::White.has(#[trigger] between[i]),
        forall|i: int| 0 <= i < after.len() ==> CharClass::White.has(#[trigger] after[i]),
        value.len() > 0 ==> !CharClass::White.has(value.last()),
    ensures
        set_by(before + ("scroll_lines"@ + between + seq!['='] + value) + after) == Some(value),
{
    reveal_strlit("scroll_lines");
    let key = "scroll_lines"@;
    let line = key + between + seq!['='] + value;
    let at = (key.len() + between.len()) as int;
    assert(line[0] == key[0]);
    assert(line.last() == if value.len() > 0 {
        value.last()
    } else {
        '='
    });
    text::trimming_leaves_what_stands_between(before, line, after, CharClass::White);
    assert forall|k: int| 0 <= k < at implies line[k] != '=' by {
        if k < key.len() {
            assert(line[k] == key[k]);
        } else {
            assert(line[k] == between[k - key.len()]);
        }
    }
    assert(line[at] == '=');
    text::lemma_find_in_unique(line, '=', at);
    assert(line.take(at) == Seq::<char>::empty() + key + between);
    assert(key[0] == 's' && key[key.len() - 1] == 's');
    text::trimming_leaves_what_stands_between(Seq::empty(), key, between, CharClass::White);
    assert(line.skip(at + 1) == value);
}

/// A line sets nothing where it is a comment, has no `=`, or has another key in front of
/// the first one.
pub proof fn other_lines_set_nothing(line: Seq<char>, at: int)
    ensures
        ({
            let l = text::trimmed(line);
            &&& l.len() > 0 && l[0] == '#' ==> set_by(line) is None
            &&& !l.contains('=') ==> set_by(line) is None
            &&& 0 <= at < l.len() && l[at] == '=' && (forall|k: int| 0 <= k < at ==> l[k] != '=')
                && text::trimmed(l.take(at)) != "scroll_lines"@ ==> set_by(line) is None
        }),
{
    let l = text::trimmed(line);
    if !l.contains('=') {
        assert forall|k: int| 0 <= k < l.len() implies l[k] != '=' by {
            assert(l.contains(l[k]));
        }
        text::lemma_find_in_unique(l, '=', l.len() as int);
    }
    if 0 <= at < l.len() && l[at] == '=' && (forall|k: int| 0 <= k < at ==> l[k] != '=') {
        text::lemma_find_in_unique(l, '=', at);
    }
}

/// The first line that sets the step counts, whatever the lines behind it set.
pub proof fn the_first_line_that_sets_counts(
    before: Seq<Seq<char>>,
    line: Seq<char>,
    after: Seq<Seq<char>>,
)
    requires
        forall|i: int| 0 <= i < before.len() ==> set_by(#[trigger] before[i]) is None,
    ensures
        set_by(line) is Some ==> first_setting(before + seq![line] + after) == set_by(line),
        first_setting(before) is None,
    decreases before.len(),
{
    let all = before + seq![line] + after;
    if before.len() > 0 {
        let rest = before.skip(1);
        assert(all[0] == before[0]);
        assert(all.skip(1) == rest + seq![line] + after);
        assert forall|i: int| 0 <= i < rest.len() implies set_by(#[trigger] rest[i]) is None by {
            assert(rest[i] == before[i + 1]);
        }
        the_first_line_that_sets_counts(rest, line, after);
    } else {
        assert(all[0] == line);
    }
}

/// A value is what is left without a comment behind it, white space around it, double
/// quotes around that, and single quotes around that.
pub proof fn a_value_is_stripped_of_what_surrounds_it(
    before: Seq<char>,
    open_double: Seq<char>,
    open_single: Seq<char>,
    value: Seq<char>,
    close_single: Seq<char>,
    close_double: Seq<char>,
    after: Seq<char>,
    comment: Seq<char>,
)
    requires
        forall|i: int| 0 <= i < before.len() ==> CharClass::White.has(#[trigger] before[i]),
        forall|i: int| 0 <= i < after.len() ==> CharClass::White.has(#[trigger] after[i]),
        forall|i: int| 0 <= i < open_double.len() ==> (#[trigger] open_double[i]) == '"',
        forall|i: int| 0 <= i < close_double.len() ==> (#[trigger] close_double[i]) == '"',
        forall|i: int| 0 <= i < open_single.len() ==> (#[trigger] open_single[i]) == '\'',
        forall|i: int| 0 <= i < close_single.len() ==> (#[trigger] close_single[i]) == '\'',
        forall|i: int| 0 <= i < value.len() ==> (#[trigger] value[i]) != '#',
        value.len() > 0,
        !CharClass::White.has(value[0]) && !CharClass::White.has(value.last()),
        value[0] != '"' && value[0] != '\'' && value.last() != '"' && value.last() != '\'',
        comment.len() > 0 ==> comment[0] == '#',
    ensures
        bare_value(
            before + (open_double + (open_single + value + close_single) + close_double) + after
                + comment,
        ) == value,
{
    let single = open_single + value + close_single;
    let double = open_double + single + close_double;
    let all = before + double + after;
    let whole = all + comment;
    assert(single.len() > 0 && double.len() > 0);
    assert(single[0] == '\'' || single[0] == value[0]) by {
        if open_single.len() > 0 {
            assert(single[0] == open_single[0]);
        } else {
            assert(single[0] == value[0]);
        }
    }
    assert(single.last() == '\'' || single.last() == value.last()) by {
        if close_single.len() > 0 {
            assert(single.last() == close_single.last());
        } else {
            assert(single.last() == value.last());
        }
    }
    assert(double[0] == '"' || double[0] == single[0]) by {
        if open_double.len() > 0 {
            assert(double[0] == open_double[0]);
        } else {
            assert(double[0] == single[0]);
        }
    }
    assert(double.last() == '"' || double.last() == single.last()) by {
        if close_double.len() > 0 {
            assert(double.last() == close_double.last());
        } else {
            assert(double.last() == single.last());
        }
    }
    assert forall|k: int| 0 <= k < all.len() implies all[k] != '#' by {
        lemma_no_sign(before, open_double, open_single, value, close_single, close_double, after, k);
    }
    assert forall|k: int| 0 <= k < all.len() implies whole[k] != '#' by {
        assert(whole[k] == all[k]);
    }
    if comment.len() > 0 {
        assert(whole[all.len() as int] == '#');
    }
    text::lemma_find_in_unique(whole, '#', all.len() as int);
    assert(whole.take(all.len() as int) == all);
    text::trimming_leaves_what_stands_between(before, double, after, CharClass::White);
    text::trimming_leaves_what_stands_between(
        open_double,
        single,
        close_double,
        CharClass::Exactly('"'),
    );
    text::trimming_leaves_what_stands_between(
        open_single,
        value,
        close_single,
        CharClass::Exactly('\''),
    );
}

proof fn lemma_no_sign(
    before: Seq<char>,
    open_double: Seq<char>,
    open_single: Seq<char>,
    value: Seq<char>,
    close_single: Seq<char>,
    close_double: Seq<char>,
    after: Seq<char>,
    k: int,
)
    requires
        forall|i: int| 0 <= i < before.len() ==> CharClass::White.has(#[trigger] before[i]),
        forall|i: int| 0 <= i < after.len() ==> CharClass::White.has(#[trigger] after[i]),
        forall|i: int| 0 <= i < open_double.len() ==> (#[trigger] open_double[i]) == '"',
        forall|i: int| 0 <= i < close_double.len() ==> (#[trigger] close_double[i]) == '"',
        forall|i: int| 0 <= i < open_single.len() ==> (#[trigger] open_single[i]) == '\'',
        forall|i: int| 0 <= i < close_single.len() ==> (#[trigger] close_single[i]) == '\'',
        forall|i: int| 0 <= i < value.len() ==> (#[trigger] value[i]) != '#',
        0 <= k < (before + (open_double + (open_single + value + close_single) + close_double)
            + after).len(),
    ensures
        (before + (open_double + (open_single + value + close_single) + close_double) + after)[k]
            != '#',
{
    let single = open_single + value + close_single;
    let double = open_double + single + close_double;
    let all = before + double + after;
    let m = k - before.len();
    let n = m - open_double.len();
    let v = n - open_single.len();
    if k < before.len() {
        assert(all[k] == before[k]);
    } else if m >= double.len() {
        assert(all[k] == after[m - double.len()]);
    } else {
        assert(all[k] == double[m]);
        if m < open_double.len() {
            assert(double[m] == open_double[m]);
        } else if n >= single.len() {
            assert(double[m] == close_double[n - single.len()]);
        } else {
            assert(double[m] == single[n]);
            if n < open_single.len() {
                assert(single[n] == open_single[n]);
            } else if v >= value.len() {
                assert(single[n] == close_single[v - value.len()]);
            } else {
                assert(single[n] == value[v]);
            }
        }
    }
}

/// The step is the number that the configuration sets, brought between one and two
/// hundred. It is one where nothing is configured, no line sets a step, or what is set is
/// no number.
pub proof fn the_step_is_the_number_that_is_set(
    config_text: Option<&str>,
    value: Seq<char>,
    n: nat,
    r: u32,
)
    requires
        call_ensures(resolve, (config_text,), r),
    ensures
        config_text is None ==> r == 1,
        config_text is Some && first_setting(text::pieces(config_text->0@, '\n')) is None ==> r
            == 1,
        config_text is Some && first_setting(text::pieces(config_text->0@, '\n')) == Some(value)
            && bare_value(value) == text::decimal(n) ==> r == (if n == 0 {
            1
        } else if n <= 200 {
            n as int
        } else if n <= 4_294_967_295 {
            200
        } else {
            1int
        }),
        config_text is Some && first_setting(text::pieces(config_text->0@, '\n')) == Some(value)
            && text::number_in(bare_value(value), 0, 4_294_967_295) is None ==> r == 1,
{
    text::a_number_is_read_from_its_notation(n as int, 0, u32::MAX as int);
}

/// The step that a configuration sets is the step that is used, and one line where it
/// sets none.
pub proof fn a_configured_step_is_the_step(raw: &str, configured: Option<u32>, r: u32)
    requires
        call_ensures(configured_scroll_lines, (raw,), configured),
        call_ensures(resolve, (Some(raw),), r),
    ensures
        configured is Some ==> r == configured->0,
        configured is None ==> r == 1,
{
}

} // verus!
