//! Text as sequences of characters: trimming, splitting, comparing, and reading
//! and writing numbers.
use vstd::prelude::*;
use vstd::string::*;

verus! {

/// `String::push` appends one character to the end of the string.
pub assume_specification[ String::push ](s: &mut String, c: char)
    ensures
        final(s)@ == old(s)@.push(c),
;

/// The characters of `s`, one vector element each.
pub fn chars_of(s: &str) -> (r: Vec<char>)
    ensures
        r@ == s@,
{
    let mut out: Vec<char> = Vec::new();
    for c in iter: s.chars()
        invariant
            iter.seq() == s@,
            out@ == s@.take(iter.index() as int),
    {
        out.push(c);
    }
    out
}

/// The string whose characters are those of `chars`.
pub fn string_of(chars: &Vec<char>) -> (r: String)
    ensures
        r@ == chars@,
{
    let mut out: String = String::new();
    let mut i: usize = 0;
    while i < chars.len()
        invariant
            i <= chars.len(),
            out@ == chars@.take(i as int),
        decreases chars.len() - i,
    {
        out.push(chars[i]);
        i += 1;
    }
    out
}

/// The characters of `chars` from index `from` up to, not including, `to`.
pub fn part_of(chars: &Vec<char>, from: usize, to: usize) -> (r: Vec<char>)
    requires
        from <= to <= chars@.len(),
    ensures
        r@ == chars@.subrange(from as int, to as int),
{
    let mut out: Vec<char> = Vec::new();
    let mut i: usize = from;
    while i < to
        invariant
            from <= i <= to <= chars@.len(),
            out@ == chars@.subrange(from as int, i as int),
        decreases to - i,
    {
        out.push(chars[i]);
        i += 1;
    }
    out
}

/// Whether two texts hold the same characters.
pub fn text_eq(a: &str, b: &str) -> (r: bool)
    ensures
        r == (a@ == b@),
{
    a.to_owned() == b.to_owned()
}

/// An optional text, by its characters.
pub open spec fn opt_view(o: Option<String>) -> Option<Seq<char>> {
    match o {
        Some(s) => Some(s@),
        None => None,
    }
}

/// An optional borrowed text, by its characters.
pub open spec fn opt_str_view(o: Option<&str>) -> Option<Seq<char>> {
    match o {
        Some(s) => Some(s@),
        None => None,
    }
}

/// A copy of an optional text.
pub fn clone_opt(o: &Option<String>) -> (r: Option<String>)
    ensures
        r == *o,
{
    match o {
        Some(s) => Some(s.clone()),
        None => None,
    }
}

/// Whether an optional text is present and equal to `b`.
pub fn opt_is(o: &Option<String>, b: &str) -> (r: bool)
    ensures
        r == (opt_view(*o) == Some(b@)),
{
    match o {
        Some(s) => text_eq(s.as_str(), b),
        None => false,
    }
}

/// The texts of a list, by their characters.
pub open spec fn views(list: Seq<String>) -> Seq<Seq<char>> {
    list.map_values(|s: String| s@)
}

/// Whether `list` holds a text equal to `item`.
pub fn list_contains(list: &Vec<String>, item: &str) -> (r: bool)
    ensures
        r == views(list@).contains(item@),
{
    let mut i: usize = 0;
    while i < list.len()
        invariant
            i <= list.len(),
            forall|k: int| 0 <= k < i ==> list@[k]@ != item@,
        decreases list.len() - i,
    {
        if text_eq(list[i].as_str(), item) {
            assert(views(list@)[i as int] == item@);
            return true;
        }
        i += 1;
    }
    assert forall|k: int| 0 <= k < views(list@).len() implies views(list@)[k] != item@ by {
        assert(list@[k]@ != item@);
    }
    false
}

// ---------------------------------------------------------------------------
// Character classes and trimming
// ---------------------------------------------------------------------------

/// The characters with the Unicode property `White_Space`.
pub open spec fn is_white(c: char) -> bool {
    ||| '\u{9}' <= c <= '\u{d}'
    ||| c == '\u{20}'
    ||| c == '\u{85}'
    ||| c == '\u{a0}'
    ||| c == '\u{1680}'
    ||| '\u{2000}' <= c <= '\u{200a}'
    ||| c == '\u{2028}'
    ||| c == '\u{2029}'
    ||| c == '\u{202f}'
    ||| c == '\u{205f}'
    ||| c == '\u{3000}'
}

/// A set of characters that trimming removes.
#[derive(Clone, Copy)]
pub enum CharClass {
    /// White space.
    White,
    /// One given character.
    Exactly(char),
}

impl CharClass {
    /// Whether `c` belongs to the class.
    pub open spec fn has(self, c: char) -> bool {
        match self {
            CharClass::White => is_white(c),
            CharClass::Exactly(d) => c == d,
        }
    }

    /// Whether `c` belongs to the class.
    pub fn contains(self, c: char) -> (r: bool)
        ensures
            r == self.has(c),
    {
        match self {
            CharClass::White => {
                ('\u{9}' <= c && c <= '\u{d}') || c == '\u{20}' || c == '\u{85}' || c == '\u{a0}'
                    || c == '\u{1680}' || ('\u{2000}' <= c && c <= '\u{200a}') || c == '\u{2028}'
                    || c == '\u{2029}' || c == '\u{202f}' || c == '\u{205f}' || c == '\u{3000}'
            },
            CharClass::Exactly(d) => c == d,
        }
    }
}

/// `s` without its longest prefix of characters of `class`.
pub open spec fn trim_start_of(s: Seq<char>, class: CharClass) -> Seq<char>
    decreases s.len(),
{
    if s.len() > 0 && class.has(s[0]) {
        trim_start_of(s.skip(1), class)
    } else {
        s
    }
}

/// `s` without its longest suffix of characters of `class`.
pub open spec fn trim_end_of(s: Seq<char>, class: CharClass) -> Seq<char>
    decreases s.len(),
{
    if s.len() > 0 && class.has(s.last()) {
        trim_end_of(s.drop_last(), class)
    } else {
        s
    }
}

/// `s` without the characters of `class` at its two ends.
pub open spec fn trim_of(s: Seq<char>, class: CharClass) -> Seq<char> {
    trim_end_of(trim_start_of(s, class), class)
}

/// `s` without the white space at its two ends.
pub open spec fn trimmed(s: Seq<char>) -> Seq<char> {
    trim_of(s, CharClass::White)
}

/// What is left after trimming neither begins nor ends with a trimmed character.
proof fn lemma_trim_ends(s: Seq<char>, class: CharClass)
    ensures
        trim_end_of(s, class).len() <= s.len(),
        trim_end_of(s, class) == s.take(trim_end_of(s, class).len() as int),
        trim_end_of(s, class).len() > 0 ==> !class.has(trim_end_of(s, class).last()),
    decreases s.len(),
{
    if s.len() > 0 && class.has(s.last()) {
        lemma_trim_ends(s.drop_last(), class);
        let t = trim_end_of(s, class);
        assert(s.drop_last().take(t.len() as int) == s.take(t.len() as int));
    } else {
        assert(s.take(s.len() as int) == s);
    }
}

proof fn lemma_trim_starts(s: Seq<char>, class: CharClass)
    ensures
        trim_start_of(s, class).len() > 0 ==> !class.has(trim_start_of(s, class)[0]),
    decreases s.len(),
{
    if s.len() > 0 && class.has(s[0]) {
        lemma_trim_starts(s.skip(1), class);
    }
}

/// Trimming twice is trimming once.
pub proof fn lemma_trim_twice(s: Seq<char>, class: CharClass)
    ensures
        trim_of(trim_of(s, class), class) == trim_of(s, class),
{
    let a = trim_start_of(s, class);
    let b = trim_end_of(a, class);
    lemma_trim_starts(s, class);
    lemma_trim_ends(a, class);
    if b.len() > 0 {
        assert(b[0] == a[0]);
    }
    assert(trim_start_of(b, class) == b);
    assert(trim_end_of(b, class) == b);
}

/// Removes the characters of `class` at the two ends.
pub fn trim_chars(chars: &Vec<char>, class: CharClass) -> (r: Vec<char>)
    ensures
        r@ == trim_of(chars@, class),
{
    let mut from: usize = 0;
    assert(chars@.skip(0) == chars@);
    while from < chars.len() && class.contains(chars[from])
        invariant
            from <= chars.len(),
            trim_start_of(chars@, class) == trim_start_of(chars@.skip(from as int), class),
        decreases chars.len() - from,
    {
        assert(chars@.skip(from as int).skip(1) == chars@.skip(from + 1));
        from += 1;
    }
    let ghost head = chars@.skip(from as int);
    assert(trim_start_of(chars@, class) == head);
    let mut to: usize = chars.len();
    assert(chars@.subrange(from as int, to as int) == head);
    while from < to && class.contains(chars[to - 1])
        invariant
            from <= to <= chars.len(),
            trim_end_of(head, class) == trim_end_of(
                chars@.subrange(from as int, to as int),
                class,
            ),
        decreases to,
    {
        assert(chars@.subrange(from as int, to as int).drop_last() == chars@.subrange(
            from as int,
            to - 1,
        ));
        to -= 1;
    }
    part_of(chars, from, to)
}

/// Removes the white space at the two ends, as `str::trim` does.
pub fn trim_text(s: &str) -> (r: String)
    ensures
        r@ == trimmed(s@),
{
    string_of(&trim_chars(&chars_of(s), CharClass::White))
}

// ---------------------------------------------------------------------------
// Prefixes, suffixes and pieces
// ---------------------------------------------------------------------------

/// Whether `s` begins with `prefix`.
pub fn starts_with(s: &str, prefix: &str) -> (r: bool)
    ensures
        r == prefix@.is_prefix_of(s@),
{
    let a: Vec<char> = chars_of(s);
    let b: Vec<char> = chars_of(prefix);
    if b.len() > a.len() {
        return false;
    }
    let mut i: usize = 0;
    while i < b.len()
        invariant
            i <= b.len() <= a.len(),
            a@ == s@,
            b@ == prefix@,
            b@.take(i as int) == a@.take(i as int),
        decreases b.len() - i,
    {
        if a[i] != b[i] {
            assert(prefix@[i as int] != s@[i as int]);
            return false;
        }
        assert(b@.take(i + 1) == b@.take(i as int).push(b@[i as int]));
        assert(a@.take(i + 1) == a@.take(i as int).push(a@[i as int]));
        i += 1;
    }
    assert forall|k: int| 0 <= k < prefix@.len() implies prefix@[k] == s@[k] by {
        assert(b@.take(b@.len() as int)[k] == a@.take(b@.len() as int)[k]);
    }
    true
}

/// `s` without the suffix, if it ends with it.
pub open spec fn without_suffix(s: Seq<char>, suffix: Seq<char>) -> Option<Seq<char>> {
    if suffix.is_suffix_of(s) {
        Some(s.take(s.len() - suffix.len()))
    } else {
        None
    }
}

/// Removes `suffix` from the end, as `str::strip_suffix` does.
pub fn strip_suffix(s: &str, suffix: &str) -> (r: Option<String>)
    ensures
        opt_view(r) == without_suffix(s@, suffix@),
{
    let a: Vec<char> = chars_of(s);
    let b: Vec<char> = chars_of(suffix);
    if b.len() > a.len() {
        return None;
    }
    let keep: usize = a.len() - b.len();
    let mut i: usize = 0;
    while i < b.len()
        invariant
            i <= b.len() <= a.len(),
            keep == a.len() - b.len(),
            a@ == s@,
            b@ == suffix@,
            forall|k: int| 0 <= k < i ==> b@[k] == a@[keep + k],
        decreases b.len() - i,
    {
        if a[keep + i] != b[i] {
            assert(suffix@[i as int] != s@.skip(keep as int)[i as int]);
            return None;
        }
        i += 1;
    }
    assert(s@.subrange(keep as int, s@.len() as int) == suffix@);
    assert(a@.subrange(0, keep as int) == s@.take(keep as int));
    Some(string_of(&part_of(&a, 0, keep)))
}

/// The index of the first `c` in `s`, or the length of `s` if there is none.
pub open spec fn find_in(s: Seq<char>, c: char) -> int
    decreases s.len(),
{
    if s.len() == 0 || s[0] == c {
        0
    } else {
        1 + find_in(s.skip(1), c)
    }
}

/// Where `find_in` points: no `c` stands before it, and a `c` stands there
/// unless it is the end.
proof fn lemma_find_in(s: Seq<char>, c: char)
    ensures
        0 <= find_in(s, c) <= s.len(),
        forall|k: int| 0 <= k < find_in(s, c) ==> s[k] != c,
        find_in(s, c) < s.len() ==> s[find_in(s, c)] == c,
    decreases s.len(),
{
    if s.len() > 0 && s[0] != c {
        let rest = s.skip(1);
        lemma_find_in(rest, c);
        assert forall|k: int| 0 <= k < find_in(s, c) implies s[k] != c by {
            if k > 0 {
                assert(rest[k - 1] == s[k]);
            }
        }
    }
}

/// An index with no `c` before it, and with `c` there or at the end, is the one
/// that `find_in` gives.
pub proof fn lemma_find_in_unique(s: Seq<char>, c: char, n: int)
    requires
        0 <= n <= s.len(),
        forall|k: int| 0 <= k < n ==> s[k] != c,
        n < s.len() ==> s[n] == c,
    ensures
        find_in(s, c) == n,
{
    lemma_find_in(s, c);
    let m = find_in(s, c);
    if m < n {
        assert(s[m] == c);
    } else if n < m {
        assert(s[n] == c);
    }
}

/// The index of the first `c` at or behind `from`, or the length if there is none.
pub fn find_char(chars: &Vec<char>, c: char, from: usize) -> (r: usize)
    requires
        from <= chars@.len(),
    ensures
        from <= r <= chars@.len(),
        r == from + find_in(chars@.skip(from as int), c),
{
    let mut i: usize = from;
    while i < chars.len() && chars[i] != c
        invariant
            from <= i <= chars.len(),
            forall|k: int| from <= k < i ==> chars@[k] != c,
        decreases chars.len() - i,
    {
        i += 1;
    }
    proof {
        let s = chars@.skip(from as int);
        assert forall|k: int| 0 <= k < i - from implies s[k] != c by {
            assert(s[k] == chars@[from + k]);
        }
        lemma_find_in_unique(s, c, i - from);
    }
    i
}

/// The pieces of `s` between the occurrences of `sep`.
pub open spec fn pieces(s: Seq<char>, sep: char) -> Seq<Seq<char>>
    decreases s.len(),
    via pieces_shrink
{
    let k = find_in(s, sep);
    if k >= s.len() {
        seq![s]
    } else {
        seq![s.take(k)] + pieces(s.skip(k + 1), sep)
    }
}

#[via_fn]
proof fn pieces_shrink(s: Seq<char>, sep: char) {
    lemma_find_in(s, sep);
}

/// A text without `sep` is its only piece.
pub proof fn lemma_one_piece(s: Seq<char>, sep: char)
    requires
        !s.contains(sep),
    ensures
        pieces(s, sep) == seq![s],
{
    assert forall|k: int| 0 <= k < s.len() implies s[k] != sep by {
        assert(s.contains(s[k]));
    }
    lemma_find_in_unique(s, sep, s.len() as int);
}

/// The pieces of two texts with `sep` between them are those of the one and those of
/// the other.
pub proof fn lemma_pieces_between(a: Seq<char>, b: Seq<char>, sep: char)
    ensures
        pieces(a.push(sep) + b, sep) == pieces(a, sep) + pieces(b, sep),
    decreases a.len(),
{
    let t = a.push(sep) + b;
    lemma_find_in(a, sep);
    let k = find_in(a, sep);
    assert forall|i: int| 0 <= i < k implies t[i] != sep by {
        assert(t[i] == a[i]);
    }
    assert(t[k] == sep);
    lemma_find_in_unique(t, sep, k);
    assert(t.take(k) == a.take(k));
    if k < a.len() {
        let rest = a.skip(k + 1);
        lemma_pieces_between(rest, b, sep);
        assert(t.skip(k + 1) == rest.push(sep) + b);
        assert(seq![a.take(k)] + (pieces(rest, sep) + pieces(b, sep)) == seq![a.take(k)] + pieces(
            rest,
            sep,
        ) + pieces(b, sep));
    } else {
        assert(a.take(k) == a);
        assert(t.skip(k + 1) == b);
    }
}

/// A text that does not end with `sep` ends as its last piece does.
pub proof fn lemma_last_piece(s: Seq<char>, sep: char)
    requires
        s.len() > 0,
        s.last() != sep,
    ensures
        pieces(s, sep).len() > 0,
        pieces(s, sep).last().len() > 0,
        pieces(s, sep).last().last() == s.last(),
    decreases s.len(),
{
    lemma_find_in(s, sep);
    let k = find_in(s, sep);
    if k < s.len() {
        let rest = s.skip(k + 1);
        assert(rest.last() == s.last());
        lemma_last_piece(rest, sep);
    }
}

/// Splits at every `sep`, as `str::split` does.
pub fn split_at_char(chars: &Vec<char>, sep: char) -> (r: Vec<Vec<char>>)
    ensures
        r@.map_values(|v: Vec<char>| v@) == pieces(chars@, sep),
{
    let mut out: Vec<Vec<char>> = Vec::new();
    let mut from: usize = 0;
    let ghost view = |v: Vec<char>| v@;
    assert(chars@.skip(0) == chars@);
    assert(out@.map_values(view) + pieces(chars@, sep) == pieces(chars@, sep));
    loop
        invariant
            from <= chars.len(),
            view == (|v: Vec<char>| v@),
            out@.map_values(view) + pieces(chars@.skip(from as int), sep) == pieces(chars@, sep),
        decreases chars.len() - from,
    {
        let to: usize = find_char(chars, sep, from);
        let piece: Vec<char> = part_of(chars, from, to);
        let ghost rest = chars@.skip(from as int);
        let ghost done = out@;
        assert(piece@ == rest.take(to - from));
        out.push(piece);
        assert(out@.map_values(view) == done.map_values(view).push(piece@));
        if to >= chars.len() {
            assert(rest.take(to - from) == rest);
            assert(done.map_values(view) + seq![rest] == done.map_values(view).push(rest));
            return out;
        }
        assert(rest.skip(to - from + 1) == chars@.skip(to + 1));
        assert(done.map_values(view) + (seq![piece@] + pieces(chars@.skip(to + 1), sep))
            == done.map_values(view).push(piece@) + pieces(chars@.skip(to + 1), sep));
        from = to + 1;
    }
}

/// The texts of `parts` with `sep` between each two.
pub open spec fn joined(parts: Seq<Seq<char>>, sep: Seq<char>) -> Seq<char>
    decreases parts.len(),
{
    if parts.len() == 0 {
        Seq::empty()
    } else if parts.len() == 1 {
        parts[0]
    } else {
        joined(parts.drop_last(), sep) + sep + parts.last()
    }
}

/// Joins texts, as `[String]::join` does.
pub fn join_texts(parts: &Vec<String>, sep: &str) -> (r: String)
    ensures
        r@ == joined(views(parts@), sep@),
{
    let mut out: String = String::new();
    let mut i: usize = 0;
    while i < parts.len()
        invariant
            i <= parts.len(),
            out@ == joined(views(parts@).take(i as int), sep@),
        decreases parts.len() - i,
    {
        let ghost seen = views(parts@).take(i + 1);
        assert(seen.drop_last() == views(parts@).take(i as int));
        assert(seen.last() == parts@[i as int]@);
        if i > 0 {
            out.append(sep);
        }
        out.append(parts[i].as_str());
        i += 1;
    }
    assert(views(parts@).take(i as int) == views(parts@));
    out
}

// ---------------------------------------------------------------------------
// ASCII case
// ---------------------------------------------------------------------------

/// The lower-case form of an ASCII capital; any other character itself.
pub open spec fn lower_char(c: char) -> char {
    if 'A' <= c <= 'Z' {
        (c as u32 + 32) as char
    } else {
        c
    }
}

/// `s` with its ASCII capitals in lower case.
pub open spec fn lower_text(s: Seq<char>) -> Seq<char> {
    s.map_values(|c: char| lower_char(c))
}

/// The lower-case form of an ASCII capital; any other character itself.
pub fn to_lower(c: char) -> (r: char)
    ensures
        r == lower_char(c),
{
    if 'A' <= c && c <= 'Z' {
        let code: u8 = c as u8;
        (code + 32) as char
    } else {
        c
    }
}

/// Puts the ASCII capitals in lower case, as `str::to_ascii_lowercase` does.
pub fn lower_chars(chars: &Vec<char>) -> (r: Vec<char>)
    ensures
        r@ == lower_text(chars@),
{
    let mut out: Vec<char> = Vec::new();
    let mut i: usize = 0;
    while i < chars.len()
        invariant
            i <= chars.len(),
            out@ == lower_text(chars@.take(i as int)),
        decreases chars.len() - i,
    {
        assert(lower_text(chars@.take(i + 1)) == lower_text(chars@.take(i as int)).push(
            lower_char(chars@[i as int]),
        ));
        out.push(to_lower(chars[i]));
        i += 1;
    }
    assert(chars@.take(i as int) == chars@);
    out
}

/// Whether two texts are equal but for ASCII case, as `str::eq_ignore_ascii_case`.
pub fn eq_ignore_case(a: &str, b: &str) -> (r: bool)
    ensures
        r == (lower_text(a@) == lower_text(b@)),
{
    let x: String = string_of(&lower_chars(&chars_of(a)));
    let y: String = string_of(&lower_chars(&chars_of(b)));
    text_eq(x.as_str(), y.as_str())
}

// ---------------------------------------------------------------------------
// Numbers
// ---------------------------------------------------------------------------

/// The character of one decimal digit.
pub open spec fn digit_char(d: nat) -> char
    recommends
        d < 10,
{
    (48 + d) as char
}

/// The decimal notation of `n`.
pub open spec fn decimal(n: nat) -> Seq<char>
    decreases n,
{
    if n < 10 {
        seq![digit_char(n)]
    } else {
        decimal(n / 10).push(digit_char(n % 10))
    }
}

/// The decimal notation of `n`, with a minus sign if it is negative.
pub open spec fn decimal_int(n: int) -> Seq<char> {
    if n < 0 {
        seq!['-'] + decimal((-n) as nat)
    } else {
        decimal(n as nat)
    }
}

/// Appends the decimal notation of `n`.
pub fn append_decimal(out: &mut String, n: u128)
    ensures
        final(out)@ == old(out)@ + decimal(n as nat),
    decreases n,
{
    if n >= 10 {
        append_decimal(out, n / 10);
    }
    let code: u8 = 48 + (n % 10) as u8;
    out.push(code as char);
    assert(out@ == old(out)@ + decimal(n as nat));
}

/// The decimal notation of `n`.
pub fn decimal_text(n: u64) -> (r: String)
    ensures
        r@ == decimal(n as nat),
{
    let mut out: String = String::new();
    append_decimal(&mut out, n as u128);
    assert(Seq::<char>::empty() + decimal(n as nat) == decimal(n as nat));
    out
}

/// The decimal notation of `n`, with a minus sign if it is negative.
pub fn decimal_int_text(n: i64) -> (r: String)
    ensures
        r@ == decimal_int(n as int),
{
    if n < 0 {
        let mut out: String = String::new();
        out.push('-');
        let magnitude: u128 = (-(n as i128)) as u128;
        append_decimal(&mut out, magnitude);
        assert(out@ == seq!['-'] + decimal((-n) as nat));
        out
    } else {
        decimal_text(n as u64)
    }
}

/// Whether `c` is an ASCII digit.
pub open spec fn is_digit(c: char) -> bool {
    '0' <= c <= '9'
}

/// The number that a sequence of decimal digits denotes.
pub open spec fn digits_value(s: Seq<char>) -> Option<nat>
    decreases s.len(),
{
    if s.len() == 0 {
        Some(0)
    } else {
        match digits_value(s.drop_last()) {
            Some(v) if is_digit(s.last()) => Some(10 * v + (s.last() as nat - 48) as nat),
            _ => None,
        }
    }
}

/// A prefix of a number's digits denotes at most the number, and a text with a
/// prefix that is no number is no number.
proof fn lemma_digits_prefix(s: Seq<char>, n: int)
    requires
        0 <= n <= s.len(),
    ensures
        digits_value(s) is Some ==> digits_value(s.take(n)) is Some && digits_value(s.take(n))->0
            <= digits_value(s)->0,
    decreases s.len(),
{
    if n == s.len() {
        assert(s.take(n) == s);
    } else {
        lemma_digits_prefix(s.drop_last(), n);
        assert(s.drop_last().take(n) == s.take(n));
    }
}

/// The decimal notation of a number consists of digits, and denotes the number.
pub proof fn lemma_decimal_denotes(n: nat)
    ensures
        decimal(n).len() > 0,
        forall|k: int| 0 <= k < decimal(n).len() ==> is_digit(#[trigger] decimal(n)[k]),
        digits_value(decimal(n)) == Some(n),
    decreases n,
{
    if n < 10 {
        let d = decimal(n);
        assert(d.drop_last() == Seq::<char>::empty());
        assert(digits_value(d.drop_last()) == Some(0nat));
        assert(d.last() == digit_char(n));
    } else {
        lemma_decimal_denotes(n / 10);
        let d = decimal(n);
        assert(d.drop_last() == decimal(n / 10));
        assert(d.last() == digit_char(n % 10));
    }
}

/// What a sign and digits denote, if the value lies in the given range: an
/// optional plus sign (or, where the range has negative values, a minus sign)
/// before at least one digit.
pub open spec fn number_in(s: Seq<char>, min: int, max: int) -> Option<int> {
    let minus = min < 0 && s.len() > 0 && s[0] == '-';
    let plus = s.len() > 0 && s[0] == '+';
    let body = if minus || plus {
        s.skip(1)
    } else {
        s
    };
    if body.len() == 0 {
        None
    } else {
        match digits_value(body) {
            Some(v) => {
                let n: int = if minus {
                    -(v as int)
                } else {
                    v as int
                };
                if min <= n <= max {
                    Some(n)
                } else {
                    None
                }
            },
            None => None,
        }
    }
}

/// The number that the digits from `from` on denote, if it is at most `limit`.
fn read_digits(chars: &Vec<char>, from: usize, limit: u64) -> (r: Option<u64>)
    requires
        from <= chars@.len(),
    ensures
        match digits_value(chars@.skip(from as int)) {
            Some(v) if v <= limit => r == Some(v as u64),
            _ => r is None,
        },
{
    let ghost s = chars@.skip(from as int);
    let mut value: u64 = 0;
    let mut i: usize = from;
    while i < chars.len()
        invariant
            from <= i <= chars.len(),
            s == chars@.skip(from as int),
            digits_value(s.take(i - from)) == Some(value as nat),
            value <= limit,
        decreases chars.len() - i,
    {
        let c: char = chars[i];
        proof {
            lemma_digits_prefix(s, i + 1 - from);
            assert(s.take(i + 1 - from).drop_last() == s.take(i - from));
            assert(s.take(i + 1 - from).last() == c);
        }
        if !('0' <= c && c <= '9') {
            return None;
        }
        let digit: u64 = (c as u8 - 48) as u64;
        let next: u128 = 10 * (value as u128) + digit as u128;
        if next > limit as u128 {
            return None;
        }
        value = next as u64;
        i += 1;
    }
    assert(s.take(i - from) == s);
    Some(value)
}

/// Reads a `u32`, as `str::parse` does.
pub fn parse_u32(chars: &Vec<char>) -> (r: Option<u32>)
    ensures
        match number_in(chars@, 0, u32::MAX as int) {
            Some(n) => r == Some(n as u32),
            None => r is None,
        },
{
    let from: usize = if chars.len() > 0 && chars[0] == '+' {
        1
    } else {
        0
    };
    assert(from == 0 ==> chars@.skip(0) == chars@);
    if from == chars.len() {
        return None;
    }
    match read_digits(chars, from, u32::MAX as u64) {
        Some(v) => Some(v as u32),
        None => None,
    }
}

/// Reads an `i64`, as `str::parse` does.
pub fn parse_i64(chars: &Vec<char>) -> (r: Option<i64>)
    ensures
        match number_in(chars@, i64::MIN as int, i64::MAX as int) {
            Some(n) => r == Some(n as i64),
            None => r is None,
        },
{
    let minus: bool = chars.len() > 0 && chars[0] == '-';
    let from: usize = if minus || (chars.len() > 0 && chars[0] == '+') {
        1
    } else {
        0
    };
    assert(from == 0 ==> chars@.skip(0) == chars@);
    if from == chars.len() {
        return None;
    }
    if minus {
        match read_digits(chars, from, 9_223_372_036_854_775_808) {
            Some(v) => {
                let n: i128 = -(v as i128);
                Some(n as i64)
            },
            None => None,
        }
    } else {
        match read_digits(chars, from, i64::MAX as u64) {
            Some(v) => Some(v as i64),
            None => None,
        }
    }
}

// ---------------------------------------------------------------------------
// Laws
// ---------------------------------------------------------------------------

/// The white space is that of Unicode: tab to carriage return, the space, the next
/// line, and the spaces and separators beyond Latin-1.
pub proof fn white_space_is_that_of_unicode(c: char)
    ensures
        CharClass::White.has(c) <==> {
            let code = c as u32;
            ||| 0x9 <= code <= 0xd
            ||| code == 0x20
            ||| code == 0x85
            ||| code == 0xa0
            ||| code == 0x1680
            ||| 0x2000 <= code <= 0x200a
            ||| code == 0x2028
            ||| code == 0x2029
            ||| code == 0x202f
            ||| code == 0x205f
            ||| code == 0x3000
        },
{
}

/// A class of one character holds that character alone.
pub proof fn a_class_of_one_holds_one(c: char, d: char)
    ensures
        CharClass::Exactly(d).has(c) <==> c == d,
{
}

/// Trimming takes the characters of a class off both ends, all of them, and nothing else:
/// it leaves the text that stands between them.
pub proof fn trimming_leaves_what_stands_between(
    before: Seq<char>,
    middle: Seq<char>,
    after: Seq<char>,
    class: CharClass,
)
    requires
        forall|i: int| 0 <= i < before.len() ==> class.has(#[trigger] before[i]),
        forall|i: int| 0 <= i < after.len() ==> class.has(#[trigger] after[i]),
        middle.len() > 0 ==> !class.has(middle[0]) && !class.has(middle.last()),
    ensures
        trim_of(before + middle + after, class) == middle,
        class == CharClass::White ==> trimmed(before + middle + after) == middle,
    decreases before.len() + after.len(),
{
    let s = before + middle + after;
    if before.len() > 0 {
        assert(s[0] == before[0]);
        assert(s.skip(1) == before.skip(1) + middle + after);
        trimming_leaves_what_stands_between(before.skip(1), middle, after, class);
    } else if middle.len() == 0 {
        lemma_trim_all(s, class);
    } else {
        assert(s == middle + after);
        assert(s[0] == middle[0]);
        assert(trim_start_of(s, class) == s);
        lemma_trim_end_between(middle, after, class);
    }
}

proof fn lemma_trim_all(s: Seq<char>, class: CharClass)
    requires
        forall|i: int| 0 <= i < s.len() ==> class.has(#[trigger] s[i]),
    ensures
        trim_of(s, class) == Seq::<char>::empty(),
    decreases s.len(),
{
    if s.len() > 0 {
        lemma_trim_all(s.skip(1), class);
    }
}

proof fn lemma_trim_end_between(middle: Seq<char>, after: Seq<char>, class: CharClass)
    requires
        forall|i: int| 0 <= i < after.len() ==> class.has(#[trigger] after[i]),
        middle.len() > 0 ==> !class.has(middle.last()),
    ensures
        trim_end_of(middle + after, class) == middle,
    decreases after.len(),
{
    let s = middle + after;
    if after.len() > 0 {
        assert(s.last() == after.last());
        assert(s.drop_last() == middle + after.drop_last());
        lemma_trim_end_between(middle, after.drop_last(), class);
    } else {
        assert(s == middle);
    }
}

/// Every text is white space, what trimming leaves, and white space.
pub proof fn trimming_takes_white_space_only(s: Seq<char>) -> (ends: (Seq<char>, Seq<char>))
    ensures
        s == ends.0 + trimmed(s) + ends.1,
        forall|i: int| 0 <= i < ends.0.len() ==> CharClass::White.has(#[trigger] ends.0[i]),
        forall|i: int| 0 <= i < ends.1.len() ==> CharClass::White.has(#[trigger] ends.1[i]),
        trimmed(s).len() > 0 ==> !CharClass::White.has(trimmed(s)[0]) && !CharClass::White.has(
            trimmed(s).last(),
        ),
    decreases s.len(),
{
    let class = CharClass::White;
    if s.len() > 0 && class.has(s[0]) {
        let (before, after) = trimming_takes_white_space_only(s.skip(1));
        let more = seq![s[0]] + before;
        assert(s == more + trimmed(s) + after) by {
            assert(s == seq![s[0]] + s.skip(1));
        }
        assert forall|i: int| 0 <= i < more.len() implies class.has(#[trigger] more[i]) by {
            if i > 0 {
                assert(more[i] == before[i - 1]);
            }
        }
        (more, after)
    } else {
        let after = lemma_trim_end_splits(s);
        lemma_trim_ends(s, class);
        let t = trim_end_of(s, class);
        if t.len() > 0 {
            assert(t[0] == s[0]);
        }
        assert(s == Seq::<char>::empty() + trimmed(s) + after);
        (Seq::empty(), after)
    }
}

proof fn lemma_trim_end_splits(s: Seq<char>) -> (after: Seq<char>)
    ensures
        s == trim_end_of(s, CharClass::White) + after,
        forall|i: int| 0 <= i < after.len() ==> CharClass::White.has(#[trigger] after[i]),
    decreases s.len(),
{
    let class = CharClass::White;
    if s.len() > 0 && class.has(s.last()) {
        let after = lemma_trim_end_splits(s.drop_last());
        assert(s == s.drop_last().push(s.last()));
        assert(s == trim_end_of(s, class) + after.push(s.last()));
        after.push(s.last())
    } else {
        assert(s == trim_end_of(s, class) + Seq::<char>::empty());
        Seq::empty()
    }
}

/// Whether two characters are one ASCII letter in its two cases.
pub open spec fn are_two_cases(a: char, b: char) -> bool {
    ||| 65 <= a as u32 <= 90 && b as u32 == a as u32 + 32
    ||| 65 <= b as u32 <= 90 && a as u32 == b as u32 + 32
}

/// Texts are equal but for case where they are equally long, and character by
/// character either the same or one ASCII letter in its two cases.
pub proof fn case_is_all_that_may_differ(a: &str, b: &str, r: bool)
    requires
        call_ensures(eq_ignore_case, (a, b), r),
    ensures
        r <==> a@.len() == b@.len() && forall|i: int|
            0 <= i < a@.len() ==> (#[trigger] a@[i]) == b@[i] || are_two_cases(a@[i], b@[i]),
{
    let x = lower_text(a@);
    let y = lower_text(b@);
    if x == y {
        assert forall|i: int| 0 <= i < a@.len() implies (#[trigger] a@[i]) == b@[i]
            || are_two_cases(a@[i], b@[i]) by {
            assert(x[i] == y[i]);
            lemma_lower_code(a@[i]);
            lemma_lower_code(b@[i]);
        }
    }
    if a@.len() == b@.len() && forall|i: int|
        0 <= i < a@.len() ==> (#[trigger] a@[i]) == b@[i] || are_two_cases(a@[i], b@[i]) {
        assert forall|i: int| 0 <= i < x.len() implies x[i] == y[i] by {
            assert(a@[i] == b@[i] || are_two_cases(a@[i], b@[i]));
            lemma_lower_code(a@[i]);
            lemma_lower_code(b@[i]);
        }
        assert(x == y);
    }
}

proof fn lemma_lower_code(c: char)
    ensures
        65 <= c as u32 <= 90 ==> lower_char(c) as u32 == c as u32 + 32,
        !(65 <= c as u32 <= 90) ==> lower_char(c) == c,
{
}

/// A suffix is stripped where the text is something followed by the suffix, and what
/// is left is that something.
pub proof fn what_is_stripped_stands_at_the_end(s: &str, suffix: &str, r: Option<String>)
    requires
        call_ensures(strip_suffix, (s, suffix), r),
    ensures
        r matches Some(rest) ==> s@ == rest@ + suffix@,
        r is None ==> forall|rest: Seq<char>| s@ != #[trigger] (rest + suffix@),
{
    if suffix@.is_suffix_of(s@) {
        assert(s@ == s@.take(s@.len() - suffix@.len()) + suffix@);
    }
    assert forall|rest: Seq<char>| r is None implies s@ != #[trigger] (rest + suffix@) by {
        if s@ == rest + suffix@ {
            assert(s@.skip(s@.len() - suffix@.len()) == suffix@);
        }
    }
}

/// What is joined stands in order, with the separator before each text but the first.
pub proof fn joining_one_text_more(parts: Seq<Seq<char>>, last: Seq<char>, sep: Seq<char>)
    ensures
        joined(Seq::empty(), sep) == Seq::<char>::empty(),
        joined(seq![last], sep) == last,
        parts.len() > 0 ==> joined(parts.push(last), sep) == joined(parts, sep) + sep + last,
{
    assert(parts.push(last).drop_last() == parts);
}

/// Digits denote a number in base ten, the first ones counting most.
pub proof fn a_digit_more_counts_the_others_tenfold(s: Seq<char>, c: char)
    ensures
        digits_value(Seq::empty()) == Some(0nat),
        digits_value(s.push(c)) is Some <==> digits_value(s) is Some && 48 <= c as u32 <= 57,
        digits_value(s.push(c)) is Some ==> digits_value(s.push(c))->0 == 10 * digits_value(s)->0 + (
        c as u32 - 48),
{
    assert(s.push(c).drop_last() == s);
}

/// The notation of a number has no zero in front, but for zero itself.
pub proof fn notation_has_no_zero_in_front(n: nat)
    ensures
        decimal(n).len() > 0,
        decimal(n)[0] == '0' ==> n == 0,
    decreases n,
{
    if n >= 10 {
        notation_has_no_zero_in_front(n / 10);
    }
}

/// A number is read back from its notation, with or without a plus sign, if it lies in
/// the range, and otherwise not.
pub proof fn a_number_is_read_from_its_notation(n: int, min: int, max: int)
    requires
        min <= 0 <= max,
    ensures
        number_in(decimal_int(n), min, max) == if min <= n <= max {
            Some(n)
        } else {
            None
        },
        n >= 0 ==> number_in(seq!['+'] + decimal_int(n), min, max) == if n <= max {
            Some(n)
        } else {
            None
        },
{
    let m: nat = if n < 0 {
        (-n) as nat
    } else {
        n as nat
    };
    lemma_decimal_denotes(m);
    assert(is_digit(decimal(m)[0]));
    if n < 0 {
        assert(decimal_int(n).skip(1) == decimal(m));
        if min == 0 {
            let s = decimal_int(n);
            assert(s[0] == '-');
            lemma_digits_are_digits(s, 0);
        }
    } else {
        assert((seq!['+'] + decimal(m)).skip(1) == decimal(m));
    }
}

proof fn lemma_digits_are_digits(s: Seq<char>, i: int)
    requires
        0 <= i < s.len(),
    ensures
        digits_value(s) is Some ==> is_digit(s[i]),
    decreases s.len(),
{
    if i < s.len() - 1 {
        lemma_digits_are_digits(s.drop_last(), i);
    }
}

/// Only digits are read as a number, at least one, behind at most one sign; a minus
/// sign only where the range has negative numbers.
pub proof fn a_number_is_a_sign_and_digits(s: Seq<char>, min: int, max: int)
    requires
        number_in(s, min, max) is Some,
    ensures
        min <= number_in(s, min, max)->0 <= max,
        s.len() > 0,
        48 <= s[0] as u32 <= 57 || s.len() > 1 && (s[0] == '+' || s[0] == '-' && min < 0),
        forall|i: int| 1 <= i < s.len() ==> 48 <= (#[trigger] s[i]) as u32 <= 57,
{
    if s[0] == '+' || (min < 0 && s[0] == '-') {
        let body = s.skip(1);
        assert forall|i: int| 1 <= i < s.len() implies 48 <= (#[trigger] s[i]) as u32 <= 57 by {
            assert(body[i - 1] == s[i]);
            lemma_digits_are_digits(body, i - 1);
        }
    } else {
        lemma_digits_are_digits(s, 0);
        assert forall|i: int| 0 <= i < s.len() implies 48 <= (#[trigger] s[i]) as u32 <= 57 by {
            lemma_digits_are_digits(s, i);
        }
    }
}

/// A negative number is written as a minus sign and the notation of its magnitude, any
/// other by its own notation.
pub proof fn a_minus_sign_stands_in_front(n: int)
    ensures
        n < 0 ==> decimal_int(n) == seq!['-'] + decimal((-n) as nat),
        n >= 0 ==> decimal_int(n) == decimal(n as nat),
{
}

} // verus!
