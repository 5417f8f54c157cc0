//! Text primitives over sequences of characters.
//!
//! Every function here is specified on the `Seq<char>` view of its arguments.
//! Positions count characters, not bytes.

use vstd::prelude::*;

verus! {

/// Whether `pat` stands in `s` at position `i`.
pub open spec fn occurs_at(s: Seq<char>, pat: Seq<char>, i: int) -> bool {
    0 <= i && i + pat.len() <= s.len() && s.subrange(i, i + pat.len()) == pat
}

/// Whether `s` begins with `prefix`.
pub open spec fn has_prefix(s: Seq<char>, prefix: Seq<char>) -> bool {
    occurs_at(s, prefix, 0)
}

/// Whether `s` ends with `suffix`.
pub open spec fn has_suffix(s: Seq<char>, suffix: Seq<char>) -> bool {
    occurs_at(s, suffix, s.len() - suffix.len())
}

/// Whether `pat` stands somewhere in `s`.
pub open spec fn has_substring(s: Seq<char>, pat: Seq<char>) -> bool {
    exists|i: int| occurs_at(s, pat, i)
}

/// The number of characters of `s` before the first `c`, or the length of `s`
/// where `c` does not occur in it.
pub open spec fn offset_of(s: Seq<char>, c: char) -> nat
    decreases s.len(),
{
    if s.len() == 0 || s[0] == c {
        0
    } else {
        1 + offset_of(s.drop_first(), c)
    }
}

/// `offset_of` stays within the sequence, passes over no `c`, and stops at one.
pub proof fn lemma_offset_of(s: Seq<char>, c: char)
    ensures
        offset_of(s, c) <= s.len(),
        forall|j: int| 0 <= j < offset_of(s, c) ==> s[j] != c,
        offset_of(s, c) < s.len() ==> s[offset_of(s, c) as int] == c,
    decreases s.len(),
{
    if !(s.len() == 0 || s[0] == c) {
        let t = s.drop_first();
        lemma_offset_of(t, c);
        assert forall|j: int| 0 <= j < offset_of(s, c) implies s[j] != c by {
            if j > 0 {
                assert(s[j] == t[j - 1]);
            }
        }
    }
}

/// A position that no `c` precedes, and that holds a `c` or ends the
/// sequence, is the offset of `c`.
pub proof fn lemma_offset_of_is(s: Seq<char>, c: char, i: int)
    requires
        0 <= i <= s.len(),
        forall|j: int| 0 <= j < i ==> s[j] != c,
        i < s.len() ==> s[i] == c,
    ensures
        offset_of(s, c) == i,
    decreases s.len(),
{
    if !(s.len() == 0 || s[0] == c) {
        let t = s.drop_first();
        lemma_offset_of_is(t, c, i - 1);
    }
}

/// The pieces of `s` between occurrences of `sep`. There is always at least
/// one piece; two separators in a row enclose an empty piece.
pub open spec fn split_on(s: Seq<char>, sep: char) -> Seq<Seq<char>>
    decreases s.len(),
{
    let n = offset_of(s, sep) as int;
    if n >= s.len() {
        seq![s]
    } else {
        seq![s.take(n)] + split_on(s.skip(n + 1), sep)
    }
}

/// `line` without one trailing carriage return.
pub open spec fn strip_cr(line: Seq<char>) -> Seq<char> {
    if line.len() > 0 && line.last() == '\r' {
        line.drop_last()
    } else {
        line
    }
}

/// The lines of `s`. A line ends at a line feed, or at a carriage return
/// directly followed by one; the terminator is not part of the line, and the
/// last line needs none.
pub open spec fn lines_of(s: Seq<char>) -> Seq<Seq<char>>
    decreases s.len(),
{
    let n = offset_of(s, '\n') as int;
    if s.len() == 0 {
        Seq::empty()
    } else if n >= s.len() {
        seq![s]
    } else {
        seq![strip_cr(s.take(n))] + lines_of(s.skip(n + 1))
    }
}

/// `parts` with `sep` between each two neighbours.
pub open spec fn joined(parts: Seq<Seq<char>>, sep: Seq<char>) -> Seq<char>
    decreases parts.len(),
{
    if parts.len() == 0 {
        Seq::empty()
    } else if parts.len() == 1 {
        parts[0]
    } else {
        joined(parts.drop_last(), sep) + sep + parts.last()
    }
}

/// `s` with each occurrence of `from` replaced by `to`, scanning from the
/// left; an occurrence that overlaps a replaced one is not replaced. An empty
/// `from` occurs nowhere.
pub open spec fn replaced(s: Seq<char>, from: Seq<char>, to: Seq<char>) -> Seq<char>
    decreases s.len(),
{
    if from.len() == 0 || s.len() == 0 {
        s
    } else if has_prefix(s, from) {
        to + replaced(s.skip(from.len() as int), from, to)
    } else {
        seq![s[0]] + replaced(s.drop_first(), from, to)
    }
}

/// Whether `c` is white space: one of the code points with the Unicode
/// property `White_Space`.
pub open spec fn is_space(c: char) -> bool {
    let n = c as u32;
    ||| 0x09 <= n <= 0x0D
    ||| n == 0x20
    ||| n == 0x85
    ||| n == 0xA0
    ||| n == 0x1680
    ||| 0x2000 <= n <= 0x200A
    ||| n == 0x2028
    ||| n == 0x2029
    ||| n == 0x202F
    ||| n == 0x205F
    ||| n == 0x3000
}

/// `s` without the white space at its end.
pub open spec fn trimmed_end(s: Seq<char>) -> Seq<char>
    decreases s.len(),
{
    if s.len() > 0 && is_space(s.last()) {
        trimmed_end(s.drop_last())
    } else {
        s
    }
}

/// `s` without the white space at its start.
pub open spec fn trimmed_start(s: Seq<char>) -> Seq<char>
    decreases s.len(),
{
    if s.len() > 0 && is_space(s[0]) {
        trimmed_start(s.drop_first())
    } else {
        s
    }
}

/// `s` without the white space at either end.
pub open spec fn trimmed(s: Seq<char>) -> Seq<char> {
    trimmed_end(trimmed_start(s))
}

/// The number of characters of `s` before its first white space.
pub open spec fn word_len(s: Seq<char>) -> nat
    decreases s.len(),
{
    if s.len() == 0 || is_space(s[0]) {
        0
    } else {
        1 + word_len(s.drop_first())
    }
}

/// The maximal runs of characters of `s` that are not white space.
pub open spec fn words_of(s: Seq<char>) -> Seq<Seq<char>>
    decreases s.len(),
{
    let n = word_len(s) as int;
    if s.len() == 0 {
        Seq::empty()
    } else if is_space(s[0]) {
        words_of(s.drop_first())
    } else if 1 <= n <= s.len() {
        seq![s.take(n)] + words_of(s.skip(n))
    } else {
        Seq::empty()
    }
}

/// A position that no white space precedes, and that holds white space or
/// ends the sequence, is the length of the first word.
pub proof fn lemma_word_len_is(s: Seq<char>, i: int)
    requires
        0 <= i <= s.len(),
        forall|j: int| 0 <= j < i ==> !is_space(s[j]),
        i < s.len() ==> is_space(s[i]),
    ensures
        word_len(s) == i,
    decreases s.len(),
{
    if !(s.len() == 0 || is_space(s[0])) {
        let t = s.drop_first();
        lemma_word_len_is(t, i - 1);
    }
}

/// The characters of `s`, in order.
pub fn to_chars(s: &str) -> (chars: Vec<char>)
    ensures
        chars@ == s@,
{
    let mut chars: Vec<char> = Vec::new();
    let n: usize = s.unicode_len();
    let mut i: usize = 0;
    while i < n
        invariant
            n == s@.len(),
            i <= n,
            chars@ == s@.take(i as int),
        decreases n - i,
    {
        chars.push(s.get_char(i));
        i += 1;
    }
    chars
}

/// Whether `c` is white space.
pub fn is_whitespace(c: char) -> (space: bool)
    ensures
        space == is_space(c),
{
    let n: u32 = c as u32;
    (0x09 <= n && n <= 0x0D) || n == 0x20 || n == 0x85 || n == 0xA0 || n == 0x1680 || (0x2000 <= n
        && n <= 0x200A) || n == 0x2028 || n == 0x2029 || n == 0x202F || n == 0x205F || n == 0x3000
}

/// Whether `pat` stands in `s` at position `i`.
pub fn matches_at(s: &Vec<char>, pat: &Vec<char>, i: usize) -> (found: bool)
    ensures
        found == occurs_at(s@, pat@, i as int),
{
    if pat.len() > s.len() || i > s.len() - pat.len() {
        return false;
    }
    let mut k: usize = 0;
    while k < pat.len()
        invariant
            i + pat.len() <= s.len(),
            k <= pat.len(),
            forall|j: int| 0 <= j < k ==> s@[i + j] == pat@[j],
        decreases pat.len() - k,
    {
        if s[i + k] != pat[k] {
            return false;
        }
        k += 1;
    }
    assert(s@.subrange(i as int, i + pat.len()) =~= pat@);
    true
}

/// Whether two strings hold the same characters.
pub fn str_eq(a: &str, b: &str) -> (same: bool)
    ensures
        same == (a@ == b@),
{
    let x = to_chars(a);
    let y = to_chars(b);
    if x.len() != y.len() {
        return false;
    }
    assert(x@.subrange(0, y@.len() as int) =~= x@);
    matches_at(&x, &y, 0)
}

/// Whether `s` begins with `prefix`.
pub fn starts_with(s: &str, prefix: &str) -> (found: bool)
    ensures
        found == has_prefix(s@, prefix@),
{
    let x = to_chars(s);
    let y = to_chars(prefix);
    matches_at(&x, &y, 0)
}

/// Whether `s` ends with `suffix`.
pub fn ends_with(s: &str, suffix: &str) -> (found: bool)
    ensures
        found == has_suffix(s@, suffix@),
{
    let x = to_chars(s);
    let y = to_chars(suffix);
    if y.len() > x.len() {
        false
    } else {
        matches_at(&x, &y, x.len() - y.len())
    }
}

/// Whether `pat` stands somewhere in `s`.
pub fn contains(s: &str, pat: &str) -> (found: bool)
    ensures
        found == has_substring(s@, pat@),
{
    let x = to_chars(s);
    let y = to_chars(pat);
    if y.len() > x.len() {
        return false;
    }
    let last: usize = x.len() - y.len();
    let mut i: usize = 0;
    loop
        invariant
            x@ == s@,
            y@ == pat@,
            last == x.len() - y.len(),
            i <= last,
            forall|j: int| 0 <= j < i ==> !occurs_at(x@, y@, j),
        decreases last - i,
    {
        if matches_at(&x, &y, i) {
            return true;
        }
        if i == last {
            return false;
        }
        i += 1;
    }
}

/// `s` without the white space at its end.
pub fn trim_end(s: &str) -> (rest: &str)
    ensures
        rest@ == trimmed_end(s@),
{
    let chars = to_chars(s);
    let mut end: usize = chars.len();
    assert(s@.take(end as int) =~= s@);
    while end > 0 && is_whitespace(chars[end - 1])
        invariant
            chars@ == s@,
            end <= chars.len(),
            trimmed_end(s@) == trimmed_end(s@.take(end as int)),
        decreases end,
    {
        assert(s@.take(end as int).drop_last() =~= s@.take(end - 1));
        end -= 1;
    }
    s.substring_char(0, end)
}

/// `s` without the white space at either end.
pub fn trim(s: &str) -> (rest: &str)
    ensures
        rest@ == trimmed(s@),
{
    let chars = to_chars(s);
    let n: usize = chars.len();
    let mut start: usize = 0;
    assert(s@.skip(0) =~= s@);
    while start < n && is_whitespace(chars[start])
        invariant
            chars@ == s@,
            n == chars.len(),
            start <= n,
            trimmed_start(s@) == trimmed_start(s@.skip(start as int)),
        decreases n - start,
    {
        assert(s@.skip(start as int).drop_first() =~= s@.skip(start + 1));
        start += 1;
    }
    let mut end: usize = n;
    while end > start && is_whitespace(chars[end - 1])
        invariant
            chars@ == s@,
            n == chars.len(),
            start <= end <= n,
            trimmed(s@) == trimmed_end(s@.subrange(start as int, end as int)),
        decreases end,
    {
        assert(s@.subrange(start as int, end as int).drop_last() =~= s@.subrange(
            start as int,
            end - 1,
        ));
        end -= 1;
    }
    s.substring_char(start, end)
}

/// The pieces of `s` between occurrences of `sep`.
pub fn split(s: &str, sep: char) -> (pieces: Vec<String>)
    ensures
        pieces.deep_view() == split_on(s@, sep),
{
    let chars = to_chars(s);
    let n: usize = chars.len();
    let mut pieces: Vec<String> = Vec::new();
    let mut start: usize = 0;
    let mut i: usize = 0;
    assert(s@.skip(0) =~= s@);
    while i < n
        invariant
            chars@ == s@,
            n == chars.len(),
            start <= i <= n,
            forall|j: int| start <= j < i ==> s@[j] != sep,
            pieces.deep_view() + split_on(s@.skip(start as int), sep) == split_on(s@, sep),
        decreases n - i,
    {
        if chars[i] == sep {
            let piece = String::from_str(s.substring_char(start, i));
            proof {
                let t = s@.skip(start as int);
                lemma_offset_of_is(t, sep, i - start);
                assert(t.take(i - start) =~= s@.subrange(start as int, i as int));
                assert(t.skip(i - start + 1) =~= s@.skip(i + 1));
            }
            pieces.push(piece);
            start = i + 1;
        }
        i += 1;
    }
    let piece = String::from_str(s.substring_char(start, n));
    proof {
        let t = s@.skip(start as int);
        lemma_offset_of_is(t, sep, n - start);
    }
    pieces.push(piece);
    pieces
}

/// The lines of `s`.
pub fn lines(s: &str) -> (found: Vec<String>)
    ensures
        found.deep_view() == lines_of(s@),
{
    let chars = to_chars(s);
    let n: usize = chars.len();
    let mut found: Vec<String> = Vec::new();
    let mut start: usize = 0;
    let mut i: usize = 0;
    assert(s@.skip(0) =~= s@);
    while i < n
        invariant
            chars@ == s@,
            n == chars.len(),
            start <= i <= n,
            forall|j: int| start <= j < i ==> s@[j] != '\n',
            found.deep_view() + lines_of(s@.skip(start as int)) == lines_of(s@),
        decreases n - i,
    {
        if chars[i] == '\n' {
            let end: usize = if i > start && chars[i - 1] == '\r' {
                i - 1
            } else {
                i
            };
            let line = String::from_str(s.substring_char(start, end));
            proof {
                let t = s@.skip(start as int);
                lemma_offset_of_is(t, '\n', i - start);
                assert(strip_cr(t.take(i - start)) =~= s@.subrange(start as int, end as int));
                assert(t.skip(i - start + 1) =~= s@.skip(i + 1));
            }
            found.push(line);
            start = i + 1;
        }
        i += 1;
    }
    if start < n {
        let line = String::from_str(s.substring_char(start, n));
        proof {
            let t = s@.skip(start as int);
            lemma_offset_of_is(t, '\n', n - start);
        }
        found.push(line);
    } else {
    }
    found
}

/// The maximal runs of characters of `s` that are not white space.
pub fn split_whitespace(s: &str) -> (words: Vec<String>)
    ensures
        words.deep_view() == words_of(s@),
{
    let chars = to_chars(s);
    let n: usize = chars.len();
    let mut words: Vec<String> = Vec::new();
    let mut i: usize = 0;
    assert(s@.skip(0) =~= s@);
    while i < n
        invariant
            chars@ == s@,
            n == chars.len(),
            i <= n,
            words.deep_view() + words_of(s@.skip(i as int)) == words_of(s@),
        decreases n - i,
    {
        if is_whitespace(chars[i]) {
            assert(s@.skip(i as int).drop_first() =~= s@.skip(i + 1));
            i += 1;
        } else {
            let start: usize = i;
            while i < n && !is_whitespace(chars[i])
                invariant
                    chars@ == s@,
                    n == chars.len(),
                    start <= i <= n,
                    forall|j: int| start <= j < i ==> !is_space(s@[j]),
                decreases n - i,
            {
                i += 1;
            }
            let word = String::from_str(s.substring_char(start, i));
            proof {
                let t = s@.skip(start as int);
                lemma_word_len_is(t, i - start);
                assert(t.take(i - start) =~= s@.subrange(start as int, i as int));
                assert(t.skip(i - start) =~= s@.skip(i as int));
            }
            words.push(word);
        }
    }
    words
}

/// `parts` with `sep` between each two neighbours.
pub fn join(parts: &Vec<String>, sep: &str) -> (text: String)
    ensures
        text@ == joined(parts.deep_view(), sep@),
{
    let mut text = String::new();
    let mut k: usize = 0;
    while k < parts.len()
        invariant
            k <= parts.len(),
            text@ == joined(parts.deep_view().take(k as int), sep@),
        decreases parts.len() - k,
    {
        if k > 0 {
            text.append(sep);
        }
        text.append(parts[k].as_str());
        proof {
            let p = parts.deep_view();
            assert(p.take(k + 1).drop_last() =~= p.take(k as int));
        }
        k += 1;
    }
    assert(parts.deep_view().take(parts.len() as int) =~= parts.deep_view());
    text
}

/// `s` with each occurrence of `from` replaced by `to`, scanning from the
/// left.
pub fn replace_all(s: &str, from: &str, to: &str) -> (text: String)
    ensures
        text@ == replaced(s@, from@, to@),
{
    let chars = to_chars(s);
    let pat = to_chars(from);
    let n: usize = chars.len();
    if pat.len() == 0 {
        return String::from_str(s);
    }
    let mut text = String::new();
    let mut start: usize = 0;
    let mut i: usize = 0;
    assert(s@.skip(0) =~= s@);
    while i < n
        invariant
            chars@ == s@,
            pat@ == from@,
            pat.len() > 0,
            n == chars.len(),
            start <= i <= n,
            text@ + s@.subrange(start as int, i as int) + replaced(s@.skip(i as int), from@, to@)
                == replaced(s@, from@, to@),
        decreases n - i,
    {
        let ghost t = s@.skip(i as int);
        if matches_at(&chars, &pat, i) {
            proof {
                assert(t.subrange(0, pat.len() as int) =~= s@.subrange(i as int, i + pat.len()));
                assert(t.skip(pat.len() as int) =~= s@.skip(i + pat.len()));
            }
            text.append(s.substring_char(start, i));
            text.append(to);
            i += pat.len();
            start = i;
        } else {
            proof {
                if t.len() >= pat.len() {
                    assert(t.subrange(0, pat.len() as int) =~= s@.subrange(
                        i as int,
                        i + pat.len(),
                    ));
                }
                assert(t.drop_first() =~= s@.skip(i + 1));
            }
            i += 1;
        }
    }
    text.append(s.substring_char(start, n));
    text
}

/// Whether `s` holds no line feed.
pub open spec fn is_single_line(s: Seq<char>) -> bool {
    forall|i: int| 0 <= i < s.len() ==> s[i] != '\n'
}

/// Whether `text` ends in a line feed that no other line feed precedes
/// directly.
pub open spec fn ends_in_one_line_feed(text: Seq<char>) -> bool {
    &&& text.len() >= 1
    &&& text.last() == '\n'
    &&& text.len() >= 2 ==> text[text.len() - 2] != '\n'
}

/// None of the lines of a text holds a line feed.
pub proof fn lemma_lines_are_single(s: Seq<char>)
    ensures
        forall|i: int| 0 <= i < lines_of(s).len() ==> is_single_line(#[trigger] lines_of(s)[i]),
    decreases s.len(),
{
    lemma_offset_of(s, '\n');
    let n = offset_of(s, '\n') as int;
    if s.len() != 0 && n < s.len() {
        lemma_lines_are_single(s.skip(n + 1));
        let rest = lines_of(s.skip(n + 1));
    }
}

/// Trimming the end leaves a prefix that does not end in white space, and
/// trimming again changes nothing.
pub proof fn lemma_trimmed_end(s: Seq<char>)
    ensures
        trimmed_end(s).len() <= s.len(),
        trimmed_end(s) == s.take(trimmed_end(s).len() as int),
        trimmed_end(s).len() > 0 ==> !is_space(trimmed_end(s).last()),
        trimmed_end(trimmed_end(s)) == trimmed_end(s),
    decreases s.len(),
{
    if s.len() > 0 && is_space(s.last()) {
        let shorter = s.drop_last();
        lemma_trimmed_end(shorter);
    } else {
    }
}

/// Joining starts with the first part: for two parts or more, the joined
/// text is the first part, the separator, and the rest joined.
pub proof fn lemma_joined_from_first(parts: Seq<Seq<char>>, sep: Seq<char>)
    requires
        parts.len() >= 2,
    ensures
        joined(parts, sep) == parts[0] + sep + joined(parts.drop_first(), sep),
    decreases parts.len(),
{
    let front = parts.drop_last();
    let rest = parts.drop_first();
    if parts.len() == 2 {
        assert(joined(front, sep) == parts[0]);
    } else {
        lemma_joined_from_first(front, sep);
        assert(front.drop_first() =~= rest.drop_last());
    }
}

/// Lines that are written out, each ended by a line feed, are read back as
/// they were: provided that none holds a line feed or ends in a carriage
/// return.
pub proof fn lemma_lines_of_joined(rows: Seq<Seq<char>>)
    requires
        rows.len() >= 1,
        forall|i: int| 0 <= i < rows.len() ==> is_single_line(#[trigger] rows[i]),
        forall|i: int| 0 <= i < rows.len() ==> strip_cr(#[trigger] rows[i]) == rows[i],
    ensures
        lines_of(joined(rows, "\n"@) + "\n"@) == rows,
    decreases rows.len(),
{
    reveal_strlit("\n");
    let text = joined(rows, "\n"@) + "\n"@;
    let first = rows[0];
    if rows.len() == 1 {
        lemma_offset_of_is(text, '\n', first.len() as int);
        assert(text.take(first.len() as int) =~= first);
        assert(text.skip(first.len() as int + 1) =~= Seq::<char>::empty());
        assert(lines_of(Seq::<char>::empty()) =~= Seq::<Seq<char>>::empty());
    } else {
        let rest = rows.drop_first();
        lemma_joined_from_first(rows, "\n"@);
        let tail = joined(rest, "\n"@) + "\n"@;
        lemma_offset_of_is(text, '\n', first.len() as int);
        assert(text.take(first.len() as int) =~= first);
        assert(text.skip(first.len() as int + 1) =~= tail);
        lemma_lines_of_joined(rest);
    }
}

/// Replacing within a single line by a single line gives a single line.
pub proof fn lemma_replaced_is_single(s: Seq<char>, from: Seq<char>, to: Seq<char>)
    requires
        is_single_line(s),
        is_single_line(to),
    ensures
        is_single_line(replaced(s, from, to)),
    decreases s.len(),
{
    if from.len() != 0 && s.len() != 0 {
        if has_prefix(s, from) {
            let rest = s.skip(from.len() as int);
            lemma_replaced_is_single(rest, from, to);
        } else {
            let rest = s.drop_first();
            lemma_replaced_is_single(rest, from, to);
        }
    }
}

/// The text of an optional string slice.
pub open spec fn opt_text(value: Option<&str>) -> Option<Seq<char>> {
    match value {
        Some(s) => Some(s@),
        None => None,
    }
}

/// The text of an optional string.
pub open spec fn opt_view(value: Option<String>) -> Option<Seq<char>> {
    match value {
        Some(s) => Some(s@),
        None => None,
    }
}

/// An optional string as an optional string slice.
pub fn as_text(value: &Option<String>) -> (text: Option<&str>)
    ensures
        opt_text(text) == opt_view(*value),
{
    match value {
        Some(s) => Some(s.as_str()),
        None => None,
    }
}

/// None of the pieces between line feeds holds a line feed, and there is at
/// least one piece.
pub proof fn lemma_split_rows_are_single(s: Seq<char>)
    ensures
        split_on(s, '\n').len() >= 1,
        forall|i: int|
            0 <= i < split_on(s, '\n').len() ==> is_single_line(#[trigger] split_on(s, '\n')[i]),
    decreases s.len(),
{
    lemma_offset_of(s, '\n');
    let n = offset_of(s, '\n') as int;
    if n < s.len() {
        lemma_split_rows_are_single(s.skip(n + 1));
    }
}

/// Rows that are written out with a line feed between each two are read
/// back line by line: each line is the row of the same number, but for
/// white space at its end, and a row that has no line is empty. This holds
/// of rows that hold no line feed.
pub proof fn lemma_lines_of_joined_rows(rows: Seq<Seq<char>>)
    requires
        forall|i: int| 0 <= i < rows.len() ==> is_single_line(#[trigger] rows[i]),
    ensures
        lines_of(joined(rows, "\n"@)).len() <= rows.len(),
        forall|i: int|
            0 <= i < lines_of(joined(rows, "\n"@)).len() ==> trimmed_end(
                #[trigger] lines_of(joined(rows, "\n"@))[i],
            ) == trimmed_end(rows[i]),
        forall|i: int|
            lines_of(joined(rows, "\n"@)).len() <= i < rows.len() ==> (#[trigger] rows[i]).len()
                == 0,
    decreases rows.len(),
{
    reveal_strlit("\n");
    let text = joined(rows, "\n"@);
    let read = lines_of(text);
    if rows.len() == 0 {
    } else if rows.len() == 1 {
        if rows[0].len() > 0 {
            lemma_offset_of_is(text, '\n', text.len() as int);
        }
    } else {
        let first = rows[0];
        let rest = rows.drop_first();
        lemma_joined_from_first(rows, "\n"@);
        let tail = joined(rest, "\n"@);
        lemma_offset_of_is(text, '\n', first.len() as int);
        assert(text.take(first.len() as int) =~= first);
        assert(text.skip(first.len() as int + 1) =~= tail);
        lemma_lines_of_joined_rows(rest);
        assert forall|i: int| read.len() <= i < rows.len() implies (#[trigger] rows[i]).len()
            == 0 by {
            assert(rows[i] == rest[i - 1]);
        }
    }
}

/// Replacing what does not occur changes nothing.
pub proof fn lemma_replaced_without_occurrence(s: Seq<char>, from: Seq<char>, to: Seq<char>)
    requires
        !has_substring(s, from),
    ensures
        replaced(s, from, to) == s,
    decreases s.len(),
{
    if from.len() != 0 && s.len() != 0 {
        let rest = s.drop_first();
        assert(!has_substring(rest, from)) by {
            if has_substring(rest, from) {
                let k = choose|k: int| occurs_at(rest, from, k);
                assert(rest.subrange(k, k + from.len()) =~= s.subrange(k + 1, k + 1 + from.len()));
                assert(occurs_at(s, from, k + 1));
            }
        }
        lemma_replaced_without_occurrence(rest, from, to);
    }
}

/// What occurs in a piece between separators occurs in the whole.
pub proof fn lemma_split_piece_occurrence(s: Seq<char>, sep: char, i: int, part: Seq<char>)
    requires
        0 <= i < split_on(s, sep).len(),
        has_substring(split_on(s, sep)[i], part),
    ensures
        has_substring(s, part),
    decreases s.len(),
{
    let n = offset_of(s, sep) as int;
    if n < s.len() {
        let rest = s.skip(n + 1);
        let piece = split_on(s, sep)[i];
        let k = choose|k: int| occurs_at(piece, part, k);
        if i == 0 {
            assert(piece.subrange(k, k + part.len()) =~= s.subrange(k, k + part.len()));
            assert(occurs_at(s, part, k));
        } else {
            lemma_split_piece_occurrence(rest, sep, i - 1, part);
            let j = choose|j: int| occurs_at(rest, part, j);
            assert(rest.subrange(j, j + part.len()) =~= s.subrange(
                j + n + 1,
                j + n + 1 + part.len(),
            ));
            assert(occurs_at(s, part, j + n + 1));
        }
    }
}

/// The pieces between separators, written out with the separator between
/// each two, are the whole again.
pub proof fn lemma_joined_split(s: Seq<char>, sep: char)
    ensures
        joined(split_on(s, sep), seq![sep]) == s,
        split_on(s, sep).len() >= 1,
    decreases s.len(),
{
    lemma_offset_of(s, sep);
    let n = offset_of(s, sep) as int;
    if n < s.len() {
        let rest = s.skip(n + 1);
        lemma_joined_split(rest, sep);
        let pieces = split_on(s, sep);
        assert(pieces.drop_first() =~= split_on(rest, sep));
        lemma_joined_from_first(pieces, seq![sep]);
    }
}

} // verus!
