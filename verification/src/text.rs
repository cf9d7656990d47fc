//! Text handling for the dispatcher: trimming, words, and the name in front
//! of a statement.

use vstd::prelude::*;

verus! {

/// Whether the character is white space: whether it has the Unicode
/// property `White_Space`.
pub open spec fn white_space(c: char) -> bool {
    ||| '\u{9}' <= c && c <= '\u{d}'
    ||| c == ' '
    ||| c == '\u{85}'
    ||| c == '\u{a0}'
    ||| c == '\u{1680}'
    ||| '\u{2000}' <= c && c <= '\u{200a}'
    ||| c == '\u{2028}'
    ||| c == '\u{2029}'
    ||| c == '\u{202f}'
    ||| c == '\u{205f}'
    ||| c == '\u{3000}'
}

/// Tells whether the character is white space.
pub fn is_whitespace(c: char) -> (b: bool)
    ensures
        b == white_space(c),
{
    ('\u{9}' <= c && c <= '\u{d}') || c == ' ' || c == '\u{85}' || c == '\u{a0}' || c == '\u{1680}'
        || ('\u{2000}' <= c && c <= '\u{200a}') || c == '\u{2028}' || c == '\u{2029}' || c
        == '\u{202f}' || c == '\u{205f}' || c == '\u{3000}'
}

/// The text without its leading white space.
pub open spec fn trim_start(s: Seq<char>) -> Seq<char>
    decreases s.len(),
{
    if s.len() > 0 && white_space(s.first()) {
        trim_start(s.drop_first())
    } else {
        s
    }
}

/// The text without its trailing white space.
pub open spec fn trim_end(s: Seq<char>) -> Seq<char>
    decreases s.len(),
{
    if s.len() > 0 && white_space(s.last()) {
        trim_end(s.drop_last())
    } else {
        s
    }
}

/// The text without its leading and trailing white space.
pub open spec fn trimmed(s: Seq<char>) -> Seq<char> {
    trim_end(trim_start(s))
}

/// Dropping leading white space leaves what starts at the first other character.
proof fn lemma_trim_start(s: Seq<char>, a: int)
    requires
        0 <= a <= s.len(),
        forall|j: int| 0 <= j < a ==> white_space(#[trigger] s[j]),
        a < s.len() ==> !white_space(s[a]),
    ensures
        trim_start(s) == s.subrange(a, s.len() as int),
    decreases a,
{
    if a != 0 {
        let rest = s.drop_first();
        assert(forall|j: int| 0 <= j < a - 1 ==> white_space(#[trigger] rest[j]));
        lemma_trim_start(rest, a - 1);
    }
}

/// Dropping trailing white space leaves what ends with the last other character.
proof fn lemma_trim_end(s: Seq<char>, b: int)
    requires
        0 <= b <= s.len(),
        forall|j: int| b <= j < s.len() ==> white_space(#[trigger] s[j]),
        0 < b ==> !white_space(s[b - 1]),
    ensures
        trim_end(s) == s.subrange(0, b),
    decreases s.len() - b,
{
    if b != s.len() {
        lemma_trim_end(s.drop_last(), b);
    }
}

/// The text without its leading and trailing white space.
pub fn trim(s: &str) -> (r: &str)
    ensures
        r@ == trimmed(s@),
{
    let total = s.unicode_len();
    let mut start: usize = total;
    let mut end: usize = 0;
    let mut i: usize = 0;
    for c in it: s.chars()
        invariant
            it.seq() == s@,
            total == s@.len(),
            i == it.index(),
            end <= i <= total,
            start <= total,
            forall|j: int| end <= j < i ==> white_space(#[trigger] s@[j]),
            0 < end ==> !white_space(s@[end - 1]),
            0 < end <==> start < total,
            start < total ==> start < end && !white_space(s@[start as int]),
            forall|j: int| 0 <= j < start && j < i ==> white_space(#[trigger] s@[j]),
    {
        if !is_whitespace(c) {
            if start == total {
                start = i;
            }
            end = i + 1;
        }
        i += 1;
    }
    proof {
        lemma_trim_start(s@, start as int);
        if start < total {
            let rest = s@.subrange(start as int, total as int);
            assert(forall|j: int| end - start <= j < rest.len() ==> white_space(#[trigger] rest[j]));
            lemma_trim_end(rest, end - start);
        }
    }
    if start < total {
        s.substring_char(start, end)
    } else {
        s.substring_char(0, 0)
    }
}

/// The name in front of a statement: what stands before the first colon,
/// trimmed. A text without a colon carries no name.
pub open spec fn explicit_name(line: Seq<char>) -> Option<Seq<char>> {
    match line.index_of_first(':') {
        Some(i) => Some(trimmed(line.subrange(0, i))),
        None => None,
    }
}

/// The statement proper: what stands behind the first colon, trimmed, or the
/// whole text where it has no colon.
pub open spec fn statement_text(line: Seq<char>) -> Seq<char> {
    match line.index_of_first(':') {
        Some(i) => trimmed(line.subrange(i + 1, line.len() as int)),
        None => line,
    }
}

/// Splits a line into the name in front of the statement, if there is one,
/// and the statement proper.
pub fn split_name(line: &str) -> (parts: (Option<&str>, &str))
    ensures
        match parts.0 {
            Some(name) => explicit_name(line@) == Some(name@),
            None => explicit_name(line@) is None,
        },
        parts.1@ == statement_text(line@),
{
    let total = line.unicode_len();
    let mut colon: usize = total;
    let mut i: usize = 0;
    for c in it: line.chars()
        invariant
            it.seq() == line@,
            total == line@.len(),
            i == it.index(),
            i <= total,
            colon <= total,
            colon < total ==> colon < i && line@[colon as int] == ':',
            forall|j: int| 0 <= j < colon && j < i ==> line@[j] != ':',
    {
        if colon == total && c == ':' {
            colon = i;
        }
        i += 1;
    }
    proof {
        line@.index_of_first_ensures(':');
    }
    if colon < total {
        let name = trim(line.substring_char(0, colon));
        let body = trim(line.substring_char(colon + 1, total));
        (Some(name), body)
    } else {
        (None, line)
    }
}

/// The characters of a text.
pub fn chars_of(s: &str) -> (chars: Vec<char>)
    ensures
        chars@ == s@,
{
    let mut chars: Vec<char> = Vec::new();
    for c in it: s.chars()
        invariant
            it.seq() == s@,
            chars@ == s@.take(it.index() as int),
    {
        chars.push(c);
    }
    chars
}

/// The first position from `i` on that holds no white space.
pub open spec fn skip_blank(s: Seq<char>, i: int) -> int
    decreases s.len() - i,
{
    if 0 <= i < s.len() && white_space(s[i]) {
        skip_blank(s, i + 1)
    } else {
        i
    }
}

/// The first position from `i` on at which a word ends: one that holds white
/// space or an opening parenthesis, or the end of the text.
pub open spec fn word_end(s: Seq<char>, i: int) -> int
    decreases s.len() - i,
{
    if 0 <= i < s.len() && !white_space(s[i]) && s[i] != '(' {
        word_end(s, i + 1)
    } else {
        i
    }
}

/// Whether a word is the given keyword, in lower or upper case letter by letter.
pub open spec fn is_keyword(word: Seq<char>, lower: Seq<char>, upper: Seq<char>) -> bool {
    &&& word.len() == lower.len()
    &&& word.len() == upper.len()
    &&& forall|i: int| 0 <= i < word.len() ==> word[i] == lower[i] || word[i] == upper[i]
}

/// Where the white space from `i` on ends.
pub(crate) fn skip_blank_from(chars: &Vec<char>, i: usize) -> (j: usize)
    requires
        i <= chars@.len(),
    ensures
        j == skip_blank(chars@, i as int),
        i <= j <= chars@.len(),
{
    let mut j = i;
    while j < chars.len() && is_whitespace(chars[j])
        invariant
            i <= j <= chars@.len(),
            skip_blank(chars@, j as int) == skip_blank(chars@, i as int),
        decreases chars@.len() - j,
    {
        j += 1;
    }
    j
}

/// Where the word from `i` on ends.
pub(crate) fn word_end_from(chars: &Vec<char>, i: usize) -> (j: usize)
    requires
        i <= chars@.len(),
    ensures
        j == word_end(chars@, i as int),
        i <= j <= chars@.len(),
{
    let mut j = i;
    while j < chars.len() && !is_whitespace(chars[j]) && chars[j] != '('
        invariant
            i <= j <= chars@.len(),
            word_end(chars@, j as int) == word_end(chars@, i as int),
        decreases chars@.len() - j,
    {
        j += 1;
    }
    j
}

/// Whether the characters from `from` to `to` are the given keyword.
pub(crate) fn keyword_at(chars: &Vec<char>, from: usize, to: usize, lower: &str, upper: &str) -> (found: bool)
    requires
        from <= to <= chars@.len(),
    ensures
        found == is_keyword(chars@.subrange(from as int, to as int), lower@, upper@),
{
    let n = to - from;
    if lower.unicode_len() != n || upper.unicode_len() != n {
        return false;
    }
    let ghost word = chars@.subrange(from as int, to as int);
    let mut i: usize = 0;
    while i < n
        invariant
            i <= n,
            n == to - from,
            from <= to <= chars@.len(),
            lower@.len() == n,
            upper@.len() == n,
            word == chars@.subrange(from as int, to as int),
            forall|k: int| 0 <= k < i ==> word[k] == lower@[k] || word[k] == upper@[k],
        decreases n - i,
    {
        let c = chars[from + i];
        if c != lower.get_char(i) && c != upper.get_char(i) {
            return false;
        }
        i += 1;
    }
    true
}

/// A line as the dispatcher takes it: trimmed, and ended by a semicolon. A
/// line of nothing but white space is no statement.
pub open spec fn completed(line: Seq<char>) -> Option<Seq<char>> {
    let text = trimmed(line);
    if text.len() == 0 {
        None
    } else if text.last() == ';' {
        Some(text)
    } else {
        Some(text.push(';'))
    }
}

/// Trims a line and ends it with a semicolon, where it does not end with one.
pub fn complete(line: &str) -> (text: Option<String>)
    ensures
        match text {
            Some(text) => completed(line@) == Some(text@),
            None => completed(line@) is None,
        },
{
    let text = trim(line);
    let n = text.unicode_len();
    if n == 0 {
        return None;
    }
    let last = text.get_char(n - 1);
    let mut ended = String::from_str(text);
    if last != ';' {
        proof {
            reveal_strlit(";");
        }
        ended.append(";");
    }
    Some(ended)
}

/// Where the text before `to` ends once its trailing white space is dropped.
pub(crate) fn trim_end_from(chars: &Vec<char>, to: usize) -> (j: usize)
    requires
        to <= chars@.len(),
    ensures
        j <= to,
        trim_end(chars@.subrange(0, to as int)) == chars@.subrange(0, j as int),
{
    let mut j = to;
    while j > 0 && is_whitespace(chars[j - 1])
        invariant
            j <= to <= chars@.len(),
            trim_end(chars@.subrange(0, j as int)) == trim_end(chars@.subrange(0, to as int)),
        decreases j,
    {
        assert(chars@.subrange(0, j as int).drop_last() =~= chars@.subrange(0, j - 1));
        j -= 1;
    }
    j
}

} // verus!
