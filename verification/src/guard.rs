//! The guard in front of the SQL parser: which texts the parser can take.
//!
//! The parser panics on a few texts and does not come back in good time on a
//! few others. The guard names them, so that they are kept from it.

use vstd::prelude::*;
use crate::text::chars_of;
use crate::text::is_keyword;
use crate::text::keyword_at;
use crate::text::skip_blank;
use crate::text::skip_blank_from;
use crate::text::word_end;
use crate::text::word_end_from;

verus! {

/// Where a character stands: in code, or in a string between single or
/// double quotes.
#[derive(Clone, Copy, Debug, PartialEq, Eq, Structural)]
pub enum Quotation {
    Code,
    Single,
    Double,
}

/// Where the next character stands, given where this one stands. A quote
/// opens a string in code and closes the string that it opened; a quote
/// doubled inside a string closes and opens again.
pub open spec fn turn(q: Quotation, c: char) -> Quotation {
    match q {
        Quotation::Code => if c == '\'' {
            Quotation::Single
        } else if c == '"' {
            Quotation::Double
        } else {
            Quotation::Code
        },
        Quotation::Single => if c == '\'' {
            Quotation::Code
        } else {
            Quotation::Single
        },
        Quotation::Double => if c == '"' {
            Quotation::Code
        } else {
            Quotation::Double
        },
    }
}

/// Where the character at a position stands.
pub open spec fn quotation(s: Seq<char>, i: int) -> Quotation
    decreases i,
{
    if 0 < i <= s.len() {
        turn(quotation(s, i - 1), s[i - 1])
    } else {
        Quotation::Code
    }
}

/// Whether the parser may read the character at a position as code. It does
/// not where the character stands in a quoted string; in a text with a
/// backslash, which can escape a quote, every character counts as code.
pub open spec fn in_code(s: Seq<char>, i: int) -> bool {
    s.contains('\\') || quotation(s, i) is Code
}

/// Whether a mask tells, position by position, what is code.
pub open spec fn masks(code: Seq<bool>, s: Seq<char>) -> bool {
    &&& code.len() == s.len()
    &&& forall|i: int| 0 <= i < s.len() ==> code[i] == in_code(s, i)
}

/// Tells, position by position, what is code.
pub fn code_mask(chars: &Vec<char>) -> (code: Vec<bool>)
    ensures
        masks(code@, chars@),
{
    let mut escaped = false;
    let mut i: usize = 0;
    while i < chars.len()
        invariant
            i <= chars@.len(),
            escaped == exists|j: int| 0 <= j < i && chars@[j] == '\\',
        decreases chars@.len() - i,
    {
        if chars[i] == '\\' {
            escaped = true;
        }
        i += 1;
    }
    assert(escaped == chars@.contains('\\'));
    let mut code: Vec<bool> = Vec::new();
    let mut q = Quotation::Code;
    let mut i: usize = 0;
    while i < chars.len()
        invariant
            i <= chars@.len(),
            code@.len() == i,
            escaped == chars@.contains('\\'),
            q == quotation(chars@, i as int),
            forall|j: int| 0 <= j < i ==> code@[j] == in_code(chars@, j),
        decreases chars@.len() - i,
    {
        let c = chars[i];
        code.push(escaped || q == Quotation::Code);
        q = match q {
            Quotation::Code => if c == '\'' {
                Quotation::Single
            } else if c == '"' {
                Quotation::Double
            } else {
                Quotation::Code
            },
            Quotation::Single => if c == '\'' {
                Quotation::Code
            } else {
                Quotation::Single
            },
            Quotation::Double => if c == '"' {
                Quotation::Code
            } else {
                Quotation::Double
            },
        };
        i += 1;
    }
    code
}

/// Whether the character is one of the ten decimal digits.
pub open spec fn is_digit(c: char) -> bool {
    '0' <= c && c <= '9'
}

/// The number that a decimal digit stands for.
pub open spec fn digit_value(c: char) -> nat {
    if c == '1' {
        1
    } else if c == '2' {
        2
    } else if c == '3' {
        3
    } else if c == '4' {
        4
    } else if c == '5' {
        5
    } else if c == '6' {
        6
    } else if c == '7' {
        7
    } else if c == '8' {
        8
    } else if c == '9' {
        9
    } else {
        0
    }
}

/// The number of digits in a row that end right before a position.
pub open spec fn digits_before(s: Seq<char>, i: int) -> int
    decreases i,
{
    if 0 < i <= s.len() && is_digit(s[i - 1]) {
        1 + digits_before(s, i - 1)
    } else {
        0
    }
}

/// The number that the digits in a row before a position spell.
pub open spec fn value_before(s: Seq<char>, i: int) -> nat
    decreases i,
{
    if 0 < i <= s.len() && is_digit(s[i - 1]) {
        value_before(s, i - 1) * 10 + digit_value(s[i - 1])
    } else {
        0
    }
}

/// Whether the text ends with the keyword, in lower or upper case letter by
/// letter.
pub open spec fn ends_with(s: Seq<char>, lower: Seq<char>, upper: Seq<char>) -> bool {
    s.len() >= lower.len() && is_keyword(
        s.subrange(s.len() - lower.len(), s.len() as int),
        lower,
        upper,
    )
}

/// Whether the first word of the text is the keyword.
pub open spec fn begins_with(s: Seq<char>, lower: Seq<char>, upper: Seq<char>) -> bool {
    let start = skip_blank(s, 0);
    is_keyword(s.subrange(start, word_end(s, start)), lower, upper)
}

/// Whether the character is one that the parser skips between words: a
/// space, a tabulator, a carriage return or a line feed.
pub open spec fn is_gap(c: char) -> bool {
    c == ' ' || c == '\t' || c == '\r' || c == '\n'
}

/// Whether the text ends with the keyword as a word of its own: behind a gap.
pub open spec fn ends_with_word(s: Seq<char>, lower: Seq<char>, upper: Seq<char>) -> bool {
    ends_with(s, lower, upper) && s.len() > lower.len() && is_gap(s[s.len() - lower.len() - 1])
}

/// Whether the name of a type that takes a length ends the text.
pub open spec fn names_sized_type(s: Seq<char>) -> bool {
    ||| ends_with_word(s, "int"@, "INT"@)
    ||| ends_with_word(s, "integer"@, "INTEGER"@)
    ||| ends_with_word(s, "tinyint"@, "TINYINT"@)
    ||| ends_with_word(s, "smallint"@, "SMALLINT"@)
    ||| ends_with_word(s, "bigint"@, "BIGINT"@)
    ||| ends_with_word(s, "char"@, "CHAR"@)
    ||| ends_with_word(s, "varchar"@, "VARCHAR"@)
    ||| ends_with_word(s, "binary"@, "BINARY"@)
    ||| ends_with_word(s, "varbinary"@, "VARBINARY"@)
    ||| ends_with_word(s, "datetime"@, "DATETIME"@)
}

/// Whether the digits before a position stand where the parser reads a
/// length: alone between parentheses, and either right behind the name of a
/// type or in the definition of a table, where an index column may carry one.
pub open spec fn reads_length(s: Seq<char>, i: int) -> bool {
    let open = i - digits_before(s, i) - 1;
    &&& i < s.len() && s[i] == ')'
    &&& 0 <= open && s[open] == '('
    &&& begins_with(s, "create"@, "CREATE"@) || names_sized_type(s.subrange(0, open))
}

/// Whether the number before a position fits the machine integer that the
/// parser converts it to: a 64-bit integer; a 32-bit integer where a full
/// stop stands before or behind the digits; a 16-bit length where the parser
/// reads one. Digits in a quoted string are no number.
pub open spec fn numeral_fits(s: Seq<char>, i: int) -> bool {
    let n = digits_before(s, i);
    let value = value_before(s, i);
    n > 0 && in_code(s, i - 1) ==> {
        &&& value <= i64::MAX
        &&& (i < s.len() && s[i] == '.' ==> value <= i32::MAX)
        &&& (i - n > 0 && s[i - n - 1] == '.' ==> value <= i32::MAX)
        &&& (reads_length(s, i) ==> value <= u16::MAX)
    }
}

/// Whether every number of the text fits the machine integer that the parser
/// converts it to.
pub open spec fn numerals_fit(s: Seq<char>) -> bool {
    forall|i: int| 0 <= i <= s.len() ==> numeral_fits(s, i)
}

/// The number that a decimal digit stands for.
fn digit_of(c: char) -> (d: u64)
    ensures
        d == digit_value(c),
        d <= 9,
{
    if c == '1' {
        1
    } else if c == '2' {
        2
    } else if c == '3' {
        3
    } else if c == '4' {
        4
    } else if c == '5' {
        5
    } else if c == '6' {
        6
    } else if c == '7' {
        7
    } else if c == '8' {
        8
    } else if c == '9' {
        9
    } else {
        0
    }
}

/// Whether the characters before `to` end with the keyword.
fn keyword_before(chars: &Vec<char>, to: usize, lower: &str, upper: &str) -> (found: bool)
    requires
        to <= chars@.len(),
    ensures
        found == ends_with(chars@.subrange(0, to as int), lower@, upper@),
{
    let n = lower.unicode_len();
    if n > to {
        return false;
    }
    assert(chars@.subrange(0, to as int).subrange(to - n, to as int) =~= chars@.subrange(
        to - n,
        to as int,
    ));
    keyword_at(chars, to - n, to, lower, upper)
}

/// Whether the characters before `to` end with the keyword as a word of its own.
fn word_before(chars: &Vec<char>, to: usize, lower: &str, upper: &str) -> (found: bool)
    requires
        to <= chars@.len(),
    ensures
        found == ends_with_word(chars@.subrange(0, to as int), lower@, upper@),
{
    let n = lower.unicode_len();
    if !keyword_before(chars, to, lower, upper) || to <= n {
        return false;
    }
    let c = chars[to - n - 1];
    c == ' ' || c == '\t' || c == '\r' || c == '\n'
}

/// Whether the name of a type that takes a length ends right before `to`.
fn sized_type_before(chars: &Vec<char>, to: usize) -> (found: bool)
    requires
        to <= chars@.len(),
    ensures
        found == names_sized_type(chars@.subrange(0, to as int)),
{
    word_before(chars, to, "int", "INT") || word_before(chars, to, "integer", "INTEGER")
        || word_before(chars, to, "tinyint", "TINYINT") || word_before(
        chars,
        to,
        "smallint",
        "SMALLINT",
    ) || word_before(chars, to, "bigint", "BIGINT") || word_before(chars, to, "char", "CHAR")
        || word_before(chars, to, "varchar", "VARCHAR") || word_before(
        chars,
        to,
        "binary",
        "BINARY",
    ) || word_before(chars, to, "varbinary", "VARBINARY") || word_before(
        chars,
        to,
        "datetime",
        "DATETIME",
    )
}

/// Whether the first word is the keyword.
fn first_word_is(chars: &Vec<char>, lower: &str, upper: &str) -> (found: bool)
    ensures
        found == begins_with(chars@, lower@, upper@),
{
    let start = skip_blank_from(chars, 0);
    let end = word_end_from(chars, start);
    keyword_at(chars, start, end, lower, upper)
}

/// Tells whether every number of the text fits the machine integer that the
/// parser converts it to.
pub fn check_numerals(s: &str) -> (ok: bool)
    ensures
        ok == numerals_fit(s@),
{
    let chars = chars_of(s);
    let code = code_mask(&chars);
    let defines = first_word_is(&chars, "create", "CREATE");
    let total = chars.len();
    let mut ok = true;
    let mut run: usize = 0;
    let mut value: u64 = 0;
    let mut i: usize = 0;
    loop
        invariant
            chars@ == s@,
            masks(code@, s@),
            defines == begins_with(s@, "create"@, "CREATE"@),
            total == s@.len(),
            i <= total,
            run == digits_before(s@, i as int),
            run <= i,
            value <= 0x8000_0000_0000_0000,
            value == (if value_before(s@, i as int) < 0x8000_0000_0000_0000 {
                value_before(s@, i as int)
            } else {
                0x8000_0000_0000_0000
            }),
            ok == (forall|j: int| 0 <= j < i ==> numeral_fits(s@, j)),
        decreases total - i,
    {
        let mut fits = true;
        if run > 0 && code[i - 1] {
            let before_stop = i < total && chars[i] == '.';
            let after_stop = i - run > 0 && chars[i - run - 1] == '.';
            let length = i < total && chars[i] == ')' && i - run > 0 && chars[i - run - 1] == '('
                && (defines || sized_type_before(&chars, i - run - 1));
            assert(length == reads_length(s@, i as int));
            fits = value <= 0x7fff_ffff_ffff_ffff && (!(before_stop || after_stop) || value
                <= 0x7fff_ffff) && (!length || value <= 0xffff);
        }
        assert(fits == numeral_fits(s@, i as int));
        ok = ok && fits;
        if i == total {
            return ok;
        }
        let c = chars[i];
        if '0' <= c && c <= '9' {
            let d = digit_of(c);
            run += 1;
            value = if value > 0x0ccc_cccc_cccc_cccc || (value == 0x0ccc_cccc_cccc_cccc && d > 7) {
                0x8000_0000_0000_0000
            } else {
                value * 10 + d
            };
        } else {
            run = 0;
            value = 0;
        }
        i += 1;
    }
}

/// Where the next word from a position on ends.
pub open spec fn word_after(s: Seq<char>, i: int) -> int {
    word_end(s, skip_blank(s, i))
}

/// Whether the text cannot be an insert or a table definition whose table
/// carries an alias. Words are what white space and opening parentheses
/// delimit. Where the first word is `INSERT` or `CREATE`, the table is the
/// third word, or the fourth in an `INSERT IGNORE`. What follows it has to be
/// an opening parenthesis, or the word `VALUES` followed by a space, a
/// tabulator, a line feed, an opening parenthesis or nothing, or nothing at
/// all.
pub open spec fn unaliased(s: Seq<char>) -> bool {
    let first = word_after(s, 0);
    let second_start = skip_blank(s, first);
    let second = word_end(s, second_start);
    let third = word_after(s, second);
    let ignoring = begins_with(s, "insert"@, "INSERT"@) && is_keyword(
        s.subrange(second_start, second),
        "ignore"@,
        "IGNORE"@,
    );
    let table = if ignoring {
        word_after(s, third)
    } else {
        third
    };
    let next = skip_blank(s, table);
    let end = word_end(s, next);
    begins_with(s, "insert"@, "INSERT"@) || begins_with(s, "create"@, "CREATE"@) ==> {
        ||| next == s.len()
        ||| s[next] == '('
        ||| (is_keyword(s.subrange(next, end), "values"@, "VALUES"@) && (end == s.len() || s[end]
            == ' ' || s[end] == '\t' || s[end] == '\n' || s[end] == '('))
    }
}

/// Tells whether the text cannot be an insert or a table definition whose
/// table carries an alias.
pub fn check_unaliased(s: &str) -> (ok: bool)
    ensures
        ok == unaliased(s@),
{
    let chars = chars_of(s);
    let inserts = first_word_is(&chars, "insert", "INSERT");
    if !inserts && !first_word_is(&chars, "create", "CREATE") {
        return true;
    }
    let first = word_end_from(&chars, skip_blank_from(&chars, 0));
    let second_start = skip_blank_from(&chars, first);
    let second = word_end_from(&chars, second_start);
    let third = word_end_from(&chars, skip_blank_from(&chars, second));
    let ignoring = inserts && keyword_at(&chars, second_start, second, "ignore", "IGNORE");
    let table = if ignoring {
        word_end_from(&chars, skip_blank_from(&chars, third))
    } else {
        third
    };
    let next = skip_blank_from(&chars, table);
    let end = word_end_from(&chars, next);
    if next == chars.len() || chars[next] == '(' {
        return true;
    }
    keyword_at(&chars, next, end, "values", "VALUES") && (end == chars.len() || chars[end] == ' '
        || chars[end] == '\t' || chars[end] == '\n' || chars[end] == '(')
}

/// Where the gap that ends right before a position starts.
pub open spec fn gap_start(s: Seq<char>, i: int) -> int
    decreases i,
{
    if 0 < i <= s.len() && is_gap(s[i - 1]) {
        gap_start(s, i - 1)
    } else {
        i
    }
}

/// Whether `CASE WHEN` stands at a position where the parser reads it: in
/// code, as the argument of a function, right behind the opening parenthesis
/// or behind `DISTINCT` and a gap.
pub open spec fn reads_conditional(s: Seq<char>, at: int) -> bool {
    let gap = gap_start(s, at);
    &&& 0 < at && at + 9 <= s.len()
    &&& in_code(s, at)
    &&& is_keyword(s.subrange(at, at + 9), "case when"@, "CASE WHEN"@)
    &&& s[at - 1] == '(' || (gap < at && ends_with(s.subrange(0, gap), "distinct"@, "DISTINCT"@))
}

/// Whether the parser reads no `CASE WHEN` in the text.
pub open spec fn unconditional(s: Seq<char>) -> bool {
    forall|at: int| 0 <= at < s.len() ==> !reads_conditional(s, at)
}

/// Where the gap that ends right before a position starts.
fn gap_start_from(chars: &Vec<char>, i: usize) -> (j: usize)
    requires
        i <= chars@.len(),
    ensures
        j == gap_start(chars@, i as int),
        j <= i,
{
    let mut j = i;
    while j > 0 && (chars[j - 1] == ' ' || chars[j - 1] == '\t' || chars[j - 1] == '\r' || chars[j
        - 1] == '\n')
        invariant
            j <= i <= chars@.len(),
            gap_start(chars@, j as int) == gap_start(chars@, i as int),
        decreases j,
    {
        j -= 1;
    }
    j
}

/// Tells whether the parser reads no `CASE WHEN` in the text.
pub fn check_unconditional(s: &str) -> (ok: bool)
    ensures
        ok == unconditional(s@),
{
    let chars = chars_of(s);
    let code = code_mask(&chars);
    let total = chars.len();
    let mut at: usize = 0;
    while at < total
        invariant
            chars@ == s@,
            masks(code@, s@),
            total == s@.len(),
            at <= total,
            forall|j: int| 0 <= j < at ==> !reads_conditional(s@, j),
        decreases total - at,
    {
        if at > 0 && total - at >= 9 && code[at] && keyword_at(
            &chars,
            at,
            at + 9,
            "case when",
            "CASE WHEN",
        ) {
            let gap = gap_start_from(&chars, at);
            if chars[at - 1] == '(' || (gap < at && keyword_before(
                &chars,
                gap,
                "distinct",
                "DISTINCT",
            )) {
                assert(reads_conditional(s@, at as int));
                return false;
            }
        }
        at += 1;
    }
    true
}

/// The longest text that the parser is given.
pub const MAX_LENGTH: usize = 65536;

/// The deepest nesting of parentheses that the parser is given.
pub const MAX_NESTING: usize = 4;

/// The most connectives that the parser is given.
pub const MAX_CONNECTIVES: usize = 128;

/// How many parentheses are open before a position, counting those in code.
pub open spec fn nesting(s: Seq<char>, i: int) -> int
    decreases i,
{
    if 0 < i <= s.len() {
        let before = nesting(s, i - 1);
        if in_code(s, i - 1) && s[i - 1] == '(' {
            before + 1
        } else if in_code(s, i - 1) && s[i - 1] == ')' && before > 0 {
            before - 1
        } else {
            before
        }
    } else {
        0
    }
}

/// Whether the keyword stands at a position.
pub open spec fn keyword_stands(s: Seq<char>, at: int, lower: Seq<char>, upper: Seq<char>) -> bool {
    0 <= at && at + lower.len() <= s.len() && is_keyword(
        s.subrange(at, at + lower.len()),
        lower,
        upper,
    )
}

/// Whether the letters of `OR`, `AND` or `NOT` stand in code at a position.
pub open spec fn connective_at(s: Seq<char>, at: int) -> bool {
    &&& in_code(s, at)
    &&& keyword_stands(s, at, "or"@, "OR"@) || keyword_stands(s, at, "and"@, "AND"@)
        || keyword_stands(s, at, "not"@, "NOT"@)
}

/// How many connectives start before a position.
pub open spec fn connectives(s: Seq<char>, i: int) -> nat
    decreases i,
{
    if 0 < i <= s.len() {
        connectives(s, i - 1) + if connective_at(s, i - 1) {
            1nat
        } else {
            0nat
        }
    } else {
        0
    }
}

/// Whether the parser comes back from the text in good time and within its
/// stack. Its time grows fourfold with each level of parentheses, and its
/// stack with each connective of a filter; so the parentheses in code have to
/// be nested shallowly, the connectives few, and the text not overlong.
pub open spec fn shallow(s: Seq<char>) -> bool {
    &&& s.len() <= MAX_LENGTH
    &&& connectives(s, s.len() as int) <= MAX_CONNECTIVES
    &&& forall|i: int| 0 <= i <= s.len() ==> nesting(s, i) <= MAX_NESTING
}

/// Whether the keyword stands at a position.
fn keyword_from(chars: &Vec<char>, at: usize, lower: &str, upper: &str) -> (found: bool)
    requires
        at <= chars@.len(),
    ensures
        found == keyword_stands(chars@, at as int, lower@, upper@),
{
    let n = lower.unicode_len();
    if chars.len() - at < n {
        return false;
    }
    keyword_at(chars, at, at + n, lower, upper)
}

/// Tells whether the parser comes back from the text in good time and within
/// its stack.
pub fn check_shallow(s: &str) -> (ok: bool)
    ensures
        ok == shallow(s@),
{
    let chars = chars_of(s);
    if chars.len() > MAX_LENGTH {
        return false;
    }
    let code = code_mask(&chars);
    let total = chars.len();
    let mut depth: usize = 0;
    let mut count: usize = 0;
    let mut i: usize = 0;
    while i < total
        invariant
            chars@ == s@,
            masks(code@, s@),
            total == s@.len(),
            total <= MAX_LENGTH,
            i <= total,
            depth == nesting(s@, i as int),
            depth <= MAX_NESTING,
            count == connectives(s@, i as int),
            count <= i,
            forall|j: int| 0 <= j <= i ==> nesting(s@, j) <= MAX_NESTING,
        decreases total - i,
    {
        if code[i] && (keyword_from(&chars, i, "or", "OR") || keyword_from(
            &chars,
            i,
            "and",
            "AND",
        ) || keyword_from(&chars, i, "not", "NOT")) {
            count += 1;
        }
        if code[i] && chars[i] == '(' {
            depth += 1;
        } else if code[i] && chars[i] == ')' && depth > 0 {
            depth -= 1;
        }
        i += 1;
        if depth > MAX_NESTING {
            assert(nesting(s@, i as int) > MAX_NESTING);
            return false;
        }
    }
    count <= MAX_CONNECTIVES
}

/// Whether the SQL parser can take the text: its numbers fit, it cannot be
/// an insert or a table definition with an aliased table, the parser reads no
/// `CASE WHEN` in it, and the parser comes back from it.
pub open spec fn parseable(s: Seq<char>) -> bool {
    &&& numerals_fit(s)
    &&& unaliased(s)
    &&& unconditional(s)
    &&& shallow(s)
}

/// Tells whether the SQL parser can take the text.
pub fn check_parseable(s: &str) -> (ok: bool)
    ensures
        ok == parseable(s@),
{
    check_shallow(s) && check_numerals(s) && check_unaliased(s) && check_unconditional(s)
}

} // verus!
