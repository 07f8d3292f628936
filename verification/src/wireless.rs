//! The signal level in the kernel's table of wireless interfaces.
//!
//! The table has two header lines; the third line describes the first
//! interface, and its third blank-separated field is the signal level.

use vstd::prelude::*;
use vstd::string::StrSliceExecFns;

verus! {

/// The zero-based index of the line that holds the levels.
pub const LEVEL_LINE: usize = 2;

/// The zero-based index of the level among the fields of its line.
pub const LEVEL_FIELD: usize = 2;

/// The character is white space in the sense of Unicode.
pub open spec fn is_space(c: char) -> bool {
    let n = c as u32;
    ||| 0x09 <= n <= 0x0d
    ||| n == 0x20
    ||| n == 0x85
    ||| n == 0xa0
    ||| n == 0x1680
    ||| 0x2000 <= n <= 0x200a
    ||| n == 0x2028
    ||| n == 0x2029
    ||| n == 0x202f
    ||| n == 0x205f
    ||| n == 0x3000
}

/// Where the line begins that lies `lines` line feeds after position
/// `from`, if the text has that many.
pub open spec fn line_begin(text: Seq<char>, from: int, lines: nat) -> Option<int>
    decreases text.len() - from,
{
    if lines == 0 {
        Some(from)
    } else if from < 0 || from >= text.len() {
        None
    } else if text[from] == '\n' {
        line_begin(text, from + 1, (lines - 1) as nat)
    } else {
        line_begin(text, from + 1, lines)
    }
}

/// The first position from `from` on that is not a blank within the line:
/// a field's first character, a line feed, or the end of the text.
pub open spec fn blanks_end(text: Seq<char>, from: int) -> int
    decreases text.len() - from,
{
    if 0 <= from < text.len() && text[from] != '\n' && is_space(text[from]) {
        blanks_end(text, from + 1)
    } else {
        from
    }
}

/// The first position from `from` on that is white space, or the end of
/// the text.
pub open spec fn field_end(text: Seq<char>, from: int) -> int
    decreases text.len() - from,
{
    if 0 <= from < text.len() && !is_space(text[from]) {
        field_end(text, from + 1)
    } else {
        from
    }
}

/// Where the field lies that is `skip` fields after position `from` in
/// the line of `from`: its first position and the one behind its last.
pub open spec fn field_span(text: Seq<char>, from: int, skip: nat) -> Option<(int, int)>
    decreases skip,
{
    let start = blanks_end(text, from);
    if start >= text.len() || text[start] == '\n' {
        None
    } else if skip == 0 {
        Some((start, field_end(text, start)))
    } else {
        field_span(text, field_end(text, start), (skip - 1) as nat)
    }
}

/// Where the signal level lies in the table, if the table has it.
pub open spec fn level_span(text: Seq<char>) -> Option<(int, int)> {
    match line_begin(text, 0, LEVEL_LINE as nat) {
        Some(begin) => field_span(text, begin, LEVEL_FIELD as nat),
        None => None,
    }
}

/// The signal level as the table writes it, if the table has it.
pub open spec fn level_text(text: Seq<char>) -> Option<Seq<char>> {
    match level_span(text) {
        Some(span) => Some(text.subrange(span.0, span.1)),
        None => None,
    }
}

/// A line begins within the text.
pub proof fn lemma_line_begin_bounds(text: Seq<char>, from: int, lines: nat)
    requires
        0 <= from <= text.len(),
    ensures
        line_begin(text, from, lines) matches Some(begin) ==> from <= begin <= text.len(),
    decreases text.len() - from,
{
    if lines > 0 && from < text.len() {
        if text[from] == '\n' {
            lemma_line_begin_bounds(text, from + 1, (lines - 1) as nat);
        } else {
            lemma_line_begin_bounds(text, from + 1, lines);
        }
    }
}

/// Blanks end within the text, at or behind where they were looked for.
pub proof fn lemma_blanks_end_bounds(text: Seq<char>, from: int)
    requires
        0 <= from <= text.len(),
    ensures
        from <= blanks_end(text, from) <= text.len(),
    decreases text.len() - from,
{
    if from < text.len() && text[from] != '\n' && is_space(text[from]) {
        lemma_blanks_end_bounds(text, from + 1);
    }
}

/// A field ends within the text, and holds no white space up to its end.
pub proof fn lemma_field_end_bounds(text: Seq<char>, from: int)
    requires
        0 <= from <= text.len(),
    ensures
        from <= field_end(text, from) <= text.len(),
        forall|i: int| from <= i < field_end(text, from) ==> !is_space(#[trigger] text[i]),
    decreases text.len() - from,
{
    if from < text.len() && !is_space(text[from]) {
        lemma_field_end_bounds(text, from + 1);
    }
}

/// A field found in a line lies within the text, is not empty and holds no
/// white space.
pub proof fn lemma_field_is_a_word(text: Seq<char>, from: int, skip: nat)
    requires
        0 <= from <= text.len(),
    ensures
        field_span(text, from, skip) matches Some(span) ==> {
            &&& from <= span.0 < span.1 <= text.len()
            &&& forall|i: int| span.0 <= i < span.1 ==> !is_space(#[trigger] text[i])
        },
    decreases skip,
{
    lemma_blanks_end_bounds(text, from);
    let start = blanks_end(text, from);
    if start < text.len() && text[start] != '\n' {
        lemma_blanks_stop_at_field(text, from);
        lemma_field_end_bounds(text, start);
        lemma_field_end_bounds(text, start + 1);
        assert(field_end(text, start) == field_end(text, start + 1));
        if skip > 0 {
            lemma_field_is_a_word(text, field_end(text, start), (skip - 1) as nat);
        }
    }
}

/// Where the blanks end within a line, a field begins.
pub proof fn lemma_blanks_stop_at_field(text: Seq<char>, from: int)
    requires
        0 <= from <= text.len(),
    ensures
        ({
            let start = blanks_end(text, from);
            start < text.len() && text[start] != '\n' ==> !is_space(text[start])
        }),
    decreases text.len() - from,
{
    if from < text.len() && text[from] != '\n' && is_space(text[from]) {
        lemma_blanks_stop_at_field(text, from + 1);
    }
}

/// The signal level, where the table has it, is a word: not empty and
/// without white space.
pub proof fn lemma_level_is_a_word(text: Seq<char>)
    ensures
        level_text(text) matches Some(level) ==> {
            &&& level.len() > 0
            &&& forall|i: int| 0 <= i < level.len() ==> !is_space(#[trigger] level[i])
        },
{
    lemma_line_begin_bounds(text, 0, LEVEL_LINE as nat);
    if let Some(begin) = line_begin(text, 0, LEVEL_LINE as nat) {
        lemma_field_is_a_word(text, begin, LEVEL_FIELD as nat);
    }
}

/// Returns whether the character is white space.
pub fn is_blank(c: char) -> (blank: bool)
    ensures
        blank == is_space(c),
{
    let n: u32 = c as u32;
    (0x09 <= n && n <= 0x0d) || n == 0x20 || n == 0x85 || n == 0xa0 || n == 0x1680 || (0x2000 <= n
        && n <= 0x200a) || n == 0x2028 || n == 0x2029 || n == 0x202f || n == 0x205f || n == 0x3000
}

/// Returns the position at which the line begins that lies `lines` line
/// feeds into the text, or `None` where the text has fewer.
pub fn find_line(text: &str, lines: usize) -> (begin: Option<usize>)
    ensures
        begin matches Some(b) ==> b <= text@.len(),
        match begin {
            Some(b) => line_begin(text@, 0, lines as nat) == Some(b as int),
            None => line_begin(text@, 0, lines as nat) is None,
        },
{
    let len = text.unicode_len();
    let mut at: usize = 0;
    let mut left: usize = lines;
    while left > 0
        invariant
            len == text@.len(),
            at <= len,
            line_begin(text@, 0, lines as nat) == line_begin(text@, at as int, left as nat),
        decreases len - at,
    {
        if at >= len {
            return None;
        }
        if text.get_char(at) == '\n' {
            left = left - 1;
        }
        at = at + 1;
    }
    Some(at)
}

/// Returns the span of the field that is `skip` fields after position
/// `from` in the line of `from`, or `None` where the line has fewer.
pub fn find_field(text: &str, from: usize, skip: usize) -> (span: Option<(usize, usize)>)
    requires
        from <= text@.len(),
    ensures
        span matches Some((start, end)) ==> start < end <= text@.len(),
        match span {
            Some((start, end)) => field_span(text@, from as int, skip as nat) == Some(
                (start as int, end as int),
            ),
            None => field_span(text@, from as int, skip as nat) is None,
        },
{
    let len = text.unicode_len();
    let mut at: usize = from;
    let mut left: usize = skip;
    loop
        invariant
            len == text@.len(),
            at <= len,
            field_span(text@, from as int, skip as nat) == field_span(
                text@,
                at as int,
                left as nat,
            ),
        decreases left,
    {
        let ghost line = at;
        while at < len && text.get_char(at) != '\n' && is_blank(text.get_char(at))
            invariant
                len == text@.len(),
                at <= len,
                blanks_end(text@, line as int) == blanks_end(text@, at as int),
            decreases len - at,
        {
            at = at + 1;
        }
        if at >= len || text.get_char(at) == '\n' {
            return None;
        }
        let start = at;
        while at < len && !is_blank(text.get_char(at))
            invariant
                len == text@.len(),
                start <= at <= len,
                start < len,
                !is_space(text@[start as int]),
                field_end(text@, start as int) == field_end(text@, at as int),
            decreases len - at,
        {
            at = at + 1;
        }
        if left == 0 {
            return Some((start, at));
        }
        left = left - 1;
    }
}

/// Returns the signal level as the table writes it: the third field of the
/// third line, or `None` where the table has no such field.
pub fn signal_field<'a>(table: &'a str) -> (level: Option<&'a str>)
    ensures
        match level {
            Some(text) => level_text(table@) == Some(text@),
            None => level_text(table@) is None,
        },
{
    let begin = match find_line(table, LEVEL_LINE) {
        Some(begin) => begin,
        None => {
            return None;
        },
    };
    match find_field(table, begin, LEVEL_FIELD) {
        Some((start, end)) => Some(table.substring_char(start, end)),
        None => None,
    }
}

} // verus!
