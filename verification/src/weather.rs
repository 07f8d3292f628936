//! The weather part of the status line, from what the weather service
//! answered.

use vstd::prelude::*;
use crate::wireless::is_space;

verus! {

/// `pattern` occurs in `text` as a run of consecutive characters.
pub open spec fn has_infix(text: Seq<char>, pattern: Seq<char>) -> bool {
    exists|i: int|
        0 <= i <= text.len() - pattern.len() && #[trigger] text.subrange(i, i + pattern.len())
            == pattern
}

/// The first position from `from` on that is not white space, or the end
/// of the text.
pub open spec fn trim_begin(text: Seq<char>, from: int) -> int
    decreases text.len() - from,
{
    if 0 <= from < text.len() && is_space(text[from]) {
        trim_begin(text, from + 1)
    } else {
        from
    }
}

/// The position behind the last character before `to` that is not white
/// space, or the start of the text.
pub open spec fn trim_finish(text: Seq<char>, to: int) -> int
    decreases to,
{
    if 0 < to <= text.len() && is_space(text[to - 1]) {
        trim_finish(text, to - 1)
    } else {
        to
    }
}

/// The text without the white space at its two ends.
pub open spec fn trimmed(text: Seq<char>) -> Seq<char> {
    let begin = trim_begin(text, 0);
    let finish = trim_finish(text, text.len() as int);
    if begin >= finish {
        Seq::empty()
    } else {
        text.subrange(begin, finish)
    }
}

/// What the service answers for a place it does not know.
pub open spec fn unknown_marker() -> Seq<char> {
    "Unknown"@
}

/// The weather part: a placeholder glyph and a space where the service did
/// not know the place, else its answer without the white space around it.
pub open spec fn weather_part(answer: Seq<char>) -> Seq<char> {
    if has_infix(answer, unknown_marker()) {
        seq!['\u{e4e9}', ' ']
    } else {
        trimmed(answer)
    }
}

/// Calls `str::contains` of std with a string pattern.
///
/// Trusted: the result says whether the pattern occurs in the text as a
/// run of consecutive characters.
#[verifier::external_body]
fn str_contains(text: &str, pattern: &str) -> (found: bool)
    ensures
        found == has_infix(text@, pattern@),
{
    text.contains(pattern)
}

/// Calls `str::trim` of std.
///
/// Trusted: the result is the text without its leading and trailing white
/// space, white space being what Unicode calls so.
#[verifier::external_body]
fn str_trim<'a>(text: &'a str) -> (inner: &'a str)
    ensures
        inner@ == trimmed(text@),
{
    text.trim()
}

/// Returns the weather part for the service's answer.
pub fn weather_text<'a>(answer: &'a str) -> (part: &'a str)
    ensures
        part@ == weather_part(answer@),
{
    if str_contains(answer, "Unknown") {
        proof {
            reveal_strlit("\u{e4e9} ");
        }
        let part = "\u{e4e9} ";
        assert(part@ =~= seq!['\u{e4e9}', ' ']);
        part
    } else {
        str_trim(answer)
    }
}

} // verus!
