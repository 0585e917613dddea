//! Small operations on text that the rest of the library shares.

use vstd::prelude::*;
use vstd::string::*;

verus! {

/// `text` in lower case, as `str::to_lowercase` gives it.
pub uninterp spec fn lowercased(text: Seq<char>) -> Seq<char>;

/// Calls `str::to_lowercase`.
///
/// Not proved: that the outcome is [`lowercased`] of the text, which claims
/// no more than that it depends on the text alone.
#[verifier::external_body]
pub(crate) fn to_lowercase(text: &str) -> (lower: String)
    ensures
        lower@ == lowercased(text@),
{
    text.to_lowercase()
}

/// The text of an optional string.
pub open spec fn opt_text(value: Option<String>) -> Option<Seq<char>> {
    match value {
        Some(text) => Some(text@),
        None => None,
    }
}

/// The text of an optional string slice.
pub open spec fn opt_str_text(value: Option<&str>) -> Option<Seq<char>> {
    match value {
        Some(text) => Some(text@),
        None => None,
    }
}

/// A copy of an optional string.
pub fn clone_opt(value: &Option<String>) -> (copy: Option<String>)
    ensures
        opt_text(copy) == opt_text(*value),
        copy == *value,
{
    match value {
        Some(text) => Some(text.clone()),
        None => None,
    }
}

/// Whether a character is white space, as Unicode knows it: the controls
/// from tab to carriage return, the space, the next-line control, the
/// no-break space, and the spaces and separators further up.
pub open spec fn is_space(c: char) -> bool {
    let code = c as u32;
    ||| 0x09 <= code <= 0x0D
    ||| code == 0x20
    ||| code == 0x85
    ||| code == 0xA0
    ||| code == 0x1680
    ||| 0x2000 <= code <= 0x200A
    ||| code == 0x2028
    ||| code == 0x2029
    ||| code == 0x202F
    ||| code == 0x205F
    ||| code == 0x3000
}

/// The first place from `from` on that holds no white space; the length of
/// the text where there is none.
pub open spec fn ink_start(text: Seq<char>, from: int) -> int
    decreases text.len() - from,
{
    if from < 0 || from >= text.len() {
        text.len() as int
    } else if !is_space(text[from]) {
        from
    } else {
        ink_start(text, from + 1)
    }
}

/// The place after the last character before `end` that is no white space;
/// 0 where there is none.
pub open spec fn ink_end(text: Seq<char>, end: int) -> int
    decreases end,
{
    if end <= 0 || end > text.len() {
        0
    } else if !is_space(text[end - 1]) {
        end
    } else {
        ink_end(text, end - 1)
    }
}

/// `text` without the white space at its two ends: what stands from its
/// first to its last character that is no white space, and nothing where it
/// has no such character.
pub open spec fn trimmed(text: Seq<char>) -> Seq<char> {
    if ink_start(text, 0) >= ink_end(text, text.len() as int) {
        Seq::empty()
    } else {
        text.subrange(ink_start(text, 0), ink_end(text, text.len() as int))
    }
}

/// Tells whether a character is white space.
pub fn is_space_char(c: char) -> (space: bool)
    ensures
        space == is_space(c),
{
    let code = c as u32;
    (0x09 <= code && code <= 0x0D) || code == 0x20 || code == 0x85 || code == 0xA0 || code
        == 0x1680 || (0x2000 <= code && code <= 0x200A) || code == 0x2028 || code == 0x2029
        || code == 0x202F || code == 0x205F || code == 0x3000
}

/// Takes the white space off the two ends of a text.
pub fn trim(text: &str) -> (inner: &str)
    ensures
        inner@ == trimmed(text@),
{
    let n = text.unicode_len();
    let mut start: usize = 0;
    while start < n && is_space_char(text.get_char(start))
        invariant
            n == text@.len(),
            start <= n,
            ink_start(text@, 0) == ink_start(text@, start as int),
        decreases n - start,
    {
        start = start + 1;
    }
    let mut end: usize = n;
    while end > start && is_space_char(text.get_char(end - 1))
        invariant
            n == text@.len(),
            start <= end <= n,
            start == ink_start(text@, 0),
            ink_end(text@, n as int) == ink_end(text@, end as int),
        decreases end,
    {
        end = end - 1;
    }
    proof {
        if end > start {
            assert(ink_end(text@, end as int) == end);
        } else {
            lemma_ink_end_after_ink(text@, start as int, end as int);
            assert(text@.subrange(start as int, end as int) =~= Seq::<char>::empty());
        }
    }
    text.substring_char(start, end)
}

proof fn lemma_ink_end_after_ink(text: Seq<char>, start: int, end: int)
    requires
        0 <= end <= text.len(),
        start == ink_start(text, 0),
        end <= start,
    ensures
        ink_end(text, end) <= start,
    decreases end,
{
    if end > 0 && is_space(text[end - 1]) {
        lemma_ink_end_after_ink(text, start, end - 1);
    }
}

/// How many bytes from `at` on are one character of white space, as Unicode
/// knows it and UTF-8 writes it; 0 where no such character starts.
pub open spec fn space_width(text: Seq<u8>, at: int) -> int {
    if at < 0 || at >= text.len() {
        0
    } else if (9 <= text[at] <= 13) || text[at] == 32 {
        1
    } else if at + 1 < text.len() && text[at] == 0xC2 && (text[at + 1] == 0x85 || text[at + 1]
        == 0xA0) {
        2
    } else if at + 2 < text.len() && text[at] == 0xE1 && text[at + 1] == 0x9A && text[at + 2]
        == 0x80 {
        3
    } else if at + 2 < text.len() && text[at] == 0xE2 && text[at + 1] == 0x80 && ((0x80 <= text[at
        + 2] <= 0x8A) || text[at + 2] == 0xA8 || text[at + 2] == 0xA9 || text[at + 2] == 0xAF) {
        3
    } else if at + 2 < text.len() && text[at] == 0xE2 && text[at + 1] == 0x81 && text[at + 2]
        == 0x9F {
        3
    } else if at + 2 < text.len() && text[at] == 0xE3 && text[at + 1] == 0x80 && text[at + 2]
        == 0x80 {
        3
    } else {
        0
    }
}

/// Whether `text` from `at` on is white space only.
pub open spec fn blank_from(text: Seq<u8>, at: int) -> bool
    decreases text.len() - at,
{
    if at < 0 || at >= text.len() {
        true
    } else if space_width(text, at) > 0 {
        blank_from(text, at + space_width(text, at))
    } else {
        false
    }
}

/// Measures the character of white space that starts at `at`.
pub fn width_of_space(text: &[u8], at: usize) -> (width: usize)
    ensures
        width == space_width(text@, at as int),
        width <= 3,
        at < text@.len() ==> at + width <= text@.len(),
{
    let n = text.len();
    if at >= n {
        return 0;
    }
    let b = text[at];
    if (9 <= b && b <= 13) || b == 32 {
        return 1;
    }
    if n - at >= 2 && b == 0xC2 && (text[at + 1] == 0x85 || text[at + 1] == 0xA0) {
        return 2;
    }
    if n - at >= 3 {
        let c = text[at + 1];
        let d = text[at + 2];
        if b == 0xE1 && c == 0x9A && d == 0x80 {
            return 3;
        }
        if b == 0xE2 && c == 0x80 && ((0x80 <= d && d <= 0x8A) || d == 0xA8 || d == 0xA9 || d
            == 0xAF) {
            return 3;
        }
        if b == 0xE2 && c == 0x81 && d == 0x9F {
            return 3;
        }
        if b == 0xE3 && c == 0x80 && d == 0x80 {
            return 3;
        }
    }
    0
}

/// Tells whether `text` is white space only.
pub fn is_blank(text: &[u8]) -> (blank: bool)
    ensures
        blank == blank_from(text@, 0),
{
    let mut at: usize = 0;
    while at < text.len()
        invariant
            at <= text@.len(),
            blank_from(text@, 0) == blank_from(text@, at as int),
        decreases text@.len() - at,
    {
        let width = width_of_space(text, at);
        if width == 0 {
            return false;
        }
        at = at + width;
    }
    true
}

/// Whether a text is white space only: nothing is left of it without the
/// white space at its ends.
pub open spec fn is_blank_text(text: Seq<char>) -> bool {
    trimmed(text).len() == 0
}

/// Tells whether a text is white space only.
pub fn blank(text: &str) -> (b: bool)
    ensures
        b == is_blank_text(text@),
{
    trim(text).is_empty()
}

} // verus!
