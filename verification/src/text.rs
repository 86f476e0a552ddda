//! Text algorithms over sequences of characters: matching a pattern at a
//! position, prefixes and suffixes, substring search, scanning the lines of a
//! command's output, and decimal numerals.
//!
//! Every specification here is a function on `Seq<char>`; the executable
//! functions work on `&str` or on the characters collected from one.

use vstd::prelude::*;
use vstd::string::StringExecFns;

verus! {

/// `pattern` occurs in `text` starting at index `at`.
pub open spec fn occurs_at(text: Seq<char>, at: int, pattern: Seq<char>) -> bool {
    &&& 0 <= at
    &&& at + pattern.len() <= text.len()
    &&& text.subrange(at, at + pattern.len()) == pattern
}

/// `text` begins with `prefix`.
pub open spec fn starts_with(text: Seq<char>, prefix: Seq<char>) -> bool {
    occurs_at(text, 0, prefix)
}

/// `text` ends with `suffix`.
pub open spec fn ends_with(text: Seq<char>, suffix: Seq<char>) -> bool {
    occurs_at(text, text.len() - suffix.len(), suffix)
}

/// `pattern` occurs somewhere in `text`.
pub open spec fn contains_text(text: Seq<char>, pattern: Seq<char>) -> bool {
    exists|at: int| occurs_at(text, at, pattern)
}

/// The index of the first line feed at or after `from`, or the length of
/// `text` when there is none.
pub open spec fn line_end(text: Seq<char>, from: int) -> int
    decreases text.len() - from,
{
    if from < 0 || from >= text.len() {
        text.len() as int
    } else if text[from] == '\n' {
        from
    } else {
        line_end(text, from + 1)
    }
}

/// A line begins at `start`: at the beginning of the text or right after a
/// line feed, and before the end of the text.
pub open spec fn is_line_start(text: Seq<char>, start: int) -> bool {
    &&& 0 <= start < text.len()
    &&& (start == 0 || text[start - 1] == '\n')
}

/// Where the content of the line beginning at `start` ends: at its line
/// feed, or one earlier when a carriage return stands right before that line
/// feed. A last line without a line feed keeps a trailing carriage return.
pub open spec fn line_content_end(text: Seq<char>, start: int) -> int {
    let end = line_end(text, start);
    if end < text.len() && start < end && text[end - 1] == '\r' {
        end - 1
    } else {
        end
    }
}

/// The content of the line beginning at `start`, without its line ending.
pub open spec fn line_at(text: Seq<char>, start: int) -> Seq<char> {
    text.subrange(start, line_content_end(text, start))
}

/// Some line of `text` begins with `prefix`.
pub open spec fn some_line_starts_with(text: Seq<char>, prefix: Seq<char>) -> bool {
    exists|start: int| is_line_start(text, start) && starts_with(line_at(text, start), prefix)
}

/// The character of a decimal digit.
pub open spec fn digit_char(digit: nat) -> char {
    if digit == 0 {
        '0'
    } else if digit == 1 {
        '1'
    } else if digit == 2 {
        '2'
    } else if digit == 3 {
        '3'
    } else if digit == 4 {
        '4'
    } else if digit == 5 {
        '5'
    } else if digit == 6 {
        '6'
    } else if digit == 7 {
        '7'
    } else if digit == 8 {
        '8'
    } else {
        '9'
    }
}

/// The decimal numeral of `n`, without leading zeros.
pub open spec fn decimal(n: nat) -> Seq<char>
    decreases n,
{
    if n < 10 {
        seq![digit_char(n)]
    } else {
        decimal(n / 10).push(digit_char(n % 10))
    }
}

/// The characters of `text`, in order.
pub fn chars_of(text: &str) -> (chars: Vec<char>)
    ensures
        chars@ == text@,
{
    let mut chars: Vec<char> = Vec::new();
    for c in it: text.chars()
        invariant
            it.seq() == text@,
            chars@ == text@.take(it.index()),
    {
        chars.push(c);
    }
    chars
}

/// Whether `pattern` occurs in `text` at index `at`.
pub fn matches_at(text: &Vec<char>, at: usize, pattern: &Vec<char>) -> (found: bool)
    ensures
        found == occurs_at(text@, at as int, pattern@),
{
    if at > text.len() || pattern.len() > text.len() - at {
        return false;
    }
    let mut i: usize = 0;
    while i < pattern.len()
        invariant
            at + pattern.len() <= text.len(),
            i <= pattern.len(),
            forall|k: int| 0 <= k < i ==> text@[at + k] == pattern@[k],
        decreases pattern.len() - i,
    {
        if text[at + i] != pattern[i] {
            proof {
                let window = text@.subrange(at as int, at + pattern.len());
                assert(window[i as int] == text@[at + i]);
            }
            return false;
        }
        i += 1;
    }
    assert(text@.subrange(at as int, at + pattern.len()) =~= pattern@);
    true
}

/// Whether `text` begins with `prefix`.
pub fn has_prefix(text: &str, prefix: &str) -> (found: bool)
    ensures
        found == starts_with(text@, prefix@),
{
    let text_chars = chars_of(text);
    let prefix_chars = chars_of(prefix);
    matches_at(&text_chars, 0, &prefix_chars)
}

/// Whether `text` ends with `suffix`.
pub fn has_suffix(text: &str, suffix: &str) -> (found: bool)
    ensures
        found == ends_with(text@, suffix@),
{
    let text_chars = chars_of(text);
    let suffix_chars = chars_of(suffix);
    if suffix_chars.len() > text_chars.len() {
        return false;
    }
    matches_at(&text_chars, text_chars.len() - suffix_chars.len(), &suffix_chars)
}

/// Whether the two texts hold the same characters.
pub fn same_text(left: &str, right: &str) -> (same: bool)
    ensures
        same == (left@ == right@),
{
    let left_chars = chars_of(left);
    let right_chars = chars_of(right);
    if left_chars.len() != right_chars.len() {
        return false;
    }
    let found = matches_at(&left_chars, 0, &right_chars);
    assert(left@.subrange(0, left@.len() as int) =~= left@);
    found
}

/// Whether `pattern` occurs somewhere in `text`.
pub fn contains(text: &str, pattern: &str) -> (found: bool)
    ensures
        found == contains_text(text@, pattern@),
{
    let text_chars = chars_of(text);
    let pattern_chars = chars_of(pattern);
    if pattern_chars.len() > text_chars.len() {
        return false;
    }
    let last = text_chars.len() - pattern_chars.len();
    let mut at: usize = 0;
    while at < last
        invariant
            text_chars@ == text@,
            pattern_chars@ == pattern@,
            last == text_chars.len() - pattern_chars.len(),
            at <= last,
            forall|k: int| 0 <= k < at ==> !occurs_at(text@, k, pattern@),
        decreases last - at,
    {
        if matches_at(&text_chars, at, &pattern_chars) {
            return true;
        }
        at += 1;
    }
    matches_at(&text_chars, last, &pattern_chars)
}

/// Whether `c` occurs in `text`.
pub fn contains_char(text: &str, c: char) -> (found: bool)
    ensures
        found == text@.contains(c),
{
    let chars = chars_of(text);
    let mut i: usize = 0;
    while i < chars.len()
        invariant
            chars@ == text@,
            i <= chars.len(),
            forall|k: int| 0 <= k < i ==> text@[k] != c,
        decreases chars.len() - i,
    {
        if chars[i] == c {
            return true;
        }
        i += 1;
    }
    false
}

/// From `from` on, no line feed stands before `line_end`, and a line feed
/// stands at it unless it is the end of the text.
pub proof fn lemma_line_end(text: Seq<char>, from: int)
    requires
        0 <= from <= text.len(),
    ensures
        from <= line_end(text, from) <= text.len(),
        forall|k: int| from <= k < line_end(text, from) ==> text[k] != '\n',
        line_end(text, from) < text.len() ==> text[line_end(text, from)] == '\n',
    decreases text.len() - from,
{
    if from < text.len() && text[from] != '\n' {
        lemma_line_end(text, from + 1);
    }
}

/// Whether some line of `text` begins with `prefix`. Lines end at a line
/// feed or at a carriage return followed by a line feed.
pub fn any_line_has_prefix(text: &str, prefix: &str) -> (found: bool)
    ensures
        found == some_line_starts_with(text@, prefix@),
{
    let chars = chars_of(text);
    let prefix_chars = chars_of(prefix);
    let mut start: usize = 0;
    while start < chars.len()
        invariant
            chars@ == text@,
            prefix_chars@ == prefix@,
            start <= chars.len(),
            start < chars.len() ==> is_line_start(text@, start as int),
            forall|p: int|
                0 <= p < start && is_line_start(text@, p) ==> !starts_with(
                    #[trigger] line_at(text@, p),
                    prefix@,
                ),
        decreases chars.len() - start,
    {
        let mut end: usize = start;
        while end < chars.len() && chars[end] != '\n'
            invariant
                chars@ == text@,
                start <= end <= chars.len(),
                line_end(text@, start as int) == line_end(text@, end as int),
            decreases chars.len() - end,
        {
            end += 1;
        }
        let content_end: usize = if end < chars.len() && start < end && chars[end - 1] == '\r' {
            end - 1
        } else {
            end
        };
        proof {
            lemma_line_end(text@, start as int);
            assert(end as int == line_end(text@, start as int));
            assert(content_end as int == line_content_end(text@, start as int));
        }
        let fits = prefix_chars.len() <= content_end - start;
        if fits && matches_at(&chars, start, &prefix_chars) {
            proof {
                let line = line_at(text@, start as int);
                assert(line.subrange(0, prefix@.len() as int) =~= text@.subrange(
                    start as int,
                    start + prefix@.len(),
                ));
            }
            return true;
        }
        let next: usize = if end < chars.len() {
            end + 1
        } else {
            end
        };
        proof {
            let line = line_at(text@, start as int);
            if starts_with(line, prefix@) {
                assert(line.subrange(0, prefix@.len() as int) =~= text@.subrange(
                    start as int,
                    start + prefix@.len(),
                ));
            }
            assert forall|p: int| 0 <= p < next && is_line_start(text@, p) implies !starts_with(
                #[trigger] line_at(text@, p),
                prefix@,
            ) by {
                if p > start {
                    assert(text@[p - 1] != '\n');
                }
            }
        }
        start = next;
    }
    false
}

/// The numeral of one decimal digit.
fn digit_text(digit: u64) -> (text: &'static str)
    requires
        digit < 10,
    ensures
        text@ == seq![digit_char(digit as nat)],
{
    proof {
        reveal_strlit("0");
        reveal_strlit("1");
        reveal_strlit("2");
        reveal_strlit("3");
        reveal_strlit("4");
        reveal_strlit("5");
        reveal_strlit("6");
        reveal_strlit("7");
        reveal_strlit("8");
        reveal_strlit("9");
    }
    let text = if digit == 0 {
        "0"
    } else if digit == 1 {
        "1"
    } else if digit == 2 {
        "2"
    } else if digit == 3 {
        "3"
    } else if digit == 4 {
        "4"
    } else if digit == 5 {
        "5"
    } else if digit == 6 {
        "6"
    } else if digit == 7 {
        "7"
    } else if digit == 8 {
        "8"
    } else {
        "9"
    };
    assert(text@ =~= seq![digit_char(digit as nat)]);
    text
}

/// The decimal numeral of `n`.
pub fn decimal_text(n: u64) -> (text: String)
    ensures
        text@ == decimal(n as nat),
    decreases n,
{
    if n < 10 {
        String::from_str(digit_text(n))
    } else {
        let mut text = decimal_text(n / 10);
        text.append(digit_text(n % 10));
        assert(text@ =~= decimal((n / 10) as nat).push(digit_char((n % 10) as nat)));
        text
    }
}

} // verus!
