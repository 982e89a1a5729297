//! The identity a scheduled task runs as, read from the answer of the
//! system's identity lookup.

use vstd::prelude::*;
use vstd::string::*;
use crate::command::{CommandLine, CommandLineView};
use crate::install::names_of;

verus! {

/// White space, as Unicode defines it.
pub open spec fn is_space(c: char) -> bool {
    ('\u{9}' <= c && c <= '\u{d}') || c == ' ' || c == '\u{85}' || c == '\u{a0}' || c
        == '\u{1680}' || ('\u{2000}' <= c && c <= '\u{200a}') || c == '\u{2028}' || c
        == '\u{2029}' || c == '\u{202f}' || c == '\u{205f}' || c == '\u{3000}'
}

/// What is stripped from a text: double quotes, or white space.
pub open spec fn is_blank(c: char, quotes: bool) -> bool {
    if quotes {
        c == '"'
    } else {
        is_space(c)
    }
}

/// Decides `is_blank`.
pub fn is_blank_char(c: char, quotes: bool) -> (b: bool)
    ensures
        b == is_blank(c, quotes),
{
    if quotes {
        c == '"'
    } else {
        ('\u{9}' <= c && c <= '\u{d}') || c == ' ' || c == '\u{85}' || c == '\u{a0}' || c
            == '\u{1680}' || ('\u{2000}' <= c && c <= '\u{200a}') || c == '\u{2028}' || c
            == '\u{2029}' || c == '\u{202f}' || c == '\u{205f}' || c == '\u{3000}'
    }
}

/// Index of the first character at or after `from` that is not blank; the
/// length where all are.
pub open spec fn front(s: Seq<char>, from: int, quotes: bool) -> int
    decreases s.len() - from,
{
    if from >= s.len() {
        s.len() as int
    } else if !is_blank(s[from], quotes) {
        from
    } else {
        front(s, from + 1, quotes)
    }
}

/// End of the last character before `hi` and not before `lo` that is not
/// blank; `lo` where all are.
pub open spec fn back(s: Seq<char>, lo: int, hi: int, quotes: bool) -> int
    decreases hi - lo,
{
    if hi <= lo {
        lo
    } else if !is_blank(s[hi - 1], quotes) {
        hi
    } else {
        back(s, lo, hi - 1, quotes)
    }
}

/// `s` without the blanks at its two ends.
pub open spec fn stripped(s: Seq<char>, quotes: bool) -> Seq<char> {
    let lo = front(s, 0, quotes);
    let hi = back(s, lo, s.len() as int, quotes);
    s.subrange(lo, hi)
}

/// Computes `stripped`.
pub fn strip(s: &str, quotes: bool) -> (r: String)
    ensures
        r@ == stripped(s@, quotes),
{
    let n: usize = s.unicode_len();
    let mut lo: usize = 0;
    while lo < n && is_blank_char(s.get_char(lo), quotes)
        invariant
            lo <= n,
            n == s@.len(),
            front(s@, 0, quotes) == front(s@, lo as int, quotes),
        decreases n - lo,
    {
        lo = lo + 1;
    }
    let mut hi: usize = n;
    while hi > lo && is_blank_char(s.get_char(hi - 1), quotes)
        invariant
            lo <= hi <= n,
            n == s@.len(),
            back(s@, lo as int, n as int, quotes) == back(s@, lo as int, hi as int, quotes),
        decreases hi - lo,
    {
        hi = hi - 1;
    }
    String::from_str(s.substring_char(lo, hi))
}

/// Index of the first comma at or after `from`; the length where none is.
pub open spec fn next_comma(s: Seq<char>, from: int) -> int
    decreases s.len() - from,
{
    if from >= s.len() {
        s.len() as int
    } else if s[from] == ',' {
        from
    } else {
        next_comma(s, from + 1)
    }
}

/// Computes `next_comma`.
pub fn find_comma(s: &str, from: usize) -> (r: usize)
    ensures
        r <= s@.len(),
        from <= s@.len() ==> from <= r,
        r == next_comma(s@, from as int),
{
    let n: usize = s.unicode_len();
    if from >= n {
        return n;
    }
    let mut i: usize = from;
    while i < n && s.get_char(i) != ','
        invariant
            from <= i <= n,
            n == s@.len(),
            next_comma(s@, from as int) == next_comma(s@, i as int),
        decreases n - i,
    {
        i = i + 1;
    }
    i
}

/// The identity in the answer of the lookup: the second of its fields
/// between commas, without the white space and then the quotes around it.
/// An answer without a comma holds none.
pub open spec fn user_sid_of(answer: Seq<char>) -> Option<Seq<char>> {
    let first = next_comma(answer, 0);
    if first >= answer.len() {
        None
    } else {
        let field = answer.subrange(first + 1, next_comma(answer, first + 1));
        Some(stripped(stripped(field, false), true))
    }
}

/// Computes `user_sid_of`.
pub fn parse_user_sid(answer: &str) -> (r: Option<String>)
    ensures
        match r {
            Some(sid) => user_sid_of(answer@) == Some(sid@),
            None => user_sid_of(answer@) is None,
        },
{
    let n: usize = answer.unicode_len();
    let first: usize = find_comma(answer, 0);
    if first >= n {
        return None;
    }
    let second: usize = find_comma(answer, first + 1);
    let field: &str = answer.substring_char(first + 1, second);
    let bare: String = strip(field, false);
    Some(strip(bare.as_str(), true))
}

/// The command that asks the system for the identity of the current user.
pub open spec fn identity_line() -> CommandLineView {
    CommandLineView { program: "whoami"@, args: seq!["/user"@, "/fo"@, "csv"@, "/nh"@] }
}

/// Builds the command that looks the current user up.
pub fn identity_command() -> (c: CommandLine)
    ensures
        c@ == identity_line(),
{
    let mut args: Vec<String> = Vec::new();
    args.push(String::from_str("/user"));
    args.push(String::from_str("/fo"));
    args.push(String::from_str("csv"));
    args.push(String::from_str("/nh"));
    assert(names_of(args@) =~= seq!["/user"@, "/fo"@, "csv"@, "/nh"@]);
    CommandLine { program: String::from_str("whoami"), args }
}

/// The identity a task runs as: the one the lookup gave, or the built-in
/// administrators group where the lookup failed or its answer holds none.
pub open spec fn identity_of(success: bool, answer: Seq<char>) -> Seq<char> {
    if success && user_sid_of(answer) is Some {
        user_sid_of(answer).unwrap()
    } else {
        "S-1-5-32-544"@
    }
}

/// Computes `identity_of` from how the lookup ended and what it printed.
pub fn get_current_user_sid(success: bool, answer: &str) -> (sid: String)
    ensures
        sid@ == identity_of(success, answer@),
{
    if success {
        match parse_user_sid(answer) {
            Some(sid) => sid,
            None => String::from_str("S-1-5-32-544"),
        }
    } else {
        String::from_str("S-1-5-32-544")
    }
}

} // verus!
