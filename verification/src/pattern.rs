//! Regular-expression matching, done by the `regex` crate.
use regex::Regex;
use vstd::prelude::*;

verus! {

/// What `regex::Regex::new(pattern)` followed by `Regex::captures(text)`
/// gives, with each capture group taken by its text: `None` when the
/// pattern does not compile or does not match `text`; otherwise one entry
/// per capture group of the pattern, group 0 being the whole leftmost-first
/// match, and `None` for a group that took no part in the match.
pub uninterp spec fn regex_captures_spec(pattern: Seq<char>, text: Seq<char>) -> Option<
    Seq<Option<Seq<char>>>,
>;

/// A character that stands for itself in a pattern: an ASCII letter or
/// digit, or `_`.
pub open spec fn is_plain(c: char) -> bool {
    ('a' <= c && c <= 'z') || ('A' <= c && c <= 'Z') || ('0' <= c && c <= '9') || c == '_'
}

/// A repetition operator, which makes the character before it optional
/// or repeated.
pub open spec fn is_repetition(c: char) -> bool {
    c == '?' || c == '*' || c == '+' || c == '{'
}

/// How many plain characters follow one another in `p` from position `i` on.
pub open spec fn plain_run(p: Seq<char>, i: nat) -> nat
    decreases p.len() - i,
{
    if i < p.len() && is_plain(p[i as int]) {
        1 + plain_run(p, i + 1)
    } else {
        0
    }
}

/// Whether `p` holds no `|` from position `i` on.
pub open spec fn bar_free_from(p: Seq<char>, i: nat) -> bool
    decreases p.len() - i,
{
    i >= p.len() || (p[i as int] != '|' && bar_free_from(p, i + 1))
}

/// The text that every match of a pattern `^L...` must begin with: the
/// plain characters right after `^`, less the last one when a repetition
/// operator follows it.
pub open spec fn anchored_literal(p: Seq<char>) -> Seq<char> {
    let n = plain_run(p, 1);
    let k: int = if n > 0 && 1 + n < p.len() && is_repetition(p[1 + n as int]) {
        n - 1
    } else {
        n as int
    };
    p.subrange(1, 1 + k)
}

/// The pattern starts with `^`, has no alternation, and `text` does not
/// begin with the literal that follows the `^`: no match can exist.
pub open spec fn anchor_excludes(p: Seq<char>, text: Seq<char>) -> bool {
    &&& p.len() > 0
    &&& p[0] == '^'
    &&& bar_free_from(p, 0)
    &&& !(text.len() >= anchored_literal(p).len() && text.take(
        anchored_literal(p).len() as int,
    ) == anchored_literal(p))
}

/// What matching `pattern` against `text` gives: nothing where the
/// anchored literal of the pattern rules a match out, else the captures
/// the regex engine reports.
pub open spec fn captures_of(pattern: Seq<char>, text: Seq<char>) -> Option<Seq<Option<Seq<char>>>> {
    if anchor_excludes(pattern, text) {
        None
    } else {
        regex_captures_spec(pattern, text)
    }
}

/// Compiles `pattern` with `regex::Regex::new` and runs `Regex::captures`
/// on `text`, handing back the text of every capture group.  The contract
/// claims that the outcome is a function of `pattern` and `text` (named
/// by `regex_captures_spec`), and one fact of the documented syntax: `^`
/// matches only at the beginning of the text (multi-line mode is off
/// unless the pattern turns it on, which a pattern starting with `^`
/// cannot have done before the `^`), ASCII letters, digits and `_` match
/// themselves, and without `|` the pattern is one concatenation; so a
/// text that does not begin with the plain characters after the `^` (the
/// last one dropped when a repetition follows it) has no match.  Beyond
/// that, what the engine matches is not stated.  A pattern that does not
/// compile gives `None`.
#[verifier::external_body]
pub(crate) fn regex_captures(pattern: &str, text: &str) -> (r: Option<Vec<Option<String>>>)
    ensures
        r.deep_view() == regex_captures_spec(pattern@, text@),
        anchor_excludes(pattern@, text@) ==> r is None,
{
    match Regex::new(pattern) {
        Ok(re) => re.captures(text).map(
            |caps| caps.iter().map(|group| group.map(|m| m.as_str().to_string())).collect(),
        ),
        Err(_) => None,
    }
}

/// The text of capture group `i`, when the match exists and the group took part in it.
pub open spec fn group_text(caps: Option<Seq<Option<Seq<char>>>>, i: int) -> Option<Seq<char>> {
    match caps {
        Some(groups) => if 0 <= i < groups.len() {
            groups[i]
        } else {
            None
        },
        None => None,
    }
}

/// The text of capture group `i` of a captures result.
pub fn group_of(caps: &Option<Vec<Option<String>>>, i: usize) -> (r: Option<String>)
    ensures
        r.deep_view() == group_text(caps.deep_view(), i as int),
{
    match caps {
        Some(groups) => {
            if i < groups.len() {
                match &groups[i] {
                    Some(t) => Some(t.clone()),
                    None => None,
                }
            } else {
                None
            }
        },
        None => None,
    }
}

} // verus!
