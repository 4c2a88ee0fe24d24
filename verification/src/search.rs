//! Searching text for a labelled field with the `regex` crate.

use vstd::prelude::*;

verus! {

/// Declares `regex::Error`, the error of a pattern that does not compile.
/// It is carried through unread.
#[verifier::external_type_specification]
#[verifier::external_body]
pub struct ExPatternError(regex::Error);

/// Whether the pattern compiler accepts `pattern`: its syntax is valid and
/// the compiled program stays within the compiler's size limit. The compiler
/// counts that limit in bytes of the program it builds, so this speaks of the
/// build of the `regex` crate that is linked; for that build it is a matter
/// of the pattern alone.
pub uninterp spec fn pattern_compiles(pattern: Seq<char>) -> bool;

/// What a search of `text` for `pattern` captures in the group numbered
/// `group`: the text of that group in the first match, or `None` where the
/// pattern matches nowhere in `text`, has no such group, or the group took no
/// part in the match. Group 0 is the whole match; the others are numbered by
/// their opening parentheses. It says something of the patterns that compile,
/// and of no others.
pub uninterp spec fn captured_group(pattern: Seq<char>, text: Seq<char>, group: nat) -> Option<
    Seq<char>,
>;

/// The characters of an owned piece of text, if there is one.
pub open spec fn capture_view(capture: Option<String>) -> Option<Seq<char>> {
    match capture {
        Some(s) => Some(s@),
        None => None,
    }
}

/// Compiles `pattern` with `regex::Regex::new`, searches `text` with
/// `Regex::captures`, and hands back a copy of what `Captures::get` and
/// `Match::as_str` give for the group numbered `group`.
///
/// Trusted, not proved: the call succeeds exactly where the pattern
/// compiles, under the name `pattern_compiles`, and the result is then what
/// the crate's search captures, under the name `captured_group`. The crate's
/// error is passed on as it is.
#[verifier::external_body]
pub(crate) fn capture_group(pattern: &str, text: &str, group: usize) -> (r: Result<
    Option<String>,
    regex::Error,
>)
    ensures
        r is Ok <==> pattern_compiles(pattern@),
        r matches Ok(capture) ==> capture_view(capture) == captured_group(
            pattern@,
            text@,
            group as nat,
        ),
{
    let re = regex::Regex::new(pattern)?;
    Ok(re.captures(text).and_then(|caps| caps.get(group)).map(|m| m.as_str().to_string()))
}

} // verus!
