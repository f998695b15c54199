use vstd::prelude::*;

verus! {

/// The error that `regex::Regex::new` returns for a pattern it cannot
/// compile.
#[verifier::external_type_specification]
#[verifier::external_body]
pub struct ExRegexError(regex::Error);

/// What compiling `pattern` with `regex::Regex::new` and running
/// `Regex::captures` on `line` gives: `None` when the pattern does not
/// compile; otherwise `None` inside when the pattern does not match, and
/// else the text of every capture group, in the order of their opening
/// parentheses, group 0 being the whole match and `None` standing for a
/// group that took no part in the match.
pub uninterp spec fn regex_captures_of(pattern: Seq<char>, line: Seq<char>) -> Option<
    Option<Seq<Option<Seq<char>>>>,
>;

/// The capture groups of the first match of `pattern` in `line`.
///
/// Trusted wrapper around `regex::Regex::new` followed by `Regex::captures`
/// and `Captures::iter`. The contract claims that the result is the one
/// that `regex_captures_of` names for the two arguments: the regex
/// semantics themselves are not stated.
#[verifier::external_body]
pub fn regex_captures(pattern: &str, line: &str) -> (res: Result<
    Option<Vec<Option<String>>>,
    regex::Error,
>)
    ensures
        match res {
            Ok(c) => regex_captures_of(pattern@, line@) == Some(c.deep_view()),
            Err(_) => regex_captures_of(pattern@, line@) is None,
        },
{
    let re = regex::Regex::new(pattern)?;
    Ok(re.captures(line).map(|c| c.iter().map(|m| m.map(|m| m.as_str().to_string())).collect()))
}

/// A pattern of the bot that the regex engine refused to compile.
#[derive(Debug)]
pub struct PatternError;

/// Group `i` of a list of capture groups: `None` when it took no part in
/// the match or does not exist.
pub open spec fn group_spec(caps: Seq<Option<Seq<char>>>, i: int) -> Option<Seq<char>> {
    if 0 <= i < caps.len() {
        caps[i]
    } else {
        None
    }
}

/// The text of group `i`, if it took part in the match.
pub fn group(caps: &Vec<Option<String>>, i: usize) -> (res: Option<String>)
    ensures
        res.deep_view() == group_spec(caps.deep_view(), i as int),
{
    if i < caps.len() {
        match &caps[i] {
            Some(s) => Some(s.clone()),
            None => None,
        }
    } else {
        None
    }
}

} // verus!
