//! Regular expressions, as the log reader uses them.

use vstd::prelude::*;
use vstd::string::*;
use crate::text::opt_text;

verus! {

#[verifier::external_type_specification]
#[verifier::external_body]
pub struct ExRegex(regex::Regex);

/// The pattern that a compiled expression was made of.
pub uninterp spec fn pattern_of(expression: regex::Regex) -> Seq<char>;

/// What the leftmost match of a pattern in a text captures: the text of each
/// group, the whole match first, with `None` for a group that took no part;
/// `None` where the pattern does not match.
pub uninterp spec fn captured(pattern: Seq<char>, text: Seq<char>) -> Option<
    Seq<Option<Seq<char>>>,
>;

/// The views of what was captured.
pub open spec fn group_views(groups: Option<Vec<Option<String>>>) -> Option<Seq<Option<Seq<char>>>> {
    match groups {
        Some(v) => Some(Seq::new(v.len() as nat, |i: int| opt_text(v[i]))),
        None => None,
    }
}

/// Whether `regex` accepts a pattern.
pub uninterp spec fn compiles(pattern: Seq<char>) -> bool;

/// Calls `regex::Regex::new`; a pattern that is refused gives `None`.
#[verifier::external_body]
pub(crate) fn compile(pattern: &str) -> (r: Option<regex::Regex>)
    ensures
        r is Some <==> compiles(pattern@),
        r matches Some(expression) ==> pattern_of(expression) == pattern@,
{
    match regex::Regex::new(pattern) {
        Ok(expression) => Some(expression),
        Err(_) => None,
    }
}

/// Calls `captures` on the expression and hands out the text of every group.
#[verifier::external_body]
pub(crate) fn captures(expression: &regex::Regex, text: &str) -> (r: Option<Vec<Option<String>>>)
    ensures
        group_views(r) == captured(pattern_of(*expression), text@),
{
    match expression.captures(text) {
        Some(found) => Some(found.iter().map(|g| g.map(|m| m.as_str().to_string())).collect()),
        None => None,
    }
}

/// The text of group `index`, or `default` where the group is not there
/// or took no part.
pub open spec fn group_or(groups: Seq<Option<Seq<char>>>, index: int, default: Seq<char>) -> Seq<
    char,
> {
    if 0 <= index < groups.len() {
        match groups[index] {
            Some(t) => t,
            None => default,
        }
    } else {
        default
    }
}

/// Builds `group_or`.
pub fn group_text(groups: &Vec<Option<String>>, index: usize, default: &str) -> (r: String)
    ensures
        r@ == group_or(group_views(Some(*groups))->0, index as int, default@),
{
    if index < groups.len() {
        match &groups[index] {
            Some(t) => t.clone(),
            None => default.to_owned(),
        }
    } else {
        default.to_owned()
    }
}

} // verus!
