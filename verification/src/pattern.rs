//! Regular-expression search, done by the `fancy_regex` crate.

use fancy_regex::Error as RegexError;
use vstd::prelude::*;

verus! {

/// `fancy_regex::Error`, which is handed on unread: that a search failed is
/// all that is made of it.
#[verifier::external_type_specification]
#[verifier::external_body]
pub struct ExRegexError(RegexError);

/// What a search of `text` for `pattern` by `fancy_regex` gives:
/// `Err(())` where the pattern does not compile or the search gives up at one
/// of the engine's fixed limits; `Ok(None)` where the pattern matches nowhere;
/// else `Ok(Some(groups))` for the first match, one element for each capture
/// group of the pattern in the order of their opening brackets, the whole
/// match at index 0, and `None` for a group that took no part in the match.
pub uninterp spec fn regex_captures(pattern: Seq<char>, text: Seq<char>) -> Result<
    Option<Seq<Option<Seq<char>>>>,
    (),
>;

/// Compiles `pattern` with `fancy_regex::Regex::new` and searches `text` with
/// `Regex::captures`, copying each group of `Captures::iter` out as a string.
/// Nothing is claimed of the result but that it is `regex_captures` of the two
/// texts: the same pattern and text always give the same groups.
#[verifier::external_body]
pub(crate) fn captures(pattern: &str, text: &str) -> (found: Result<
    Option<Vec<Option<String>>>,
    RegexError,
>)
    ensures
        match found {
            Ok(groups) => regex_captures(pattern@, text@) == Ok::<
                Option<Seq<Option<Seq<char>>>>,
                (),
            >(groups.deep_view()),
            Err(_) => regex_captures(pattern@, text@) is Err,
        },
{
    let found = fancy_regex::Regex::new(pattern)?.captures(text)?;
    Ok(found.map(|c| c.iter().map(|g| g.map(|m| m.as_str().to_owned())).collect()))
}

/// The text of group `index` of a match: `None` where the pattern has no such
/// group or the group took no part in the match.
pub open spec fn group(groups: Seq<Option<Seq<char>>>, index: int) -> Option<Seq<char>> {
    if 0 <= index < groups.len() {
        groups[index]
    } else {
        None
    }
}

/// The text of group `index` of the first match of `pattern` in `text`, if
/// there is a match and the group took part in it.
pub open spec fn first_group(pattern: Seq<char>, text: Seq<char>, index: int) -> Option<
    Seq<char>,
> {
    match regex_captures(pattern, text) {
        Ok(Some(groups)) => group(groups, index),
        _ => None,
    }
}

/// The text of group `index` among the groups of a match.
pub fn group_text(groups: &Vec<Option<String>>, index: usize) -> (text: Option<String>)
    ensures
        text.deep_view() == group(groups.deep_view(), index as int),
{
    if index < groups.len() {
        match &groups[index] {
            Some(s) => Some(s.clone()),
            None => None,
        }
    } else {
        None
    }
}

/// The text of group `index` of the first match of `pattern` in `text`. There
/// is none where the pattern does not match, where the group took no part in
/// the match, and where the search fails.
pub fn first_group_text(pattern: &str, text: &str, index: usize) -> (found: Option<String>)
    ensures
        found.deep_view() == first_group(pattern@, text@, index as int),
{
    match captures(pattern, text) {
        Ok(Some(groups)) => group_text(&groups, index),
        _ => None,
    }
}

} // verus!
