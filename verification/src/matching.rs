//! Regular-expression matching, done by the `regex` and `fancy_regex` crates.
use vstd::prelude::*;

verus! {

/// The capture groups of the leftmost-first match of the regular expression
/// `pattern` in `text`, as the `regex` crate finds them: `None` when there is
/// no match (or `pattern` is not a valid expression), else one entry per
/// group, group 0 being the whole match and `None` standing for a group that
/// took no part in the match.
pub uninterp spec fn spec_regex_captures(pattern: Seq<char>, text: Seq<char>) -> Option<
    Seq<Option<Seq<char>>>,
>;

/// The text of group `i` of a capture result, or the empty text when there
/// was no match or the group took no part in it.
pub open spec fn spec_group(caps: Option<Seq<Option<Seq<char>>>>, i: int) -> Seq<char> {
    match caps {
        Some(groups) => if 0 <= i < groups.len() {
            match groups[i] {
                Some(t) => t,
                None => Seq::empty(),
            }
        } else {
            Seq::empty()
        },
        None => Seq::empty(),
    }
}

/// Runs `regex::Regex::new(pattern)` and then `Regex::captures(text)`,
/// giving the text of every group (`Captures::iter`). An invalid pattern
/// gives `None`, as no match does. The contract names the result and adds
/// what the crate documents of every match: group 0, the whole match, is
/// always there.
#[verifier::external_body]
pub(crate) fn regex_captures(pattern: &str, text: &str) -> (r: Option<Vec<Option<String>>>)
    ensures
        r.deep_view() == spec_regex_captures(pattern@, text@),
        r is Some ==> r->0@.len() >= 1 && r->0@[0] is Some,
{
    match regex::Regex::new(pattern) {
        Ok(re) => re.captures(text).map(
            |c| c.iter().map(|m| m.map(|m| m.as_str().to_string())).collect(),
        ),
        Err(_) => None,
    }
}

/// The text of group `i` of a capture result (empty when absent).
pub fn group(caps: &Option<Vec<Option<String>>>, i: usize) -> (s: String)
    ensures
        s@ == spec_group(caps.deep_view(), i as int),
{
    match caps {
        Some(groups) => {
            if i < groups.len() {
                match &groups[i] {
                    Some(t) => t.clone(),
                    None => String::new(),
                }
            } else {
                String::new()
            }
        },
        None => String::new(),
    }
}

/// Group `i` of a list of groups, when it is there and took part in the
/// match.
pub open spec fn spec_group_opt(groups: Seq<Option<Seq<char>>>, i: int) -> Option<Seq<char>> {
    if 0 <= i < groups.len() {
        groups[i]
    } else {
        None
    }
}

/// Group `i` of a list of groups, when it is there and took part in the
/// match.
pub fn group_opt(groups: &Vec<Option<String>>, i: usize) -> (r: Option<String>)
    ensures
        r.deep_view() == spec_group_opt(groups.deep_view(), i as int),
{
    if i < groups.len() {
        match &groups[i] {
            Some(t) => Some(t.clone()),
            None => None,
        }
    } else {
        None
    }
}

/// Whether the `fancy_regex` expression `pattern` matches `text`: `None`
/// when the match could not be decided (the crate's backtracking limit, or a
/// pattern it cannot read).
pub uninterp spec fn spec_fancy_is_match(pattern: Seq<char>, text: Seq<char>) -> Option<bool>;

/// The groups of the first match of the `fancy_regex` expression `pattern`
/// in `text`: `None` when the search could not be completed, `Some(None)`
/// when there is no match.
pub uninterp spec fn spec_fancy_captures(pattern: Seq<char>, text: Seq<char>) -> Option<
    Option<Seq<Option<Seq<char>>>>,
>;

/// Runs `fancy_regex::Regex::new(pattern)` and then `Regex::is_match(text)`;
/// an error of either gives `None`. The result is named.
#[verifier::external_body]
pub(crate) fn fancy_is_match(pattern: &str, text: &str) -> (r: Option<bool>)
    ensures
        r == spec_fancy_is_match(pattern@, text@),
{
    match fancy_regex::Regex::new(pattern) {
        Ok(re) => re.is_match(text).ok(),
        Err(_) => None,
    }
}

/// Runs `fancy_regex::Regex::new(pattern)` and then `Regex::captures(text)`,
/// giving the text of every group (`Captures::iter`); an error of either
/// gives `None`. The result is named, with what the crate documents of every
/// match: group 0, the whole match, is there.
#[verifier::external_body]
pub(crate) fn fancy_captures(pattern: &str, text: &str) -> (r: Option<Option<Vec<Option<String>>>>)
    ensures
        r.deep_view() == spec_fancy_captures(pattern@, text@),
        r matches Some(Some(groups)) ==> groups@.len() >= 1 && groups@[0] is Some,
{
    match fancy_regex::Regex::new(pattern) {
        Ok(re) => match re.captures(text) {
            Ok(Some(c)) => Some(Some(c.iter().map(|m| m.map(|m| m.as_str().to_string())).collect())),
            Ok(None) => Some(None),
            Err(_) => None,
        },
        Err(_) => None,
    }
}

} // verus!
