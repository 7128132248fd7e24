//! Regular-expression matching, done by the `regex` crate.
use vstd::prelude::*;
use crate::events::option_text;

verus! {

/// The capture groups of the leftmost match of the regular expression
/// `pattern` in `text`: group 0 is the whole match, and a group that took no
/// part in the match is `None`. `None` where there is no match, or where
/// `pattern` is no regular expression.
pub uninterp spec fn regex_groups(pattern: Seq<char>, text: Seq<char>) -> Option<
    Seq<Option<Seq<char>>>,
>;

/// The texts of a list of optional strings.
pub open spec fn groups_view(groups: Seq<Option<String>>) -> Seq<Option<Seq<char>>> {
    Seq::new(groups.len(), |i: int| option_text(groups[i]))
}

/// The view of what a match attempt gave.
pub open spec fn captures_view(captures: Option<Vec<Option<String>>>) -> Option<
    Seq<Option<Seq<char>>>,
> {
    match captures {
        Some(groups) => Some(groups_view(groups@)),
        None => None,
    }
}

/// Matches `pattern` against `text` and hands out the capture groups.
///
/// Trusted: `regex::Regex::new` compiles the pattern, `Regex::captures`
/// finds the leftmost match, and `Captures::iter` walks its groups in
/// order. The result depends on the two texts alone and is what
/// `regex_groups` names.
#[verifier::external_body]
pub(crate) fn regex_captures(pattern: &str, text: &str) -> (r: Option<Vec<Option<String>>>)
    ensures
        captures_view(r) == regex_groups(pattern@, text@),
{
    let compiled = regex::Regex::new(pattern).ok()?;
    let captures = compiled.captures(text)?;
    Some(captures.iter().map(|group| group.map(|m| m.as_str().to_string())).collect())
}

/// The text of group `index`, where the match has such a group and it
/// took part.
pub open spec fn group_text(groups: Option<Seq<Option<Seq<char>>>>, index: int) -> Option<
    Seq<char>,
> {
    match groups {
        Some(g) => if 0 <= index < g.len() {
            g[index]
        } else {
            None
        },
        None => None,
    }
}

/// The text of group `index` of a match.
pub fn group_of(captures: &Option<Vec<Option<String>>>, index: usize) -> (r: Option<&String>)
    ensures
        r is Some <==> group_text(captures_view(*captures), index as int) is Some,
        r matches Some(s) ==> Some(s@) == group_text(captures_view(*captures), index as int),
{
    match captures {
        Some(groups) => {
            if index < groups.len() {
                groups[index].as_ref()
            } else {
                None
            }
        },
        None => None,
    }
}

} // verus!
