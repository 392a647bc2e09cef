//! Regular expressions, as the `regex` crate matches them.
//!
//! Nothing here is proved: each function calls the crate and states, over a
//! name for what the crate computes, that the result depends on the texts
//! that are handed in and on nothing else.

use vstd::prelude::*;

verus! {

/// The error of the `regex` crate.
#[verifier::external_type_specification]
#[verifier::external_body]
pub struct ExRegexError(regex::Error);

/// Whether `regex::Regex::new` accepts `pattern`.
pub uninterp spec fn pattern_compiles(pattern: Seq<char>) -> bool;

/// What `regex::Regex::captures` returns for the compiled `pattern`: for the
/// first match in `haystack`, the text of each capture group that took part
/// in it, group 0 being the whole match; `None` where nothing matches.
pub uninterp spec fn captured(pattern: Seq<char>, haystack: Seq<char>) -> Option<
    Seq<Option<Seq<char>>>,
>;

/// The texts of capture groups, each as a sequence of characters.
pub open spec fn groups_view(groups: Option<Vec<Option<String>>>) -> Option<Seq<Option<Seq<char>>>> {
    match groups {
        Some(g) => Some(
            Seq::new(
                g@.len(),
                |i: int|
                    match g@[i] {
                        Some(t) => Some(t@),
                        None => None,
                    },
            ),
        ),
        None => None,
    }
}

/// Compiles `pattern` with `regex::Regex::new` and searches `haystack` with
/// `regex::Regex::captures`, handing out the text of every capture group.
///
/// The contract claims that the pattern alone decides whether it compiles,
/// and that the groups are a function of the two texts.
#[verifier::external_body]
pub(crate) fn capture_groups(pattern: &str, haystack: &str) -> (r: Result<
    Option<Vec<Option<String>>>,
    regex::Error,
>)
    ensures
        r is Ok <==> pattern_compiles(pattern@),
        r matches Ok(groups) ==> groups_view(groups) == captured(pattern@, haystack@),
{
    let re = regex::Regex::new(pattern)?;
    Ok(re.captures(haystack).map(|c| c.iter().map(|m| m.map(|m| m.as_str().to_string())).collect()))
}

} // verus!
