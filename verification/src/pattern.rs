//! Regular expressions, matched by the `regex` crate.

use vstd::prelude::*;

verus! {

/// What `regex::Regex::new` makes of `pattern`: success, or the text of the
/// error it reports.
pub uninterp spec fn regex_new(pattern: Seq<char>) -> Result<(), Seq<char>>;

/// Whether `regex::Regex::new` accepts `pattern`.
pub open spec fn regex_compiles(pattern: Seq<char>) -> bool {
    regex_new(pattern) is Ok
}

/// What `Regex::replace_all` gives for `haystack`, with every match of
/// `pattern` replaced by `replacement`, `$n` standing for group `n`.
pub uninterp spec fn regex_replaced(pattern: Seq<char>, haystack: Seq<char>, replacement: Seq<char>) -> Seq<char>;

/// The groups of the first match of `pattern` in `haystack` (group 0 is the
/// whole match; a group that took no part in it is `None`), as
/// `Regex::captures` reports them; `None` when there is no match.
pub uninterp spec fn regex_captures(pattern: Seq<char>, haystack: Seq<char>) -> Option<Seq<Option<Seq<char>>>>;

/// Compiles `pattern` with `regex::Regex::new`; an error is the text the
/// regex error displays.
#[verifier::external_body]
pub(crate) fn regex_compile(pattern: &str) -> (res: Result<(), String>)
    ensures
        match res {
            Ok(_) => regex_new(pattern@) == Ok::<(), Seq<char>>(()),
            Err(e) => regex_new(pattern@) == Err::<(), Seq<char>>(e@),
        },
{
    match regex::Regex::new(pattern) {
        Ok(_) => Ok(()),
        Err(e) => Err(e.to_string()),
    }
}

/// Compiles `pattern` and replaces all its matches in `haystack` with
/// `Regex::replace_all`; nothing when the pattern does not compile.
#[verifier::external_body]
pub(crate) fn regex_replace_all(pattern: &str, haystack: &str, replacement: &str) -> (res: Option<String>)
    ensures
        match res {
            Some(s) => regex_compiles(pattern@) && s@ == regex_replaced(pattern@, haystack@, replacement@),
            None => !regex_compiles(pattern@),
        },
{
    match regex::Regex::new(pattern) {
        Ok(re) => Some(re.replace_all(haystack, replacement).into_owned()),
        Err(_) => None,
    }
}

/// The views of the groups of a match.
pub open spec fn group_views(groups: Seq<Option<String>>) -> Seq<Option<Seq<char>>> {
    groups.map_values(|g: Option<String>| match g {
        Some(s) => Some(s@),
        None => None,
    })
}

/// Compiles `pattern` and returns the groups of its first match in
/// `haystack` with `Regex::captures`; `Err` when the pattern does not compile.
#[verifier::external_body]
pub(crate) fn regex_first_match(pattern: &str, haystack: &str) -> (res: Result<Option<Vec<Option<String>>>, ()>)
    ensures
        match res {
            Ok(Some(groups)) => regex_compiles(pattern@) && regex_captures(pattern@, haystack@) == Some(group_views(groups@)),
            Ok(None) => regex_compiles(pattern@) && regex_captures(pattern@, haystack@) is None,
            Err(_) => !regex_compiles(pattern@),
        },
{
    match regex::Regex::new(pattern) {
        Ok(re) => Ok(re.captures(haystack).map(|c| c.iter().map(|g| g.map(|m| m.as_str().to_string())).collect())),
        Err(_) => Err(()),
    }
}

} // verus!
