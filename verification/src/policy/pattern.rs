//! Regular-expression matching through the `regex` crate.
use vstd::prelude::*;

verus! {

#[verifier::external_type_specification]
#[verifier::external_body]
pub struct ExRegexError(regex::Error);

/// Whether `regex::Regex::new` accepts the pattern.
pub uninterp spec fn regex_compiles(pattern: Seq<char>) -> bool;

/// Whether `regex::Regex::is_match` finds a match of the compiled pattern
/// anywhere in the text.
pub uninterp spec fn regex_matches(pattern: Seq<char>, text: Seq<char>) -> bool;

/// Compiles `pattern` with `regex::Regex::new` and hands back the error it
/// reports, if any: none exactly when the pattern compiles.
#[verifier::external_body]
pub fn regex_compile_error(pattern: &str) -> (r: Option<regex::Error>)
    ensures
        r is None <==> regex_compiles(pattern@),
{
    regex::Regex::new(pattern).err()
}

/// Whether the compiled `pattern` matches somewhere in `text`, by
/// `regex::Regex::new` followed by `regex::Regex::is_match`.
#[verifier::external_body]
pub fn regex_is_match(pattern: &str, text: &str) -> (r: bool)
    requires
        regex_compiles(pattern@),
    ensures
        r == regex_matches(pattern@, text@),
{
    match regex::Regex::new(pattern) {
        Ok(re) => re.is_match(text),
        Err(_) => false,
    }
}

} // verus!
