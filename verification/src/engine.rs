//! The regular-expression engine, as far as this library relies on it.
//!
//! Nothing in this module is proved. Each item states what the library
//! takes for granted of the `regex` crate, and the last one of `str`.

use vstd::prelude::*;
use ::regex::Regex as Compiled;

verus! {

#[verifier::external_type_specification]
#[verifier::external_body]
pub struct ExCompiled(Compiled);

#[verifier::external_type_specification]
#[verifier::external_body]
pub struct ExCompileError(::regex::Error);

/// What `regex::Regex::new` makes of a pattern text: `Ok` with the set of the
/// haystacks in which the compiled expression finds a match, or `Err` with the
/// text of the engine's complaint.
pub uninterp spec fn compiled(pattern: Seq<char>) -> Result<Set<Seq<char>>, Seq<char>>;

/// The haystacks in which a compiled expression finds a match.
pub uninterp spec fn found_in(re: Compiled) -> Set<Seq<char>>;

/// The text that a compile error displays.
pub uninterp spec fn complaint(error: ::regex::Error) -> Seq<char>;

/// `regex::Regex::new`. The engine accepts or rejects a pattern text by the
/// text alone; what an accepted text matches, and what is said of a rejected
/// one, is fixed by the text too.
#[verifier::external_body]
pub(crate) fn compile(pattern: &str) -> (r: Result<Compiled, ::regex::Error>)
    ensures
        r matches Ok(re) ==> compiled(pattern@) matches Ok(found) && found == found_in(re),
        r matches Err(e) ==> compiled(pattern@) matches Err(said) && said == complaint(e),
{
    Compiled::new(pattern)
}

/// `regex::Regex::is_match`: whether the expression matches anywhere in the
/// haystack.
#[verifier::external_body]
pub(crate) fn search(re: &Compiled, haystack: &str) -> (r: bool)
    ensures
        r == found_in(*re).contains(haystack@),
{
    re.is_match(haystack)
}

/// `Clone::clone` of a `regex::Regex`: the copy finds a match in the same
/// haystacks.
pub assume_specification[ <Compiled as Clone>::clone ](re: &Compiled) -> (r: Compiled)
    ensures
        found_in(r) == found_in(*re),
;

/// `ToString::to_string` on a `regex::Error`: the text that the error
/// displays.
#[verifier::external_body]
pub(crate) fn describe(error: &::regex::Error) -> (r: String)
    ensures
        r@ == complaint(*error),
{
    error.to_string()
}

/// `str`'s `==`: two string slices are equal exactly where they hold the same
/// characters.
pub assume_specification[ <str as PartialEq>::eq ](a: &str, b: &str) -> (r: bool)
    ensures
        r == (a@ == b@),
;

} // verus!
