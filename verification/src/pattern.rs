//! A compiled pattern that has to match the whole of a candidate.

use vstd::prelude::*;
use vstd::std_specs::cmp::PartialEqSpecImpl;
use vstd::string::StringExecFns;
use crate::engine::{compile, compiled, describe, found_in, search};
use ::regex::Regex as Compiled;

verus! {

/// The text handed to the engine for a source text: the source as one
/// group that captures nothing, between the anchor for the very start of the
/// candidate and the anchor for its very end.
pub open spec fn anchored(source: Seq<char>) -> Seq<char> {
    seq!['\\', 'A', '(', '?', ':'] + source + seq![')', '\\', 'z']
}

/// Whether a source text can be a pattern: the engine accepts it as it
/// stands, and accepts its anchored form.
pub open spec fn accepted(source: Seq<char>) -> bool {
    compiled(source) is Ok && compiled(anchored(source)) is Ok
}

/// What the engine says against a source text, if anything: against the text
/// as it stands, or else against its anchored form.
pub open spec fn refusal(source: Seq<char>) -> Option<Seq<char>> {
    match compiled(source) {
        Err(said) => Some(said),
        Ok(_) => match compiled(anchored(source)) {
            Err(said) => Some(said),
            Ok(_) => None,
        },
    }
}

/// Whether a source text can be a pattern and its anchored form matches the
/// candidate.
pub open spec fn covers(source: Seq<char>, candidate: Seq<char>) -> bool {
    compiled(source) is Ok && (compiled(anchored(source)) matches Ok(found) && found.contains(candidate))
}

/// A source text that the engine rejected.
#[derive(Debug)]
pub struct PatternError {
    /// The source text as it was given, without anchors.
    pub source: String,
    /// What the engine said against it.
    pub message: String,
}

impl Clone for PatternError {
    fn clone(&self) -> (r: PatternError)
        ensures
            r == *self,
    {
        PatternError { source: self.source.clone(), message: self.message.clone() }
    }
}

/// A compiled pattern together with the source text it was made from.
#[derive(Debug)]
pub struct Regex {
    source: String,
    compiled: Compiled,
}

impl View for Regex {
    type V = Seq<char>;

    /// The source text, without anchors.
    closed spec fn view(&self) -> Seq<char> {
        self.source@
    }
}

impl DeepView for Regex {
    type V = Seq<char>;

    open spec fn deep_view(&self) -> Seq<char> {
        self@
    }
}

impl Regex {
    #[verifier::type_invariant]
    spec fn anchored_compile(&self) -> bool {
        compiled(self.source@) is Ok && (compiled(anchored(self.source@)) matches Ok(found) && found
            == found_in(self.compiled))
    }

    /// Compiles `source` so that it has to match the whole of a candidate: as
    /// one group between the anchors for the very start and the very end.
    /// The source has to be a pattern as it stands too, so that the group
    /// closes nothing that the source left open.
    pub fn new(source: &str) -> (r: Result<Regex, PatternError>)
        ensures
            r is Ok <==> accepted(source@),
            r matches Ok(re) ==> re@ == source@,
            r matches Err(e) ==> e.source@ == source@,
            r matches Err(e) ==> refusal(source@) == Some(e.message@),
    {
        match compile(source) {
            Ok(_) => {
                let text = anchor(source);
                match compile(text.as_str()) {
                    Ok(re) => Ok(Regex { source: String::from_str(source), compiled: re }),
                    Err(e) => Err(
                        PatternError { source: String::from_str(source), message: describe(&e) },
                    ),
                }
            },
            Err(e) => Err(PatternError { source: String::from_str(source), message: describe(&e) }),
        }
    }

    /// Whether the pattern matches the candidate from its first character to
    /// its last, as far as the engine's answer on the anchored text says so.
    pub fn matches(&self, candidate: &str) -> (r: bool)
        ensures
            r == covers(self@, candidate@),
    {
        proof {
            use_type_invariant(self);
        }
        search(&self.compiled, candidate)
    }

    /// The source text, without anchors.
    pub fn source_text(&self) -> (r: &str)
        ensures
            r@ == self@,
    {
        self.source.as_str()
    }
}

impl Clone for Regex {
    fn clone(&self) -> (r: Regex)
        ensures
            r@ == self@,
    {
        proof {
            use_type_invariant(self);
        }
        Regex { source: self.source.clone(), compiled: self.compiled.clone() }
    }
}

impl PartialEq for Regex {
    fn eq(&self, other: &Regex) -> (r: bool) {
        self.source == other.source
    }
}

impl Eq for Regex {}

impl PartialEqSpecImpl for Regex {
    open spec fn obeys_eq_spec() -> bool {
        true
    }

    open spec fn eq_spec(&self, other: &Regex) -> bool {
        self@ == other@
    }
}

/// Puts `source`, as one group, between the anchors for the very start and
/// the very end.
fn anchor(source: &str) -> (r: String)
    ensures
        r@ == anchored(source@),
{
    let mut text = String::from_str("\\A(?:");
    text.append(source);
    text.append(")\\z");
    proof {
        reveal_strlit("\\A(?:");
        reveal_strlit(")\\z");
        assert(text@ =~= anchored(source@));
    }
    text
}

} // verus!
