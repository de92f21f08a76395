//! The identifier of a configuration entry, and how one is read from a
//! parsed configuration value.

use vstd::prelude::*;
use vstd::std_specs::cmp::{PartialEqSpec, PartialEqSpecImpl};
use vstd::string::StringExecFns;
use crate::identifiable::{
    all_identified, deserialize_identifiables, first_fault_is, IdentError, Identifiable,
};
use crate::engine::compiled;
use crate::pattern::{accepted, anchored, covers, refusal, PatternError, Regex};
use crate::table::{text_at, text_under};

verus! {

/// What identifies an entry: a literal name, or a pattern that has to match
/// the whole of a candidate.
#[derive(Debug)]
pub enum Ident {
    /// Answers to the candidate that equals it.
    Name(String),
    /// Answers to the candidates that the pattern covers.
    Pattern(Regex),
}

/// An identifier as a value: the name, or the source text of the pattern.
pub enum IdentView {
    /// The name.
    Name(Seq<char>),
    /// The source text of the pattern, without anchors.
    Pattern(Seq<char>),
}

impl IdentView {
    /// Whether the identifier answers to the candidate.
    pub open spec fn matches(self, candidate: Seq<char>) -> bool {
        match self {
            IdentView::Name(name) => candidate == name,
            IdentView::Pattern(source) => covers(source, candidate),
        }
    }
}

impl View for Ident {
    type V = IdentView;

    open spec fn view(&self) -> IdentView {
        match self {
            Ident::Name(name) => IdentView::Name(name@),
            Ident::Pattern(pattern) => IdentView::Pattern(pattern@),
        }
    }
}

impl DeepView for Ident {
    type V = IdentView;

    open spec fn deep_view(&self) -> IdentView {
        self@
    }
}

/// The identifier that a pair of optional texts stands for, the pattern
/// first: a pattern text decides alone, and yields nothing where the engine
/// rejects it; a name counts only where there is no pattern text.
pub open spec fn chosen(pattern: Option<Seq<char>>, name: Option<Seq<char>>) -> Option<IdentView> {
    match pattern {
        Some(source) => if accepted(source) {
            Some(IdentView::Pattern(source))
        } else {
            None
        },
        None => match name {
            Some(text) => Some(IdentView::Name(text)),
            None => None,
        },
    }
}

impl Ident {
    /// Decides between a pattern text and a name, the pattern first. A pattern
    /// text that the engine rejects is an error, whatever the name.
    pub fn decode(pattern: Option<&str>, name: Option<&str>) -> (r: Result<Option<Ident>, PatternError>)
        ensures
            r is Err <==> (pattern matches Some(source) && !accepted(source@)),
            r matches Err(e) ==> pattern matches Some(source) && e.source@ == source@,
            r matches Err(e) ==> pattern matches Some(source) && refusal(source@) == Some(e.message@),
            r matches Ok(found) ==> found.deep_view() == chosen(pattern.deep_view(), name.deep_view()),
    {
        match pattern {
            Some(source) => match Regex::new(source) {
                Ok(compiled) => Ok(Some(Ident::Pattern(compiled))),
                Err(e) => Err(e),
            },
            None => match name {
                Some(text) => Ok(Some(Ident::Name(String::from_str(text)))),
                None => Ok(None),
            },
        }
    }

    /// Reads the identifier from a parsed configuration value: from the string
    /// under `pattern` where there is one, else from the string under `name`.
    /// A pattern that the engine rejects is an error, whatever stands under
    /// `name`.
    pub fn try_parse(toml: &::toml::Value) -> (r: Result<Option<Ident>, PatternError>)
        ensures
            r is Err <==> (text_under(*toml, "pattern"@) matches Some(source) && !accepted(source)),
            r matches Err(e) ==> text_under(*toml, "pattern"@) == Some(e.source@),
            r matches Err(e) ==> refusal(e.source@) == Some(e.message@),
            r matches Ok(found) ==> found.deep_view() == chosen(
                text_under(*toml, "pattern"@),
                text_under(*toml, "name"@),
            ),
    {
        let pattern = text_at(toml, "pattern");
        let name = match pattern {
            Some(_) => None,
            None => text_at(toml, "name"),
        };
        Ident::decode(pattern, name)
    }

    /// Reads the identifier from a parsed configuration value as `try_parse`
    /// does, and yields no identifier where `try_parse` fails. `object_name`
    /// and `what` say where the value stands and play no part in the result.
    #[allow(unused_variables)]
    pub fn parse(toml: &::toml::Value, object_name: &str, what: &str) -> (r: Option<Ident>)
        ensures
            r.deep_view() == chosen(text_under(*toml, "pattern"@), text_under(*toml, "name"@)),
    {
        match Ident::try_parse(toml) {
            Ok(found) => found,
            Err(_) => None,
        }
    }

    /// Whether the identifier answers to `name`: a name by equality, a pattern
    /// by matching the whole of it.
    pub fn is_match(&self, name: &str) -> (r: bool)
        ensures
            r == self@.matches(name@),
    {
        match self {
            Ident::Name(n) => *name == *n.as_str(),
            Ident::Pattern(regex) => regex.matches(name),
        }
    }
}

impl Clone for Ident {
    fn clone(&self) -> (r: Ident)
        ensures
            r@ == self@,
    {
        match self {
            Ident::Name(name) => Ident::Name(name.clone()),
            Ident::Pattern(pattern) => Ident::Pattern(pattern.clone()),
        }
    }
}

impl PartialEq for Ident {
    fn eq(&self, other: &Ident) -> (r: bool) {
        match (self, other) {
            (Ident::Name(s1), Ident::Name(s2)) => *s1 == *s2,
            (Ident::Pattern(r1), Ident::Pattern(r2)) => *r1 == *r2,
            _ => false,
        }
    }
}

impl Eq for Ident {}

impl PartialEqSpecImpl for Ident {
    open spec fn obeys_eq_spec() -> bool {
        true
    }

    open spec fn eq_spec(&self, other: &Ident) -> bool {
        self@ == other@
    }
}

/// A name answers to itself and to nothing else.
pub proof fn name_answers_to_itself_alone(name: Seq<char>, candidate: Seq<char>)
    ensures
        IdentView::Name(name).matches(name),
        candidate != name ==> !IdentView::Name(name).matches(candidate),
{
}

/// A pattern answers to a candidate exactly where its source text can be a
/// pattern and the engine finds, in the candidate, a match of the source as
/// one group between the anchors for the very start and the very end.
pub proof fn pattern_answers_by_anchored_search(source: Seq<char>, candidate: Seq<char>)
    ensures
        anchored(source) == seq!['\\', 'A', '(', '?', ':'] + source + seq![')', '\\', 'z'],
        IdentView::Pattern(source).matches(candidate) <==> (accepted(source) && (compiled(
            anchored(source),
        ) matches Ok(found) && found.contains(candidate))),
{
}

/// Two patterns are equal exactly where their source texts are, whatever the
/// texts match; a pattern never equals a name.
pub proof fn patterns_equal_by_source_text(a: Ident, b: Ident)
    requires
        a is Pattern,
    ensures
        b is Pattern ==> (PartialEqSpec::eq_spec(&a, &b) <==> a->Pattern_0@ == b->Pattern_0@),
        b is Name ==> !PartialEqSpec::eq_spec(&a, &b),
{
}

/// Anything that can be asked whether it answers to a name.
pub trait IdentLike {
    /// Whether the value answers to the candidate.
    spec fn matches(&self, candidate: Seq<char>) -> bool;

    fn is_match(&self, name: &str) -> (r: bool)
        ensures
            r == self.matches(name@),
    ;
}

impl IdentLike for Ident {
    open spec fn matches(&self, candidate: Seq<char>) -> bool {
        self@.matches(candidate)
    }

    fn is_match(&self, name: &str) -> (r: bool) {
        Ident::is_match(self, name)
    }
}

/// A record that exposes an optional literal name and an optional pattern,
/// and is identifiable through them.
pub trait IdentLike2 {
    /// The name of the record, if it has one.
    spec fn name_text(&self) -> Option<Seq<char>>;

    /// The source text of the record's pattern, if it has one.
    spec fn pattern_text(&self) -> Option<Seq<char>>;

    fn name(&self) -> (r: Option<&String>)
        ensures
            r.deep_view() == self.name_text(),
    ;

    fn pattern(&self) -> (r: Option<&Regex>)
        ensures
            r.deep_view() == self.pattern_text(),
    ;
}

impl<T: IdentLike2> Identifiable for T {
    open spec fn name_text(&self) -> Option<Seq<char>> {
        IdentLike2::name_text(self)
    }

    open spec fn pattern_text(&self) -> Option<Seq<char>> {
        IdentLike2::pattern_text(self)
    }

    fn name(&self) -> (r: Option<&String>) {
        IdentLike2::name(self)
    }

    fn pattern(&self) -> (r: Option<&Regex>) {
        IdentLike2::pattern(self)
    }
}

/// Accepts a sequence of decoded records where each has exactly one of name
/// and pattern, and hands it back as it came. Otherwise reports what is wrong
/// with the first record that breaks the rule.
pub fn deserialize_identlikes<T: IdentLike2>(records: Vec<T>) -> (r: Result<Vec<T>, IdentError>)
    ensures
        r is Ok <==> all_identified(records@),
        r matches Ok(accepted) ==> accepted == records,
        r matches Err(e) ==> first_fault_is(records@, e),
{
    deserialize_identifiables(records)
}

} // verus!
