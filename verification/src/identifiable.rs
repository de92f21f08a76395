//! Records that carry an optional name and an optional pattern, and the
//! rule that a record in use has exactly one of the two.

use vstd::prelude::*;
use crate::ident::IdentLike;
use crate::pattern::{covers, Regex};

verus! {

/// Why a record cannot be used for matching.
#[derive(Clone, Copy, Debug, PartialEq, Eq, Structural)]
pub enum IdentError {
    /// The record has neither a name nor a pattern.
    MissingIdentifier,
    /// The record has both a name and a pattern.
    AmbiguousIdentifier,
}

/// A record that exposes an optional literal name and an optional pattern.
pub trait Identifiable {
    /// The name of the record, if it has one.
    spec fn name_text(&self) -> Option<Seq<char>>;

    /// The source text of the record's pattern, if it has one.
    spec fn pattern_text(&self) -> Option<Seq<char>>;

    fn name(&self) -> (r: Option<&String>)
        ensures
            r.deep_view() == self.name_text(),
    ;

    fn pattern(&self) -> (r: Option<&Regex>)
        ensures
            r.deep_view() == self.pattern_text(),
    ;
}

/// Whether a pair of optional texts answers to the candidate: the name by
/// equality where there is one, else the pattern by matching the whole of
/// the candidate. A pair of nothing answers to nothing.
pub open spec fn answers(
    name: Option<Seq<char>>,
    pattern: Option<Seq<char>>,
    candidate: Seq<char>,
) -> bool {
    match name {
        Some(text) => candidate == text,
        None => match pattern {
            Some(source) => covers(source, candidate),
            None => false,
        },
    }
}

impl<T: Identifiable> IdentLike for T {
    open spec fn matches(&self, candidate: Seq<char>) -> bool {
        answers(self.name_text(), self.pattern_text(), candidate)
    }

    fn is_match(&self, name: &str) -> (r: bool) {
        if let Some(n) = self.name() {
            *name == *n.as_str()
        } else if let Some(regex) = self.pattern() {
            regex.matches(name)
        } else {
            false
        }
    }
}

/// What is wrong with a record that has, or lacks, a name and a pattern:
/// nothing where it has exactly one of the two.
pub open spec fn fault(has_name: bool, has_pattern: bool) -> Option<IdentError> {
    if has_name && has_pattern {
        Some(IdentError::AmbiguousIdentifier)
    } else if !has_name && !has_pattern {
        Some(IdentError::MissingIdentifier)
    } else {
        None
    }
}

/// What is wrong with a record, if anything.
pub open spec fn fault_of<T: Identifiable>(record: &T) -> Option<IdentError> {
    fault(record.name_text() is Some, record.pattern_text() is Some)
}

/// Whether every record has exactly one of name and pattern.
pub open spec fn all_identified<T: Identifiable>(records: Seq<T>) -> bool {
    forall|i: int| 0 <= i < records.len() ==> fault_of(&#[trigger] records[i]) is None
}

/// Whether `e` is what is wrong with the first record that breaks the rule.
pub open spec fn first_fault_is<T: Identifiable>(records: Seq<T>, e: IdentError) -> bool {
    exists|i: int|
        0 <= i < records.len() && fault_of(&#[trigger] records[i]) == Some(e) && all_identified(
            records.take(i),
        )
}

/// Where some record breaks the rule, not every record keeps it, and what is
/// wrong with the first that breaks it is one thing only.
pub proof fn first_fault_is_one<T: Identifiable>(records: Seq<T>, e1: IdentError, e2: IdentError)
    requires
        first_fault_is(records, e1),
    ensures
        !all_identified(records),
        first_fault_is(records, e2) ==> e1 == e2,
{
    let i1 = choose|i: int|
        0 <= i < records.len() && fault_of(&#[trigger] records[i]) == Some(e1) && all_identified(
            records.take(i),
        );
    if first_fault_is(records, e2) {
        let i2 = choose|i: int|
            0 <= i < records.len() && fault_of(&#[trigger] records[i]) == Some(e2) && all_identified(
                records.take(i),
            );
        if i1 < i2 {
            assert(records.take(i2)[i1] == records[i1]);
        }
        if i2 < i1 {
            assert(records.take(i1)[i2] == records[i2]);
        }
    }
}

/// Holds a record to the rule that it has exactly one of name and pattern.
pub fn validate<T: Identifiable>(record: &T) -> (r: Result<(), IdentError>)
    ensures
        r is Ok <==> fault_of(record) is None,
        r matches Err(e) ==> fault_of(record) == Some(e),
{
    match (record.name().is_some(), record.pattern().is_some()) {
        (false, false) => Err(IdentError::MissingIdentifier),
        (true, true) => Err(IdentError::AmbiguousIdentifier),
        _ => Ok(()),
    }
}

/// Accepts a sequence of decoded records where each has exactly one of name
/// and pattern, and hands it back as it came. Otherwise reports what is wrong
/// with the first record that breaks the rule.
pub fn deserialize_identifiables<T: Identifiable>(records: Vec<T>) -> (r: Result<Vec<T>, IdentError>)
    ensures
        r is Ok <==> all_identified(records@),
        r matches Ok(accepted) ==> accepted == records,
        r matches Err(e) ==> first_fault_is(records@, e),
{
    let mut i: usize = 0;
    while i < records.len()
        invariant
            i <= records@.len(),
            all_identified(records@.take(i as int)),
        decreases records@.len() - i,
    {
        match validate(&records[i]) {
            Ok(()) => {},
            Err(e) => {
                assert(fault_of(&records@[i as int]) == Some(e));
                return Err(e);
            },
        }
        proof {
            let before = records@.take(i as int);
            let now = records@.take(i + 1);
            assert forall|j: int| 0 <= j < now.len() implies fault_of(&#[trigger] now[j]) is None by {
                if j < i {
                    assert(now[j] == before[j]);
                }
            }
        }
        i += 1;
    }
    proof {
        assert(records@.take(i as int) =~= records@);
    }
    Ok(records)
}

} // verus!
