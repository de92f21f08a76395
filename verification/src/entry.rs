//! A record that is nothing but its identifying fields.

use vstd::prelude::*;
use crate::ident::IdentLike2;
use crate::pattern::Regex;

verus! {

/// An optional name and an optional pattern, as they were decoded. Nothing
/// says yet that exactly one of them is there.
#[derive(Debug)]
pub struct Entry {
    /// The literal name, if one was given.
    pub name: Option<String>,
    /// The pattern, if one was given.
    pub pattern: Option<Regex>,
}

impl IdentLike2 for Entry {
    open spec fn name_text(&self) -> Option<Seq<char>> {
        self.name.deep_view()
    }

    open spec fn pattern_text(&self) -> Option<Seq<char>> {
        self.pattern.deep_view()
    }

    fn name(&self) -> (r: Option<&String>) {
        self.name.as_ref()
    }

    fn pattern(&self) -> (r: Option<&Regex>) {
        self.pattern.as_ref()
    }
}

} // verus!
