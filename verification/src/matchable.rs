//! Selecting from an ordered collection what answers to a name.

use vstd::prelude::*;
use crate::ident::IdentLike;

verus! {

/// The items of a sequence that answer to the candidate, in the order of the
/// sequence.
pub open spec fn selected<T: IdentLike>(items: Seq<T>, candidate: Seq<char>) -> Seq<T> {
    items.filter(|item: T| item.matches(candidate))
}

/// What a sequence of borrowed items refers to.
pub open spec fn referents<T>(found: Seq<&T>) -> Seq<T> {
    found.map_values(|item: &T| *item)
}

/// Nothing is selected from an empty sequence, whatever the candidate.
pub proof fn selected_of_none<T: IdentLike>(candidate: Seq<char>)
    ensures
        selected(Seq::<T>::empty(), candidate) == Seq::<T>::empty(),
{
    reveal(Seq::filter);
}

/// An item added at the end is selected last where it answers, and changes
/// nothing where it does not: the selection keeps the order of the sequence,
/// skips no item that answers and takes none twice.
pub proof fn selected_of_push<T: IdentLike>(items: Seq<T>, item: T, candidate: Seq<char>)
    ensures
        selected(items.push(item), candidate) == if item.matches(candidate) {
            selected(items, candidate).push(item)
        } else {
            selected(items, candidate)
        },
{
    reveal(Seq::filter);
    assert(items.push(item).drop_last() =~= items);
}

/// Every selected item answers to the candidate, and every item of the
/// sequence that answers is among the selected.
pub proof fn selected_are_those_that_answer<T: IdentLike>(items: Seq<T>, candidate: Seq<char>)
    ensures
        forall|i: int|
            0 <= i < selected(items, candidate).len() ==> (#[trigger] selected(items, candidate)[i]).matches(
                candidate,
            ),
        forall|i: int|
            0 <= i < items.len() && (#[trigger] items[i]).matches(candidate) ==> selected(
                items,
                candidate,
            ).contains(items[i]),
{
    let answers = |item: T| item.matches(candidate);
    assert forall|i: int| 0 <= i < items.filter(answers).len() implies answers(
        #[trigger] items.filter(answers)[i],
    ) by {
        items.lemma_filter_pred(answers, i);
    }
    assert forall|i: int| 0 <= i < items.len() && answers(#[trigger] items[i]) implies items.filter(
        answers,
    ).contains(items[i]) by {
        items.lemma_filter_contains(answers, i);
    }
}

/// An ordered collection that can be asked for what answers to a name.
pub trait Matchable {
    type Item;

    /// The items that answer to the candidate, in the order of the
    /// collection.
    spec fn selection(&self, candidate: Seq<char>) -> Seq<Self::Item>;

    fn matched(&self, name: &str) -> (r: Vec<&Self::Item>)
        ensures
            referents(r@) == self.selection(name@),
            r@.len() == self.selection(name@).len(),
    ;
}

impl<T: IdentLike> Matchable for [T] {
    type Item = T;

    open spec fn selection(&self, candidate: Seq<char>) -> Seq<T> {
        selected(self@, candidate)
    }

    fn matched(&self, name: &str) -> (r: Vec<&T>)
        ensures
            self@.len() == 0 ==> r@.len() == 0,
    {
        let mut found: Vec<&T> = Vec::new();
        let mut i: usize = 0;
        while i < self.len()
            invariant
                i <= self@.len(),
                referents(found@) == selected(self@.take(i as int), name@),
            decreases self@.len() - i,
        {
            let item = &self[i];
            let hit = item.is_match(name);
            proof {
                assert(self@.take(i + 1) =~= self@.take(i as int).push(*item));
                selected_of_push(self@.take(i as int), *item, name@);
                if hit {
                    assert(referents(found@.push(item)) =~= referents(found@).push(*item));
                }
            }
            if hit {
                found.push(item);
            }
            i += 1;
        }
        proof {
            assert(self@.take(i as int) =~= self@);
        }
        found
    }
}

} // verus!
