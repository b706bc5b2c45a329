//! A map from text to text.
use vstd::prelude::*;

use crate::text::same_text;

verus! {

/// The map that a list of entries stands for: a later entry replaces an earlier one of the same key.
pub open spec fn entries_map(entries: Seq<(String, String)>) -> Map<Seq<char>, Seq<char>>
    decreases entries.len(),
{
    if entries.len() == 0 {
        Map::empty()
    } else {
        entries_map(entries.drop_last()).insert(entries.last().0@, entries.last().1@)
    }
}

/// A map from text to text, kept as the list of entries that were put into it.
#[derive(Debug)]
pub struct TextMap {
    entries: Vec<(String, String)>,
}

impl View for TextMap {
    type V = Map<Seq<char>, Seq<char>>;

    closed spec fn view(&self) -> Map<Seq<char>, Seq<char>> {
        entries_map(self.entries@)
    }
}

impl TextMap {
    /// The map of a list of entries.
    pub fn new(entries: Vec<(String, String)>) -> (r: Self)
        ensures
            r@ == entries_map(entries@),
    {
        TextMap { entries }
    }

    /// The value under a key.
    pub fn get(&self, key: &str) -> (r: Option<&String>)
        ensures
            r is Some <==> self@.contains_key(key@),
            r matches Some(value) ==> value@ == self@[key@],
    {
        let mut i: usize = self.entries.len();
        proof {
            assert(self.entries@.take(i as int) == self.entries@);
        }
        while i > 0
            invariant
                i <= self.entries.len(),
                self@.contains_key(key@) == entries_map(self.entries@.take(i as int)).contains_key(
                    key@,
                ),
                self@.contains_key(key@) ==> self@[key@] == entries_map(
                    self.entries@.take(i as int),
                )[key@],
            decreases i,
        {
            proof {
                assert(self.entries@.take(i as int).drop_last() == self.entries@.take(i - 1));
            }
            i = i - 1;
            if same_text(&self.entries[i].0, key) {
                return Some(&self.entries[i].1);
            }
        }
        None
    }
}

} // verus!
