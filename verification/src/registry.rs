//! A registry of values by name.
use vstd::prelude::*;

use crate::text::same_text;

verus! {

/// The values of a list of named entries. A later entry replaces an earlier one of the same name.
pub open spec fn by_name<T>(entries: Seq<(String, T)>) -> Map<Seq<char>, T>
    decreases entries.len(),
{
    if entries.len() == 0 {
        Map::empty()
    } else {
        by_name(entries.drop_last()).insert(entries.last().0@, entries.last().1)
    }
}

/// No two entries have the same name.
spec fn distinct_names<T>(entries: Seq<(String, T)>) -> bool {
    forall|i: int, j: int|
        0 <= i < j < entries.len() ==> (#[trigger] entries[i]).0@ != (#[trigger] entries[j]).0@
}

/// The value of an entry is found under its name.
proof fn lemma_by_name<T>(entries: Seq<(String, T)>, i: int)
    requires
        distinct_names(entries),
        0 <= i < entries.len(),
    ensures
        by_name(entries).contains_pair(entries[i].0@, entries[i].1),
    decreases entries.len(),
{
    if i < entries.len() - 1 {
        lemma_by_name(entries.drop_last(), i);
    }
}

/// Every name is that of an entry.
proof fn lemma_name_is_listed<T>(entries: Seq<(String, T)>, name: Seq<char>)
    requires
        by_name(entries).contains_key(name),
    ensures
        exists|i: int| 0 <= i < entries.len() && (#[trigger] entries[i]).0@ == name,
    decreases entries.len(),
{
    if entries.len() > 0 {
        if entries.last().0@ == name {
            assert(entries[entries.len() - 1].0@ == name);
        } else {
            lemma_name_is_listed(entries.drop_last(), name);
            let i = choose|i: int|
                0 <= i < entries.drop_last().len() && (#[trigger] entries.drop_last()[i]).0@
                    == name;
            assert(entries[i].0@ == name);
        }
    }
}

/// To remove an entry is to remove its name.
proof fn lemma_remove_by_name<T>(entries: Seq<(String, T)>, i: int)
    requires
        distinct_names(entries),
        0 <= i < entries.len(),
    ensures
        distinct_names(entries.remove(i)),
        by_name(entries.remove(i)) == by_name(entries).remove(entries[i].0@),
    decreases entries.len(),
{
    let after = entries.remove(i);
    assert forall|a: int, b: int| 0 <= a < b < after.len() implies (#[trigger] after[a]).0@ != (
    #[trigger] after[b]).0@ by {
        let a0 = if a < i {
            a
        } else {
            a + 1
        };
        let b0 = if b < i {
            b
        } else {
            b + 1
        };
        assert(after[a] == entries[a0] && after[b] == entries[b0]);
    }
    if i == entries.len() - 1 {
        assert(after =~= entries.drop_last());
        if by_name(entries.drop_last()).contains_key(entries[i].0@) {
            lemma_name_is_listed(entries.drop_last(), entries[i].0@);
        }
        assert(by_name(after) =~= by_name(entries).remove(entries[i].0@));
    } else {
        assert(after.drop_last() =~= entries.drop_last().remove(i));
        assert(after.last() == entries.last());
        lemma_remove_by_name(entries.drop_last(), i);
        assert(entries[i].0@ != entries.last().0@);
        assert(by_name(after) =~= by_name(entries).remove(entries[i].0@));
    }
}

/// A registry of values by name.
#[derive(Debug)]
pub struct Registry<T> {
    entries: Vec<(String, T)>,
}

impl<T> View for Registry<T> {
    type V = Map<Seq<char>, T>;

    closed spec fn view(&self) -> Map<Seq<char>, T> {
        by_name(self.entries@)
    }
}

impl<T> Registry<T> {
    #[verifier::type_invariant]
    spec fn well_formed(self) -> bool {
        distinct_names(self.entries@)
    }

    /// The empty registry.
    pub fn new() -> (r: Self)
        ensures
            r@ == Map::<Seq<char>, T>::empty(),
    {
        Registry { entries: Vec::new() }
    }

    /// The position of a name, if it is registered.
    fn position(&self, name: &str) -> (r: Option<usize>)
        ensures
            match r {
                Some(i) => i < self.entries@.len() && self.entries@[i as int].0@ == name@,
                None => !self@.contains_key(name@),
            },
    {
        let mut i: usize = 0;
        while i < self.entries.len()
            invariant
                i <= self.entries@.len(),
                forall|j: int| 0 <= j < i ==> (#[trigger] self.entries@[j]).0@ != name@,
            decreases self.entries@.len() - i,
        {
            if same_text(&self.entries[i].0, name) {
                return Some(i);
            }
            i = i + 1;
        }
        proof {
            if self@.contains_key(name@) {
                lemma_name_is_listed(self.entries@, name@);
            }
        }
        None
    }

    /// The value that is registered under a name.
    pub fn get(&self, name: &str) -> (r: Option<&T>)
        ensures
            r is Some <==> self@.contains_key(name@),
            r matches Some(value) ==> *value == self@[name@],
    {
        proof {
            use_type_invariant(self);
        }
        match self.position(name) {
            Some(i) => {
                proof {
                    lemma_by_name(self.entries@, i as int);
                }
                Some(&self.entries[i].1)
            },
            None => None,
        }
    }

    /// Take the value that is registered under a name out of the registry.
    pub fn remove(&mut self, name: &str) -> (r: Option<T>)
        ensures
            final(self)@ == old(self)@.remove(name@),
            r is Some <==> old(self)@.contains_key(name@),
            r matches Some(value) ==> value == old(self)@[name@],
    {
        proof {
            use_type_invariant(&*self);
        }
        match self.position(name) {
            Some(i) => {
                let mut entries: Vec<(String, T)> = Vec::new();
                std::mem::swap(&mut entries, &mut self.entries);
                proof {
                    lemma_by_name(entries@, i as int);
                    lemma_remove_by_name(entries@, i as int);
                }
                let (_, value) = entries.remove(i);
                self.entries = entries;
                Some(value)
            },
            None => {
                proof {
                    assert(self@.remove(name@) =~= self@);
                }
                None
            },
        }
    }

    /// Register a value under a name, in place of any value that was registered under it.
    pub fn insert(&mut self, name: String, value: T)
        ensures
            final(self)@ == old(self)@.insert(name@, value),
    {
        let _ = self.remove(&name);
        proof {
            use_type_invariant(&*self);
        }
        let ghost before = self.entries@;
        let mut entries: Vec<(String, T)> = Vec::new();
        std::mem::swap(&mut entries, &mut self.entries);
        entries.push((name, value));
        proof {
            assert(entries@.drop_last() =~= before);
            assert forall|i: int| 0 <= i < before.len() implies (#[trigger] before[i]).0@ != name@ by {
                lemma_by_name(before, i);
            }
        }
        self.entries = entries;
        proof {
            assert(self@ =~= old(self)@.insert(name@, value));
        }
    }
}

} // verus!
