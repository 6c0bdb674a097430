//! A registry: at most one value under each name.

use vstd::prelude::*;

verus! {

/// Values by name.
pub struct Registry<E> {
    entries: Vec<(String, E)>,
}

/// A value stands under the name at position `at`.
spec fn stands_at<E>(entries: Seq<(String, E)>, name: Seq<char>, at: int) -> bool {
    0 <= at < entries.len() && entries[at].0@ == name
}

/// The names, in their order.
spec fn names_of<E>(entries: Seq<(String, E)>) -> Seq<Seq<char>> {
    entries.map_values(|entry: (String, E)| entry.0@)
}

/// The map that a list of entries stands for.
spec fn map_of<E>(entries: Seq<(String, E)>) -> Map<Seq<char>, E> {
    Map::new(
        |name: Seq<char>| names_of(entries).contains(name),
        |name: Seq<char>| entries[choose|at: int| stands_at(entries, name, at)].1,
    )
}

/// Each entry whose name stands nowhere else gives its value.
proof fn lemma_entry<E>(entries: Seq<(String, E)>, at: int)
    requires
        names_of(entries).no_duplicates(),
        0 <= at < entries.len(),
    ensures
        map_of(entries).dom().contains(entries[at].0@),
        map_of(entries)[entries[at].0@] == entries[at].1,
{
    let name = entries[at].0@;
    assert(names_of(entries)[at] == name);
    assert(stands_at(entries, name, at));
    let chosen = choose|i: int| stands_at(entries, name, i);
    assert(stands_at(entries, name, chosen));
    assert(names_of(entries)[chosen] == name);
}

impl<E> View for Registry<E> {
    type V = Map<Seq<char>, E>;

    closed spec fn view(&self) -> Map<Seq<char>, E> {
        map_of(self.entries@)
    }
}

impl<E> Registry<E> {
    /// No name stands twice.
    #[verifier::type_invariant]
    spec fn distinct(self) -> bool {
        names_of(self.entries@).no_duplicates()
    }

    /// A registry with nothing in it.
    pub fn new() -> (registry: Registry<E>)
        ensures
            registry@ == Map::<Seq<char>, E>::empty(),
    {
        let registry = Registry { entries: Vec::new() };
        assert(registry@ =~= Map::<Seq<char>, E>::empty());
        registry
    }

    /// How many names there are.
    pub fn len(&self) -> (n: usize)
        ensures
            self@.dom().finite(),
            n == self@.dom().len(),
    {
        proof {
            use_type_invariant(self);
            names_of(self.entries@).unique_seq_to_set();
            assert(self@.dom() =~= names_of(self.entries@).to_set());
        }
        self.entries.len()
    }

    /// The position of a name.
    fn find(entries: &Vec<(String, E)>, name: &String) -> (found: Option<usize>)
        ensures
            match found {
                Some(at) => at < entries@.len() && entries@[at as int].0@ == name@,
                None => !names_of(entries@).contains(name@),
            },
    {
        let mut i: usize = 0;
        while i < entries.len()
            invariant
                i <= entries@.len(),
                forall|k: int| 0 <= k < i ==> (#[trigger] names_of(entries@)[k]) != name@,
            decreases entries@.len() - i,
        {
            if entries[i].0 == *name {
                return Some(i);
            }
            i = i + 1;
        }
        None
    }

    /// The value under a name.
    pub fn get(&self, name: &str) -> (found: Option<&E>)
        ensures
            match found {
                Some(value) => self@.dom().contains(name@) && self@[name@] == *value,
                None => !self@.dom().contains(name@),
            },
    {
        proof {
            use_type_invariant(self);
        }
        let wanted: String = name.to_owned();
        match Self::find(&self.entries, &wanted) {
            Some(at) => {
                proof {
                    lemma_entry(self.entries@, at as int);
                }
                Some(&self.entries[at].1)
            },
            None => None,
        }
    }

    /// Puts a value under a name, in the place of what stood there before.
    pub fn insert(&mut self, name: &str, value: E)
        ensures
            final(self)@ == old(self)@.insert(name@, value),
    {
        proof {
            use_type_invariant(&*self);
        }
        let wanted: String = name.to_owned();
        let mut entries: Vec<(String, E)> = Vec::new();
        std::mem::swap(&mut entries, &mut self.entries);
        let ghost before = entries@;
        let ghost mut spot: int = before.len() as int;
        match Self::find(&entries, &wanted) {
            Some(at) => {
                entries[at] = (wanted, value);
                proof {
                    spot = at as int;
                    assert(names_of(entries@) =~= names_of(before));
                }
            },
            None => {
                entries.push((wanted, value));
                assert(names_of(entries@) =~= names_of(before).push(name@));
            },
        }
        proof {
            lemma_entry(entries@, spot);
            assert forall|other: Seq<char>| #[trigger] map_of(entries@).dom().contains(other) implies {
                &&& map_of(before).insert(name@, value).dom().contains(other)
                &&& map_of(before).insert(name@, value)[other] == map_of(entries@)[other]
            } by {
                if other != name@ {
                    let at = names_of(entries@).index_of(other);
                    assert(names_of(entries@)[at] == other);
                    lemma_entry(entries@, at);
                    lemma_entry(before, at);
                }
            }
            assert forall|other: Seq<char>|
                map_of(before).insert(name@, value).dom().contains(
                    other,
                ) implies #[trigger] map_of(entries@).dom().contains(other) by {
                if other != name@ {
                    let at = names_of(before).index_of(other);
                    assert(names_of(before)[at] == other);
                    lemma_entry(entries@, at);
                }
            }
            assert(map_of(entries@) =~= map_of(before).insert(name@, value));
        }
        self.entries = entries;
    }
}

} // verus!
