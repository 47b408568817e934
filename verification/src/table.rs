//! A table of values under distinct names.
use vstd::prelude::*;

verus! {

/// Values under names, at most one under each.
///
/// The model of a table is a map from names to the models of its values.
#[derive(Debug)]
pub struct Table<T> {
    entries: Vec<(String, T)>,
}

/// No name occurs twice.
pub open spec fn distinct_names<T>(entries: Seq<(String, T)>) -> bool {
    forall|i: int, j: int|
        0 <= i < j < entries.len() ==> #[trigger] entries[i].0@ != #[trigger] entries[j].0@
}

/// `name` is the name at position `i`.
pub open spec fn names_at<T>(entries: Seq<(String, T)>, i: int, name: Seq<char>) -> bool {
    0 <= i < entries.len() && entries[i].0@ == name
}

/// The map that a list of entries with distinct names stands for.
pub open spec fn map_of<T: View>(entries: Seq<(String, T)>) -> Map<Seq<char>, T::V> {
    Map::new(
        |name: Seq<char>| exists|i: int| names_at(entries, i, name),
        |name: Seq<char>| entries[choose|i: int| names_at(entries, i, name)].1@,
    )
}

proof fn lemma_map_of<T: View>(entries: Seq<(String, T)>, i: int)
    requires
        distinct_names(entries),
        0 <= i < entries.len(),
    ensures
        map_of(entries).contains_key(entries[i].0@),
        map_of(entries)[entries[i].0@] == entries[i].1@,
{
    let name = entries[i].0@;
    assert(names_at(entries, i, name));
    let k = choose|k: int| names_at(entries, k, name);
    assert(names_at(entries, k, name));
    assert(k == i);
}

/// `entry` in place of the entry with its name at `at`, or behind the last one.
proof fn lemma_map_of_insert<T: View>(
    before: Seq<(String, T)>,
    after: Seq<(String, T)>,
    at: int,
    entry: (String, T),
)
    requires
        distinct_names(before),
        if at < before.len() {
            names_at(before, at, entry.0@) && after == before.update(at, entry)
        } else {
            (forall|i: int| !names_at(before, i, entry.0@)) && at == before.len() && after
                == before.push(entry)
        },
    ensures
        distinct_names(after),
        map_of(after) == map_of(before).insert(entry.0@, entry.1@),
{
    assert forall|i: int, j: int| 0 <= i < j < after.len() implies #[trigger] after[i].0@
        != #[trigger] after[j].0@ by {
        if at == before.len() {
            assert(!names_at(before, i, entry.0@));
        }
    }
    let expected = map_of(before).insert(entry.0@, entry.1@);
    assert forall|name: Seq<char>| #[trigger]
        map_of(after).dom().contains(name) == expected.dom().contains(name) && (
        expected.dom().contains(name) ==> map_of(after)[name] == expected[name]) by {
        if name == entry.0@ {
            lemma_map_of(after, at);
        } else if exists|i: int| names_at(before, i, name) {
            let i = choose|i: int| names_at(before, i, name);
            lemma_map_of(before, i);
            assert(after[i] == before[i]);
            lemma_map_of(after, i);
        } else {
            assert forall|i: int| !names_at(after, i, name) by {
                assert(!names_at(before, i, name));
            }
        }
    }
    assert(map_of(after) =~= expected);
}

impl<T: View> View for Table<T> {
    type V = Map<Seq<char>, T::V>;

    closed spec fn view(&self) -> Map<Seq<char>, T::V> {
        map_of(self.entries@)
    }
}

impl<T: View> Table<T> {
    /// A table without entries.
    pub fn new() -> (res: Self)
        ensures
            res@ == Map::<Seq<char>, T::V>::empty(),
    {
        let res = Table { entries: Vec::new() };
        assert(res@ =~= Map::<Seq<char>, T::V>::empty());
        res
    }

    /// The position of `name` in a list of entries.
    fn position(entries: &Vec<(String, T)>, name: &str) -> (res: Option<usize>)
        ensures
            match res {
                Some(i) => names_at(entries@, i as int, name@),
                None => forall|i: int| !names_at(entries@, i, name@),
            },
    {
        let wanted: String = name.to_owned();
        let mut i: usize = 0;
        while i < entries.len()
            invariant
                i <= entries@.len(),
                wanted@ == name@,
                forall|j: int| 0 <= j < i ==> !names_at(entries@, j, name@),
            decreases entries@.len() - i,
        {
            if entries[i].0 == wanted {
                return Some(i);
            }
            i += 1;
        }
        None
    }

    /// Puts `value` under `name`, in place of what stood there.
    pub fn insert(&mut self, name: String, value: T)
        ensures
            final(self)@ == old(self)@.insert(name@, value@),
    {
        proof {
            use_type_invariant(&*self);
        }
        let mut entries: Vec<(String, T)> = Vec::new();
        std::mem::swap(&mut entries, &mut self.entries);
        let ghost before = entries@;
        match Self::position(&entries, name.as_str()) {
            Some(i) => {
                entries.set(i, (name, value));
                proof {
                    lemma_map_of_insert(before, entries@, i as int, (name, value));
                }
            },
            None => {
                entries.push((name, value));
                proof {
                    lemma_map_of_insert(before, entries@, before.len() as int, (name, value));
                }
            },
        }
        self.entries = entries;
    }

    /// Whether there is a value under `name`.
    pub fn contains_key(&self, name: &str) -> (res: bool)
        ensures
            res == self@.contains_key(name@),
    {
        match Self::position(&self.entries, name) {
            Some(_) => true,
            None => false,
        }
    }

    /// The value under `name`.
    pub fn get(&self, name: &str) -> (res: Option<&T>)
        ensures
            match res {
                Some(value) => self@.contains_key(name@) && value@ == self@[name@],
                None => !self@.contains_key(name@),
            },
    {
        proof {
            use_type_invariant(self);
        }
        match Self::position(&self.entries, name) {
            Some(i) => {
                proof {
                    lemma_map_of(self.entries@, i as int);
                }
                Some(&self.entries[i].1)
            },
            None => None,
        }
    }

    /// The entries, each name once, in no order that means anything.
    pub fn entries(&self) -> (res: &Vec<(String, T)>)
        ensures
            distinct_names(res@),
            self@ == map_of(res@),
    {
        proof {
            use_type_invariant(self);
        }
        &self.entries
    }
}

impl<T> Table<T> {
    #[verifier::type_invariant]
    spec fn well_formed(self) -> bool {
        distinct_names(self.entries@)
    }
}

} // verus!
