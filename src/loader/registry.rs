//! A table of resources keyed by logical name, where the first registration
//! of a name wins.
use vstd::prelude::*;

verus! {

/// Resources of type `R` under distinct names, in order of registration.
pub struct NameTable<R> {
    entries: Vec<(String, R)>,
    contents: Ghost<Map<Seq<char>, R>>,
}

impl<R> View for NameTable<R> {
    type V = Map<Seq<char>, R>;

    closed spec fn view(&self) -> Map<Seq<char>, R> {
        self.contents@
    }
}

impl<R> NameTable<R> {
    /// Every entry is in the map, every name of the map has an entry, and no
    /// name has two entries.
    pub closed spec fn wf(&self) -> bool {
        &&& forall|i: int|
            0 <= i < self.entries@.len() ==> {
                let (name, r) = #[trigger] self.entries@[i];
                self.contents@.contains_key(name@) && self.contents@[name@] == r
            }
        &&& forall|k: Seq<char>|
            #[trigger] self.contents@.contains_key(k) ==> exists|i: int|
                0 <= i < self.entries@.len() && (#[trigger] self.entries@[i]).0@ == k
        &&& forall|i: int, j: int|
            0 <= i < self.entries@.len() && 0 <= j < self.entries@.len() && i != j ==> (
            #[trigger] self.entries@[i]).0@ != (#[trigger] self.entries@[j]).0@
    }

    /// A table without names.
    pub fn new() -> (t: NameTable<R>)
        ensures
            t.wf(),
            t@ == Map::<Seq<char>, R>::empty(),
    {
        NameTable { entries: Vec::new(), contents: Ghost(Map::empty()) }
    }

    /// Position of the entry named `key`, if there is one.
    fn position(&self, key: &String) -> (r: Option<usize>)
        requires
            self.wf(),
        ensures
            match r {
                Some(i) => i < self.entries@.len() && self.entries@[i as int].0@ == key@,
                None => !self@.contains_key(key@),
            },
    {
        let mut i: usize = 0;
        while i < self.entries.len()
            invariant
                i <= self.entries@.len(),
                forall|j: int| 0 <= j < i ==> (#[trigger] self.entries@[j]).0@ != key@,
            decreases self.entries@.len() - i,
        {
            if self.entries[i].0 == *key {
                return Some(i);
            }
            i = i + 1;
        }
        None
    }

    /// Whether a resource is registered under `name`.
    pub fn contains(&self, name: &str) -> (r: bool)
        requires
            self.wf(),
        ensures
            r == self@.contains_key(name@),
    {
        let key = name.to_owned();
        self.position(&key).is_some()
    }

    /// The resource registered under `name`, if any.
    pub fn get(&self, name: &str) -> (r: Option<&R>)
        requires
            self.wf(),
        ensures
            match r {
                Some(v) => self@.contains_key(name@) && *v == self@[name@],
                None => !self@.contains_key(name@),
            },
    {
        let key = name.to_owned();
        match self.position(&key) {
            Some(i) => Some(&self.entries[i].1),
            None => None,
        }
    }

    /// Registers `value` under `name` unless the name is taken, in which case
    /// the table is left as it is. Says whether the value was registered.
    pub fn insert_if_absent(&mut self, name: &str, value: R) -> (inserted: bool)
        requires
            old(self).wf(),
        ensures
            final(self).wf(),
            inserted == !old(self)@.contains_key(name@),
            final(self)@ == if inserted {
                old(self)@.insert(name@, value)
            } else {
                old(self)@
            },
    {
        let key = name.to_owned();
        if self.position(&key).is_some() {
            return false;
        }
        let ghost old_entries = self.entries@;
        self.entries.push((key, value));
        self.contents = Ghost(self.contents@.insert(name@, value));
        proof {
            assert forall|k: Seq<char>| #[trigger] self.contents@.contains_key(k) implies exists|
                i: int,
            | 0 <= i < self.entries@.len() && (#[trigger] self.entries@[i]).0@ == k by {
                if k == name@ {
                    assert(self.entries@[old_entries.len() as int].0@ == k);
                } else {
                    let i = choose|i: int|
                        0 <= i < old_entries.len() && (#[trigger] old_entries[i]).0@ == k;
                    assert(self.entries@[i] == old_entries[i]);
                }
            }
        }
        true
    }
}

impl<R: Copy> NameTable<R> {
    /// A table with the same resources under the same names.
    pub fn snapshot(&self) -> (t: NameTable<R>)
        requires
            self.wf(),
        ensures
            t.wf(),
            t@ == self@,
    {
        let mut entries: Vec<(String, R)> = Vec::new();
        let mut i: usize = 0;
        while i < self.entries.len()
            invariant
                i <= self.entries@.len(),
                entries@.len() == i,
                forall|j: int| 0 <= j < i ==> #[trigger] entries@[j] == self.entries@[j],
            decreases self.entries@.len() - i,
        {
            let name = self.entries[i].0.clone();
            let value = self.entries[i].1;
            entries.push((name, value));
            i = i + 1;
        }
        assert(entries@ =~= self.entries@);
        let t = NameTable { entries, contents: Ghost(self.contents@) };
        assert(t.entries@ == self.entries@);
        assert(t.contents@ == self.contents@);
        t
    }
}

} // verus!
