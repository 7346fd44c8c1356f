//! The table of job handlers, looked up by name.

use vstd::prelude::*;

verus! {

/// Maps the name of a job to its handler.
///
/// The handler type `H` is whatever the host runs for a job; the scheduler
/// only stores it and hands it back. Registering a name that is already
/// present replaces its handler, so the last registration wins.
pub struct JobRegistry<H> {
    entries: Vec<(String, H)>,
    table: Ghost<Map<Seq<char>, H>>,
}

impl<H> JobRegistry<H> {
    /// The invariant of the registry: every entry is in the table, the table
    /// holds nothing else, and no name occurs twice. [`JobRegistry::new`]
    /// establishes it and every method keeps it.
    pub closed spec fn wf(&self) -> bool {
        &&& forall|i: int|
            0 <= i < self.entries@.len() ==> {
                &&& self.table@.contains_key(#[trigger] self.entries@[i].0@)
                &&& self.table@[self.entries@[i].0@] == self.entries@[i].1
            }
        &&& forall|name: Seq<char>| #[trigger]
            self.table@.contains_key(name) ==> exists|i: int|
                0 <= i < self.entries@.len() && #[trigger] self.entries@[i].0@ == name
        &&& forall|i: int, j: int|
            0 <= i < j < self.entries@.len() ==> #[trigger] self.entries@[i].0@
                != #[trigger] self.entries@[j].0@
    }

    /// The registered handlers by name.
    pub closed spec fn view(&self) -> Map<Seq<char>, H> {
        self.table@
    }

    /// A registry without any job.
    pub fn new() -> (registry: Self)
        ensures
            registry.wf(),
            registry@ == Map::<Seq<char>, H>::empty(),
    {
        JobRegistry { entries: Vec::new(), table: Ghost(Map::empty()) }
    }

    /// Where `name` stands among the entries, if it does.
    fn position(&self, name: &String) -> (found: Option<usize>)
        ensures
            match found {
                Some(i) => i < self.entries@.len() && self.entries@[i as int].0@ == name@,
                None => forall|i: int|
                    0 <= i < self.entries@.len() ==> #[trigger] self.entries@[i].0@ != name@,
            },
    {
        let mut i: usize = 0;
        while i < self.entries.len()
            invariant
                i <= self.entries@.len(),
                forall|k: int| 0 <= k < i ==> #[trigger] self.entries@[k].0@ != name@,
            decreases self.entries@.len() - i,
        {
            if self.entries[i].0 == *name {
                return Some(i);
            }
            i = i + 1;
        }
        None
    }

    /// Binds `handler` to `name`, in place of any handler the name had before.
    pub fn register(&mut self, name: &str, handler: H)
        requires
            old(self).wf(),
        ensures
            final(self).wf(),
            final(self)@ == old(self)@.insert(name@, handler),
    {
        let key: String = name.to_owned();
        let ghost before = self.entries@;
        let ghost table = self.table@;
        match self.position(&key) {
            Some(i) => {
                self.entries.set(i, (key, handler));
                proof {
                    self.table@ = table.insert(name@, handler);
                    assert forall|k: int| 0 <= k < self.entries@.len() implies {
                        &&& self.table@.contains_key(#[trigger] self.entries@[k].0@)
                        &&& self.table@[self.entries@[k].0@] == self.entries@[k].1
                    } by {
                        if k < i {
                            assert(before[k].0@ != before[i as int].0@);
                        } else if k > i {
                            assert(before[i as int].0@ != before[k].0@);
                        }
                    }
                    assert forall|other: Seq<char>| #[trigger]
                        self.table@.contains_key(other) implies exists|k: int|
                        0 <= k < self.entries@.len() && #[trigger] self.entries@[k].0@
                            == other by {
                        if other == name@ {
                            assert(self.entries@[i as int].0@ == other);
                        } else {
                            let k = choose|k: int|
                                0 <= k < before.len() && #[trigger] before[k].0@ == other;
                            assert(self.entries@[k].0@ == other);
                        }
                    }
                    assert forall|a: int, b: int|
                        0 <= a < b < self.entries@.len() implies #[trigger] self.entries@[a].0@
                        != #[trigger] self.entries@[b].0@ by {
                        assert(before[a].0@ != before[b].0@);
                    }
                }
            },
            None => {
                self.entries.push((key, handler));
                proof {
                    self.table@ = table.insert(name@, handler);
                    let last = before.len() as int;
                    assert forall|k: int| 0 <= k < self.entries@.len() implies {
                        &&& self.table@.contains_key(#[trigger] self.entries@[k].0@)
                        &&& self.table@[self.entries@[k].0@] == self.entries@[k].1
                    } by {
                        if k < last {
                            assert(before[k].0@ != name@);
                        }
                    }
                    assert forall|other: Seq<char>| #[trigger]
                        self.table@.contains_key(other) implies exists|k: int|
                        0 <= k < self.entries@.len() && #[trigger] self.entries@[k].0@
                            == other by {
                        if other == name@ {
                            assert(self.entries@[last].0@ == other);
                        } else {
                            let k = choose|k: int|
                                0 <= k < before.len() && #[trigger] before[k].0@ == other;
                            assert(self.entries@[k].0@ == other);
                        }
                    }
                    assert forall|a: int, b: int|
                        0 <= a < b < self.entries@.len() implies #[trigger] self.entries@[a].0@
                        != #[trigger] self.entries@[b].0@ by {
                        if b < last {
                            assert(before[a].0@ != before[b].0@);
                        } else {
                            assert(before[a].0@ != name@);
                        }
                    }
                }
            },
        }
    }

    /// The handler registered under `name`, if there is one.
    pub fn get(&self, name: &str) -> (handler: Option<&H>)
        requires
            self.wf(),
        ensures
            match handler {
                Some(h) => self@.contains_key(name@) && *h == self@[name@],
                None => !self@.contains_key(name@),
            },
    {
        let key: String = name.to_owned();
        match self.position(&key) {
            Some(i) => Some(&self.entries[i].1),
            None => None,
        }
    }

    /// Whether a handler is registered under `name`.
    pub fn contains(&self, name: &str) -> (present: bool)
        requires
            self.wf(),
        ensures
            present == self@.contains_key(name@),
    {
        self.get(name).is_some()
    }
}

impl<H> Default for JobRegistry<H> {
    /// A registry without any job.
    fn default() -> (registry: Self)
        ensures
            registry.wf(),
            registry@ == Map::<Seq<char>, H>::empty(),
    {
        JobRegistry::new()
    }
}

} // verus!
