//! A small map, kept as a list in which no key occurs twice.

use vstd::prelude::*;

verus! {

/// What can be a key of a table: a value that stands for an identity, with a
/// test that decides whether two keys stand for the same one.
pub trait Key: Sized {
    /// What a key stands for.
    type Id;

    /// What this key stands for.
    spec fn id(&self) -> Self::Id;

    /// Whether both keys stand for the same.
    fn same(&self, other: &Self) -> (b: bool)
        ensures
            b == (self.id() == other.id()),
    ;
}

impl Key for String {
    type Id = Seq<char>;

    open spec fn id(&self) -> Seq<char> {
        self@
    }

    fn same(&self, other: &Self) -> (b: bool) {
        *self == *other
    }
}

/// The map that a list of entries stands for, where the first entry of a key
/// is the one that counts.
pub open spec fn entries_map<K: Key, V>(entries: Seq<(K, V)>) -> Map<K::Id, V>
    decreases entries.len(),
{
    if entries.len() == 0 {
        Map::empty()
    } else {
        entries_map(entries.drop_first()).insert(entries[0].0.id(), entries[0].1)
    }
}

/// No key occurs twice in the list.
pub open spec fn distinct_keys<K: Key, V>(entries: Seq<(K, V)>) -> bool {
    forall|i: int, j: int| 0 <= i < j < entries.len() ==> entries[i].0.id() != entries[j].0.id()
}

/// A list without repeated keys stands for the map that holds exactly its
/// entries.
pub proof fn lemma_entries_map<K: Key, V>(entries: Seq<(K, V)>)
    requires
        distinct_keys(entries),
    ensures
        forall|i: int|
            0 <= i < entries.len() ==> entries_map(entries).contains_key(
                #[trigger] entries[i].0.id(),
            ) && entries_map(entries)[entries[i].0.id()] == entries[i].1,
        forall|id: K::Id|
            entries_map(entries).contains_key(id) ==> exists|i: int|
                0 <= i < entries.len() && #[trigger] entries[i].0.id() == id,
    decreases entries.len(),
{
    if entries.len() > 0 {
        let rest = entries.drop_first();
        assert forall|i: int, j: int| 0 <= i < j < rest.len() implies rest[i].0.id()
            != rest[j].0.id() by {
            assert(rest[i] == entries[i + 1]);
            assert(rest[j] == entries[j + 1]);
        }
        lemma_entries_map(rest);
        assert forall|i: int| 0 <= i < entries.len() implies entries_map(entries).contains_key(
            #[trigger] entries[i].0.id(),
        ) && entries_map(entries)[entries[i].0.id()] == entries[i].1 by {
            if i > 0 {
                assert(rest[i - 1] == entries[i]);
                assert(entries_map(rest).contains_key(rest[i - 1].0.id()));
                assert(entries[0].0.id() != entries[i].0.id());
            }
        }
        assert forall|id: K::Id| entries_map(entries).contains_key(id) implies exists|i: int|
            0 <= i < entries.len() && #[trigger] entries[i].0.id() == id by {
            if id == entries[0].0.id() {
                assert(entries[0].0.id() == id);
            } else {
                assert(entries_map(rest).contains_key(id));
                let i = choose|i: int| 0 <= i < rest.len() && #[trigger] rest[i].0.id() == id;
                assert(rest[i] == entries[i + 1]);
                assert(entries[i + 1].0.id() == id);
            }
        }
    }
}

/// A finite map from keys to values.
pub struct Table<K: Key, V> {
    entries: Vec<(K, V)>,
}

impl<K: Key, V> Table<K, V> {
    /// No key occurs twice.
    pub closed spec fn wf(&self) -> bool {
        distinct_keys(self.entries@)
    }

    spec fn has_at(&self, id: K::Id, i: int) -> bool {
        0 <= i < self.entries@.len() && self.entries@[i].0.id() == id
    }

    spec fn position(&self, id: K::Id) -> int {
        choose|i: int| self.has_at(id, i)
    }

    /// The map that the table stands for.
    pub closed spec fn as_map(&self) -> Map<K::Id, V> {
        Map::new(
            |id: K::Id| exists|i: int| self.has_at(id, i),
            |id: K::Id| self.entries@[self.position(id)].1,
        )
    }

    proof fn lemma_position(&self, i: int)
        requires
            self.wf(),
            0 <= i < self.entries@.len(),
        ensures
            self.as_map().contains_key(self.entries@[i].0.id()),
            self.position(self.entries@[i].0.id()) == i,
            self.as_map()[self.entries@[i].0.id()] == self.entries@[i].1,
    {
        let id = self.entries@[i].0.id();
        assert(self.has_at(id, i));
        let p = self.position(id);
        assert(self.has_at(id, p));
        if p < i {
            assert(self.entries@[p].0.id() != self.entries@[i].0.id());
        } else if i < p {
            assert(self.entries@[i].0.id() != self.entries@[p].0.id());
        }
    }

    proof fn lemma_absent(&self, id: K::Id)
        requires
            forall|i: int| 0 <= i < self.entries@.len() ==> self.entries@[i].0.id() != id,
        ensures
            !self.as_map().contains_key(id),
    {
        if self.as_map().contains_key(id) {
            let i = choose|i: int| self.has_at(id, i);
            assert(self.has_at(id, i));
        }
    }

    proof fn lemma_as_entries_map(&self)
        requires
            self.wf(),
        ensures
            entries_map(self.entries@) == self.as_map(),
    {
        lemma_entries_map(self.entries@);
        let listed = entries_map(self.entries@);
        assert forall|id: K::Id| listed.contains_key(id) == self.as_map().contains_key(id) by {
            if listed.contains_key(id) {
                let i = choose|i: int|
                    0 <= i < self.entries@.len() && #[trigger] self.entries@[i].0.id() == id;
                assert(self.has_at(id, i));
            }
            if self.as_map().contains_key(id) {
                let i = choose|i: int| self.has_at(id, i);
                assert(self.has_at(id, i));
                assert(listed.contains_key(self.entries@[i].0.id()));
            }
        }
        assert forall|id: K::Id| listed.contains_key(id) implies listed[id] == self.as_map()[id] by {
            let i = choose|i: int|
                0 <= i < self.entries@.len() && #[trigger] self.entries@[i].0.id() == id;
            self.lemma_position(i);
            assert(listed[self.entries@[i].0.id()] == self.entries@[i].1);
        }
        assert(listed =~= self.as_map());
    }

    /// The empty table.
    pub fn new() -> (table: Self)
        ensures
            table.wf(),
            table@ == Map::<K::Id, V>::empty(),
    {
        let table = Table { entries: Vec::new() };
        assert(table.as_map() =~= Map::<K::Id, V>::empty()) by {
            assert forall|id: K::Id| !table.as_map().contains_key(id) by {
                table.lemma_absent(id);
            }
        }
        table
    }

    /// The table that the list of entries stands for.
    pub fn from_entries(entries: Vec<(K, V)>) -> (table: Self)
        ensures
            table.wf(),
            table@ == entries_map(entries@),
    {
        let ghost all = entries@;
        let mut entries = entries;
        let mut table = Table::new();
        assert(all.subrange(all.len() as int, all.len() as int) =~= Seq::<(K, V)>::empty());
        while entries.len() > 0
            invariant
                table.wf(),
                entries@.len() <= all.len(),
                entries@ == all.take(entries@.len() as int),
                table@ == entries_map(all.subrange(entries@.len() as int, all.len() as int)),
            decreases entries@.len(),
        {
            let ghost n = entries@.len() as int;
            match entries.pop() {
                Some(entry) => {
                    assert(entry == all[n - 1]);
                    assert(entries@ =~= all.take(n - 1));
                    assert(all.subrange(n - 1, all.len() as int).drop_first() =~= all.subrange(
                        n,
                        all.len() as int,
                    ));
                    table.insert(entry.0, entry.1);
                },
                None => {},
            }
        }
        assert(all.subrange(0, all.len() as int) =~= all);
        table
    }

    /// The entries of the table, each key once.
    pub fn into_entries(self) -> (entries: Vec<(K, V)>)
        requires
            self.wf(),
        ensures
            distinct_keys(entries@),
            entries_map(entries@) == self@,
    {
        proof {
            self.lemma_as_entries_map();
        }
        self.entries
    }

    /// The number of keys.
    pub fn len(&self) -> (n: usize)
        requires
            self.wf(),
        ensures
            n == self@.dom().len(),
            self@.dom().finite(),
    {
        proof {
            self.lemma_len(self.entries@.len() as int);
            assert(self.ids_upto(self.entries@.len() as int) =~= self.as_map().dom()) by {
                assert forall|id: K::Id|
                    self.ids_upto(self.entries@.len() as int).contains(id)
                        == self.as_map().dom().contains(id) by {
                    if self.as_map().contains_key(id) {
                        let i = choose|i: int| self.has_at(id, i);
                        assert(self.has_at(id, i));
                    }
                }
            }
        }
        self.entries.len()
    }

    spec fn ids_upto(&self, n: int) -> Set<K::Id> {
        Set::new(|id: K::Id| exists|i: int| 0 <= i < n && self.has_at(id, i))
    }

    proof fn lemma_len(&self, n: int)
        requires
            self.wf(),
            0 <= n <= self.entries@.len(),
        ensures
            self.ids_upto(n).finite(),
            self.ids_upto(n).len() == n,
        decreases n,
    {
        if n == 0 {
            assert(self.ids_upto(0) =~= Set::<K::Id>::empty());
        } else {
            self.lemma_len(n - 1);
            let id = self.entries@[n - 1].0.id();
            assert(self.has_at(id, n - 1));
            assert(!self.ids_upto(n - 1).contains(id)) by {
                if self.ids_upto(n - 1).contains(id) {
                    let i = choose|i: int| 0 <= i < n - 1 && self.has_at(id, i);
                    assert(self.entries@[i].0.id() != self.entries@[n - 1].0.id());
                }
            }
            assert(self.ids_upto(n) =~= self.ids_upto(n - 1).insert(id)) by {
                assert forall|q: K::Id|
                    self.ids_upto(n).contains(q) == self.ids_upto(n - 1).insert(id).contains(q) by {
                    if self.ids_upto(n).contains(q) {
                        let i = choose|i: int| 0 <= i < n && self.has_at(q, i);
                        if i < n - 1 {
                            assert(self.has_at(q, i));
                        }
                    }
                    if self.ids_upto(n - 1).contains(q) {
                        let i = choose|i: int| 0 <= i < n - 1 && self.has_at(q, i);
                        assert(self.has_at(q, i));
                    }
                }
            }
        }
    }

    fn find(&self, key: &K) -> (found: Option<usize>)
        requires
            self.wf(),
        ensures
            match found {
                Some(i) => self.has_at(key.id(), i as int),
                None => forall|i: int|
                    0 <= i < self.entries@.len() ==> self.entries@[i].0.id() != key.id(),
            },
    {
        let mut i: usize = 0;
        while i < self.entries.len()
            invariant
                i <= self.entries@.len(),
                forall|k: int| 0 <= k < i ==> self.entries@[k].0.id() != key.id(),
            decreases self.entries@.len() - i,
        {
            if self.entries[i].0.same(key) {
                return Some(i);
            }
            i += 1;
        }
        None
    }

    /// Whether the key has a value.
    pub fn contains_key(&self, key: &K) -> (b: bool)
        requires
            self.wf(),
        ensures
            b == self@.contains_key(key.id()),
    {
        match self.find(key) {
            Some(i) => {
                proof {
                    self.lemma_position(i as int);
                }
                true
            },
            None => {
                proof {
                    self.lemma_absent(key.id());
                }
                false
            },
        }
    }

    /// The value of the key, if it has one.
    pub fn get(&self, key: &K) -> (value: Option<&V>)
        requires
            self.wf(),
        ensures
            match value {
                Some(v) => self@.contains_key(key.id()) && *v == self@[key.id()],
                None => !self@.contains_key(key.id()),
            },
    {
        match self.find(key) {
            Some(i) => {
                proof {
                    self.lemma_position(i as int);
                }
                Some(&self.entries[i].1)
            },
            None => {
                proof {
                    self.lemma_absent(key.id());
                }
                None
            },
        }
    }

    /// Gives the key the value, in place of the one it had, if any.
    pub fn insert(&mut self, key: K, value: V)
        requires
            old(self).wf(),
        ensures
            final(self).wf(),
            final(self)@ == old(self)@.insert(key.id(), value),
    {
        let ghost before = *self;
        let ghost k = key.id();
        match self.find(&key) {
            Some(i) => {
                self.entries.set(i, (key, value));
                proof {
                    assert(self.wf());
                    assert forall|q: K::Id|
                        self.as_map().contains_key(q) == before.as_map().insert(
                            k,
                            value,
                        ).contains_key(q) by {
                        if self.as_map().contains_key(q) {
                            let j = choose|j: int| self.has_at(q, j);
                            assert(before.has_at(q, j));
                        }
                        if before.as_map().contains_key(q) {
                            let j = choose|j: int| before.has_at(q, j);
                            assert(self.has_at(q, j));
                        }
                        if q == k {
                            assert(self.has_at(q, i as int));
                        }
                    }
                    assert forall|q: K::Id| self.as_map().contains_key(q) implies self.as_map()[q]
                        == before.as_map().insert(k, value)[q] by {
                        let j = choose|j: int| self.has_at(q, j);
                        self.lemma_position(j);
                        if j != i {
                            before.lemma_position(j);
                        }
                    }
                    assert(self.as_map() =~= before.as_map().insert(k, value));
                }
            },
            None => {
                self.entries.push((key, value));
                proof {
                    let n = before.entries@.len() as int;
                    assert(self.wf());
                    assert forall|q: K::Id|
                        self.as_map().contains_key(q) == before.as_map().insert(
                            k,
                            value,
                        ).contains_key(q) by {
                        if self.as_map().contains_key(q) {
                            let j = choose|j: int| self.has_at(q, j);
                            if j < n {
                                assert(before.has_at(q, j));
                            }
                        }
                        if before.as_map().contains_key(q) {
                            let j = choose|j: int| before.has_at(q, j);
                            assert(self.has_at(q, j));
                        }
                        if q == k {
                            assert(self.has_at(q, n));
                        }
                    }
                    assert forall|q: K::Id| self.as_map().contains_key(q) implies self.as_map()[q]
                        == before.as_map().insert(k, value)[q] by {
                        let j = choose|j: int| self.has_at(q, j);
                        self.lemma_position(j);
                        if j < n {
                            before.lemma_position(j);
                        }
                    }
                    assert(self.as_map() =~= before.as_map().insert(k, value));
                }
            },
        }
    }

    /// Takes the key and its value out, if it has one.
    pub fn remove(&mut self, key: &K) -> (value: Option<V>)
        requires
            old(self).wf(),
        ensures
            final(self).wf(),
            final(self)@ == old(self)@.remove(key.id()),
            match value {
                Some(v) => old(self)@.contains_key(key.id()) && v == old(self)@[key.id()],
                None => !old(self)@.contains_key(key.id()),
            },
    {
        let ghost before = *self;
        let ghost k = key.id();
        match self.find(key) {
            Some(i) => {
                let entry = self.entries.remove(i);
                proof {
                    before.lemma_position(i as int);
                    assert(self.wf()) by {
                        assert forall|a: int, b: int|
                            0 <= a < b < self.entries@.len() implies self.entries@[a].0.id()
                            != self.entries@[b].0.id() by {
                            let a0 = if a < i { a } else { a + 1 };
                            let b0 = if b < i { b } else { b + 1 };
                            assert(self.entries@[a] == before.entries@[a0]);
                            assert(self.entries@[b] == before.entries@[b0]);
                        }
                    }
                    assert forall|q: K::Id|
                        self.as_map().contains_key(q) == before.as_map().remove(k).contains_key(
                            q,
                        ) by {
                        if self.as_map().contains_key(q) {
                            let j = choose|j: int| self.has_at(q, j);
                            let j0 = if j < i { j } else { j + 1 };
                            assert(self.entries@[j] == before.entries@[j0]);
                            assert(before.has_at(q, j0));
                            if q == k {
                                before.lemma_position(j0);
                            }
                        }
                        if before.as_map().contains_key(q) && q != k {
                            let j = choose|j: int| before.has_at(q, j);
                            let j1 = if j < i { j } else { j - 1 };
                            assert(self.entries@[j1] == before.entries@[j]);
                            assert(self.has_at(q, j1));
                        }
                    }
                    assert forall|q: K::Id| self.as_map().contains_key(q) implies self.as_map()[q]
                        == before.as_map().remove(k)[q] by {
                        let j = choose|j: int| self.has_at(q, j);
                        let j0 = if j < i { j } else { j + 1 };
                        assert(self.entries@[j] == before.entries@[j0]);
                        self.lemma_position(j);
                        before.lemma_position(j0);
                    }
                    assert(self.as_map() =~= before.as_map().remove(k));
                }
                Some(entry.1)
            },
            None => {
                proof {
                    self.lemma_absent(k);
                    assert(self.as_map() =~= before.as_map().remove(k));
                }
                None
            },
        }
    }
}

impl<K: Key, V> View for Table<K, V> {
    type V = Map<K::Id, V>;

    open spec fn view(&self) -> Map<K::Id, V> {
        self.as_map()
    }
}

} // verus!
