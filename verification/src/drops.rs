//! The drop registry: the definitions of all drops, by their ids.

use vstd::prelude::*;
use crate::errors::ContractError;
use crate::models::{DropView, InternalDropData};
use crate::table::{entries_map, Table};

verus! {

/// The definition of a drop; `NotFound` for an unknown id.
pub open spec fn drop_lookup(
    drops: Map<Seq<char>, DropView>,
    drop_id: Seq<char>,
) -> Result<DropView, ContractError> {
    if drops.contains_key(drop_id) {
        Ok(drops[drop_id])
    } else {
        Err(ContractError::NotFound)
    }
}

/// Each drop is registered under its own id.
pub open spec fn keyed_by_id(drops: Map<Seq<char>, DropView>) -> bool {
    forall|drop_id: Seq<char>| drops.contains_key(drop_id) ==> (#[trigger] drops[drop_id]).id == drop_id
}

/// The views of the stored definitions.
pub open spec fn drop_views(stored: Map<Seq<char>, InternalDropData>) -> Map<Seq<char>, DropView> {
    Map::new(|drop_id: Seq<char>| stored.contains_key(drop_id), |drop_id: Seq<char>| stored[drop_id]@)
}

/// The registry that a list of drops stands for: each drop under its own
/// id, and the first drop of an id is the one that counts.
pub open spec fn drops_map(drops: Seq<InternalDropData>) -> Map<Seq<char>, DropView>
    decreases drops.len(),
{
    if drops.len() == 0 {
        Map::empty()
    } else {
        drops_map(drops.drop_first()).insert(drops[0]@.id, drops[0]@)
    }
}

/// The definitions of a list of entries, without their keys.
pub open spec fn definitions(entries: Seq<(String, InternalDropData)>) -> Seq<InternalDropData> {
    Seq::new(entries.len(), |i: int| entries[i].1)
}

/// Where each definition stands under its own id, the definitions alone
/// stand for the same registry as the entries.
pub proof fn lemma_definitions(entries: Seq<(String, InternalDropData)>)
    requires
        forall|i: int| 0 <= i < entries.len() ==> (#[trigger] entries[i]).0@ == entries[i].1@.id,
    ensures
        drops_map(definitions(entries)) == drop_views(entries_map(entries)),
    decreases entries.len(),
{
    if entries.len() == 0 {
        assert(drop_views(entries_map(entries)) =~= Map::<Seq<char>, DropView>::empty());
    } else {
        let rest = entries.drop_first();
        assert forall|i: int| 0 <= i < rest.len() implies (#[trigger] rest[i]).0@ == rest[i].1@.id by {
            assert(rest[i] == entries[i + 1]);
        }
        lemma_definitions(rest);
        assert(definitions(entries).drop_first() =~= definitions(rest));
        assert(entries[0].0@ == entries[0].1@.id);
        assert(drop_views(entries_map(entries)) =~= drop_views(entries_map(rest)).insert(
            entries[0].1@.id,
            entries[0].1@,
        ));
    }
}

/// The definitions of all drops.
pub struct DropRegistry {
    drops: Table<String, InternalDropData>,
}

impl DropRegistry {
    /// The representation is sound, and each drop is registered under its
    /// own id.
    pub closed spec fn wf(&self) -> bool {
        &&& self.drops.wf()
        &&& keyed_by_id(self.as_map())
    }

    /// The definitions, by id.
    pub closed spec fn as_map(&self) -> Map<Seq<char>, DropView> {
        drop_views(self.drops@)
    }

    /// The registry that the list of drops stands for, where the first drop
    /// of an id is the one that counts.
    pub fn from_drops(drops: Vec<InternalDropData>) -> (registry: Self)
        ensures
            registry.wf(),
            registry@ == drops_map(drops@),
    {
        let ghost all = drops@;
        let mut drops = drops;
        let mut registry = DropRegistry::new();
        assert(all.subrange(all.len() as int, all.len() as int) =~= Seq::<InternalDropData>::empty());
        while drops.len() > 0
            invariant
                registry.wf(),
                drops@.len() <= all.len(),
                drops@ == all.take(drops@.len() as int),
                registry@ == drops_map(all.subrange(drops@.len() as int, all.len() as int)),
            decreases drops@.len(),
        {
            let ghost n = drops@.len() as int;
            match drops.pop() {
                Some(data) => {
                    assert(data == all[n - 1]);
                    assert(drops@ =~= all.take(n - 1));
                    assert(all.subrange(n - 1, all.len() as int).drop_first() =~= all.subrange(
                        n,
                        all.len() as int,
                    ));
                    registry.define(data);
                },
                None => {},
            }
        }
        assert(all.subrange(0, all.len() as int) =~= all);
        registry
    }

    /// The drops of the registry, each once.
    pub fn into_drops(self) -> (drops: Vec<InternalDropData>)
        requires
            self.wf(),
        ensures
            drops_map(drops@) == self@,
    {
        let ghost target = self@;
        let mut entries = self.drops.into_entries();
        let ghost all = entries@;
        let mut drops: Vec<InternalDropData> = Vec::new();
        proof {
            crate::table::lemma_entries_map(all);
            assert forall|i: int| 0 <= i < all.len() implies (#[trigger] all[i]).0@ == all[i].1@.id by {
                assert(entries_map(all).contains_key(all[i].0@));
                assert(target.contains_key(all[i].0@));
                assert(target[all[i].0@].id == all[i].0@);
            }
            assert(drops@ + definitions(entries@) =~= definitions(all));
        }
        while entries.len() > 0
            invariant
                drops@ + definitions(entries@) == definitions(all),
                forall|i: int| 0 <= i < all.len() ==> (#[trigger] all[i]).0@ == all[i].1@.id,
                drop_views(entries_map(all)) == target,
            decreases entries@.len(),
        {
            let ghost listed = drops@;
            let ghost rest = entries@;
            let entry = entries.remove(0);
            drops.push(entry.1);
            assert(drops@ + definitions(entries@) =~= listed + definitions(rest));
        }
        proof {
            assert(drops@ =~= definitions(all));
            lemma_definitions(all);
        }
        drops
    }

    /// Each drop is registered under its own id.
    pub proof fn lemma_keyed_by_id(&self)
        requires
            self.wf(),
        ensures
            keyed_by_id(self@),
    {
    }

    /// A registry without drops.
    pub fn new() -> (registry: Self)
        ensures
            registry.wf(),
            registry@ == Map::<Seq<char>, DropView>::empty(),
    {
        let registry = DropRegistry { drops: Table::new() };
        assert(registry.as_map() =~= Map::<Seq<char>, DropView>::empty());
        registry
    }

    /// Whether a drop of this id is defined.
    pub fn contains(&self, drop_id: &String) -> (b: bool)
        requires
            self.wf(),
        ensures
            b == self@.contains_key(drop_id@),
    {
        self.drops.contains_key(drop_id)
    }

    /// The definition of the drop, where it stands.
    pub fn find(&self, drop_id: &String) -> (found: Option<&InternalDropData>)
        requires
            self.wf(),
        ensures
            match found {
                Some(data) => drop_lookup(self@, drop_id@) == Ok::<DropView, ContractError>(data@),
                None => drop_lookup(self@, drop_id@) is Err,
            },
    {
        self.drops.get(drop_id)
    }

    /// A copy of the definition of the drop.
    pub fn get(&self, drop_id: &String) -> (found: Result<InternalDropData, ContractError>)
        requires
            self.wf(),
        ensures
            match found {
                Ok(data) => drop_lookup(self@, drop_id@) == Ok::<DropView, ContractError>(data@),
                Err(e) => drop_lookup(self@, drop_id@) == Err::<DropView, ContractError>(e),
            },
    {
        match self.drops.get(drop_id) {
            Some(data) => Ok(data.clone()),
            None => Err(ContractError::NotFound),
        }
    }

    /// Registers the drop under its id, in place of the one that had the id,
    /// if any.
    pub fn define(&mut self, data: InternalDropData)
        requires
            old(self).wf(),
        ensures
            final(self).wf(),
            final(self)@ == old(self)@.insert(data@.id, data@),
    {
        let drop_id = data.get_id();
        self.drops.insert(drop_id, data);
        assert(self.as_map() =~= old(self).as_map().insert(data@.id, data@));
    }
}

impl View for DropRegistry {
    type V = Map<Seq<char>, DropView>;

    open spec fn view(&self) -> Map<Seq<char>, DropView> {
        self.as_map()
    }
}

} // verus!
