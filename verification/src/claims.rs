//! The progress of each account on each drop: which scavenger ids it has
//! found, and whether the drop is open, being minted or claimed.

use vstd::prelude::*;
use crate::models::{texts, clone_strings};
use crate::table::{distinct_keys, entries_map, Key, Table};

verus! {

/// How far the claim of one drop by one account has come.
#[derive(Clone, Copy, Debug, PartialEq, Eq, Structural)]
pub enum ClaimStatus {
    /// Not claimed; scavenger ids may still be found.
    Open,
    /// The mint was requested from the outside service and has not answered.
    Minting,
    /// Claimed, for good.
    Claimed,
}

/// The progress of one account on one drop.
pub struct ClaimView {
    pub found: Set<Seq<char>>,
    pub status: ClaimStatus,
}

/// The progress of the account on the drop; where nothing is recorded, no id
/// is found and the drop is open.
pub open spec fn claim_of(
    claims: Map<(Seq<char>, Seq<char>), ClaimView>,
    account: Seq<char>,
    drop_id: Seq<char>,
) -> ClaimView {
    if claims.contains_key((account, drop_id)) {
        claims[(account, drop_id)]
    } else {
        ClaimView { found: Set::empty(), status: ClaimStatus::Open }
    }
}

/// Every id of the hunt is found. A hunt without ids is complete.
pub open spec fn complete(hunt: Seq<Seq<char>>, found: Set<Seq<char>>) -> bool {
    forall|i: int| 0 <= i < hunt.len() ==> found.contains(#[trigger] hunt[i])
}

/// No id of the hunt is found.
pub open spec fn untouched(hunt: Seq<Seq<char>>, found: Set<Seq<char>>) -> bool {
    forall|i: int| 0 <= i < hunt.len() ==> !found.contains(#[trigger] hunt[i])
}

/// The progress after the account has found the id.
pub open spec fn with_found(
    claims: Map<(Seq<char>, Seq<char>), ClaimView>,
    account: Seq<char>,
    drop_id: Seq<char>,
    scavenger_id: Seq<char>,
) -> Map<(Seq<char>, Seq<char>), ClaimView> {
    let before = claim_of(claims, account, drop_id);
    claims.insert(
        (account, drop_id),
        ClaimView { found: before.found.insert(scavenger_id), status: before.status },
    )
}

/// The progress after the claim of the drop by the account has come to the
/// status.
pub open spec fn with_status(
    claims: Map<(Seq<char>, Seq<char>), ClaimView>,
    account: Seq<char>,
    drop_id: Seq<char>,
    status: ClaimStatus,
) -> Map<(Seq<char>, Seq<char>), ClaimView> {
    let before = claim_of(claims, account, drop_id);
    claims.insert((account, drop_id), ClaimView { found: before.found, status })
}

/// What is recorded of one account and one drop.
#[derive(Debug, PartialEq, Eq)]
pub struct ClaimEntry {
    pub found: Vec<String>,
    pub status: ClaimStatus,
}

impl View for ClaimEntry {
    type V = ClaimView;

    open spec fn view(&self) -> ClaimView {
        ClaimView { found: texts(self.found@).to_set(), status: self.status }
    }
}

/// Whether the list holds the string.
pub fn holds(list: &Vec<String>, text: &String) -> (b: bool)
    ensures
        b == texts(list@).contains(text@),
{
    let mut i: usize = 0;
    while i < list.len()
        invariant
            i <= list.len(),
            forall|k: int| 0 <= k < i ==> texts(list@)[k] != text@,
        decreases list.len() - i,
    {
        if list[i] == *text {
            assert(texts(list@)[i as int] == text@);
            return true;
        }
        i += 1;
    }
    false
}

/// Names one account and one drop.
#[derive(Debug, PartialEq, Eq)]
pub struct ClaimKey {
    pub account: String,
    pub drop_id: String,
}

impl Key for ClaimKey {
    type Id = (Seq<char>, Seq<char>);

    open spec fn id(&self) -> (Seq<char>, Seq<char>) {
        (self.account@, self.drop_id@)
    }

    fn same(&self, other: &Self) -> (b: bool) {
        self.account == other.account && self.drop_id == other.drop_id
    }
}

/// The views of what is recorded.
pub open spec fn claim_views(
    records: Map<(Seq<char>, Seq<char>), ClaimEntry>,
) -> Map<(Seq<char>, Seq<char>), ClaimView> {
    Map::new(
        |key: (Seq<char>, Seq<char>)| records.contains_key(key),
        |key: (Seq<char>, Seq<char>)| records[key]@,
    )
}

/// The progress of all accounts on all drops.
pub struct ClaimBook {
    records: Table<ClaimKey, ClaimEntry>,
}

impl ClaimBook {
    /// The representation is sound.
    pub closed spec fn wf(&self) -> bool {
        self.records.wf()
    }

    /// What is recorded, by account and drop.
    pub closed spec fn as_map(&self) -> Map<(Seq<char>, Seq<char>), ClaimView> {
        claim_views(self.records@)
    }

    /// A book without records.
    pub fn new() -> (book: Self)
        ensures
            book.wf(),
            book@ == Map::<(Seq<char>, Seq<char>), ClaimView>::empty(),
    {
        let book = ClaimBook { records: Table::new() };
        assert(book.as_map() =~= Map::<(Seq<char>, Seq<char>), ClaimView>::empty());
        book
    }

    /// The book that the list of records stands for, where the first record
    /// of an account and a drop is the one that counts.
    pub fn from_entries(entries: Vec<(ClaimKey, ClaimEntry)>) -> (book: Self)
        ensures
            book.wf(),
            book@ == claim_views(entries_map(entries@)),
    {
        ClaimBook { records: Table::from_entries(entries) }
    }

    /// The records of the book, one for each account and drop that it knows
    /// of.
    pub fn into_entries(self) -> (entries: Vec<(ClaimKey, ClaimEntry)>)
        requires
            self.wf(),
        ensures
            distinct_keys(entries@),
            claim_views(entries_map(entries@)) == self@,
    {
        self.records.into_entries()
    }

    fn key(account: &String, drop_id: &String) -> (key: ClaimKey)
        ensures
            key.id() == (account@, drop_id@),
    {
        ClaimKey { account: account.clone(), drop_id: drop_id.clone() }
    }

    /// The status of the claim.
    pub fn status(&self, account: &String, drop_id: &String) -> (status: ClaimStatus)
        requires
            self.wf(),
        ensures
            status == claim_of(self@, account@, drop_id@).status,
    {
        let key = Self::key(account, drop_id);
        match self.records.get(&key) {
            Some(entry) => entry.status,
            None => ClaimStatus::Open,
        }
    }

    /// The scavenger ids that the account has found for the drop.
    pub fn found(&self, account: &String, drop_id: &String) -> (ids: Vec<String>)
        requires
            self.wf(),
        ensures
            texts(ids@).to_set() == claim_of(self@, account@, drop_id@).found,
    {
        let key = Self::key(account, drop_id);
        match self.records.get(&key) {
            Some(entry) => {
                let ids = clone_strings(&entry.found);
                assert(texts(ids@) =~= texts(entry.found@));
                ids
            },
            None => {
                let ids: Vec<String> = Vec::new();
                assert(texts(ids@).to_set() =~= Set::<Seq<char>>::empty());
                ids
            },
        }
    }

    /// Whether the account has found every id of the hunt.
    pub fn covers(&self, account: &String, drop_id: &String, hunt: &Vec<String>) -> (b: bool)
        requires
            self.wf(),
        ensures
            b == complete(texts(hunt@), claim_of(self@, account@, drop_id@).found),
    {
        let found = self.found(account, drop_id);
        let ghost marked = claim_of(self@, account@, drop_id@).found;
        let mut i: usize = 0;
        while i < hunt.len()
            invariant
                i <= hunt.len(),
                texts(found@).to_set() == marked,
                marked == claim_of(self@, account@, drop_id@).found,
                forall|k: int| 0 <= k < i ==> marked.contains(#[trigger] texts(hunt@)[k]),
            decreases hunt.len() - i,
        {
            if !holds(&found, &hunt[i]) {
                assert(0 <= i < texts(hunt@).len() && !marked.contains(texts(hunt@)[i as int]));
                return false;
            }
            i += 1;
        }
        true
    }

    /// Whether the account has found some id of the hunt.
    pub fn touches(&self, account: &String, drop_id: &String, hunt: &Vec<String>) -> (b: bool)
        requires
            self.wf(),
        ensures
            b == !untouched(texts(hunt@), claim_of(self@, account@, drop_id@).found),
    {
        let found = self.found(account, drop_id);
        let ghost marked = claim_of(self@, account@, drop_id@).found;
        let mut i: usize = 0;
        while i < hunt.len()
            invariant
                i <= hunt.len(),
                texts(found@).to_set() == marked,
                marked == claim_of(self@, account@, drop_id@).found,
                forall|k: int| 0 <= k < i ==> !marked.contains(#[trigger] texts(hunt@)[k]),
            decreases hunt.len() - i,
        {
            if holds(&found, &hunt[i]) {
                assert(0 <= i < texts(hunt@).len() && marked.contains(texts(hunt@)[i as int]));
                return true;
            }
            i += 1;
        }
        false
    }

    fn take(&mut self, key: &ClaimKey) -> (entry: ClaimEntry)
        requires
            old(self).wf(),
        ensures
            final(self).wf(),
            final(self).records@ == old(self).records@.remove(key.id()),
            entry@ == claim_of(old(self)@, key.id().0, key.id().1),
    {
        match self.records.remove(key) {
            Some(entry) => entry,
            None => {
                let found: Vec<String> = Vec::new();
                assert(texts(found@).to_set() =~= Set::<Seq<char>>::empty());
                ClaimEntry { found, status: ClaimStatus::Open }
            },
        }
    }

    /// Records that the account has found the id.
    pub fn mark(&mut self, account: &String, drop_id: &String, scavenger_id: &String)
        requires
            old(self).wf(),
        ensures
            final(self).wf(),
            final(self)@ == with_found(old(self)@, account@, drop_id@, scavenger_id@),
    {
        let key = Self::key(account, drop_id);
        let mut entry = self.take(&key);
        let ghost found_before = entry@.found;
        if !holds(&entry.found, scavenger_id) {
            let ghost list_before = texts(entry.found@);
            entry.found.push(scavenger_id.clone());
            proof {
                assert(texts(entry.found@) =~= list_before.push(scavenger_id@));
                assert(texts(entry.found@).to_set() =~= found_before.insert(scavenger_id@)) by {
                    assert forall|id: Seq<char>|
                        texts(entry.found@).contains(id) == (list_before.contains(id) || id
                            == scavenger_id@) by {
                        if list_before.contains(id) {
                            let i = choose|i: int| 0 <= i < list_before.len() && list_before[i] == id;
                            assert(texts(entry.found@)[i] == id);
                        }
                        if id == scavenger_id@ {
                            assert(texts(entry.found@)[list_before.len() as int] == id);
                        }
                    }
                }
            }
        } else {
            assert(found_before.insert(scavenger_id@) =~= found_before);
        }
        self.records.insert(key, entry);
        assert(self.as_map() =~= with_found(old(self).as_map(), account@, drop_id@, scavenger_id@));
    }

    /// Records the status that the claim has come to.
    pub fn set_status(&mut self, account: &String, drop_id: &String, status: ClaimStatus)
        requires
            old(self).wf(),
        ensures
            final(self).wf(),
            final(self)@ == with_status(old(self)@, account@, drop_id@, status),
    {
        let key = Self::key(account, drop_id);
        let mut entry = self.take(&key);
        entry.status = status;
        self.records.insert(key, entry);
        assert(self.as_map() =~= with_status(old(self).as_map(), account@, drop_id@, status));
    }
}

impl View for ClaimBook {
    type V = Map<(Seq<char>, Seq<char>), ClaimView>;

    open spec fn view(&self) -> Map<(Seq<char>, Seq<char>), ClaimView> {
        self.as_map()
    }
}

} // verus!
