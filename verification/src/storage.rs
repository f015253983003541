//! The namespaces under which the state is persisted, and the prefix of the
//! stored keys of each.

use vstd::prelude::*;

verus! {

/// The namespaces of the persisted state. A namespace that is nested in
/// another names the outer key by its 32-byte hash.
#[derive(Debug, PartialEq, Eq)]
pub enum StorageKeys {
    DataByVendor,
    AccountIdByPubKey,
    VendorItems { vendor_id_hash: [u8; 32] },
    DropsClaimedByAccount,
    DropsClaimedByAccountInner { account_id_hash: [u8; 32] },
    DropById,
    AccontStatusById,
    BalanceByAccount,
    TicketDataById,
}

impl StorageKeys {
    /// The number of the namespace: its place in the list above.
    pub open spec fn tag(&self) -> u8 {
        match self {
            StorageKeys::DataByVendor => 0,
            StorageKeys::AccountIdByPubKey => 1,
            StorageKeys::VendorItems { .. } => 2,
            StorageKeys::DropsClaimedByAccount => 3,
            StorageKeys::DropsClaimedByAccountInner { .. } => 4,
            StorageKeys::DropById => 5,
            StorageKeys::AccontStatusById => 6,
            StorageKeys::BalanceByAccount => 7,
            StorageKeys::TicketDataById => 8,
        }
    }

    /// The hash that the namespace carries; none where it carries none.
    pub open spec fn hash(&self) -> Seq<u8> {
        match self {
            StorageKeys::VendorItems { vendor_id_hash } => vendor_id_hash@,
            StorageKeys::DropsClaimedByAccountInner { account_id_hash } => account_id_hash@,
            _ => Seq::empty(),
        }
    }

    /// The bytes with which every stored key of the namespace begins: the
    /// number of the namespace in one byte, then the hash that it carries.
    pub open spec fn prefix(&self) -> Seq<u8> {
        seq![self.tag()] + self.hash()
    }

    /// The prefix of the stored keys of the namespace.
    pub fn into_storage_key(&self) -> (key: Vec<u8>)
        ensures
            key@ == self.prefix(),
    {
        let mut key: Vec<u8> = Vec::new();
        match self {
            StorageKeys::DataByVendor => {
                key.push(0);
            },
            StorageKeys::AccountIdByPubKey => {
                key.push(1);
            },
            StorageKeys::VendorItems { vendor_id_hash } => {
                key.push(2);
                append_hash(&mut key, vendor_id_hash);
            },
            StorageKeys::DropsClaimedByAccount => {
                key.push(3);
            },
            StorageKeys::DropsClaimedByAccountInner { account_id_hash } => {
                key.push(4);
                append_hash(&mut key, account_id_hash);
            },
            StorageKeys::DropById => {
                key.push(5);
            },
            StorageKeys::AccontStatusById => {
                key.push(6);
            },
            StorageKeys::BalanceByAccount => {
                key.push(7);
            },
            StorageKeys::TicketDataById => {
                key.push(8);
            },
        }
        assert(key@ =~= self.prefix());
        key
    }
}

fn append_hash(key: &mut Vec<u8>, hash: &[u8; 32])
    ensures
        final(key)@ == old(key)@ + hash@,
{
    let ghost before = key@;
    let mut i: usize = 0;
    while i < 32
        invariant
            i <= 32,
            key@ == before + hash@.take(i as int),
        decreases 32 - i,
    {
        key.push(hash[i]);
        assert(key@ =~= before + hash@.take(i + 1));
        i += 1;
    }
    assert(hash@.take(32) =~= hash@);
}

/// The stored key begins with the prefix.
pub open spec fn begins_with(key: Seq<u8>, prefix: Seq<u8>) -> bool {
    prefix.len() <= key.len() && key.take(prefix.len() as int) == prefix
}

/// The prefix tells the namespace: two namespaces with the same prefix have
/// the same number and carry the same hash.
pub proof fn lemma_prefix_names_namespace(a: StorageKeys, b: StorageKeys)
    requires
        a.prefix() == b.prefix(),
    ensures
        a.tag() == b.tag(),
        a.hash() == b.hash(),
{
    assert(a.prefix()[0] == a.tag());
    assert(b.prefix()[0] == b.tag());
    assert(a.hash() =~= a.prefix().subrange(1, a.prefix().len() as int));
    assert(b.hash() =~= b.prefix().subrange(1, b.prefix().len() as int));
}

/// Namespaces do not collide: no stored key begins with the prefixes of two
/// namespaces, unless they are one and the same prefix.
pub proof fn lemma_namespaces_do_not_collide(a: StorageKeys, b: StorageKeys, key: Seq<u8>)
    requires
        begins_with(key, a.prefix()),
        begins_with(key, b.prefix()),
    ensures
        a.prefix() == b.prefix(),
{
    let p = a.prefix();
    let q = b.prefix();
    assert(key.take(p.len() as int)[0] == p[0]);
    assert(key.take(q.len() as int)[0] == q[0]);
    assert(p[0] == a.tag() && q[0] == b.tag());
    assert(a.tag() == b.tag());
    assert(p.len() == q.len());
}

} // verus!
