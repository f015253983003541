//! The access-control registry: the role of each account, and what a role
//! permits.

use vstd::prelude::*;
use crate::errors::ContractError;
use crate::models::{AccountStatus, Capability};
use crate::table::{distinct_keys, entries_map, Table};

verus! {

/// The role of an account: the one that it was given, and `Basic` for an
/// account that was given none.
pub open spec fn role_lookup(
    roles: Map<Seq<char>, AccountStatus>,
    account: Seq<char>,
) -> AccountStatus {
    if roles.contains_key(account) {
        roles[account]
    } else {
        AccountStatus::Basic
    }
}

/// Whether the account may use the capability: `Unauthorized` where its
/// role does not grant it.
pub open spec fn check(
    roles: Map<Seq<char>, AccountStatus>,
    account: Seq<char>,
    capability: Capability,
) -> Result<(), ContractError> {
    if role_lookup(roles, account).grants(capability) {
        Ok(())
    } else {
        Err(ContractError::Unauthorized)
    }
}

/// `Admin` grants every capability, `Vendor` and `Sponsor` grant the one of
/// their name and no other, and `Basic` grants none; so an account that was
/// given no role passes no check.
pub proof fn lemma_roles_and_capabilities(capability: Capability)
    ensures
        AccountStatus::Admin.grants(capability),
        !AccountStatus::Basic.grants(capability),
        AccountStatus::Vendor.grants(capability) == (capability == Capability::Vendor),
        AccountStatus::Sponsor.grants(capability) == (capability == Capability::Sponsor),
        forall|roles: Map<Seq<char>, AccountStatus>, account: Seq<char>|
            !roles.contains_key(account) ==> #[trigger] check(roles, account, capability)
                == Err::<(), ContractError>(ContractError::Unauthorized),
{
}

/// The roles of all accounts.
pub struct AccessControlRegistry {
    roles: Table<String, AccountStatus>,
}

impl AccessControlRegistry {
    /// The representation is sound.
    pub closed spec fn wf(&self) -> bool {
        self.roles.wf()
    }

    /// The accounts that were given a role, and the role of each.
    pub closed spec fn as_map(&self) -> Map<Seq<char>, AccountStatus> {
        self.roles@
    }

    /// A registry without accounts.
    pub fn new() -> (registry: Self)
        ensures
            registry.wf(),
            registry@ == Map::<Seq<char>, AccountStatus>::empty(),
    {
        AccessControlRegistry { roles: Table::new() }
    }

    /// The registry that the list of entries stands for, where the first
    /// entry of an account is the one that counts.
    pub fn from_entries(entries: Vec<(String, AccountStatus)>) -> (registry: Self)
        ensures
            registry.wf(),
            registry@ == entries_map(entries@),
    {
        AccessControlRegistry { roles: Table::from_entries(entries) }
    }

    /// The entries of the registry, one for each account.
    pub fn into_entries(self) -> (entries: Vec<(String, AccountStatus)>)
        requires
            self.wf(),
        ensures
            distinct_keys(entries@),
            entries_map(entries@) == self@,
    {
        self.roles.into_entries()
    }

    /// Whether the account was given a role.
    pub fn knows(&self, account: &String) -> (b: bool)
        requires
            self.wf(),
        ensures
            b == self@.contains_key(account@),
    {
        self.roles.contains_key(account)
    }

    /// The role of the account.
    pub fn role_of(&self, account: &String) -> (role: AccountStatus)
        requires
            self.wf(),
        ensures
            role == role_lookup(self@, account@),
    {
        match self.roles.get(account) {
            Some(role) => *role,
            None => AccountStatus::Basic,
        }
    }

    /// Passes where the account's role grants the capability.
    pub fn require(
        &self,
        account: &String,
        capability: Capability,
    ) -> (passed: Result<(), ContractError>)
        requires
            self.wf(),
        ensures
            passed == check(self@, account@, capability),
    {
        if self.role_of(account).satisfies(capability) {
            Ok(())
        } else {
            Err(ContractError::Unauthorized)
        }
    }

    /// Gives the account the role, in place of the one it had, if any.
    pub fn assign(&mut self, account: &String, role: AccountStatus)
        requires
            old(self).wf(),
        ensures
            final(self).wf(),
            final(self)@ == old(self)@.insert(account@, role),
    {
        self.roles.insert(account.clone(), role);
    }
}

impl View for AccessControlRegistry {
    type V = Map<Seq<char>, AccountStatus>;

    open spec fn view(&self) -> Map<Seq<char>, AccountStatus> {
        self.as_map()
    }
}

} // verus!
