//! The engine: one owned aggregate that holds the whole state, and the
//! operations on it.

use vstd::prelude::*;
use crate::access::{check, role_lookup, AccessControlRegistry};
use crate::claims::{claim_views, holds, ClaimBook, ClaimEntry, ClaimKey, ClaimStatus};
use crate::drops::{drop_lookup, drops_map, DropRegistry};
use crate::errors::ContractError;
use crate::ledger::{amounts, balance_of, TokenLedger};
use crate::metadata::{metadata_for, FtMetadataView, FungibleTokenMetadata};
use crate::models::{
    clone_strings, ext_views, AccountId, AccountStatus, Capability, DropId, DropView,
    ExtItemView, ExtVendorItem, HuntView, InternalDropData, InternalVendorItem, NFTWithOwnership,
    OwnershipView, Reward, RewardView, ScavengerHuntWithOwnership, ScavengerId, TicketType,
    VendorInformation, VendorMetadata, VendorMetadataView,
};
use crate::state::{
    add_item_outcome, after_add_item, after_add_ticket_type, after_claim, after_create_account,
    after_create_drop, after_mark, after_mint, after_purchase, after_set_status,
    after_set_vendor_metadata, after_update_ft_metadata, claim_outcome, claim_state_of,
    create_account_outcome, create_drop_outcome, hunt_of, initial, mark_outcome, mint_outcome,
    nft_of, set_status_outcome, sound, ClaimState, State,
};
use crate::table::entries_map;
use crate::tickets::{ticket_lookup, TicketTypeCatalog};
use crate::vendors::{
    catalog_page, item_lookup, metadata_lookup, narrow, purchase_outcome, vendor_views, wide,
    VendorStore,
};

verus! {

/// The whole state as plain lists, as it is written to and read from a
/// store. In each list the first entry of a key is the one that counts.
#[derive(Debug, PartialEq, Eq)]
pub struct Snapshot {
    pub roles: Vec<(String, AccountStatus)>,
    pub tickets: Vec<(String, TicketType)>,
    pub balances: Vec<(String, u128)>,
    pub drops: Vec<InternalDropData>,
    pub claims: Vec<(ClaimKey, ClaimEntry)>,
    pub vendors: Vec<(String, VendorInformation)>,
    pub metadata: FungibleTokenMetadata,
}

impl View for Snapshot {
    type V = State;

    open spec fn view(&self) -> State {
        State {
            roles: entries_map(self.roles@),
            tickets: entries_map(self.tickets@),
            balances: amounts(entries_map(self.balances@)),
            drops: drops_map(self.drops@),
            claims: claim_views(entries_map(self.claims@)),
            vendors: vendor_views(entries_map(self.vendors@)),
            metadata: self.metadata@,
        }
    }
}

/// The whole state of the engine. It changes through the operations below
/// and in no other way.
pub struct Contract {
    access: AccessControlRegistry,
    tickets: TicketTypeCatalog,
    ledger: TokenLedger,
    drops: DropRegistry,
    claims: ClaimBook,
    vendors: VendorStore,
    metadata: FungibleTokenMetadata,
}

impl View for Contract {
    type V = State;

    open spec fn view(&self) -> State {
        self.state()
    }
}

impl Contract {
    /// The representation is sound.
    pub closed spec fn wf(&self) -> bool {
        &&& self.access.wf()
        &&& self.tickets.wf()
        &&& self.ledger.wf()
        &&& self.drops.wf()
        &&& self.claims.wf()
        &&& self.vendors.wf()
    }

    /// The state that the engine is in.
    pub closed spec fn state(&self) -> State {
        State {
            roles: self.access@,
            tickets: self.tickets@,
            balances: self.ledger@,
            drops: self.drops@,
            claims: self.claims@,
            vendors: self.vendors@,
            metadata: self.metadata@,
        }
    }

    /// The engine is in a sound state: no account holds less than nothing or
    /// more than the ledger can count, and each drop is registered under its
    /// own id.
    pub proof fn lemma_sound(&self)
        requires
            self.wf(),
        ensures
            sound(self@),
    {
        self.ledger.lemma_in_range();
        self.drops.lemma_keyed_by_id();
    }

    /// An engine that knows nothing but its owner, who is an admin.
    pub fn new(owner: AccountId, metadata: FungibleTokenMetadata) -> (contract: Self)
        ensures
            contract.wf(),
            contract@ == initial(owner@, metadata@),
    {
        let mut access = AccessControlRegistry::new();
        access.assign(&owner, AccountStatus::Admin);
        Contract {
            access,
            tickets: TicketTypeCatalog::new(),
            ledger: TokenLedger::new(),
            drops: DropRegistry::new(),
            claims: ClaimBook::new(),
            vendors: VendorStore::new(),
            metadata,
        }
    }

    /// The engine in the state that the snapshot stands for.
    pub fn restore(snapshot: Snapshot) -> (contract: Self)
        ensures
            contract.wf(),
            contract@ == snapshot@,
    {
        Contract {
            access: AccessControlRegistry::from_entries(snapshot.roles),
            tickets: TicketTypeCatalog::from_entries(snapshot.tickets),
            ledger: TokenLedger::from_entries(snapshot.balances),
            drops: DropRegistry::from_drops(snapshot.drops),
            claims: ClaimBook::from_entries(snapshot.claims),
            vendors: VendorStore::from_entries(snapshot.vendors),
            metadata: snapshot.metadata,
        }
    }

    /// The state of the engine as plain lists. An engine that is restored
    /// from them is in the same state.
    pub fn into_snapshot(self) -> (snapshot: Snapshot)
        requires
            self.wf(),
        ensures
            snapshot@ == self@,
    {
        Snapshot {
            roles: self.access.into_entries(),
            tickets: self.tickets.into_entries(),
            balances: self.ledger.into_entries(),
            drops: self.drops.into_drops(),
            claims: self.claims.into_entries(),
            vendors: self.vendors.into_entries(),
            metadata: self.metadata,
        }
    }

    /// Claims the drop for the account. A token drop is credited at once and
    /// is then claimed; for a drop of an asset the claim is put in flight, and
    /// the caller has to request the mint that the answer describes and to
    /// report how it ended with `resolve_mint`.
    pub fn claim(
        &mut self,
        account: AccountId,
        drop_id: DropId,
    ) -> (claimed: Result<Reward, ContractError>)
        requires
            old(self).wf(),
        ensures
            final(self).wf(),
            final(self)@ == after_claim(old(self)@, account@, drop_id@),
            match claimed {
                Ok(reward) => claim_outcome(old(self)@, account@, drop_id@) == Ok::<
                    RewardView,
                    ContractError,
                >(reward@),
                Err(e) => claim_outcome(old(self)@, account@, drop_id@) == Err::<
                    RewardView,
                    ContractError,
                >(e),
            },
    {
        let reward = match self.drops.find(&drop_id) {
            Some(data) => {
                match self.claims.status(&account, &drop_id) {
                    ClaimStatus::Open => {},
                    _ => {
                        return Err(ContractError::AlreadyClaimed);
                    },
                }
                match data.scavenger_ids() {
                    Some(hunt) => {
                        if !self.claims.covers(&account, &drop_id, hunt) {
                            return Err(ContractError::ScavengerIncomplete);
                        }
                    },
                    None => {},
                }
                data.reward()
            },
            None => {
                return Err(ContractError::NotFound);
            },
        };
        match reward {
            Reward::Tokens { amount } => {
                match self.ledger.credit(&account, amount) {
                    Ok(()) => {},
                    Err(e) => {
                        return Err(e);
                    },
                }
                self.claims.set_status(&account, &drop_id, ClaimStatus::Claimed);
            },
            Reward::Mint { .. } => {
                self.claims.set_status(&account, &drop_id, ClaimStatus::Minting);
            },
        }
        Ok(reward)
    }

    /// Records that the account has found the scavenger id of the drop.
    /// Finding an id again changes nothing and is no error.
    pub fn mark_found(
        &mut self,
        account: AccountId,
        drop_id: DropId,
        scavenger_id: ScavengerId,
    ) -> (marked: Result<(), ContractError>)
        requires
            old(self).wf(),
        ensures
            final(self).wf(),
            final(self)@ == after_mark(old(self)@, account@, drop_id@, scavenger_id@),
            marked == mark_outcome(old(self)@, account@, drop_id@, scavenger_id@),
    {
        match self.drops.find(&drop_id) {
            Some(data) => {
                let belongs = match data.scavenger_ids() {
                    Some(hunt) => holds(hunt, &scavenger_id),
                    None => false,
                };
                if !belongs {
                    return Err(ContractError::NotFound);
                }
            },
            None => {
                return Err(ContractError::NotFound);
            },
        }
        match self.claims.status(&account, &drop_id) {
            ClaimStatus::Claimed => {
                return Err(ContractError::AlreadyClaimed);
            },
            _ => {},
        }
        self.claims.mark(&account, &drop_id, &scavenger_id);
        Ok(())
    }

    /// Takes the answer of the minting service to the mint that a claim put
    /// in flight: the drop is claimed where the mint succeeded, and open to a
    /// new claim where it failed. An answer that no mint in flight waits for is
    /// rejected and changes nothing.
    pub fn resolve_mint(
        &mut self,
        account: AccountId,
        drop_id: DropId,
        succeeded: bool,
    ) -> (resolved: Result<(), ContractError>)
        requires
            old(self).wf(),
        ensures
            final(self).wf(),
            final(self)@ == after_mint(old(self)@, account@, drop_id@, succeeded),
            resolved == mint_outcome(old(self)@, account@, drop_id@),
    {
        match self.claims.status(&account, &drop_id) {
            ClaimStatus::Minting => {
                let status = if succeeded {
                    ClaimStatus::Claimed
                } else {
                    ClaimStatus::Open
                };
                self.claims.set_status(&account, &drop_id, status);
                Ok(())
            },
            ClaimStatus::Claimed => Err(ContractError::AlreadyClaimed),
            ClaimStatus::Open => Err(ContractError::NotFound),
        }
    }

    /// Sells the item of the vendor to the buyer: the buyer pays the price and
    /// the item goes out of stock, both or neither.
    pub fn purchase(
        &mut self,
        buyer: AccountId,
        vendor_id: AccountId,
        item_id: u64,
    ) -> (bought: Result<(), ContractError>)
        requires
            old(self).wf(),
        ensures
            final(self).wf(),
            final(self)@ == after_purchase(old(self)@, buyer@, vendor_id@, item_id as nat),
            bought == purchase_outcome(
                old(self)@.balances,
                old(self)@.vendors,
                buyer@,
                vendor_id@,
                item_id as nat,
            ),
    {
        self.vendors.purchase(&mut self.ledger, &buyer, &vendor_id, item_id)
    }

    /// Where the account stands with the drop.
    pub fn claim_state(
        &self,
        account: AccountId,
        drop_id: DropId,
    ) -> (found: Result<ClaimState, ContractError>)
        requires
            self.wf(),
        ensures
            found == claim_state_of(self@, account@, drop_id@),
    {
        match self.drops.find(&drop_id) {
            Some(data) => {
                match self.claims.status(&account, &drop_id) {
                    ClaimStatus::Claimed => Ok(ClaimState::Claimed),
                    ClaimStatus::Minting => Ok(ClaimState::Minting),
                    ClaimStatus::Open => {
                        match data.scavenger_ids() {
                            Some(hunt) => {
                                if self.claims.covers(&account, &drop_id, hunt) {
                                    Ok(ClaimState::ReadyToClaim)
                                } else if self.claims.touches(&account, &drop_id, hunt) {
                                    Ok(ClaimState::InProgress)
                                } else {
                                    Ok(ClaimState::NotStarted)
                                }
                            },
                            None => Ok(ClaimState::ReadyToClaim),
                        }
                    },
                }
            },
            None => Err(ContractError::NotFound),
        }
    }

    /// The scavenger hunt of the drop, and what the account has found of it.
    pub fn scavenger_hunt(
        &self,
        account: AccountId,
        drop_id: DropId,
    ) -> (found: Result<ScavengerHuntWithOwnership, ContractError>)
        requires
            self.wf(),
        ensures
            match found {
                Ok(hunt) => hunt_of(self@, account@, drop_id@) == Ok::<HuntView, ContractError>(hunt@),
                Err(e) => hunt_of(self@, account@, drop_id@) == Err::<HuntView, ContractError>(e),
            },
    {
        match self.drops.find(&drop_id) {
            Some(data) => match data.scavenger_ids() {
                Some(ids) => Ok(
                    ScavengerHuntWithOwnership {
                        id: data.get_id(),
                        scavenger_ids: clone_strings(ids),
                        found: self.claims.found(&account, &drop_id),
                        name: data.get_name(),
                        image: data.get_image(),
                    },
                ),
                None => Err(ContractError::NotFound),
            },
            None => Err(ContractError::NotFound),
        }
    }

    /// The drop of an asset, and whether the account owns the asset.
    pub fn nft_ownership(
        &self,
        account: AccountId,
        drop_id: DropId,
    ) -> (found: Result<NFTWithOwnership, ContractError>)
        requires
            self.wf(),
        ensures
            match found {
                Ok(owned) => nft_of(self@, account@, drop_id@) == Ok::<OwnershipView, ContractError>(
                    owned@,
                ),
                Err(e) => nft_of(self@, account@, drop_id@) == Err::<OwnershipView, ContractError>(e),
            },
    {
        match self.drops.find(&drop_id) {
            Some(InternalDropData::nft(data)) => {
                let is_owned = match self.claims.status(&account, &drop_id) {
                    ClaimStatus::Claimed => true,
                    _ => false,
                };
                Ok(NFTWithOwnership { nft: data.clone(), is_owned })
            },
            _ => Err(ContractError::NotFound),
        }
    }

    /// What the account holds.
    pub fn balance(&self, account: AccountId) -> (held: u128)
        requires
            self.wf(),
        ensures
            held == balance_of(self@.balances, account@),
    {
        self.ledger.balance(&account)
    }

    /// The role of the account; `Basic` for an account that was given none.
    pub fn role_of(&self, account: AccountId) -> (role: AccountStatus)
        requires
            self.wf(),
        ensures
            role == role_lookup(self@.roles, account@),
    {
        self.access.role_of(&account)
    }

    /// Passes where the account's role grants the capability.
    pub fn require(
        &self,
        account: AccountId,
        capability: Capability,
    ) -> (passed: Result<(), ContractError>)
        requires
            self.wf(),
        ensures
            passed == check(self@.roles, account@, capability),
    {
        self.access.require(&account, capability)
    }

    /// The role and the starting balances that a type of ticket gives.
    pub fn resolve_ticket(&self, ticket_id: String) -> (ticket: Result<TicketType, ContractError>)
        requires
            self.wf(),
        ensures
            ticket == ticket_lookup(self@.tickets, ticket_id@),
    {
        self.tickets.resolve(&ticket_id)
    }

    /// A copy of the definition of the drop.
    pub fn get_drop(&self, drop_id: DropId) -> (found: Result<InternalDropData, ContractError>)
        requires
            self.wf(),
        ensures
            match found {
                Ok(data) => drop_lookup(self@.drops, drop_id@) == Ok::<DropView, ContractError>(data@),
                Err(e) => drop_lookup(self@.drops, drop_id@) == Err::<DropView, ContractError>(e),
            },
    {
        self.drops.get(&drop_id)
    }

    /// The store-front of a vendor.
    pub fn get_vendor_metadata(
        &self,
        vendor_id: AccountId,
    ) -> (found: Result<VendorMetadata, ContractError>)
        requires
            self.wf(),
        ensures
            match found {
                Ok(metadata) => metadata_lookup(self@.vendors, vendor_id@) == Ok::<
                    VendorMetadataView,
                    ContractError,
                >(metadata@),
                Err(e) => metadata_lookup(self@.vendors, vendor_id@) == Err::<
                    VendorMetadataView,
                    ContractError,
                >(e),
            },
    {
        self.vendors.metadata(&vendor_id)
    }

    /// A page of the items of a vendor, in the order of their ids: from the
    /// first item where no place is named, and of fifty items where no size is
    /// named. A place beyond the last item gives an empty page.
    pub fn get_items_for_vendor(
        &self,
        vendor_id: AccountId,
        from_index: Option<u128>,
        limit: Option<u64>,
    ) -> (found: Result<Vec<ExtVendorItem>, ContractError>)
        requires
            self.wf(),
        ensures
            match found {
                Ok(items) => catalog_page(
                    self@.vendors,
                    vendor_id@,
                    wide(from_index),
                    narrow(limit),
                ) == Ok::<Seq<ExtItemView>, ContractError>(ext_views(items@)),
                Err(e) => catalog_page(self@.vendors, vendor_id@, wide(from_index), narrow(limit))
                    == Err::<Seq<ExtItemView>, ContractError>(e),
            },
    {
        self.vendors.catalog(&vendor_id, from_index, limit)
    }

    /// One item of a vendor.
    pub fn get_item_information(
        &self,
        vendor_id: AccountId,
        item_id: u64,
    ) -> (found: Result<ExtVendorItem, ContractError>)
        requires
            self.wf(),
        ensures
            match found {
                Ok(item) => item_lookup(self@.vendors, vendor_id@, item_id as nat) == Ok::<
                    ExtItemView,
                    ContractError,
                >(item@),
                Err(e) => item_lookup(self@.vendors, vendor_id@, item_id as nat) == Err::<
                    ExtItemView,
                    ContractError,
                >(e),
            },
    {
        self.vendors.item(&vendor_id, item_id)
    }

    /// The metadata of the token; with a drop id, together with the number of
    /// tokens that a claim of that drop brings.
    pub fn ft_metadata(
        &self,
        drop_id: Option<String>,
    ) -> (found: Result<FungibleTokenMetadata, ContractError>)
        requires
            self.wf(),
        ensures
            match found {
                Ok(metadata) => metadata_for(
                    self@.metadata,
                    self@.drops,
                    optional_id(drop_id),
                ) == Ok::<FtMetadataView, ContractError>(metadata@),
                Err(e) => metadata_for(self@.metadata, self@.drops, optional_id(drop_id)) == Err::<
                    FtMetadataView,
                    ContractError,
                >(e),
            },
    {
        let mut metadata = self.metadata.clone();
        if let Some(id) = drop_id {
            match self.drops.find(&id) {
                Some(InternalDropData::token(data)) => {
                    metadata.minted_per_claim = Some(data.amount);
                },
                _ => {
                    return Err(ContractError::NotFound);
                },
            }
        }
        Ok(metadata)
    }

    /// Replaces the metadata of the token as a whole. For admins only.
    pub fn update_ft_metadata(
        &mut self,
        caller: AccountId,
        metadata: FungibleTokenMetadata,
    ) -> (updated: Result<(), ContractError>)
        requires
            old(self).wf(),
        ensures
            final(self).wf(),
            final(self)@ == after_update_ft_metadata(old(self)@, caller@, metadata@),
            updated == check(old(self)@.roles, caller@, Capability::Admin),
    {
        match self.access.require(&caller, Capability::Admin) {
            Ok(()) => {
                self.metadata = metadata;
                Ok(())
            },
            Err(e) => Err(e),
        }
    }

    /// Creates the account with a ticket: it gets the role of the ticket, and
    /// the starting balance of tokens of the ticket is credited to it. An
    /// account is created once. The answer is what the ticket gives.
    pub fn create_account(
        &mut self,
        account: AccountId,
        ticket_id: String,
    ) -> (created: Result<TicketType, ContractError>)
        requires
            old(self).wf(),
        ensures
            final(self).wf(),
            final(self)@ == after_create_account(old(self)@, account@, ticket_id@),
            created == create_account_outcome(old(self)@, account@, ticket_id@),
    {
        if self.access.knows(&account) {
            return Err(ContractError::Unauthorized);
        }
        match self.tickets.resolve(&ticket_id) {
            Ok(ticket) => {
                match self.ledger.credit(&account, ticket.starting_token_balance) {
                    Ok(()) => {},
                    Err(e) => {
                        return Err(e);
                    },
                }
                self.access.assign(&account, ticket.account_type);
                Ok(ticket)
            },
            Err(e) => Err(e),
        }
    }

    /// Gives the account another role. For admins only.
    pub fn set_account_status(
        &mut self,
        caller: AccountId,
        account: AccountId,
        status: AccountStatus,
    ) -> (updated: Result<(), ContractError>)
        requires
            old(self).wf(),
        ensures
            final(self).wf(),
            final(self)@ == after_set_status(old(self)@, caller@, account@, status),
            updated == set_status_outcome(old(self)@, caller@, account@),
    {
        match self.access.require(&caller, Capability::Admin) {
            Ok(()) => {},
            Err(e) => {
                return Err(e);
            },
        }
        if self.access.knows(&account) {
            self.access.assign(&account, status);
            Ok(())
        } else {
            Err(ContractError::NotFound)
        }
    }

    /// Makes a type of ticket known, in place of the one of the same id, if
    /// any. For admins only.
    pub fn add_ticket_type(
        &mut self,
        caller: AccountId,
        ticket_id: String,
        ticket: TicketType,
    ) -> (added: Result<(), ContractError>)
        requires
            old(self).wf(),
        ensures
            final(self).wf(),
            final(self)@ == after_add_ticket_type(old(self)@, caller@, ticket_id@, ticket),
            added == check(old(self)@.roles, caller@, Capability::Admin),
    {
        match self.access.require(&caller, Capability::Admin) {
            Ok(()) => {
                self.tickets.define(&ticket_id, ticket);
                Ok(())
            },
            Err(e) => Err(e),
        }
    }

    /// Registers a drop under its id. For sponsors only; a drop that is
    /// registered is never replaced.
    pub fn create_drop(
        &mut self,
        caller: AccountId,
        data: InternalDropData,
    ) -> (created: Result<(), ContractError>)
        requires
            old(self).wf(),
        ensures
            final(self).wf(),
            final(self)@ == after_create_drop(old(self)@, caller@, data@),
            created == create_drop_outcome(old(self)@, caller@, data@),
    {
        match self.access.require(&caller, Capability::Sponsor) {
            Ok(()) => {},
            Err(e) => {
                return Err(e);
            },
        }
        let drop_id = data.get_id();
        if self.drops.contains(&drop_id) {
            return Err(ContractError::Unauthorized);
        }
        self.drops.define(data);
        Ok(())
    }

    /// Sets the store-front of the caller, and opens its store if it had
    /// none. For vendors only.
    pub fn set_vendor_metadata(
        &mut self,
        caller: AccountId,
        metadata: VendorMetadata,
    ) -> (updated: Result<(), ContractError>)
        requires
            old(self).wf(),
        ensures
            final(self).wf(),
            final(self)@ == after_set_vendor_metadata(old(self)@, caller@, metadata@),
            updated == check(old(self)@.roles, caller@, Capability::Vendor),
    {
        match self.access.require(&caller, Capability::Vendor) {
            Ok(()) => {
                self.vendors.set_metadata(&caller, metadata);
                Ok(())
            },
            Err(e) => Err(e),
        }
    }

    /// Adds the item at the end of the caller's catalog and answers its
    /// numeric id. For vendors only, and for one that has a store.
    pub fn add_item(
        &mut self,
        caller: AccountId,
        item: InternalVendorItem,
    ) -> (added: Result<u64, ContractError>)
        requires
            old(self).wf(),
        ensures
            final(self).wf(),
            final(self)@ == after_add_item(old(self)@, caller@, item@),
            match added {
                Ok(item_id) => add_item_outcome(old(self)@, caller@) == Ok::<nat, ContractError>(
                    item_id as nat,
                ),
                Err(e) => add_item_outcome(old(self)@, caller@) == Err::<nat, ContractError>(e),
            },
    {
        match self.access.require(&caller, Capability::Vendor) {
            Ok(()) => {},
            Err(e) => {
                return Err(e);
            },
        }
        self.vendors.add_item(&caller, item)
    }
}

/// The view of an optional id.
pub open spec fn optional_id(id: Option<String>) -> Option<Seq<char>> {
    match id {
        Some(id) => Some(id@),
        None => None,
    }
}

} // verus!
