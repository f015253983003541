//! The mathematical model of the engine: its state, and for each operation
//! who may carry it out, what it answers and what it changes.
//!
//! An operation that is rejected changes nothing.

use vstd::prelude::*;
use crate::access::check;
use crate::claims::{
    claim_of, complete, untouched, with_found, with_status, ClaimStatus, ClaimView,
};
use crate::errors::ContractError;
use crate::drops::keyed_by_id;
use crate::ledger::{can_credit, credited, non_negative, within_range};
use crate::metadata::FtMetadataView;
use crate::models::{
    AccountStatus, Capability, DropView, HuntView, ItemView, OwnershipView, RewardView,
    TicketType, VendorMetadataView, VendorView,
};
use crate::tickets::ticket_lookup;
use crate::vendors::{
    balances_after_purchase, vendors_after_purchase, with_item, with_metadata,
};

verus! {

/// All that the engine knows.
pub struct State {
    /// The role of each account that was given one.
    pub roles: Map<Seq<char>, AccountStatus>,
    /// The known types of tickets.
    pub tickets: Map<Seq<char>, TicketType>,
    /// What each account holds.
    pub balances: Map<Seq<char>, int>,
    /// The definitions of the drops.
    pub drops: Map<Seq<char>, DropView>,
    /// The progress of each account on each drop.
    pub claims: Map<(Seq<char>, Seq<char>), ClaimView>,
    /// The catalog of each vendor.
    pub vendors: Map<Seq<char>, VendorView>,
    /// The metadata of the token.
    pub metadata: FtMetadataView,
}

/// Where an account stands with a drop.
#[derive(Clone, Copy, Debug, PartialEq, Eq, Structural)]
pub enum ClaimState {
    /// The drop has a hunt, and the account has found none of its ids.
    NotStarted,
    /// The account has found some ids of the hunt, not all.
    InProgress,
    /// The account has found all ids of the hunt, or the drop has none.
    ReadyToClaim,
    /// The mint was requested and has not answered.
    Minting,
    /// The drop is claimed.
    Claimed,
}

/// Where the progress stands with the drop.
pub open spec fn claim_state(drop: DropView, claim: ClaimView) -> ClaimState {
    match claim.status {
        ClaimStatus::Claimed => ClaimState::Claimed,
        ClaimStatus::Minting => ClaimState::Minting,
        ClaimStatus::Open => if complete(drop.hunt(), claim.found) {
            ClaimState::ReadyToClaim
        } else if untouched(drop.hunt(), claim.found) {
            ClaimState::NotStarted
        } else {
            ClaimState::InProgress
        },
    }
}

/// Where the account stands with the drop; `NotFound` for an unknown drop.
pub open spec fn claim_state_of(
    s: State,
    account: Seq<char>,
    drop_id: Seq<char>,
) -> Result<ClaimState, ContractError> {
    if s.drops.contains_key(drop_id) {
        Ok(claim_state(s.drops[drop_id], claim_of(s.claims, account, drop_id)))
    } else {
        Err(ContractError::NotFound)
    }
}

/// The scavenger hunt of the drop and what the account has found of it;
/// `NotFound` for an unknown drop and for one without scavenger ids.
pub open spec fn hunt_of(
    s: State,
    account: Seq<char>,
    drop_id: Seq<char>,
) -> Result<HuntView, ContractError> {
    if s.drops.contains_key(drop_id) && s.drops[drop_id].scavenger_ids is Some {
        Ok(
            HuntView {
                id: s.drops[drop_id].id,
                scavenger_ids: s.drops[drop_id].hunt(),
                found: claim_of(s.claims, account, drop_id).found,
                name: s.drops[drop_id].name,
                image: s.drops[drop_id].image,
            },
        )
    } else {
        Err(ContractError::NotFound)
    }
}

/// The drop of an asset and whether the account owns the asset, which it
/// does once the drop is claimed; `NotFound` for an unknown drop and for a
/// drop of tokens.
pub open spec fn nft_of(
    s: State,
    account: Seq<char>,
    drop_id: Seq<char>,
) -> Result<OwnershipView, ContractError> {
    if s.drops.contains_key(drop_id) && s.drops[drop_id].reward is Mint {
        Ok(
            OwnershipView {
                nft: s.drops[drop_id],
                is_owned: claim_of(s.claims, account, drop_id).status == ClaimStatus::Claimed,
            },
        )
    } else {
        Err(ContractError::NotFound)
    }
}

/// Whether the account may record the scavenger id as found: `NotFound` for
/// an unknown drop and for an id that is none of the drop's hunt,
/// `AlreadyClaimed` once the drop is claimed.
pub open spec fn mark_outcome(
    s: State,
    account: Seq<char>,
    drop_id: Seq<char>,
    scavenger_id: Seq<char>,
) -> Result<(), ContractError> {
    if !s.drops.contains_key(drop_id) {
        Err(ContractError::NotFound)
    } else if !s.drops[drop_id].hunt().contains(scavenger_id) {
        Err(ContractError::NotFound)
    } else if claim_of(s.claims, account, drop_id).status == ClaimStatus::Claimed {
        Err(ContractError::AlreadyClaimed)
    } else {
        Ok(())
    }
}

/// The state after the account has asked to record the id as found.
pub open spec fn after_mark(
    s: State,
    account: Seq<char>,
    drop_id: Seq<char>,
    scavenger_id: Seq<char>,
) -> State {
    if mark_outcome(s, account, drop_id, scavenger_id) is Ok {
        State { claims: with_found(s.claims, account, drop_id, scavenger_id), ..s }
    } else {
        s
    }
}

/// What a claim of the drop by the account brings: `NotFound` for an unknown
/// drop, `AlreadyClaimed` for a drop that is claimed or being minted,
/// `ScavengerIncomplete` while an id of the hunt is not found,
/// `ArithmeticOverflow` where the tokens do not fit on the account, and the
/// drop's reward else.
pub open spec fn claim_outcome(
    s: State,
    account: Seq<char>,
    drop_id: Seq<char>,
) -> Result<RewardView, ContractError> {
    if !s.drops.contains_key(drop_id) {
        Err(ContractError::NotFound)
    } else if claim_of(s.claims, account, drop_id).status != ClaimStatus::Open {
        Err(ContractError::AlreadyClaimed)
    } else if !complete(s.drops[drop_id].hunt(), claim_of(s.claims, account, drop_id).found) {
        Err(ContractError::ScavengerIncomplete)
    } else {
        match s.drops[drop_id].reward {
            RewardView::Tokens { amount } => if can_credit(s.balances, account, amount as int) {
                Ok(s.drops[drop_id].reward)
            } else {
                Err(ContractError::ArithmeticOverflow)
            },
            RewardView::Mint { .. } => Ok(s.drops[drop_id].reward),
        }
    }
}

/// The state after the account has asked to claim the drop: with the tokens
/// credited and the drop claimed, or with the mint in flight.
pub open spec fn after_claim(s: State, account: Seq<char>, drop_id: Seq<char>) -> State {
    match claim_outcome(s, account, drop_id) {
        Ok(RewardView::Tokens { amount }) => State {
            balances: credited(s.balances, account, amount as int),
            claims: with_status(s.claims, account, drop_id, ClaimStatus::Claimed),
            ..s
        },
        Ok(RewardView::Mint { .. }) => State {
            claims: with_status(s.claims, account, drop_id, ClaimStatus::Minting),
            ..s
        },
        Err(_) => s,
    }
}

/// Whether an answer of the minting service is taken: only while the mint
/// is in flight. `AlreadyClaimed` for a drop that is claimed, `NotFound`
/// where no mint is in flight.
pub open spec fn mint_outcome(
    s: State,
    account: Seq<char>,
    drop_id: Seq<char>,
) -> Result<(), ContractError> {
    match claim_of(s.claims, account, drop_id).status {
        ClaimStatus::Minting => Ok(()),
        ClaimStatus::Claimed => Err(ContractError::AlreadyClaimed),
        ClaimStatus::Open => Err(ContractError::NotFound),
    }
}

/// The state after the minting service has answered: the drop is claimed
/// where the mint succeeded, and open to a new claim where it failed.
pub open spec fn after_mint(
    s: State,
    account: Seq<char>,
    drop_id: Seq<char>,
    succeeded: bool,
) -> State {
    if mint_outcome(s, account, drop_id) is Ok {
        let status = if succeeded {
            ClaimStatus::Claimed
        } else {
            ClaimStatus::Open
        };
        State { claims: with_status(s.claims, account, drop_id, status), ..s }
    } else {
        s
    }
}

/// The state after the buyer has asked to buy the item.
pub open spec fn after_purchase(
    s: State,
    buyer: Seq<char>,
    vendor: Seq<char>,
    item_id: nat,
) -> State {
    State {
        balances: balances_after_purchase(s.balances, s.vendors, buyer, vendor, item_id),
        vendors: vendors_after_purchase(s.balances, s.vendors, buyer, vendor, item_id),
        ..s
    }
}

/// What the creation of an account with a ticket brings: `Unauthorized` for
/// an account that was given a role already, `NotFound` for an unknown type
/// of ticket, `ArithmeticOverflow` where the starting balance does not fit
/// on the account, and what the ticket gives else.
pub open spec fn create_account_outcome(
    s: State,
    account: Seq<char>,
    ticket_id: Seq<char>,
) -> Result<TicketType, ContractError> {
    if s.roles.contains_key(account) {
        Err(ContractError::Unauthorized)
    } else {
        match ticket_lookup(s.tickets, ticket_id) {
            Ok(ticket) => if can_credit(s.balances, account, ticket.starting_token_balance as int) {
                Ok(ticket)
            } else {
                Err(ContractError::ArithmeticOverflow)
            },
            Err(e) => Err(e),
        }
    }
}

/// The state after the creation of the account was asked for: the account
/// has the role of the ticket, and the starting balance of the ticket is
/// credited to it.
pub open spec fn after_create_account(s: State, account: Seq<char>, ticket_id: Seq<char>) -> State {
    match create_account_outcome(s, account, ticket_id) {
        Ok(ticket) => State {
            roles: s.roles.insert(account, ticket.account_type),
            balances: credited(s.balances, account, ticket.starting_token_balance as int),
            ..s
        },
        Err(_) => s,
    }
}

/// Whether the caller may give the account another role: the caller has to
/// be an admin, or the request is `Unauthorized`, and the account has to be
/// one that was given a role, or it is `NotFound`.
pub open spec fn set_status_outcome(
    s: State,
    caller: Seq<char>,
    account: Seq<char>,
) -> Result<(), ContractError> {
    if check(s.roles, caller, Capability::Admin) is Err {
        check(s.roles, caller, Capability::Admin)
    } else if !s.roles.contains_key(account) {
        Err(ContractError::NotFound)
    } else {
        Ok(())
    }
}

/// The state after the caller has asked to give the account the role.
pub open spec fn after_set_status(
    s: State,
    caller: Seq<char>,
    account: Seq<char>,
    status: AccountStatus,
) -> State {
    if set_status_outcome(s, caller, account) is Ok {
        State { roles: s.roles.insert(account, status), ..s }
    } else {
        s
    }
}

/// The state after the caller has asked to make the type of ticket known:
/// carried out for an admin.
pub open spec fn after_add_ticket_type(
    s: State,
    caller: Seq<char>,
    ticket_id: Seq<char>,
    ticket: TicketType,
) -> State {
    if check(s.roles, caller, Capability::Admin) is Ok {
        State { tickets: s.tickets.insert(ticket_id, ticket), ..s }
    } else {
        s
    }
}

/// Whether the caller may register the drop: the caller has to be a
/// sponsor, and no drop may have the id yet, for a definition is never
/// replaced.
pub open spec fn create_drop_outcome(
    s: State,
    caller: Seq<char>,
    drop: DropView,
) -> Result<(), ContractError> {
    if check(s.roles, caller, Capability::Sponsor) is Err {
        check(s.roles, caller, Capability::Sponsor)
    } else if s.drops.contains_key(drop.id) {
        Err(ContractError::Unauthorized)
    } else {
        Ok(())
    }
}

/// The state after the caller has asked to register the drop.
pub open spec fn after_create_drop(s: State, caller: Seq<char>, drop: DropView) -> State {
    if create_drop_outcome(s, caller, drop) is Ok {
        State { drops: s.drops.insert(drop.id, drop), ..s }
    } else {
        s
    }
}

/// The state after the caller has asked to set its store-front: carried out
/// for a vendor.
pub open spec fn after_set_vendor_metadata(
    s: State,
    caller: Seq<char>,
    metadata: VendorMetadataView,
) -> State {
    if check(s.roles, caller, Capability::Vendor) is Ok {
        State { vendors: with_metadata(s.vendors, caller, metadata), ..s }
    } else {
        s
    }
}

/// What the addition of an item to the caller's catalog brings: the caller
/// has to be a vendor with a store; the answer is the item's numeric id.
pub open spec fn add_item_outcome(s: State, caller: Seq<char>) -> Result<nat, ContractError> {
    match check(s.roles, caller, Capability::Vendor) {
        Err(e) => Err(e),
        Ok(_) => if s.vendors.contains_key(caller) {
            Ok(s.vendors[caller].items.len())
        } else {
            Err(ContractError::NotFound)
        },
    }
}

/// The state after the caller has asked to add the item to its catalog.
pub open spec fn after_add_item(s: State, caller: Seq<char>, item: ItemView) -> State {
    if add_item_outcome(s, caller) is Ok {
        State { vendors: with_item(s.vendors, caller, item), ..s }
    } else {
        s
    }
}

/// The state after the caller has asked to replace the metadata of the
/// token: carried out for an admin.
pub open spec fn after_update_ft_metadata(
    s: State,
    caller: Seq<char>,
    metadata: FtMetadataView,
) -> State {
    if check(s.roles, caller, Capability::Admin) is Ok {
        State { metadata, ..s }
    } else {
        s
    }
}

/// The state in which nothing is known but the owner, who is an admin.
pub open spec fn initial(owner: Seq<char>, metadata: FtMetadataView) -> State {
    State {
        roles: Map::<Seq<char>, AccountStatus>::empty().insert(owner, AccountStatus::Admin),
        tickets: Map::empty(),
        balances: Map::empty(),
        drops: Map::empty(),
        claims: Map::empty(),
        vendors: Map::empty(),
        metadata,
    }
}

/// What holds of every state that the engine reaches: no balance is below
/// zero or beyond what the ledger can count, and each drop is registered
/// under its own id.
pub open spec fn sound(s: State) -> bool {
    &&& non_negative(s.balances)
    &&& within_range(s.balances)
    &&& keyed_by_id(s.drops)
}

} // verus!
