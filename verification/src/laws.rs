//! What holds of the engine whatever is asked of it, proved of the model in
//! [`crate::state`]. Each operation of [`crate::contract::Contract`] is one
//! step of that model.

use vstd::prelude::*;
use crate::access::check;
use crate::claims::{claim_of, complete, ClaimStatus};
use crate::errors::ContractError;
use crate::ledger::balance_of;
use crate::metadata::FtMetadataView;
use crate::models::{
    AccountStatus, Capability, DropView, ExtItemView, ItemView, RewardView, TicketType,
    VendorMetadataView, VendorView,
};
use crate::state::{
    add_item_outcome, after_add_item, after_add_ticket_type, after_claim, after_create_account,
    after_create_drop, after_mark, after_mint, after_purchase, after_set_status,
    after_set_vendor_metadata, after_update_ft_metadata, claim_outcome, claim_state,
    create_account_outcome, create_drop_outcome, initial, mark_outcome, mint_outcome,
    set_status_outcome, sound, ClaimState, State,
};
use crate::vendors::{catalog_page, has_item, page, purchase_outcome};

verus! {

/// A request to the engine that may change its state.
pub enum Operation {
    Claim { account: Seq<char>, drop_id: Seq<char> },
    MarkFound { account: Seq<char>, drop_id: Seq<char>, scavenger_id: Seq<char> },
    ResolveMint { account: Seq<char>, drop_id: Seq<char>, succeeded: bool },
    Purchase { buyer: Seq<char>, vendor: Seq<char>, item_id: nat },
    CreateAccount { account: Seq<char>, ticket_id: Seq<char> },
    SetAccountStatus { caller: Seq<char>, account: Seq<char>, status: AccountStatus },
    AddTicketType { caller: Seq<char>, ticket_id: Seq<char>, ticket: TicketType },
    CreateDrop { caller: Seq<char>, drop: DropView },
    SetVendorMetadata { caller: Seq<char>, store_front: VendorMetadataView },
    AddItem { caller: Seq<char>, item: ItemView },
    UpdateFtMetadata { caller: Seq<char>, metadata: FtMetadataView },
}

/// The state after the request.
pub open spec fn step(s: State, op: Operation) -> State {
    match op {
        Operation::Claim { account, drop_id } => after_claim(s, account, drop_id),
        Operation::MarkFound { account, drop_id, scavenger_id } => after_mark(
            s,
            account,
            drop_id,
            scavenger_id,
        ),
        Operation::ResolveMint { account, drop_id, succeeded } => after_mint(
            s,
            account,
            drop_id,
            succeeded,
        ),
        Operation::Purchase { buyer, vendor, item_id } => after_purchase(s, buyer, vendor, item_id),
        Operation::CreateAccount { account, ticket_id } => after_create_account(s, account, ticket_id),
        Operation::SetAccountStatus { caller, account, status } => after_set_status(
            s,
            caller,
            account,
            status,
        ),
        Operation::AddTicketType { caller, ticket_id, ticket } => after_add_ticket_type(
            s,
            caller,
            ticket_id,
            ticket,
        ),
        Operation::CreateDrop { caller, drop } => after_create_drop(s, caller, drop),
        Operation::SetVendorMetadata { caller, store_front } => after_set_vendor_metadata(
            s,
            caller,
            store_front,
        ),
        Operation::AddItem { caller, item } => after_add_item(s, caller, item),
        Operation::UpdateFtMetadata { caller, metadata } => after_update_ft_metadata(
            s,
            caller,
            metadata,
        ),
    }
}

/// The state after a sequence of requests, made one after the other.
pub open spec fn run(s: State, ops: Seq<Operation>) -> State
    decreases ops.len(),
{
    if ops.len() == 0 {
        s
    } else {
        step(run(s, ops.drop_last()), ops.last())
    }
}

/// Whether the request is rejected.
pub open spec fn rejected(s: State, op: Operation) -> bool {
    match op {
        Operation::Claim { account, drop_id } => claim_outcome(s, account, drop_id) is Err,
        Operation::MarkFound { account, drop_id, scavenger_id } => mark_outcome(
            s,
            account,
            drop_id,
            scavenger_id,
        ) is Err,
        Operation::ResolveMint { account, drop_id, succeeded } => mint_outcome(s, account, drop_id) is Err,
        Operation::Purchase { buyer, vendor, item_id } => purchase_outcome(
            s.balances,
            s.vendors,
            buyer,
            vendor,
            item_id,
        ) is Err,
        Operation::CreateAccount { account, ticket_id } => create_account_outcome(
            s,
            account,
            ticket_id,
        ) is Err,
        Operation::SetAccountStatus { caller, account, status } => set_status_outcome(
            s,
            caller,
            account,
        ) is Err,
        Operation::AddTicketType { caller, ticket_id, ticket } => check(
            s.roles,
            caller,
            Capability::Admin,
        ) is Err,
        Operation::CreateDrop { caller, drop } => create_drop_outcome(s, caller, drop) is Err,
        Operation::SetVendorMetadata { caller, store_front } => check(
            s.roles,
            caller,
            Capability::Vendor,
        ) is Err,
        Operation::AddItem { caller, item } => add_item_outcome(s, caller) is Err,
        Operation::UpdateFtMetadata { caller, metadata } => check(
            s.roles,
            caller,
            Capability::Admin,
        ) is Err,
    }
}

/// A request that is rejected has no effect at all.
pub proof fn lemma_rejected_changes_nothing(s: State, op: Operation)
    requires
        rejected(s, op),
    ensures
        step(s, op) == s,
{
}

/// The state in which the engine starts is sound.
pub proof fn lemma_initial_is_sound(owner: Seq<char>, metadata: FtMetadataView)
    ensures
        sound(initial(owner, metadata)),
{
}

/// No request leads from a sound state to one that is not.
pub proof fn lemma_step_keeps_sound(s: State, op: Operation)
    requires
        sound(s),
    ensures
        sound(step(s, op)),
{
    let after = step(s, op);
    assert forall|account: Seq<char>|
        0 <= #[trigger] balance_of(after.balances, account) && balance_of(after.balances, account)
            <= u128::MAX by {
        assert(0 <= balance_of(s.balances, account) <= u128::MAX);
        match op {
            Operation::Claim { account: claimant, drop_id } => {
                assert(0 <= balance_of(s.balances, claimant) <= u128::MAX);
            },
            Operation::Purchase { buyer, vendor, item_id } => {
                assert(0 <= balance_of(s.balances, buyer) <= u128::MAX);
            },
            Operation::CreateAccount { account: created, ticket_id } => {
                assert(0 <= balance_of(s.balances, created) <= u128::MAX);
            },
            _ => {},
        }
    }
    assert forall|drop_id: Seq<char>| after.drops.contains_key(drop_id) implies (
    #[trigger] after.drops[drop_id]).id == drop_id by {
        if s.drops.contains_key(drop_id) {
            assert(s.drops[drop_id].id == drop_id);
        }
    }
}

/// Whatever is asked of the engine, and in whatever order, its state stays
/// sound.
pub proof fn lemma_run_keeps_sound(s: State, ops: Seq<Operation>)
    requires
        sound(s),
    ensures
        sound(run(s, ops)),
    decreases ops.len(),
{
    if ops.len() > 0 {
        lemma_run_keeps_sound(s, ops.drop_last());
        lemma_step_keeps_sound(run(s, ops.drop_last()), ops.last());
    }
}

/// Whatever is asked of the engine, and in whatever order, no account ever
/// holds less than nothing.
pub proof fn lemma_balances_never_negative(s: State, ops: Seq<Operation>, account: Seq<char>)
    requires
        sound(s),
    ensures
        balance_of(run(s, ops).balances, account) >= 0,
{
    lemma_run_keeps_sound(s, ops);
}

/// A drop is claimed by an account once: after a claim that was carried out,
/// a second claim is rejected with `AlreadyClaimed` and changes nothing.
pub proof fn lemma_claim_is_once(s: State, account: Seq<char>, drop_id: Seq<char>)
    requires
        claim_outcome(s, account, drop_id) is Ok,
    ensures
        claim_outcome(after_claim(s, account, drop_id), account, drop_id) == Err::<
            RewardView,
            ContractError,
        >(ContractError::AlreadyClaimed),
        after_claim(after_claim(s, account, drop_id), account, drop_id) == after_claim(
            s,
            account,
            drop_id,
        ),
{
}

/// A claim of a token drop that is carried out credits the amount of the
/// drop to the account, and a second claim credits nothing: after both, the
/// account holds what it held before and the amount, once.
pub proof fn lemma_token_drop_is_credited_once(s: State, account: Seq<char>, drop_id: Seq<char>)
    requires
        claim_outcome(s, account, drop_id) is Ok,
        s.drops[drop_id].reward is Tokens,
    ensures
        balance_of(after_claim(s, account, drop_id).balances, account) == balance_of(
            s.balances,
            account,
        ) + s.drops[drop_id].reward->amount,
        balance_of(
            after_claim(after_claim(s, account, drop_id), account, drop_id).balances,
            account,
        ) == balance_of(s.balances, account) + s.drops[drop_id].reward->amount,
{
    lemma_claim_is_once(s, account, drop_id);
}

/// A drop that an account has claimed stays claimed, and what the account
/// has found for it stays as it is, whatever is asked of the engine.
pub proof fn lemma_claimed_is_final(s: State, op: Operation, account: Seq<char>, drop_id: Seq<char>)
    requires
        claim_of(s.claims, account, drop_id).status == ClaimStatus::Claimed,
    ensures
        claim_of(step(s, op).claims, account, drop_id) == claim_of(s.claims, account, drop_id),
{
}

/// While the mint of a drop for an account is in flight, a claim of the drop
/// by the account is rejected with `AlreadyClaimed`.
pub proof fn lemma_no_claim_while_minting(s: State, account: Seq<char>, drop_id: Seq<char>)
    requires
        s.drops.contains_key(drop_id),
        claim_of(s.claims, account, drop_id).status == ClaimStatus::Minting,
    ensures
        claim_outcome(s, account, drop_id) == Err::<RewardView, ContractError>(
            ContractError::AlreadyClaimed,
        ),
        after_claim(s, account, drop_id) == s,
{
}

/// A mint that failed leaves the drop as it was before the claim: what the
/// account holds and what it has found are unchanged, and the drop can be
/// claimed again.
pub proof fn lemma_failed_mint_can_be_claimed_again(
    s: State,
    account: Seq<char>,
    drop_id: Seq<char>,
)
    requires
        claim_outcome(s, account, drop_id) is Ok,
        s.drops[drop_id].reward is Mint,
    ensures
        ({
            let failed = after_mint(after_claim(s, account, drop_id), account, drop_id, false);
            &&& failed.balances == s.balances
            &&& claim_of(failed.claims, account, drop_id) == claim_of(s.claims, account, drop_id)
            &&& claim_outcome(failed, account, drop_id) == claim_outcome(s, account, drop_id)
        }),
{
}

/// A failed mint is reported once: a second report of the failure is
/// rejected with `NotFound` and changes nothing, so that reporting again is
/// safe.
pub proof fn lemma_failed_mint_is_reported_once(s: State, account: Seq<char>, drop_id: Seq<char>)
    requires
        mint_outcome(s, account, drop_id) is Ok,
    ensures
        ({
            let failed = after_mint(s, account, drop_id, false);
            &&& mint_outcome(failed, account, drop_id) == Err::<(), ContractError>(
                ContractError::NotFound,
            )
            &&& after_mint(failed, account, drop_id, false) == failed
        }),
{
}

/// A mint that succeeded claims the drop for good: no answer of the minting
/// service and no claim is taken after it.
pub proof fn lemma_minted_is_claimed(s: State, account: Seq<char>, drop_id: Seq<char>, again: bool)
    requires
        mint_outcome(s, account, drop_id) is Ok,
    ensures
        ({
            let minted = after_mint(s, account, drop_id, true);
            &&& claim_of(minted.claims, account, drop_id).status == ClaimStatus::Claimed
            &&& mint_outcome(minted, account, drop_id) == Err::<(), ContractError>(
                ContractError::AlreadyClaimed,
            )
            &&& after_mint(minted, account, drop_id, again) == minted
            &&& s.drops.contains_key(drop_id) ==> claim_outcome(minted, account, drop_id) == Err::<
                RewardView,
                ContractError,
            >(ContractError::AlreadyClaimed)
        }),
{
}

/// A hunt without ids blocks nothing: a drop whose list of scavenger ids is
/// there but empty is claimed as a drop without a list is.
pub proof fn lemma_empty_hunt_is_no_hunt(s: State, account: Seq<char>, drop_id: Seq<char>)
    requires
        s.drops.contains_key(drop_id),
        s.drops[drop_id].hunt().len() == 0,
    ensures
        claim_outcome(s, account, drop_id) != Err::<RewardView, ContractError>(
            ContractError::ScavengerIncomplete,
        ),
        claim_of(s.claims, account, drop_id).status == ClaimStatus::Open ==> claim_state(
            s.drops[drop_id],
            claim_of(s.claims, account, drop_id),
        ) == ClaimState::ReadyToClaim,
{
}

/// An open drop is ready to be claimed exactly when the account has found
/// every id of its hunt, and a claim is carried out from that state only.
pub proof fn lemma_claimed_from_ready_only(s: State, account: Seq<char>, drop_id: Seq<char>)
    requires
        s.drops.contains_key(drop_id),
    ensures
        ({
            let claim = claim_of(s.claims, account, drop_id);
            let state = claim_state(s.drops[drop_id], claim);
            &&& (state == ClaimState::ReadyToClaim) == (claim.status == ClaimStatus::Open && complete(
                s.drops[drop_id].hunt(),
                claim.found,
            ))
            &&& claim_outcome(s, account, drop_id) is Ok ==> state == ClaimState::ReadyToClaim
            &&& state == ClaimState::NotStarted || state == ClaimState::InProgress ==> claim_outcome(
                s,
                account,
                drop_id,
            ) == Err::<RewardView, ContractError>(ContractError::ScavengerIncomplete)
            &&& state == ClaimState::Minting || state == ClaimState::Claimed ==> claim_outcome(
                s,
                account,
                drop_id,
            ) == Err::<RewardView, ContractError>(ContractError::AlreadyClaimed)
        }),
{
}

/// While the account has not found every id of the hunt of a drop, its
/// claim of the drop is rejected with `ScavengerIncomplete` and changes
/// nothing.
pub proof fn lemma_incomplete_hunt_blocks_claim(s: State, account: Seq<char>, drop_id: Seq<char>)
    requires
        s.drops.contains_key(drop_id),
        claim_of(s.claims, account, drop_id).status == ClaimStatus::Open,
        !complete(s.drops[drop_id].hunt(), claim_of(s.claims, account, drop_id).found),
    ensures
        claim_outcome(s, account, drop_id) == Err::<RewardView, ContractError>(
            ContractError::ScavengerIncomplete,
        ),
        after_claim(s, account, drop_id) == s,
{
}

/// The state after the account has asked to record each id of the list as
/// found, one after the other.
pub open spec fn after_marks(
    s: State,
    account: Seq<char>,
    drop_id: Seq<char>,
    scavenger_ids: Seq<Seq<char>>,
) -> State
    decreases scavenger_ids.len(),
{
    if scavenger_ids.len() == 0 {
        s
    } else {
        after_mark(
            after_marks(s, account, drop_id, scavenger_ids.drop_last()),
            account,
            drop_id,
            scavenger_ids.last(),
        )
    }
}

/// Recording ids of the hunt of a drop adds them to what the account has
/// found, in whatever order they come and however often one is repeated;
/// nothing else changes. So the claim is rejected with `ScavengerIncomplete`
/// exactly until every id of the hunt has been recorded.
pub proof fn lemma_marks_in_any_order(
    s: State,
    account: Seq<char>,
    drop_id: Seq<char>,
    scavenger_ids: Seq<Seq<char>>,
)
    requires
        s.drops.contains_key(drop_id),
        claim_of(s.claims, account, drop_id).status == ClaimStatus::Open,
        forall|i: int|
            0 <= i < scavenger_ids.len() ==> s.drops[drop_id].hunt().contains(
                #[trigger] scavenger_ids[i],
            ),
    ensures
        ({
            let after = after_marks(s, account, drop_id, scavenger_ids);
            let found = claim_of(s.claims, account, drop_id).found.union(scavenger_ids.to_set());
            &&& after.drops == s.drops
            &&& after.balances == s.balances
            &&& claim_of(after.claims, account, drop_id).status == ClaimStatus::Open
            &&& claim_of(after.claims, account, drop_id).found == found
            &&& (claim_outcome(after, account, drop_id) == Err::<RewardView, ContractError>(
                ContractError::ScavengerIncomplete,
            )) == !complete(s.drops[drop_id].hunt(), found)
        }),
    decreases scavenger_ids.len(),
{
    let before = claim_of(s.claims, account, drop_id).found;
    if scavenger_ids.len() == 0 {
        assert(before.union(scavenger_ids.to_set()) =~= before);
    } else {
        let front = scavenger_ids.drop_last();
        let last = scavenger_ids.last();
        assert forall|i: int| 0 <= i < front.len() implies s.drops[drop_id].hunt().contains(
            #[trigger] front[i],
        ) by {
            assert(front[i] == scavenger_ids[i]);
        }
        lemma_marks_in_any_order(s, account, drop_id, front);
        let mid = after_marks(s, account, drop_id, front);
        assert(s.drops[drop_id].hunt().contains(scavenger_ids[scavenger_ids.len() - 1]));
        assert(mark_outcome(mid, account, drop_id, last) is Ok);
        assert(before.union(front.to_set()).insert(last) =~= before.union(scavenger_ids.to_set())) by {
            assert forall|id: Seq<char>| scavenger_ids.contains(id) == (front.contains(id) || id == last) by {
                if scavenger_ids.contains(id) {
                    let i = choose|i: int| 0 <= i < scavenger_ids.len() && scavenger_ids[i] == id;
                    if i < front.len() {
                        assert(front[i] == id);
                    }
                }
                if front.contains(id) {
                    let i = choose|i: int| 0 <= i < front.len() && front[i] == id;
                    assert(scavenger_ids[i] == id);
                }
                if id == last {
                    assert(scavenger_ids[scavenger_ids.len() - 1] == id);
                }
            }
        }
    }
}

/// A scavenger id that is none of the hunt of the drop is rejected with
/// `NotFound`, and what the account has found stays as it is.
pub proof fn lemma_foreign_id_is_rejected(
    s: State,
    account: Seq<char>,
    drop_id: Seq<char>,
    scavenger_id: Seq<char>,
)
    requires
        !s.drops.contains_key(drop_id) || !s.drops[drop_id].hunt().contains(scavenger_id),
    ensures
        mark_outcome(s, account, drop_id, scavenger_id) == Err::<(), ContractError>(
            ContractError::NotFound,
        ),
        after_mark(s, account, drop_id, scavenger_id) == s,
{
}

/// Recording an id that the account has found already changes nothing.
pub proof fn lemma_mark_again_changes_nothing(
    s: State,
    account: Seq<char>,
    drop_id: Seq<char>,
    scavenger_id: Seq<char>,
)
    ensures
        ({
            let once = after_mark(s, account, drop_id, scavenger_id);
            after_mark(once, account, drop_id, scavenger_id) == once
        }),
{
    let once = after_mark(s, account, drop_id, scavenger_id);
    if mark_outcome(s, account, drop_id, scavenger_id) is Ok {
        let found = claim_of(once.claims, account, drop_id).found;
        assert(found.insert(scavenger_id) =~= found);
        assert(after_mark(once, account, drop_id, scavenger_id).claims =~= once.claims);
    }
}

/// An item that is out of stock is never sold: the purchase is rejected
/// with `OutOfStock`, and neither the buyer's balance nor anything else
/// changes.
pub proof fn lemma_out_of_stock_is_never_sold(
    s: State,
    buyer: Seq<char>,
    vendor: Seq<char>,
    item_id: nat,
)
    requires
        has_item(s.vendors, vendor, item_id),
        !s.vendors[vendor].items[item_id as int].in_stock,
    ensures
        purchase_outcome(s.balances, s.vendors, buyer, vendor, item_id) == Err::<(), ContractError>(
            ContractError::OutOfStock,
        ),
        after_purchase(s, buyer, vendor, item_id) == s,
{
}

/// A buyer that holds less than the price of an item in stock does not get
/// it: the purchase is rejected with `InsufficientBalance`, and neither the
/// balance nor the stock changes.
pub proof fn lemma_unaffordable_is_never_sold(
    s: State,
    buyer: Seq<char>,
    vendor: Seq<char>,
    item_id: nat,
)
    requires
        has_item(s.vendors, vendor, item_id),
        s.vendors[vendor].items[item_id as int].in_stock,
        s.vendors[vendor].items[item_id as int].price > balance_of(s.balances, buyer),
    ensures
        purchase_outcome(s.balances, s.vendors, buyer, vendor, item_id) == Err::<(), ContractError>(
            ContractError::InsufficientBalance,
        ),
        after_purchase(s, buyer, vendor, item_id) == s,
{
}

/// A purchase has both of its effects or none: where it is carried out, the
/// buyer has paid the price and the item is out of stock; where it is
/// rejected, nothing has changed.
pub proof fn lemma_purchase_is_atomic(s: State, buyer: Seq<char>, vendor: Seq<char>, item_id: nat)
    ensures
        ({
            let after = after_purchase(s, buyer, vendor, item_id);
            match purchase_outcome(s.balances, s.vendors, buyer, vendor, item_id) {
                Ok(_) => {
                    let item = s.vendors[vendor].items[item_id as int];
                    &&& item.in_stock
                    &&& balance_of(after.balances, buyer) == balance_of(s.balances, buyer)
                        - item.price
                    &&& balance_of(after.balances, buyer) >= 0
                    &&& after.vendors[vendor].items[item_id as int] == item.sold()
                    &&& after.vendors[vendor].items.len() == s.vendors[vendor].items.len()
                },
                Err(_) => after == s,
            }
        }),
{
}

/// An item that was sold cannot be bought again.
pub proof fn lemma_sold_item_is_out_of_stock(
    s: State,
    buyer: Seq<char>,
    vendor: Seq<char>,
    item_id: nat,
    next_buyer: Seq<char>,
)
    requires
        purchase_outcome(s.balances, s.vendors, buyer, vendor, item_id) is Ok,
    ensures
        ({
            let after = after_purchase(s, buyer, vendor, item_id);
            purchase_outcome(after.balances, after.vendors, next_buyer, vendor, item_id) == Err::<
                (),
                ContractError,
            >(ContractError::OutOfStock)
        }),
{
}

/// A page that starts beyond the last item is empty, and no error.
pub proof fn lemma_page_beyond_the_end_is_empty(
    vendors: Map<Seq<char>, VendorView>,
    vendor: Seq<char>,
    start: nat,
    limit: Option<nat>,
)
    requires
        vendors.contains_key(vendor),
        start >= vendors[vendor].items.len(),
    ensures
        catalog_page(vendors, vendor, Some(start), limit) == Ok::<Seq<ExtItemView>, ContractError>(
            Seq::empty(),
        ),
{
    let items = vendors[vendor].items;
    let count = match limit {
        Some(count) => count,
        None => crate::vendors::DEFAULT_PAGE_SIZE as nat,
    };
    assert(page(items, start, count) =~= Seq::<ExtItemView>::empty());
}

/// A page holds the items of the catalog from its start on, in their order
/// and without a gap, and no more of them than were asked for.
pub proof fn lemma_page_is_a_window(items: Seq<ItemView>, start: nat, count: nat)
    ensures
        page(items, start, count).len() <= count,
        start + page(items, start, count).len() <= items.len() || page(items, start, count).len()
            == 0,
        start + count <= items.len() ==> page(items, start, count).len() == count,
        forall|i: int|
            0 <= i < page(items, start, count).len() ==> #[trigger] page(items, start, count)[i]
                == items[start + i].ext(),
{
}

} // verus!
