use drop_market::claims::{ClaimEntry, ClaimKey, ClaimStatus};
use drop_market::contract::{Contract, Snapshot};
use drop_market::errors::ContractError;
use drop_market::metadata::{FungibleTokenMetadata, DATA_IMAGE_SVG_GT_ICON};
use drop_market::models::{
    AccountStatus, Capability, ExtVendorItem, InternalDropData, InternalVendorItem, NFTDropData,
    NFTWithOwnership, Reward, ScavengerHuntWithOwnership, TicketType, TokenDropData,
    VendorInformation, VendorMetadata,
};
use drop_market::state::ClaimState;

fn w(text: &str) -> String {
    text.to_string()
}

fn token_metadata() -> FungibleTokenMetadata {
    FungibleTokenMetadata {
        spec: w("ft-1.0.0"),
        name: w("Conference Token"),
        symbol: w("CONF"),
        icon: Some(w(DATA_IMAGE_SVG_GT_ICON)),
        reference: Some(w("https://example.org/token.json")),
        reference_hash: Some(vec![7u8; 32]),
        decimals: 24,
        minted_per_claim: None,
    }
}

fn ticket_of(role: AccountStatus, near: u128, tokens: u128) -> TicketType {
    TicketType { starting_near_balance: near, starting_token_balance: tokens, account_type: role }
}

fn front() -> VendorMetadata {
    VendorMetadata { name: w("Shop"), description: w("All kinds of things"), cover_image: w("bafy") }
}

fn thing(i: usize) -> InternalVendorItem {
    InternalVendorItem {
        id: format!("internal-{}", i),
        name: format!("item-{}", i),
        image: format!("image-{}", i),
        price: 10 * i as u128,
        in_stock: i % 2 == 0,
    }
}

fn shown(i: usize) -> ExtVendorItem {
    ExtVendorItem {
        name: format!("item-{}", i),
        image: format!("image-{}", i),
        price: 10 * i as u128,
        in_stock: i % 2 == 0,
    }
}

fn market(items: usize) -> Contract {
    let mut c = Contract::new(w("owner"), token_metadata());
    assert_eq!(c.add_ticket_type(w("owner"), w("vendor"), ticket_of(AccountStatus::Vendor, 1, 0)), Ok(()));
    assert_eq!(c.add_ticket_type(w("owner"), w("sponsor"), ticket_of(AccountStatus::Sponsor, 2, 0)), Ok(()));
    assert_eq!(c.add_ticket_type(w("owner"), w("guest"), ticket_of(AccountStatus::Basic, 3, 250)), Ok(()));
    assert!(c.create_account(w("shop"), w("vendor")).is_ok());
    assert!(c.create_account(w("sponsor"), w("sponsor")).is_ok());
    assert!(c.create_account(w("guest"), w("guest")).is_ok());
    assert_eq!(c.set_vendor_metadata(w("shop"), front()), Ok(()));
    for i in 0..items {
        assert_eq!(c.add_item(w("shop"), thing(i)), Ok(i as u64));
    }
    c
}

fn token_drop_of(id: &str, amount: u128) -> InternalDropData {
    InternalDropData::token(TokenDropData {
        id: w(id),
        scavenger_ids: None,
        amount,
        name: w("Welcome"),
        image: w("welcome.png"),
    })
}

fn hunt_drop(id: &str) -> InternalDropData {
    InternalDropData::token(TokenDropData {
        id: w(id),
        scavenger_ids: Some(vec![w("north"), w("south"), w("east")]),
        amount: 9,
        name: w("Hunt"),
        image: w("hunt.png"),
    })
}

fn asset() -> NFTDropData {
    NFTDropData {
        id: w("badge"),
        scavenger_ids: None,
        name: w("Badge"),
        image: w("badge.png"),
        contract_id: w("nft.service"),
        method: w("nft_mint"),
        args: w("{}"),
    }
}

#[test]
fn new_engine_knows_only_its_owner() {
    let c = Contract::new(w("owner"), token_metadata());
    assert_eq!(c.role_of(w("owner")), AccountStatus::Admin);
    assert_eq!(c.role_of(w("other")), AccountStatus::Basic);
    assert_eq!(c.require(w("owner"), Capability::Admin), Ok(()));
    assert_eq!(c.require(w("other"), Capability::Admin), Err(ContractError::Unauthorized));
    assert_eq!(c.balance(w("owner")), 0);
    assert_eq!(c.get_vendor_metadata(w("owner")), Err(ContractError::NotFound));
    assert_eq!(c.get_drop(w("d")), Err(ContractError::NotFound));
    assert_eq!(c.resolve_ticket(w("t")), Err(ContractError::NotFound));
    assert_eq!(c.ft_metadata(None), Ok(token_metadata()));
}

#[test]
fn page_beyond_the_catalog_is_empty_and_no_error() {
    let c = market(5);
    assert_eq!(c.get_items_for_vendor(w("shop"), Some(1000), Some(10)), Ok(vec![]));
    assert_eq!(c.get_items_for_vendor(w("shop"), Some(5), Some(10)), Ok(vec![]));
    assert_eq!(c.get_items_for_vendor(w("shop"), Some(u128::MAX), None), Ok(vec![]));
    assert_eq!(c.get_items_for_vendor(w("shop"), Some(1u128 << 64), Some(u64::MAX)), Ok(vec![]));
    assert_eq!(c.get_items_for_vendor(w("shop"), Some((1u128 << 32) + 1), Some(3)), Ok(vec![]));
}

#[test]
fn pages_are_windows_of_the_catalog_in_order() {
    let c = market(5);
    assert_eq!(
        c.get_items_for_vendor(w("shop"), None, None),
        Ok(vec![shown(0), shown(1), shown(2), shown(3), shown(4)])
    );
    assert_eq!(c.get_items_for_vendor(w("shop"), Some(3), Some(10)), Ok(vec![shown(3), shown(4)]));
    assert_eq!(c.get_items_for_vendor(w("shop"), Some(1), Some(2)), Ok(vec![shown(1), shown(2)]));
    assert_eq!(c.get_items_for_vendor(w("shop"), Some(4), Some(1)), Ok(vec![shown(4)]));
    assert_eq!(c.get_items_for_vendor(w("shop"), Some(0), Some(0)), Ok(vec![]));
    assert_eq!(c.get_items_for_vendor(w("shop"), None, Some(2)), Ok(vec![shown(0), shown(1)]));
    assert_eq!(
        c.get_items_for_vendor(w("shop"), Some(2), Some(u64::MAX)),
        Ok(vec![shown(2), shown(3), shown(4)])
    );
}

#[test]
fn page_without_a_size_holds_fifty_items() {
    let c = market(60);
    let first = c.get_items_for_vendor(w("shop"), None, None).unwrap();
    assert_eq!(first.len(), 50);
    assert_eq!(first[0], shown(0));
    assert_eq!(first[49], shown(49));
    let second = c.get_items_for_vendor(w("shop"), Some(50), None).unwrap();
    assert_eq!(second.len(), 10);
    assert_eq!(second[0], shown(50));
    assert_eq!(second[9], shown(59));
    let late = c.get_items_for_vendor(w("shop"), Some(20), None).unwrap();
    assert_eq!(late.len(), 40);
    assert_eq!(late[0], shown(20));
}

#[test]
fn vendor_views_of_an_unknown_vendor_are_not_found() {
    let c = market(2);
    assert_eq!(c.get_vendor_metadata(w("nobody")), Err(ContractError::NotFound));
    assert_eq!(c.get_items_for_vendor(w("nobody"), None, None), Err(ContractError::NotFound));
    assert_eq!(c.get_items_for_vendor(w("nobody"), Some(1000), Some(10)), Err(ContractError::NotFound));
    assert_eq!(c.get_item_information(w("nobody"), 0), Err(ContractError::NotFound));
    assert_eq!(c.get_vendor_metadata(w("guest")), Err(ContractError::NotFound));
}

#[test]
fn vendor_views_show_what_is_stored() {
    let c = market(3);
    assert_eq!(c.get_vendor_metadata(w("shop")), Ok(front()));
    assert_eq!(c.get_item_information(w("shop"), 0), Ok(shown(0)));
    assert_eq!(c.get_item_information(w("shop"), 2), Ok(shown(2)));
    assert_eq!(c.get_item_information(w("shop"), 3), Err(ContractError::NotFound));
    assert_eq!(c.get_item_information(w("shop"), u64::MAX), Err(ContractError::NotFound));
}

#[test]
fn empty_catalog_has_an_empty_page() {
    let c = market(0);
    assert_eq!(c.get_items_for_vendor(w("shop"), None, None), Ok(vec![]));
    assert_eq!(c.get_items_for_vendor(w("shop"), Some(0), Some(10)), Ok(vec![]));
    assert_eq!(c.get_item_information(w("shop"), 0), Err(ContractError::NotFound));
}

#[test]
fn catalog_is_managed_by_its_vendor_only() {
    let mut c = market(1);
    assert_eq!(c.add_item(w("guest"), thing(1)), Err(ContractError::Unauthorized));
    assert_eq!(c.add_item(w("sponsor"), thing(1)), Err(ContractError::Unauthorized));
    assert_eq!(c.add_item(w("nobody"), thing(1)), Err(ContractError::Unauthorized));
    assert_eq!(c.add_item(w("owner"), thing(1)), Err(ContractError::NotFound));
    assert_eq!(c.set_vendor_metadata(w("guest"), front()), Err(ContractError::Unauthorized));
    assert_eq!(c.set_vendor_metadata(w("nobody"), front()), Err(ContractError::Unauthorized));
    assert_eq!(c.get_vendor_metadata(w("nobody")), Err(ContractError::NotFound));
    assert_eq!(c.get_items_for_vendor(w("shop"), None, None), Ok(vec![shown(0)]));
    assert_eq!(c.set_vendor_metadata(w("owner"), front()), Ok(()));
    assert_eq!(c.add_item(w("owner"), thing(1)), Ok(0));
    assert_eq!(c.get_item_information(w("owner"), 0), Ok(shown(1)));
    assert_eq!(c.add_item(w("shop"), thing(1)), Ok(1));
}

#[test]
fn account_is_created_once_with_what_its_ticket_gives() {
    let mut c = market(0);
    let guest = ticket_of(AccountStatus::Basic, 3, 250);
    assert_eq!(c.resolve_ticket(w("guest")), Ok(guest));
    assert_eq!(c.create_account(w("anna"), w("guest")), Ok(guest));
    assert_eq!(c.role_of(w("anna")), AccountStatus::Basic);
    assert_eq!(c.balance(w("anna")), 250);
    assert_eq!(c.create_account(w("anna"), w("sponsor")), Err(ContractError::Unauthorized));
    assert_eq!(c.create_account(w("anna"), w("unknown")), Err(ContractError::Unauthorized));
    assert_eq!(c.role_of(w("anna")), AccountStatus::Basic);
    assert_eq!(c.balance(w("anna")), 250);
    assert_eq!(c.create_account(w("ben"), w("unknown")), Err(ContractError::NotFound));
    assert_eq!(c.set_account_status(w("owner"), w("ben"), AccountStatus::Vendor), Err(ContractError::NotFound));
    assert_eq!(c.balance(w("ben")), 0);
    assert_eq!(c.create_account(w("cleo"), w("sponsor")), Ok(ticket_of(AccountStatus::Sponsor, 2, 0)));
    assert_eq!(c.role_of(w("cleo")), AccountStatus::Sponsor);
    assert_eq!(c.balance(w("cleo")), 0);
    assert_eq!(c.create_account(w("owner"), w("guest")), Err(ContractError::Unauthorized));
}

#[test]
fn starting_balance_is_credited_to_what_the_account_holds() {
    let mut c = market(0);
    assert_eq!(c.create_drop(w("sponsor"), token_drop_of("d", 5)), Ok(()));
    assert_eq!(c.claim(w("early"), w("d")), Ok(Reward::Tokens { amount: 5 }));
    assert_eq!(c.create_account(w("early"), w("guest")), Ok(ticket_of(AccountStatus::Basic, 3, 250)));
    assert_eq!(c.balance(w("early")), 255);
    assert_eq!(c.add_ticket_type(w("owner"), w("most"), ticket_of(AccountStatus::Basic, 0, u128::MAX - 4)), Ok(()));
    assert_eq!(c.claim(w("late"), w("d")), Ok(Reward::Tokens { amount: 5 }));
    assert_eq!(c.create_account(w("late"), w("most")), Err(ContractError::ArithmeticOverflow));
    assert_eq!(c.role_of(w("late")), AccountStatus::Basic);
    assert_eq!(c.balance(w("late")), 5);
    assert_eq!(c.set_account_status(w("owner"), w("late"), AccountStatus::Vendor), Err(ContractError::NotFound));
}

#[test]
fn ticket_types_are_managed_by_admins_only() {
    let mut c = market(0);
    let vip = ticket_of(AccountStatus::Admin, 0, 1);
    assert_eq!(c.add_ticket_type(w("guest"), w("vip"), vip), Err(ContractError::Unauthorized));
    assert_eq!(c.add_ticket_type(w("shop"), w("vip"), vip), Err(ContractError::Unauthorized));
    assert_eq!(c.add_ticket_type(w("nobody"), w("vip"), vip), Err(ContractError::Unauthorized));
    assert_eq!(c.resolve_ticket(w("vip")), Err(ContractError::NotFound));
    assert_eq!(c.add_ticket_type(w("owner"), w("vip"), vip), Ok(()));
    assert_eq!(c.resolve_ticket(w("vip")), Ok(vip));
    let changed = ticket_of(AccountStatus::Basic, 0, 2);
    assert_eq!(c.add_ticket_type(w("owner"), w("vip"), changed), Ok(()));
    assert_eq!(c.resolve_ticket(w("vip")), Ok(changed));
}

#[test]
fn roles_are_changed_by_admins_only() {
    let mut c = market(0);
    assert_eq!(
        c.set_account_status(w("guest"), w("guest"), AccountStatus::Admin),
        Err(ContractError::Unauthorized)
    );
    assert_eq!(
        c.set_account_status(w("nobody"), w("guest"), AccountStatus::Admin),
        Err(ContractError::Unauthorized)
    );
    assert_eq!(
        c.set_account_status(w("guest"), w("nobody"), AccountStatus::Admin),
        Err(ContractError::Unauthorized)
    );
    assert_eq!(
        c.set_account_status(w("owner"), w("nobody"), AccountStatus::Vendor),
        Err(ContractError::NotFound)
    );
    assert_eq!(c.role_of(w("guest")), AccountStatus::Basic);
    assert_eq!(c.role_of(w("nobody")), AccountStatus::Basic);
    assert_eq!(c.require(w("guest"), Capability::Sponsor), Err(ContractError::Unauthorized));
    assert_eq!(c.set_account_status(w("owner"), w("guest"), AccountStatus::Sponsor), Ok(()));
    assert_eq!(c.role_of(w("guest")), AccountStatus::Sponsor);
    assert_eq!(c.require(w("guest"), Capability::Sponsor), Ok(()));
    assert_eq!(c.require(w("guest"), Capability::Vendor), Err(ContractError::Unauthorized));
    assert_eq!(c.require(w("nobody"), Capability::Vendor), Err(ContractError::Unauthorized));
    assert_eq!(c.balance(w("guest")), 250);
}

#[test]
fn drops_are_registered_by_sponsors_and_never_replaced() {
    let mut c = market(0);
    assert_eq!(c.create_drop(w("guest"), token_drop_of("d", 1)), Err(ContractError::Unauthorized));
    assert_eq!(c.create_drop(w("shop"), token_drop_of("d", 1)), Err(ContractError::Unauthorized));
    assert_eq!(c.create_drop(w("nobody"), token_drop_of("d", 1)), Err(ContractError::Unauthorized));
    assert_eq!(c.get_drop(w("d")), Err(ContractError::NotFound));
    assert_eq!(c.create_drop(w("sponsor"), token_drop_of("d", 1)), Ok(()));
    assert_eq!(c.create_drop(w("sponsor"), token_drop_of("d", 2)), Err(ContractError::Unauthorized));
    assert_eq!(c.create_drop(w("owner"), InternalDropData::nft(asset())), Ok(()));
    assert_eq!(c.get_drop(w("d")), Ok(token_drop_of("d", 1)));
    assert_eq!(c.get_drop(w("badge")), Ok(InternalDropData::nft(asset())));
}

#[test]
fn metadata_reports_what_a_claim_of_the_drop_brings() {
    let mut c = market(0);
    assert_eq!(c.create_drop(w("sponsor"), token_drop_of("d", 77)), Ok(()));
    assert_eq!(c.create_drop(w("sponsor"), InternalDropData::nft(asset())), Ok(()));
    assert_eq!(c.ft_metadata(None), Ok(token_metadata()));
    let mut with_amount = token_metadata();
    with_amount.minted_per_claim = Some(77);
    assert_eq!(c.ft_metadata(Some(w("d"))), Ok(with_amount));
    assert_eq!(c.ft_metadata(Some(w("unknown"))), Err(ContractError::NotFound));
    assert_eq!(c.ft_metadata(Some(w("badge"))), Err(ContractError::NotFound));
    assert_eq!(c.claim(w("guest"), w("d")), Ok(Reward::Tokens { amount: 77 }));
    assert_eq!(c.balance(w("guest")), 327);
    assert_eq!(c.ft_metadata(Some(w("d"))).unwrap().minted_per_claim, Some(77));
}

#[test]
fn metadata_is_replaced_by_admins_only() {
    let mut c = market(0);
    let mut other = token_metadata();
    other.name = w("Other");
    other.icon = None;
    other.reference_hash = None;
    other.decimals = 6;
    other.minted_per_claim = Some(1);
    assert_eq!(c.update_ft_metadata(w("guest"), other.clone()), Err(ContractError::Unauthorized));
    assert_eq!(c.update_ft_metadata(w("nobody"), other.clone()), Err(ContractError::Unauthorized));
    assert_eq!(c.ft_metadata(None), Ok(token_metadata()));
    assert_eq!(c.update_ft_metadata(w("owner"), other.clone()), Ok(()));
    assert_eq!(c.ft_metadata(None), Ok(other.clone()));
    assert_eq!(other.clone(), other);
}

#[test]
fn icon_constant_is_the_default_image() {
    assert_eq!(
        DATA_IMAGE_SVG_GT_ICON,
        "https://assets-global.website-files.com/6509ee7744afed1c907f8f97/655050623557b10a706dae04_ETHDEN_logo_full_purple-p-500.png"
    );
}

#[test]
fn scavenger_hunt_shows_what_is_found() {
    let mut c = market(0);
    assert_eq!(c.create_drop(w("sponsor"), hunt_drop("h")), Ok(()));
    assert_eq!(c.create_drop(w("sponsor"), token_drop_of("d", 1)), Ok(()));
    let mut expected = ScavengerHuntWithOwnership {
        id: w("h"),
        scavenger_ids: vec![w("north"), w("south"), w("east")],
        found: vec![],
        name: w("Hunt"),
        image: w("hunt.png"),
    };
    assert_eq!(c.scavenger_hunt(w("guest"), w("h")), Ok(expected.clone()));
    assert_eq!(c.mark_found(w("guest"), w("h"), w("south")), Ok(()));
    assert_eq!(c.mark_found(w("guest"), w("h"), w("south")), Ok(()));
    expected.found = vec![w("south")];
    assert_eq!(c.scavenger_hunt(w("guest"), w("h")), Ok(expected.clone()));
    expected.found = vec![];
    assert_eq!(c.scavenger_hunt(w("sponsor"), w("h")), Ok(expected));
    assert_eq!(c.scavenger_hunt(w("guest"), w("d")), Err(ContractError::NotFound));
    assert_eq!(c.scavenger_hunt(w("guest"), w("unknown")), Err(ContractError::NotFound));
}

#[test]
fn asset_is_owned_once_the_mint_has_succeeded() {
    let mut c = market(0);
    assert_eq!(c.create_drop(w("sponsor"), InternalDropData::nft(asset())), Ok(()));
    assert_eq!(c.create_drop(w("sponsor"), token_drop_of("d", 1)), Ok(()));
    assert_eq!(
        c.nft_ownership(w("guest"), w("badge")),
        Ok(NFTWithOwnership { nft: asset(), is_owned: false })
    );
    assert!(c.claim(w("guest"), w("badge")).is_ok());
    assert_eq!(
        c.nft_ownership(w("guest"), w("badge")),
        Ok(NFTWithOwnership { nft: asset(), is_owned: false })
    );
    assert_eq!(c.resolve_mint(w("guest"), w("badge"), true), Ok(()));
    assert_eq!(
        c.nft_ownership(w("guest"), w("badge")),
        Ok(NFTWithOwnership { nft: asset(), is_owned: true })
    );
    assert_eq!(
        c.nft_ownership(w("sponsor"), w("badge")),
        Ok(NFTWithOwnership { nft: asset(), is_owned: false })
    );
    let owned = NFTWithOwnership { nft: asset(), is_owned: true };
    assert_eq!(owned.clone(), owned);
    assert_eq!(c.nft_ownership(w("guest"), w("d")), Err(ContractError::NotFound));
    assert_eq!(c.nft_ownership(w("guest"), w("unknown")), Err(ContractError::NotFound));
}

#[test]
fn restored_engine_is_in_the_same_state() {
    let mut c = market(3);
    assert_eq!(c.create_drop(w("sponsor"), hunt_drop("h")), Ok(()));
    assert_eq!(c.create_drop(w("sponsor"), InternalDropData::nft(asset())), Ok(()));
    assert_eq!(c.create_drop(w("sponsor"), token_drop_of("d", 40)), Ok(()));
    assert_eq!(c.mark_found(w("guest"), w("h"), w("east")), Ok(()));
    assert!(c.claim(w("guest"), w("badge")).is_ok());
    assert!(c.claim(w("guest"), w("d")).is_ok());
    assert_eq!(c.purchase(w("guest"), w("shop"), 2), Ok(()));
    let mut r = Contract::restore(c.into_snapshot());
    assert_eq!(r.balance(w("guest")), 270);
    assert_eq!(r.role_of(w("shop")), AccountStatus::Vendor);
    assert_eq!(r.resolve_ticket(w("guest")), Ok(ticket_of(AccountStatus::Basic, 3, 250)));
    assert_eq!(r.claim_state(w("guest"), w("h")), Ok(ClaimState::InProgress));
    assert_eq!(r.claim_state(w("guest"), w("badge")), Ok(ClaimState::Minting));
    assert_eq!(r.claim_state(w("guest"), w("d")), Ok(ClaimState::Claimed));
    assert_eq!(r.get_drop(w("h")), Ok(hunt_drop("h")));
    assert_eq!(r.get_vendor_metadata(w("shop")), Ok(front()));
    let items = r.get_items_for_vendor(w("shop"), None, None).unwrap();
    assert_eq!(items.len(), 3);
    assert_eq!(items[1], shown(1));
    assert!(!items[2].in_stock);
    assert_eq!(r.ft_metadata(None), Ok(token_metadata()));
    assert_eq!(r.claim(w("guest"), w("d")), Err(ContractError::AlreadyClaimed));
    assert_eq!(r.resolve_mint(w("guest"), w("badge"), true), Ok(()));
    assert_eq!(r.purchase(w("guest"), w("shop"), 2), Err(ContractError::OutOfStock));
}

#[test]
fn first_entry_of_a_snapshot_counts() {
    let snapshot = Snapshot {
        roles: vec![(w("a"), AccountStatus::Admin), (w("a"), AccountStatus::Basic)],
        tickets: vec![],
        balances: vec![(w("a"), 5), (w("b"), 6), (w("a"), 7)],
        drops: vec![token_drop_of("d", 1), token_drop_of("d", 2)],
        claims: vec![
            (
                ClaimKey { account: w("a"), drop_id: w("d") },
                ClaimEntry { found: vec![], status: ClaimStatus::Claimed },
            ),
            (
                ClaimKey { account: w("a"), drop_id: w("d") },
                ClaimEntry { found: vec![], status: ClaimStatus::Open },
            ),
        ],
        vendors: vec![(w("v"), VendorInformation { metadata: front(), item_by_id: vec![thing(0)] })],
        metadata: token_metadata(),
    };
    let c = Contract::restore(snapshot);
    assert_eq!(c.role_of(w("a")), AccountStatus::Admin);
    assert_eq!(c.balance(w("a")), 5);
    assert_eq!(c.balance(w("b")), 6);
    assert_eq!(c.get_drop(w("d")), Ok(token_drop_of("d", 1)));
    assert_eq!(c.claim_state(w("a"), w("d")), Ok(ClaimState::Claimed));
    assert_eq!(c.get_item_information(w("v"), 0), Ok(shown(0)));
    let back = c.into_snapshot();
    assert_eq!(back.roles, vec![(w("a"), AccountStatus::Admin)]);
    assert_eq!(back.drops, vec![token_drop_of("d", 1)]);
    assert_eq!(back.claims.len(), 1);
    assert_eq!(back.balances.len(), 2);
}
