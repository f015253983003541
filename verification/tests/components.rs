use drop_market::access::AccessControlRegistry;
use drop_market::claims::{holds, ClaimBook, ClaimEntry, ClaimKey, ClaimStatus};
use drop_market::drops::DropRegistry;
use drop_market::errors::ContractError;
use drop_market::ledger::TokenLedger;
use drop_market::models::{
    clone_optional_strings, clone_strings, AccountStatus, Capability, InternalDropData,
    InternalVendorItem, NFTDropData, Reward, TicketType, TokenDropData, VendorInformation,
    VendorMetadata,
};
use drop_market::storage::StorageKeys;
use drop_market::table::{Key, Table};
use drop_market::tickets::TicketTypeCatalog;
use drop_market::vendors::{VendorStore, DEFAULT_PAGE_SIZE};

fn t(text: &str) -> String {
    text.to_string()
}

#[test]
fn roles_grant_their_own_capability_and_admin_grants_all() {
    let all = [
        AccountStatus::Basic,
        AccountStatus::Vendor,
        AccountStatus::Sponsor,
        AccountStatus::Admin,
    ];
    let admin = [false, false, false, true];
    let sponsor = [false, false, true, true];
    let vendor = [false, true, false, true];
    for i in 0..4 {
        assert_eq!(all[i].is_admin(), admin[i]);
        assert_eq!(all[i].is_sponsor(), sponsor[i]);
        assert_eq!(all[i].is_vendor(), vendor[i]);
        assert_eq!(all[i].satisfies(Capability::Admin), admin[i]);
        assert_eq!(all[i].satisfies(Capability::Sponsor), sponsor[i]);
        assert_eq!(all[i].satisfies(Capability::Vendor), vendor[i]);
    }
}

#[test]
fn error_messages_name_the_reason() {
    assert_eq!(ContractError::NotFound.message(), "not found");
    assert_eq!(ContractError::Unauthorized.message(), "unauthorized");
    assert_eq!(ContractError::AlreadyClaimed.message(), "already claimed");
    assert_eq!(ContractError::ScavengerIncomplete.message(), "scavenger hunt incomplete");
    assert_eq!(ContractError::InsufficientBalance.message(), "insufficient balance");
    assert_eq!(ContractError::OutOfStock.message(), "out of stock");
    assert_eq!(ContractError::ArithmeticOverflow.message(), "arithmetic overflow");
}

#[test]
fn table_keeps_one_value_for_each_key() {
    let mut table: Table<String, u32> = Table::new();
    assert_eq!(table.len(), 0);
    assert_eq!(table.get(&t("a")), None);
    assert!(!table.contains_key(&t("a")));
    table.insert(t("a"), 1);
    table.insert(t("b"), 2);
    table.insert(t("a"), 3);
    assert_eq!(table.len(), 2);
    assert_eq!(table.get(&t("a")), Some(&3));
    assert_eq!(table.get(&t("b")), Some(&2));
    assert!(table.contains_key(&t("b")));
    assert_eq!(table.remove(&t("a")), Some(3));
    assert_eq!(table.remove(&t("a")), None);
    assert_eq!(table.len(), 1);
    assert_eq!(table.get(&t("a")), None);
    assert_eq!(table.get(&t("b")), Some(&2));
}

#[test]
fn table_from_entries_lets_the_first_entry_count() {
    let table = Table::from_entries(vec![(t("a"), 1u32), (t("b"), 2), (t("a"), 3)]);
    assert_eq!(table.len(), 2);
    assert_eq!(table.get(&t("a")), Some(&1));
    assert_eq!(table.get(&t("b")), Some(&2));
    let mut entries = table.into_entries();
    entries.sort();
    assert_eq!(entries, vec![(t("a"), 1u32), (t("b"), 2)]);
}

#[test]
fn string_keys_are_the_same_when_their_characters_are() {
    assert!(t("abc").same(&t("abc")));
    assert!(!t("abc").same(&t("abd")));
    assert!(!t("abc").same(&t("ab")));
    let key = ClaimKey { account: t("x"), drop_id: t("d") };
    assert!(key.same(&ClaimKey { account: t("x"), drop_id: t("d") }));
    assert!(!key.same(&ClaimKey { account: t("x"), drop_id: t("e") }));
    assert!(!key.same(&ClaimKey { account: t("y"), drop_id: t("d") }));
    assert!(!key.same(&ClaimKey { account: t("d"), drop_id: t("x") }));
}

#[test]
fn ledger_credits_and_debits_exactly() {
    let mut ledger = TokenLedger::new();
    assert_eq!(ledger.balance(&t("x")), 0);
    assert_eq!(ledger.credit(&t("x"), 100), Ok(()));
    assert_eq!(ledger.balance(&t("x")), 100);
    assert_eq!(ledger.debit(&t("x"), 40), Ok(()));
    assert_eq!(ledger.balance(&t("x")), 60);
    assert_eq!(ledger.debit(&t("x"), 61), Err(ContractError::InsufficientBalance));
    assert_eq!(ledger.balance(&t("x")), 60);
    assert_eq!(ledger.debit(&t("x"), 60), Ok(()));
    assert_eq!(ledger.balance(&t("x")), 0);
    assert_eq!(ledger.debit(&t("x"), 0), Ok(()));
    assert_eq!(ledger.debit(&t("y"), 1), Err(ContractError::InsufficientBalance));
    assert_eq!(ledger.debit(&t("y"), 0), Ok(()));
    assert_eq!(ledger.balance(&t("y")), 0);
}

#[test]
fn ledger_rejects_a_credit_that_overflows() {
    let mut ledger = TokenLedger::new();
    assert_eq!(ledger.credit(&t("x"), u128::MAX - 1), Ok(()));
    assert_eq!(ledger.credit(&t("x"), 2), Err(ContractError::ArithmeticOverflow));
    assert_eq!(ledger.balance(&t("x")), u128::MAX - 1);
    assert_eq!(ledger.credit(&t("x"), 1), Ok(()));
    assert_eq!(ledger.balance(&t("x")), u128::MAX);
    assert_eq!(ledger.credit(&t("x"), 0), Ok(()));
    assert_eq!(ledger.credit(&t("x"), 1), Err(ContractError::ArithmeticOverflow));
    assert_eq!(ledger.balance(&t("x")), u128::MAX);
}

#[test]
fn balances_follow_the_accepted_requests_and_never_go_below_zero() {
    let accounts = [t("a"), t("b"), t("c")];
    let mut expected: [u128; 3] = [0, 0, 0];
    let mut ledger = TokenLedger::new();
    let mut seed: u64 = 0x2545_F491_4F6C_DD1D;
    for _ in 0..2000 {
        seed ^= seed << 13;
        seed ^= seed >> 7;
        seed ^= seed << 17;
        let who = (seed % 3) as usize;
        let amount = ((seed >> 8) % 1000) as u128;
        if (seed >> 40) % 2 == 0 {
            assert_eq!(ledger.credit(&accounts[who], amount), Ok(()));
            expected[who] += amount;
        } else if expected[who] >= amount {
            assert_eq!(ledger.debit(&accounts[who], amount), Ok(()));
            expected[who] -= amount;
        } else {
            assert_eq!(ledger.debit(&accounts[who], amount), Err(ContractError::InsufficientBalance));
        }
        for i in 0..3 {
            assert_eq!(ledger.balance(&accounts[i]), expected[i]);
        }
    }
}

#[test]
fn ledger_entries_round_trip() {
    let ledger = TokenLedger::from_entries(vec![(t("a"), 5), (t("b"), 7), (t("a"), 9)]);
    assert_eq!(ledger.balance(&t("a")), 5);
    assert_eq!(ledger.balance(&t("b")), 7);
    let mut entries = ledger.into_entries();
    entries.sort();
    assert_eq!(entries, vec![(t("a"), 5), (t("b"), 7)]);
}

#[test]
fn registry_resolves_roles_and_checks_capabilities() {
    let mut registry = AccessControlRegistry::new();
    assert!(!registry.knows(&t("v")));
    assert_eq!(registry.role_of(&t("v")), AccountStatus::Basic);
    assert_eq!(registry.require(&t("v"), Capability::Vendor), Err(ContractError::Unauthorized));
    registry.assign(&t("v"), AccountStatus::Vendor);
    registry.assign(&t("s"), AccountStatus::Sponsor);
    registry.assign(&t("a"), AccountStatus::Admin);
    registry.assign(&t("b"), AccountStatus::Basic);
    assert!(registry.knows(&t("v")));
    assert_eq!(registry.role_of(&t("v")), AccountStatus::Vendor);
    assert_eq!(registry.require(&t("v"), Capability::Vendor), Ok(()));
    assert_eq!(registry.require(&t("v"), Capability::Sponsor), Err(ContractError::Unauthorized));
    assert_eq!(registry.require(&t("v"), Capability::Admin), Err(ContractError::Unauthorized));
    assert_eq!(registry.require(&t("s"), Capability::Sponsor), Ok(()));
    assert_eq!(registry.require(&t("s"), Capability::Vendor), Err(ContractError::Unauthorized));
    assert_eq!(registry.require(&t("a"), Capability::Admin), Ok(()));
    assert_eq!(registry.require(&t("a"), Capability::Sponsor), Ok(()));
    assert_eq!(registry.require(&t("a"), Capability::Vendor), Ok(()));
    assert_eq!(registry.require(&t("b"), Capability::Vendor), Err(ContractError::Unauthorized));
    registry.assign(&t("b"), AccountStatus::Admin);
    assert_eq!(registry.role_of(&t("b")), AccountStatus::Admin);
    let mut entries = registry.into_entries();
    entries.sort_by(|l, r| l.0.cmp(&r.0));
    assert_eq!(entries.len(), 4);
    assert_eq!(entries[1], (t("b"), AccountStatus::Admin));
    let again = AccessControlRegistry::from_entries(entries);
    assert_eq!(again.role_of(&t("s")), AccountStatus::Sponsor);
}

#[test]
fn catalog_resolves_known_ticket_types() {
    let mut catalog = TicketTypeCatalog::new();
    assert_eq!(catalog.resolve(&t("vip")), Err(ContractError::NotFound));
    let vip = TicketType {
        starting_near_balance: 3,
        starting_token_balance: 500,
        account_type: AccountStatus::Sponsor,
    };
    catalog.define(&t("vip"), vip);
    assert_eq!(catalog.resolve(&t("vip")), Ok(vip));
    assert_eq!(catalog.resolve(&t("VIP")), Err(ContractError::NotFound));
    let entries = catalog.into_entries();
    assert_eq!(entries, vec![(t("vip"), vip)]);
    let again = TicketTypeCatalog::from_entries(entries);
    assert_eq!(again.resolve(&t("vip")), Ok(vip));
}

fn token(id: &str, hunt: Option<Vec<&str>>) -> InternalDropData {
    InternalDropData::token(TokenDropData {
        id: t(id),
        scavenger_ids: hunt.map(|ids| ids.into_iter().map(t).collect()),
        amount: 12,
        name: t("Token drop"),
        image: t("token.png"),
    })
}

fn nft(id: &str, hunt: Option<Vec<&str>>) -> InternalDropData {
    InternalDropData::nft(NFTDropData {
        id: t(id),
        scavenger_ids: hunt.map(|ids| ids.into_iter().map(t).collect()),
        name: t("Asset drop"),
        image: t("asset.png"),
        contract_id: t("minter"),
        method: t("mint"),
        args: t("{}"),
    })
}

#[test]
fn drop_getters_read_both_kinds() {
    let a = token("a", Some(vec!["s1", "s2"]));
    let b = nft("b", None);
    assert_eq!(a.get_id(), "a");
    assert_eq!(b.get_id(), "b");
    assert_eq!(a.get_scavenger_ids(), Some(vec![t("s1"), t("s2")]));
    assert_eq!(b.get_scavenger_ids(), None);
    assert_eq!(a.get_name(), "Token drop");
    assert_eq!(b.get_name(), "Asset drop");
    assert_eq!(a.get_image(), "token.png");
    assert_eq!(b.get_image(), "asset.png");
    assert_eq!(a.scavenger_ids(), &Some(vec![t("s1"), t("s2")]));
    assert_eq!(b.scavenger_ids(), &None);
    assert_eq!(a.reward(), Reward::Tokens { amount: 12 });
    assert_eq!(
        b.reward(),
        Reward::Mint { contract_id: t("minter"), method: t("mint"), args: t("{}") }
    );
    assert_eq!(a.clone(), a);
    assert_eq!(b.clone(), b);
}

#[test]
fn copies_of_string_lists_are_equal_to_them() {
    let list = vec![t("a"), t(""), t("c")];
    assert_eq!(clone_strings(&list), list);
    assert_eq!(clone_strings(&Vec::new()), Vec::<String>::new());
    assert_eq!(clone_optional_strings(&Some(list.clone())), Some(list));
    assert_eq!(clone_optional_strings(&None), None);
}

#[test]
fn drop_registry_keeps_each_drop_under_its_id() {
    let mut registry = DropRegistry::new();
    assert!(!registry.contains(&t("a")));
    assert_eq!(registry.get(&t("a")), Err(ContractError::NotFound));
    assert_eq!(registry.find(&t("a")), None);
    registry.define(token("a", None));
    registry.define(nft("b", Some(vec!["s"])));
    assert!(registry.contains(&t("a")));
    assert_eq!(registry.get(&t("a")), Ok(token("a", None)));
    assert_eq!(registry.find(&t("b")), Some(&nft("b", Some(vec!["s"]))));
    registry.define(nft("a", None));
    assert_eq!(registry.get(&t("a")), Ok(nft("a", None)));
    let mut drops = registry.into_drops();
    drops.sort_by_key(|d| d.get_id());
    assert_eq!(drops, vec![nft("a", None), nft("b", Some(vec!["s"]))]);
    let again = DropRegistry::from_drops(vec![token("z", None), nft("z", None)]);
    assert_eq!(again.get(&t("z")), Ok(token("z", None)));
}

#[test]
fn claim_book_records_progress() {
    let mut book = ClaimBook::new();
    let hunt = vec![t("a"), t("b")];
    assert_eq!(book.status(&t("x"), &t("d")), ClaimStatus::Open);
    assert_eq!(book.found(&t("x"), &t("d")), Vec::<String>::new());
    assert!(!book.covers(&t("x"), &t("d"), &hunt));
    assert!(book.covers(&t("x"), &t("d"), &Vec::new()));
    assert!(!book.touches(&t("x"), &t("d"), &hunt));
    book.mark(&t("x"), &t("d"), &t("b"));
    book.mark(&t("x"), &t("d"), &t("b"));
    assert_eq!(book.found(&t("x"), &t("d")), vec![t("b")]);
    assert!(book.touches(&t("x"), &t("d"), &hunt));
    assert!(!book.covers(&t("x"), &t("d"), &hunt));
    assert!(!book.touches(&t("y"), &t("d"), &hunt));
    assert!(!book.touches(&t("x"), &t("e"), &hunt));
    book.mark(&t("x"), &t("d"), &t("a"));
    assert!(book.covers(&t("x"), &t("d"), &hunt));
    book.set_status(&t("x"), &t("d"), ClaimStatus::Minting);
    assert_eq!(book.status(&t("x"), &t("d")), ClaimStatus::Minting);
    assert!(book.covers(&t("x"), &t("d"), &hunt));
    book.set_status(&t("y"), &t("d"), ClaimStatus::Claimed);
    assert_eq!(book.status(&t("y"), &t("d")), ClaimStatus::Claimed);
    assert_eq!(book.found(&t("y"), &t("d")), Vec::<String>::new());
    let mut entries = book.into_entries();
    entries.sort_by(|l, r| l.0.account.cmp(&r.0.account));
    assert_eq!(entries.len(), 2);
    assert_eq!(entries[0].0, ClaimKey { account: t("x"), drop_id: t("d") });
    assert_eq!(entries[0].1, ClaimEntry { found: vec![t("b"), t("a")], status: ClaimStatus::Minting });
    let again = ClaimBook::from_entries(entries);
    assert_eq!(again.status(&t("y"), &t("d")), ClaimStatus::Claimed);
    assert!(again.covers(&t("x"), &t("d"), &hunt));
}

#[test]
fn holds_finds_a_string_in_a_list() {
    let list = vec![t("a"), t("bc")];
    assert!(holds(&list, &t("a")));
    assert!(holds(&list, &t("bc")));
    assert!(!holds(&list, &t("b")));
    assert!(!holds(&Vec::new(), &t("a")));
}

fn stocked(name: &str, price: u128) -> InternalVendorItem {
    InternalVendorItem { id: t(name), name: t(name), image: t("img"), price, in_stock: true }
}

#[test]
fn vendor_store_sells_an_item_once() {
    let mut store = VendorStore::new();
    let mut ledger = TokenLedger::new();
    let front = VendorMetadata { name: t("Shop"), description: t("d"), cover_image: t("c") };
    assert!(!store.contains(&t("shop")));
    assert_eq!(store.add_item(&t("shop"), stocked("i", 1)), Err(ContractError::NotFound));
    store.set_metadata(&t("shop"), front.clone());
    assert!(store.contains(&t("shop")));
    assert_eq!(store.metadata(&t("shop")), Ok(front));
    assert_eq!(store.add_item(&t("shop"), stocked("i0", 30)), Ok(0));
    assert_eq!(store.add_item(&t("shop"), stocked("i1", 5)), Ok(1));
    assert_eq!(ledger.credit(&t("x"), 32), Ok(()));
    assert_eq!(
        store.purchase(&mut ledger, &t("x"), &t("shop"), 2),
        Err(ContractError::NotFound)
    );
    assert_eq!(store.purchase(&mut ledger, &t("x"), &t("shop"), 0), Ok(()));
    assert_eq!(ledger.balance(&t("x")), 2);
    assert_eq!(
        store.purchase(&mut ledger, &t("x"), &t("shop"), 0),
        Err(ContractError::OutOfStock)
    );
    assert_eq!(
        store.purchase(&mut ledger, &t("x"), &t("shop"), 1),
        Err(ContractError::InsufficientBalance)
    );
    assert_eq!(ledger.balance(&t("x")), 2);
    let items = store.catalog(&t("shop"), None, None).unwrap();
    assert_eq!(items.len(), 2);
    assert!(!items[0].in_stock);
    assert!(items[1].in_stock);
    assert_eq!(store.item(&t("shop"), 1).unwrap().price, 5);
    let entries = store.into_entries();
    assert_eq!(entries.len(), 1);
    assert_eq!(entries[0].1.item_by_id.len(), 2);
    let again = VendorStore::from_entries(entries);
    assert_eq!(again.item(&t("shop"), 0).unwrap().name, "i0");
}

#[test]
fn new_store_front_keeps_the_items() {
    let mut store = VendorStore::new();
    let first = VendorMetadata { name: t("One"), description: t("d"), cover_image: t("c") };
    let second = VendorMetadata { name: t("Two"), description: t("e"), cover_image: t("f") };
    store.set_metadata(&t("shop"), first);
    assert_eq!(store.add_item(&t("shop"), stocked("i0", 1)), Ok(0));
    store.set_metadata(&t("shop"), second.clone());
    assert_eq!(store.metadata(&t("shop")), Ok(second));
    assert_eq!(store.catalog(&t("shop"), None, None).unwrap().len(), 1);
    assert_eq!(store.add_item(&t("shop"), stocked("i1", 1)), Ok(1));
}

#[test]
fn default_page_size_is_fifty() {
    assert_eq!(DEFAULT_PAGE_SIZE, 50);
}

#[test]
fn item_copies_and_catalog_views() {
    let item = InternalVendorItem {
        id: t("internal-7"),
        name: t("Mug"),
        image: t("mug.png"),
        price: 15,
        in_stock: true,
    };
    assert_eq!(item.clone(), item);
    let ext = item.to_ext();
    assert_eq!(ext.name, "Mug");
    assert_eq!(ext.image, "mug.png");
    assert_eq!(ext.price, 15);
    assert!(ext.in_stock);
    assert_eq!(ext.clone(), ext);
    let info = VendorInformation {
        metadata: VendorMetadata { name: t("n"), description: t("d"), cover_image: t("c") },
        item_by_id: vec![item],
    };
    assert_eq!(info.item_by_id[0].id, "internal-7");
}

#[test]
fn storage_prefixes_are_one_byte_and_the_hash() {
    assert_eq!(StorageKeys::DataByVendor.into_storage_key(), vec![0]);
    assert_eq!(StorageKeys::AccountIdByPubKey.into_storage_key(), vec![1]);
    assert_eq!(StorageKeys::DropsClaimedByAccount.into_storage_key(), vec![3]);
    assert_eq!(StorageKeys::DropById.into_storage_key(), vec![5]);
    assert_eq!(StorageKeys::AccontStatusById.into_storage_key(), vec![6]);
    assert_eq!(StorageKeys::BalanceByAccount.into_storage_key(), vec![7]);
    assert_eq!(StorageKeys::TicketDataById.into_storage_key(), vec![8]);
    let mut hash = [0u8; 32];
    for i in 0..32 {
        hash[i] = (i as u8) * 3 + 1;
    }
    let mut expected = vec![2u8];
    expected.extend_from_slice(&hash);
    assert_eq!(StorageKeys::VendorItems { vendor_id_hash: hash }.into_storage_key(), expected);
    expected[0] = 4;
    assert_eq!(
        StorageKeys::DropsClaimedByAccountInner { account_id_hash: hash }.into_storage_key(),
        expected
    );
    assert_eq!(expected.len(), 33);
}

#[test]
fn storage_prefixes_of_different_namespaces_do_not_begin_alike() {
    let keys = vec![
        StorageKeys::DataByVendor,
        StorageKeys::AccountIdByPubKey,
        StorageKeys::VendorItems { vendor_id_hash: [0u8; 32] },
        StorageKeys::VendorItems { vendor_id_hash: [1u8; 32] },
        StorageKeys::DropsClaimedByAccount,
        StorageKeys::DropsClaimedByAccountInner { account_id_hash: [0u8; 32] },
        StorageKeys::DropsClaimedByAccountInner { account_id_hash: [1u8; 32] },
        StorageKeys::DropById,
        StorageKeys::AccontStatusById,
        StorageKeys::BalanceByAccount,
        StorageKeys::TicketDataById,
    ];
    for i in 0..keys.len() {
        for j in 0..keys.len() {
            if i != j {
                let a = keys[i].into_storage_key();
                let b = keys[j].into_storage_key();
                assert!(!b.starts_with(&a));
            }
        }
    }
}
