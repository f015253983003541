//! The vendor store: the catalog of each vendor, and the purchase of an item.

use vstd::prelude::*;
use crate::errors::ContractError;
use crate::ledger::{can_debit, debited, TokenLedger};
use crate::models::{
    ext_views, item_views, ExtItemView, ExtVendorItem, InternalVendorItem, ItemView,
    VendorInformation, VendorMetadata, VendorMetadataView, VendorView,
};
use crate::table::{distinct_keys, entries_map, Table};

verus! {

/// The size of a page of the catalog where the caller names none.
pub const DEFAULT_PAGE_SIZE: u64 = 50;

/// The store-front of the vendor; `NotFound` for an unknown vendor.
pub open spec fn metadata_lookup(
    vendors: Map<Seq<char>, VendorView>,
    vendor: Seq<char>,
) -> Result<VendorMetadataView, ContractError> {
    if vendors.contains_key(vendor) {
        Ok(vendors[vendor].metadata)
    } else {
        Err(ContractError::NotFound)
    }
}

/// The items from place `start` on, in their order, as the catalog shows
/// them: `count` of them, or as many as there are. Nothing from a place
/// beyond the last item.
pub open spec fn page(items: Seq<ItemView>, start: nat, count: nat) -> Seq<ExtItemView> {
    let from = if start <= items.len() {
        start
    } else {
        items.len()
    };
    let size = if count <= items.len() - from {
        count
    } else {
        (items.len() - from) as nat
    };
    Seq::new(size, |i: int| items[from + i].ext())
}

/// A page of the catalog of the vendor, from the first item where no place
/// is named, and of the default size where no size is named; `NotFound` for
/// an unknown vendor.
pub open spec fn catalog_page(
    vendors: Map<Seq<char>, VendorView>,
    vendor: Seq<char>,
    from_index: Option<nat>,
    limit: Option<nat>,
) -> Result<Seq<ExtItemView>, ContractError> {
    if vendors.contains_key(vendor) {
        let start = match from_index {
            Some(start) => start,
            None => 0,
        };
        let count = match limit {
            Some(count) => count,
            None => DEFAULT_PAGE_SIZE as nat,
        };
        Ok(page(vendors[vendor].items, start, count))
    } else {
        Err(ContractError::NotFound)
    }
}

/// The vendor is known and has an item of this id.
pub open spec fn has_item(
    vendors: Map<Seq<char>, VendorView>,
    vendor: Seq<char>,
    item_id: nat,
) -> bool {
    vendors.contains_key(vendor) && item_id < vendors[vendor].items.len()
}

/// The item of the vendor as the catalog shows it; `NotFound` for an unknown
/// vendor or item.
pub open spec fn item_lookup(
    vendors: Map<Seq<char>, VendorView>,
    vendor: Seq<char>,
    item_id: nat,
) -> Result<ExtItemView, ContractError> {
    if has_item(vendors, vendor, item_id) {
        Ok(vendors[vendor].items[item_id as int].ext())
    } else {
        Err(ContractError::NotFound)
    }
}

/// Whether the buyer can buy the item: `NotFound` for an unknown vendor or
/// item, `OutOfStock` for an item that is not in stock, `InsufficientBalance`
/// for a buyer that holds less than the price; in this order.
pub open spec fn purchase_outcome(
    balances: Map<Seq<char>, int>,
    vendors: Map<Seq<char>, VendorView>,
    buyer: Seq<char>,
    vendor: Seq<char>,
    item_id: nat,
) -> Result<(), ContractError> {
    if !has_item(vendors, vendor, item_id) {
        Err(ContractError::NotFound)
    } else if !vendors[vendor].items[item_id as int].in_stock {
        Err(ContractError::OutOfStock)
    } else if !can_debit(balances, buyer, vendors[vendor].items[item_id as int].price as int) {
        Err(ContractError::InsufficientBalance)
    } else {
        Ok(())
    }
}

/// The catalogs after the item is sold: it is out of stock, and nothing
/// else has changed.
pub open spec fn sold(
    vendors: Map<Seq<char>, VendorView>,
    vendor: Seq<char>,
    item_id: nat,
) -> Map<Seq<char>, VendorView> {
    let store = vendors[vendor];
    vendors.insert(
        vendor,
        VendorView {
            metadata: store.metadata,
            items: store.items.update(item_id as int, store.items[item_id as int].sold()),
        },
    )
}

/// The balances after a purchase is asked for: the buyer has paid the price
/// where the purchase is carried out, and nothing has changed where it is
/// rejected.
pub open spec fn balances_after_purchase(
    balances: Map<Seq<char>, int>,
    vendors: Map<Seq<char>, VendorView>,
    buyer: Seq<char>,
    vendor: Seq<char>,
    item_id: nat,
) -> Map<Seq<char>, int> {
    if purchase_outcome(balances, vendors, buyer, vendor, item_id) is Ok {
        debited(balances, buyer, vendors[vendor].items[item_id as int].price as int)
    } else {
        balances
    }
}

/// The catalogs after a purchase is asked for: the item is out of stock
/// where the purchase is carried out, and nothing has changed where it is
/// rejected.
pub open spec fn vendors_after_purchase(
    balances: Map<Seq<char>, int>,
    vendors: Map<Seq<char>, VendorView>,
    buyer: Seq<char>,
    vendor: Seq<char>,
    item_id: nat,
) -> Map<Seq<char>, VendorView> {
    if purchase_outcome(balances, vendors, buyer, vendor, item_id) is Ok {
        sold(vendors, vendor, item_id)
    } else {
        vendors
    }
}

/// The catalogs after the vendor has set its store-front: a new store
/// without items for a vendor that had none, and the same items behind the
/// new store-front for one that had.
pub open spec fn with_metadata(
    vendors: Map<Seq<char>, VendorView>,
    vendor: Seq<char>,
    metadata: VendorMetadataView,
) -> Map<Seq<char>, VendorView> {
    let items = if vendors.contains_key(vendor) {
        vendors[vendor].items
    } else {
        Seq::empty()
    };
    vendors.insert(vendor, VendorView { metadata, items })
}

/// The catalogs after the item is added at the end of the vendor's list.
pub open spec fn with_item(
    vendors: Map<Seq<char>, VendorView>,
    vendor: Seq<char>,
    item: ItemView,
) -> Map<Seq<char>, VendorView> {
    let store = vendors[vendor];
    vendors.insert(vendor, VendorView { metadata: store.metadata, items: store.items.push(item) })
}

/// The views of the stored catalogs.
pub open spec fn vendor_views(
    stored: Map<Seq<char>, VendorInformation>,
) -> Map<Seq<char>, VendorView> {
    Map::new(|vendor: Seq<char>| stored.contains_key(vendor), |vendor: Seq<char>| stored[vendor]@)
}

/// The catalogs of all vendors.
pub struct VendorStore {
    vendors: Table<String, VendorInformation>,
}

impl VendorStore {
    /// The representation is sound.
    pub closed spec fn wf(&self) -> bool {
        self.vendors.wf()
    }

    /// The catalogs, by vendor.
    pub closed spec fn as_map(&self) -> Map<Seq<char>, VendorView> {
        vendor_views(self.vendors@)
    }

    /// The store that the list of entries stands for, where the first entry
    /// of a vendor is the one that counts.
    pub fn from_entries(entries: Vec<(String, VendorInformation)>) -> (store: Self)
        ensures
            store.wf(),
            store@ == vendor_views(entries_map(entries@)),
    {
        VendorStore { vendors: Table::from_entries(entries) }
    }

    /// The entries of the store, one for each vendor.
    pub fn into_entries(self) -> (entries: Vec<(String, VendorInformation)>)
        requires
            self.wf(),
        ensures
            distinct_keys(entries@),
            vendor_views(entries_map(entries@)) == self@,
    {
        self.vendors.into_entries()
    }

    /// A store without vendors.
    pub fn new() -> (store: Self)
        ensures
            store.wf(),
            store@ == Map::<Seq<char>, VendorView>::empty(),
    {
        let store = VendorStore { vendors: Table::new() };
        assert(store.as_map() =~= Map::<Seq<char>, VendorView>::empty());
        store
    }

    /// Whether the vendor has a store.
    pub fn contains(&self, vendor: &String) -> (b: bool)
        requires
            self.wf(),
        ensures
            b == self@.contains_key(vendor@),
    {
        self.vendors.contains_key(vendor)
    }

    /// The store-front of the vendor.
    pub fn metadata(&self, vendor: &String) -> (found: Result<VendorMetadata, ContractError>)
        requires
            self.wf(),
        ensures
            match found {
                Ok(metadata) => metadata_lookup(self@, vendor@) == Ok::<
                    VendorMetadataView,
                    ContractError,
                >(metadata@),
                Err(e) => metadata_lookup(self@, vendor@) == Err::<VendorMetadataView, ContractError>(e),
            },
    {
        match self.vendors.get(vendor) {
            Some(info) => Ok(info.metadata.clone()),
            None => Err(ContractError::NotFound),
        }
    }

    /// A page of the catalog of the vendor.
    pub fn catalog(
        &self,
        vendor: &String,
        from_index: Option<u128>,
        limit: Option<u64>,
    ) -> (found: Result<Vec<ExtVendorItem>, ContractError>)
        requires
            self.wf(),
        ensures
            match found {
                Ok(items) => catalog_page(
                    self@,
                    vendor@,
                    wide(from_index),
                    narrow(limit),
                ) == Ok::<Seq<ExtItemView>, ContractError>(ext_views(items@)),
                Err(e) => catalog_page(self@, vendor@, wide(from_index), narrow(limit)) == Err::<
                    Seq<ExtItemView>,
                    ContractError,
                >(e),
            },
    {
        let info = match self.vendors.get(vendor) {
            Some(info) => info,
            None => {
                return Err(ContractError::NotFound);
            },
        };
        let start: u128 = match from_index {
            Some(start) => start,
            None => 0,
        };
        let count: u64 = match limit {
            Some(count) => count,
            None => DEFAULT_PAGE_SIZE,
        };
        let total: usize = info.item_by_id.len();
        let from: usize = if start <= total as u128 {
            start as usize
        } else {
            total
        };
        let size: usize = if count <= (total - from) as u64 {
            count as usize
        } else {
            total - from
        };
        let ghost wanted = page(info@.items, start as nat, count as nat);
        let mut items: Vec<ExtVendorItem> = Vec::new();
        let mut i: usize = 0;
        while i < size
            invariant
                i <= size,
                from + size <= total,
                total == info.item_by_id@.len(),
                wanted.len() == size,
                wanted == page(info@.items, start as nat, count as nat),
                from == (if start <= total { start as int } else { total as int }),
                items@.len() == i,
                ext_views(items@) == wanted.take(i as int),
            decreases size - i,
        {
            let ghost shown = ext_views(items@);
            items.push(info.item_by_id[from + i].to_ext());
            proof {
                assert(info@.items[from + i] == info.item_by_id@[from + i]@);
                assert(wanted[i as int] == info@.items[from + i].ext());
                assert forall|k: int| 0 <= k < i implies ext_views(items@)[k] == wanted.take(
                    i + 1,
                )[k] by {
                    assert(ext_views(items@)[k] == shown[k]);
                    assert(shown[k] == wanted.take(i as int)[k]);
                }
                assert(ext_views(items@) =~= wanted.take(i + 1));
            }
            i += 1;
        }
        assert(wanted.take(size as int) =~= wanted);
        Ok(items)
    }

    /// The item of the vendor, as the catalog shows it.
    pub fn item(
        &self,
        vendor: &String,
        item_id: u64,
    ) -> (found: Result<ExtVendorItem, ContractError>)
        requires
            self.wf(),
        ensures
            match found {
                Ok(item) => item_lookup(self@, vendor@, item_id as nat) == Ok::<
                    ExtItemView,
                    ContractError,
                >(item@),
                Err(e) => item_lookup(self@, vendor@, item_id as nat) == Err::<
                    ExtItemView,
                    ContractError,
                >(e),
            },
    {
        match self.vendors.get(vendor) {
            Some(info) => {
                if item_id < info.item_by_id.len() as u64 {
                    Ok(info.item_by_id[item_id as usize].to_ext())
                } else {
                    Err(ContractError::NotFound)
                }
            },
            None => Err(ContractError::NotFound),
        }
    }

    /// Sets the store-front of the vendor, and opens its store if it had none.
    pub fn set_metadata(&mut self, vendor: &String, metadata: VendorMetadata)
        requires
            old(self).wf(),
        ensures
            final(self).wf(),
            final(self)@ == with_metadata(old(self)@, vendor@, metadata@),
    {
        let info = match self.vendors.remove(vendor) {
            Some(info) => VendorInformation { metadata, item_by_id: info.item_by_id },
            None => {
                let item_by_id: Vec<InternalVendorItem> = Vec::new();
                assert(item_views(item_by_id@) =~= Seq::<ItemView>::empty());
                VendorInformation { metadata, item_by_id }
            },
        };
        self.vendors.insert(vendor.clone(), info);
        assert(self.as_map() =~= with_metadata(old(self).as_map(), vendor@, metadata@));
    }

    /// Adds the item at the end of the vendor's list and returns its numeric
    /// id. Rejected with `NotFound`, and without effect, for a vendor that has
    /// no store.
    pub fn add_item(
        &mut self,
        vendor: &String,
        item: InternalVendorItem,
    ) -> (added: Result<u64, ContractError>)
        requires
            old(self).wf(),
        ensures
            final(self).wf(),
            match added {
                Ok(item_id) => {
                    &&& old(self)@.contains_key(vendor@)
                    &&& item_id == old(self)@[vendor@].items.len()
                    &&& final(self)@ == with_item(old(self)@, vendor@, item@)
                },
                Err(e) => {
                    &&& e == ContractError::NotFound
                    &&& !old(self)@.contains_key(vendor@)
                    &&& final(self)@ == old(self)@
                },
            },
    {
        match self.vendors.remove(vendor) {
            Some(info) => {
                let mut info = info;
                let ghost before = info@;
                let item_id = info.item_by_id.len() as u64;
                info.item_by_id.push(item);
                assert(info@.items =~= before.items.push(item@));
                self.vendors.insert(vendor.clone(), info);
                assert(self.as_map() =~= with_item(old(self).as_map(), vendor@, item@));
                Ok(item_id)
            },
            None => {
                assert(self.as_map() =~= old(self).as_map());
                Err(ContractError::NotFound)
            },
        }
    }

    /// Sells the item to the buyer: takes the price from what the buyer holds
    /// and takes the item out of stock, both or neither.
    pub fn purchase(
        &mut self,
        ledger: &mut TokenLedger,
        buyer: &String,
        vendor: &String,
        item_id: u64,
    ) -> (done: Result<(), ContractError>)
        requires
            old(self).wf(),
            old(ledger).wf(),
        ensures
            final(self).wf(),
            final(ledger).wf(),
            done == purchase_outcome(old(ledger)@, old(self)@, buyer@, vendor@, item_id as nat),
            final(ledger)@ == balances_after_purchase(
                old(ledger)@,
                old(self)@,
                buyer@,
                vendor@,
                item_id as nat,
            ),
            final(self)@ == vendors_after_purchase(
                old(ledger)@,
                old(self)@,
                buyer@,
                vendor@,
                item_id as nat,
            ),
    {
        let price = match self.vendors.get(vendor) {
            Some(info) => {
                if item_id >= info.item_by_id.len() as u64 {
                    return Err(ContractError::NotFound);
                }
                let item = &info.item_by_id[item_id as usize];
                if !item.in_stock {
                    return Err(ContractError::OutOfStock);
                }
                item.price
            },
            None => {
                return Err(ContractError::NotFound);
            },
        };
        match ledger.debit(buyer, price) {
            Ok(()) => {},
            Err(e) => {
                return Err(e);
            },
        }
        match self.vendors.remove(vendor) {
            Some(info) => {
                let mut info = info;
                let ghost before = info@;
                let place = item_id as usize;
                let bought = &info.item_by_id[place];
                let taken = InternalVendorItem {
                    id: bought.id.clone(),
                    name: bought.name.clone(),
                    image: bought.image.clone(),
                    price: bought.price,
                    in_stock: false,
                };
                info.item_by_id.set(place, taken);
                assert(info@.items =~= before.items.update(place as int, before.items[place as int].sold()));
                self.vendors.insert(vendor.clone(), info);
                assert(self.as_map() =~= sold(old(self).as_map(), vendor@, item_id as nat));
            },
            None => {},
        }
        Ok(())
    }
}

impl View for VendorStore {
    type V = Map<Seq<char>, VendorView>;

    open spec fn view(&self) -> Map<Seq<char>, VendorView> {
        self.as_map()
    }
}

/// The place that the caller names, as a number.
pub open spec fn wide(from_index: Option<u128>) -> Option<nat> {
    match from_index {
        Some(start) => Some(start as nat),
        None => None,
    }
}

/// The size that the caller names, as a number.
pub open spec fn narrow(limit: Option<u64>) -> Option<nat> {
    match limit {
        Some(count) => Some(count as nat),
        None => None,
    }
}

} // verus!
