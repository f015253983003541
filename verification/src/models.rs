//! The data that the engine stores and hands out.

use vstd::prelude::*;

verus! {

/// Identifies an account.
pub type AccountId = String;

/// Identifies a drop; unique among all drops.
pub type DropId = String;

/// Identifies one sub-task of a drop's scavenger hunt.
pub type ScavengerId = String;

/// The role of an account. An account that was given no role is `Basic`.
#[derive(Clone, Copy, Debug, PartialEq, Eq, Structural)]
pub enum AccountStatus {
    Basic,
    Vendor,
    Sponsor,
    Admin,
}

/// A capability that an operation may ask of its caller.
#[derive(Clone, Copy, Debug, PartialEq, Eq, Structural)]
pub enum Capability {
    Admin,
    Sponsor,
    Vendor,
}

impl AccountStatus {
    /// Whether the role grants the capability: each capability is granted by
    /// the role of its own name and by `Admin`, and by no other.
    pub open spec fn grants(self, capability: Capability) -> bool {
        match capability {
            Capability::Admin => self == AccountStatus::Admin,
            Capability::Sponsor => self == AccountStatus::Sponsor || self == AccountStatus::Admin,
            Capability::Vendor => self == AccountStatus::Vendor || self == AccountStatus::Admin,
        }
    }

    /// Whether the role may do what only admins may.
    pub fn is_admin(&self) -> (b: bool)
        ensures
            b == self.grants(Capability::Admin),
    {
        match self {
            AccountStatus::Basic => false,
            AccountStatus::Vendor => false,
            AccountStatus::Sponsor => false,
            AccountStatus::Admin => true,
        }
    }

    /// Whether the role may do what sponsors may.
    pub fn is_sponsor(&self) -> (b: bool)
        ensures
            b == self.grants(Capability::Sponsor),
    {
        match self {
            AccountStatus::Basic => false,
            AccountStatus::Vendor => false,
            AccountStatus::Sponsor => true,
            AccountStatus::Admin => true,
        }
    }

    /// Whether the role may do what vendors may.
    pub fn is_vendor(&self) -> (b: bool)
        ensures
            b == self.grants(Capability::Vendor),
    {
        match self {
            AccountStatus::Basic => false,
            AccountStatus::Vendor => true,
            AccountStatus::Sponsor => false,
            AccountStatus::Admin => true,
        }
    }

    /// Whether the role grants the capability.
    pub fn satisfies(&self, capability: Capability) -> (b: bool)
        ensures
            b == self.grants(capability),
    {
        match capability {
            Capability::Admin => self.is_admin(),
            Capability::Sponsor => self.is_sponsor(),
            Capability::Vendor => self.is_vendor(),
        }
    }
}

/// What an account is given when it is created.
#[derive(Clone, Copy, Debug, PartialEq, Eq, Structural)]
pub struct TicketType {
    /// The amount of the native currency that the account starts with.
    pub starting_near_balance: u128,
    /// The amount of tokens that the account starts with.
    pub starting_token_balance: u128,
    /// The role that the account gets.
    pub account_type: AccountStatus,
}

/// Store-front information of a vendor.
#[derive(Debug, PartialEq, Eq)]
pub struct VendorMetadata {
    pub name: String,
    pub description: String,
    /// An IPFS content id.
    pub cover_image: String,
}

/// A store-front as text.
pub struct VendorMetadataView {
    pub name: Seq<char>,
    pub description: Seq<char>,
    pub cover_image: Seq<char>,
}

impl View for VendorMetadata {
    type V = VendorMetadataView;

    open spec fn view(&self) -> VendorMetadataView {
        VendorMetadataView {
            name: self.name@,
            description: self.description@,
            cover_image: self.cover_image@,
        }
    }
}

impl Clone for VendorMetadata {
    fn clone(&self) -> (copy: Self)
        ensures
            copy == *self,
    {
        VendorMetadata {
            name: self.name.clone(),
            description: self.description.clone(),
            cover_image: self.cover_image.clone(),
        }
    }
}

/// An asset for sale, as the catalog stores it.
#[derive(Debug, PartialEq, Eq)]
pub struct InternalVendorItem {
    pub id: String,
    pub name: String,
    pub image: String,
    /// Price in tokens.
    pub price: u128,
    /// Whether the item can still be bought.
    pub in_stock: bool,
}

/// A stored item as text and numbers.
pub struct ItemView {
    pub id: Seq<char>,
    pub name: Seq<char>,
    pub image: Seq<char>,
    pub price: nat,
    pub in_stock: bool,
}

impl ItemView {
    /// The item with its stock flag cleared.
    pub open spec fn sold(self) -> ItemView {
        ItemView { in_stock: false, ..self }
    }

    /// What the catalog shows of the item.
    pub open spec fn ext(self) -> ExtItemView {
        ExtItemView {
            name: self.name,
            image: self.image,
            price: self.price,
            in_stock: self.in_stock,
        }
    }
}

impl View for InternalVendorItem {
    type V = ItemView;

    open spec fn view(&self) -> ItemView {
        ItemView {
            id: self.id@,
            name: self.name@,
            image: self.image@,
            price: self.price as nat,
            in_stock: self.in_stock,
        }
    }
}

impl Clone for InternalVendorItem {
    fn clone(&self) -> (copy: Self)
        ensures
            copy == *self,
    {
        InternalVendorItem {
            id: self.id.clone(),
            name: self.name.clone(),
            image: self.image.clone(),
            price: self.price,
            in_stock: self.in_stock,
        }
    }
}

impl InternalVendorItem {
    /// The item as the catalog shows it: without its internal id.
    pub fn to_ext(&self) -> (ext: ExtVendorItem)
        ensures
            ext@ == self@.ext(),
    {
        ExtVendorItem {
            name: self.name.clone(),
            image: self.image.clone(),
            price: self.price,
            in_stock: self.in_stock,
        }
    }
}

/// An asset for sale, as the catalog shows it.
#[derive(Debug, PartialEq, Eq)]
pub struct ExtVendorItem {
    pub name: String,
    pub image: String,
    /// Price in tokens.
    pub price: u128,
    /// Whether the item can still be bought.
    pub in_stock: bool,
}

/// A shown item as text and numbers.
pub struct ExtItemView {
    pub name: Seq<char>,
    pub image: Seq<char>,
    pub price: nat,
    pub in_stock: bool,
}

impl View for ExtVendorItem {
    type V = ExtItemView;

    open spec fn view(&self) -> ExtItemView {
        ExtItemView {
            name: self.name@,
            image: self.image@,
            price: self.price as nat,
            in_stock: self.in_stock,
        }
    }
}

impl Clone for ExtVendorItem {
    fn clone(&self) -> (copy: Self)
        ensures
            copy == *self,
    {
        ExtVendorItem {
            name: self.name.clone(),
            image: self.image.clone(),
            price: self.price,
            in_stock: self.in_stock,
        }
    }
}

/// The views of a list of strings.
pub open spec fn texts(list: Seq<String>) -> Seq<Seq<char>> {
    Seq::new(list.len(), |i: int| list[i]@)
}

/// A copy of a list of strings.
pub fn clone_strings(list: &Vec<String>) -> (copy: Vec<String>)
    ensures
        copy@ == list@,
{
    let mut copy: Vec<String> = Vec::new();
    let mut i: usize = 0;
    while i < list.len()
        invariant
            i <= list.len(),
            copy@ == list@.take(i as int),
        decreases list.len() - i,
    {
        copy.push(list[i].clone());
        assert(copy@ =~= list@.take(i + 1));
        i += 1;
    }
    assert(list@.take(list.len() as int) =~= list@);
    copy
}

/// A copy of an optional list of strings.
pub fn clone_optional_strings(list: &Option<Vec<String>>) -> (copy: Option<Vec<String>>)
    ensures
        optional_texts(copy) == optional_texts(*list),
{
    match list {
        Some(ids) => Some(clone_strings(ids)),
        None => None,
    }
}

/// A claimable allocation of tokens. With scavenger ids, all of them have to
/// be found before the amount is credited.
#[derive(Debug, PartialEq, Eq)]
pub struct TokenDropData {
    pub id: String,
    pub scavenger_ids: Option<Vec<String>>,
    pub amount: u128,
    pub name: String,
    pub image: String,
}

impl Clone for TokenDropData {
    fn clone(&self) -> (copy: Self)
        ensures
            copy@ == self@,
    {
        TokenDropData {
            id: self.id.clone(),
            scavenger_ids: clone_optional_strings(&self.scavenger_ids),
            amount: self.amount,
            name: self.name.clone(),
            image: self.image.clone(),
        }
    }
}

/// A claimable non-fungible asset, minted by a call to another service. With
/// scavenger ids, all of them have to be found before the mint is requested.
#[derive(Debug, PartialEq, Eq)]
pub struct NFTDropData {
    pub id: String,
    pub scavenger_ids: Option<Vec<String>>,
    pub name: String,
    pub image: String,
    pub contract_id: String,
    pub method: String,
    pub args: String,
}

impl Clone for NFTDropData {
    fn clone(&self) -> (copy: Self)
        ensures
            copy@ == self@,
    {
        NFTDropData {
            id: self.id.clone(),
            scavenger_ids: clone_optional_strings(&self.scavenger_ids),
            name: self.name.clone(),
            image: self.image.clone(),
            contract_id: self.contract_id.clone(),
            method: self.method.clone(),
            args: self.args.clone(),
        }
    }
}

/// The kinds of drops.
#[allow(non_camel_case_types)]
#[derive(Debug, PartialEq, Eq)]
pub enum InternalDropData {
    token(TokenDropData),
    nft(NFTDropData),
}

/// What a successful claim of a drop brings.
pub enum RewardView {
    /// An amount of tokens, credited at once.
    Tokens { amount: nat },
    /// An asset, minted by the named method of the named service.
    Mint { contract_id: Seq<char>, method: Seq<char>, args: Seq<char> },
}

/// A drop as text and numbers: what both kinds of drops have in common,
/// and the reward in which they differ.
pub struct DropView {
    pub id: Seq<char>,
    pub scavenger_ids: Option<Seq<Seq<char>>>,
    pub name: Seq<char>,
    pub image: Seq<char>,
    pub reward: RewardView,
}

impl DropView {
    /// The scavenger ids of the drop's hunt; none where it has no hunt.
    pub open spec fn hunt(self) -> Seq<Seq<char>> {
        match self.scavenger_ids {
            Some(ids) => ids,
            None => Seq::empty(),
        }
    }
}

/// The views of an optional list of strings.
pub open spec fn optional_texts(list: Option<Vec<String>>) -> Option<Seq<Seq<char>>> {
    match list {
        Some(ids) => Some(texts(ids@)),
        None => None,
    }
}

impl View for TokenDropData {
    type V = DropView;

    open spec fn view(&self) -> DropView {
        DropView {
            id: self.id@,
            scavenger_ids: optional_texts(self.scavenger_ids),
            name: self.name@,
            image: self.image@,
            reward: RewardView::Tokens { amount: self.amount as nat },
        }
    }
}

impl View for NFTDropData {
    type V = DropView;

    open spec fn view(&self) -> DropView {
        DropView {
            id: self.id@,
            scavenger_ids: optional_texts(self.scavenger_ids),
            name: self.name@,
            image: self.image@,
            reward: RewardView::Mint {
                contract_id: self.contract_id@,
                method: self.method@,
                args: self.args@,
            },
        }
    }
}

impl View for InternalDropData {
    type V = DropView;

    open spec fn view(&self) -> DropView {
        match self {
            InternalDropData::token(data) => data@,
            InternalDropData::nft(data) => data@,
        }
    }
}

impl Clone for InternalDropData {
    fn clone(&self) -> (copy: Self)
        ensures
            copy@ == self@,
    {
        match self {
            InternalDropData::token(data) => InternalDropData::token(data.clone()),
            InternalDropData::nft(data) => InternalDropData::nft(data.clone()),
        }
    }
}

impl InternalDropData {
    pub fn get_id(&self) -> (id: String)
        ensures
            id@ == self@.id,
    {
        match self {
            InternalDropData::token(data) => data.id.clone(),
            InternalDropData::nft(data) => data.id.clone(),
        }
    }

    pub fn get_scavenger_ids(&self) -> (ids: Option<Vec<String>>)
        ensures
            optional_texts(ids) == self@.scavenger_ids,
    {
        match self {
            InternalDropData::token(data) => clone_optional_strings(&data.scavenger_ids),
            InternalDropData::nft(data) => clone_optional_strings(&data.scavenger_ids),
        }
    }

    pub fn get_name(&self) -> (name: String)
        ensures
            name@ == self@.name,
    {
        match self {
            InternalDropData::token(data) => data.name.clone(),
            InternalDropData::nft(data) => data.name.clone(),
        }
    }

    pub fn get_image(&self) -> (image: String)
        ensures
            image@ == self@.image,
    {
        match self {
            InternalDropData::token(data) => data.image.clone(),
            InternalDropData::nft(data) => data.image.clone(),
        }
    }
}


/// The store-front of a vendor and its items for sale. The numeric id of an
/// item is its place in the list, so ids are handed out in sequence and an
/// item keeps its id.
#[derive(Debug, PartialEq, Eq)]
pub struct VendorInformation {
    /// What the store-front shows.
    pub metadata: VendorMetadata,
    /// The items for sale, by their numeric ids.
    pub item_by_id: Vec<InternalVendorItem>,
}

/// A store as text and numbers.
pub struct VendorView {
    pub metadata: VendorMetadataView,
    pub items: Seq<ItemView>,
}

/// The views of a list of items.
pub open spec fn item_views(items: Seq<InternalVendorItem>) -> Seq<ItemView> {
    Seq::new(items.len(), |i: int| items[i]@)
}

/// The views of a list of items as the catalog shows them.
pub open spec fn ext_views(items: Seq<ExtVendorItem>) -> Seq<ExtItemView> {
    Seq::new(items.len(), |i: int| items[i]@)
}

impl View for VendorInformation {
    type V = VendorView;

    open spec fn view(&self) -> VendorView {
        VendorView { metadata: self.metadata@, items: item_views(self.item_by_id@) }
    }
}

/// What a successful claim of a drop brings.
#[derive(Debug, PartialEq, Eq)]
pub enum Reward {
    /// An amount of tokens, credited at once.
    Tokens { amount: u128 },
    /// An asset that the caller has to have minted: by a call of the method
    /// of the service, with the arguments as they stand.
    Mint { contract_id: String, method: String, args: String },
}

impl View for Reward {
    type V = RewardView;

    open spec fn view(&self) -> RewardView {
        match self {
            Reward::Tokens { amount } => RewardView::Tokens { amount: *amount as nat },
            Reward::Mint { contract_id, method, args } => RewardView::Mint {
                contract_id: contract_id@,
                method: method@,
                args: args@,
            },
        }
    }
}

impl InternalDropData {
    /// The scavenger ids of the drop, where they stand.
    pub fn scavenger_ids(&self) -> (ids: &Option<Vec<String>>)
        ensures
            optional_texts(*ids) == self@.scavenger_ids,
    {
        match self {
            InternalDropData::token(data) => &data.scavenger_ids,
            InternalDropData::nft(data) => &data.scavenger_ids,
        }
    }

    /// What a successful claim of the drop brings.
    pub fn reward(&self) -> (reward: Reward)
        ensures
            reward@ == self@.reward,
    {
        match self {
            InternalDropData::token(data) => Reward::Tokens { amount: data.amount },
            InternalDropData::nft(data) => Reward::Mint {
                contract_id: data.contract_id.clone(),
                method: data.method.clone(),
                args: data.args.clone(),
            },
        }
    }
}

/// A drop of a non-fungible asset, and whether an account owns it.
#[derive(Debug, PartialEq, Eq)]
pub struct NFTWithOwnership {
    pub nft: NFTDropData,
    pub is_owned: bool,
}

/// A drop of an asset and whether it is owned.
pub struct OwnershipView {
    pub nft: DropView,
    pub is_owned: bool,
}

impl View for NFTWithOwnership {
    type V = OwnershipView;

    open spec fn view(&self) -> OwnershipView {
        OwnershipView { nft: self.nft@, is_owned: self.is_owned }
    }
}

impl Clone for NFTWithOwnership {
    fn clone(&self) -> (copy: Self)
        ensures
            copy@ == self@,
    {
        NFTWithOwnership { nft: self.nft.clone(), is_owned: self.is_owned }
    }
}

/// A scavenger hunt, and what an account has found of it.
#[derive(Debug, PartialEq, Eq)]
pub struct ScavengerHuntWithOwnership {
    pub id: String,
    pub scavenger_ids: Vec<String>,
    pub found: Vec<String>,
    pub name: String,
    pub image: String,
}

/// A scavenger hunt and the set of ids that are found.
pub struct HuntView {
    pub id: Seq<char>,
    pub scavenger_ids: Seq<Seq<char>>,
    pub found: Set<Seq<char>>,
    pub name: Seq<char>,
    pub image: Seq<char>,
}

impl Clone for ScavengerHuntWithOwnership {
    fn clone(&self) -> (copy: Self)
        ensures
            copy@ == self@,
    {
        let copy = ScavengerHuntWithOwnership {
            id: self.id.clone(),
            scavenger_ids: clone_strings(&self.scavenger_ids),
            found: clone_strings(&self.found),
            name: self.name.clone(),
            image: self.image.clone(),
        };
        assert(texts(copy.scavenger_ids@) =~= texts(self.scavenger_ids@));
        assert(texts(copy.found@) =~= texts(self.found@));
        copy
    }
}

impl View for ScavengerHuntWithOwnership {
    type V = HuntView;

    open spec fn view(&self) -> HuntView {
        HuntView {
            id: self.id@,
            scavenger_ids: texts(self.scavenger_ids@),
            found: texts(self.found@).to_set(),
            name: self.name@,
            image: self.image@,
        }
    }
}

} // verus!
