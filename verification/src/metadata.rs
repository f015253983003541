//! The descriptive metadata of the fungible token.

use vstd::prelude::*;
use crate::errors::ContractError;
use crate::models::{DropView, RewardView};

verus! {

/// The image URL for the default icon.
pub const DATA_IMAGE_SVG_GT_ICON: &'static str =
    "https://assets-global.website-files.com/6509ee7744afed1c907f8f97/655050623557b10a706dae04_ETHDEN_logo_full_purple-p-500.png";

/// What a front end needs to know to show the token. None of it takes part
/// in the arithmetic of balances, which are counted in the smallest unit.
#[derive(Debug, PartialEq, Eq)]
pub struct FungibleTokenMetadata {
    /// The version of the metadata standard that the token follows.
    pub spec: String,
    /// The human-readable name of the token.
    pub name: String,
    /// The abbreviation of the token.
    pub symbol: String,
    /// The icon of the token.
    pub icon: Option<String>,
    /// A link to a document with more details on the token.
    pub reference: Option<String>,
    /// The sha256 hash of the document behind `reference`.
    pub reference_hash: Option<Vec<u8>>,
    /// How many digits of an amount stand behind the decimal point.
    pub decimals: u8,
    /// The number of tokens that a claim of the drop asked about brings.
    pub minted_per_claim: Option<u128>,
}

/// The metadata as text and numbers.
pub struct FtMetadataView {
    pub spec: Seq<char>,
    pub name: Seq<char>,
    pub symbol: Seq<char>,
    pub icon: Option<Seq<char>>,
    pub reference: Option<Seq<char>>,
    pub reference_hash: Option<Seq<u8>>,
    pub decimals: u8,
    pub minted_per_claim: Option<nat>,
}

/// The view of an optional string.
pub open spec fn optional_text(text: Option<String>) -> Option<Seq<char>> {
    match text {
        Some(text) => Some(text@),
        None => None,
    }
}

/// The view of an optional list of bytes.
pub open spec fn optional_bytes(bytes: Option<Vec<u8>>) -> Option<Seq<u8>> {
    match bytes {
        Some(bytes) => Some(bytes@),
        None => None,
    }
}

/// An optional amount, as a number.
pub open spec fn optional_amount(amount: Option<u128>) -> Option<nat> {
    match amount {
        Some(amount) => Some(amount as nat),
        None => None,
    }
}

impl View for FungibleTokenMetadata {
    type V = FtMetadataView;

    open spec fn view(&self) -> FtMetadataView {
        FtMetadataView {
            spec: self.spec@,
            name: self.name@,
            symbol: self.symbol@,
            icon: optional_text(self.icon),
            reference: optional_text(self.reference),
            reference_hash: optional_bytes(self.reference_hash),
            decimals: self.decimals,
            minted_per_claim: optional_amount(self.minted_per_claim),
        }
    }
}

fn clone_optional_text(text: &Option<String>) -> (copy: Option<String>)
    ensures
        copy == *text,
{
    match text {
        Some(text) => Some(text.clone()),
        None => None,
    }
}

fn clone_optional_bytes(bytes: &Option<Vec<u8>>) -> (copy: Option<Vec<u8>>)
    ensures
        optional_bytes(copy) == optional_bytes(*bytes),
{
    match bytes {
        Some(bytes) => {
            let mut copy: Vec<u8> = Vec::new();
            let mut i: usize = 0;
            while i < bytes.len()
                invariant
                    i <= bytes.len(),
                    copy@ == bytes@.take(i as int),
                decreases bytes.len() - i,
            {
                copy.push(bytes[i]);
                assert(copy@ =~= bytes@.take(i + 1));
                i += 1;
            }
            assert(bytes@.take(bytes.len() as int) =~= bytes@);
            Some(copy)
        },
        None => None,
    }
}

impl Clone for FungibleTokenMetadata {
    fn clone(&self) -> (copy: Self)
        ensures
            copy@ == self@,
    {
        FungibleTokenMetadata {
            spec: self.spec.clone(),
            name: self.name.clone(),
            symbol: self.symbol.clone(),
            icon: clone_optional_text(&self.icon),
            reference: clone_optional_text(&self.reference),
            reference_hash: clone_optional_bytes(&self.reference_hash),
            decimals: self.decimals,
            minted_per_claim: self.minted_per_claim,
        }
    }
}

/// The number of tokens that a claim of the drop brings; `NotFound` for an
/// unknown drop and for one that brings no tokens.
pub open spec fn minted_per_claim(
    drops: Map<Seq<char>, DropView>,
    drop_id: Seq<char>,
) -> Result<nat, ContractError> {
    if drops.contains_key(drop_id) {
        match drops[drop_id].reward {
            RewardView::Tokens { amount } => Ok(amount),
            RewardView::Mint { .. } => Err(ContractError::NotFound),
        }
    } else {
        Err(ContractError::NotFound)
    }
}

/// The metadata as it is handed out: as stored where no drop is asked
/// about, and with the number of tokens that a claim of the drop brings
/// where one is.
pub open spec fn metadata_for(
    metadata: FtMetadataView,
    drops: Map<Seq<char>, DropView>,
    drop_id: Option<Seq<char>>,
) -> Result<FtMetadataView, ContractError> {
    match drop_id {
        None => Ok(metadata),
        Some(drop_id) => match minted_per_claim(drops, drop_id) {
            Ok(amount) => Ok(FtMetadataView { minted_per_claim: Some(amount), ..metadata }),
            Err(e) => Err(e),
        },
    }
}

} // verus!
