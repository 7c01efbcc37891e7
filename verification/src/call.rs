//! The shape of an assembled downstream call: the target program, the ordered
//! account list with signer/writable flags, and the metadata payload of a
//! compressed leaf.

use vstd::prelude::*;
use crate::key::Pubkey;

verus! {

/// Royalties on secondary sales, in basis points, fixed for every collection
/// and leaf mint.
pub const SELLER_FEE_BASIS_POINTS: u16 = 550;

/// One entry of a downstream call's ordered account list.
#[derive(Clone, Copy, Debug)]
pub struct CallAccount {
    /// The account's address.
    pub key: Pubkey,
    /// Whether the downstream call needs the account's signature.
    pub is_signer: bool,
    /// Whether the downstream call may write the account.
    pub is_writable: bool,
}

/// `c` names `key` with exactly the given signer and writable flags.
pub open spec fn call_account_matches(c: CallAccount, key: Seq<u8>, is_signer: bool, is_writable: bool) -> bool {
    c.key@ == key && c.is_signer == is_signer && c.is_writable == is_writable
}

/// Builds one entry of an account list.
pub fn call_account(key: &Pubkey, is_signer: bool, is_writable: bool) -> (r: CallAccount)
    ensures
        call_account_matches(r, key@, is_signer, is_writable),
{
    CallAccount { key: *key, is_signer, is_writable }
}

/// One creator attribution of an NFT's metadata.
#[derive(Clone, Copy, Debug)]
pub struct Creator {
    /// The creator's address.
    pub address: Pubkey,
    /// Whether the attribution is verified.
    pub verified: bool,
    /// The creator's share of royalties, in percent.
    pub share: u8,
}

/// The collection an NFT belongs to.
#[derive(Clone, Copy, Debug)]
pub struct Collection {
    /// The collection mint's address.
    pub key: Pubkey,
    /// Whether the membership has been verified.
    pub verified: bool,
}

/// The token standard a mint declares.
#[derive(Clone, Copy, Debug, PartialEq, Eq, Structural)]
pub enum TokenStandardKind {
    /// A unique token with a master edition.
    NonFungible,
    /// A token with a supply but with metadata.
    FungibleAsset,
    /// A plain fungible token.
    Fungible,
    /// A print of a non-fungible token's edition.
    NonFungibleEdition,
}

/// How many print editions a non-fungible token allows.
#[derive(Clone, Copy, Debug, PartialEq, Eq, Structural)]
pub enum PrintSupplyKind {
    /// No print editions at all.
    Zero,
    /// At most the given number of print editions.
    Limited(u64),
    /// Unlimited print editions.
    Unlimited,
}

/// Which generation of the token program manages the mint.
#[derive(Clone, Copy, Debug, PartialEq, Eq, Structural)]
pub enum TokenProgramVersion {
    /// The original token program.
    Original,
    /// The newer token program.
    Token2022,
}

/// The metadata payload of a new compressed leaf.
#[derive(Debug)]
pub struct MetadataArgs {
    /// The leaf's name.
    pub name: String,
    /// The leaf's symbol tag.
    pub symbol: String,
    /// The leaf's metadata URI.
    pub uri: String,
    /// Royalties on secondary sales, in basis points.
    pub seller_fee_basis_points: u16,
    /// Whether a primary sale has already happened.
    pub primary_sale_happened: bool,
    /// Whether the metadata may still be changed.
    pub is_mutable: bool,
    /// The nonce of the edition the leaf was printed from, if any.
    pub edition_nonce: Option<u8>,
    /// The token standard the leaf declares, if any.
    pub token_standard: Option<TokenStandardKind>,
    /// The collection the leaf is tagged with, if any.
    pub collection: Option<Collection>,
    /// Which token program manages the leaf's mint when decompressed.
    pub token_program_version: TokenProgramVersion,
    /// The creator attributions of the leaf.
    pub creators: Vec<Creator>,
}

} // verus!
