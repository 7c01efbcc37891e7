//! Minting a compressed NFT into an existing collection: the pre-invocation
//! account checks, the fixed metadata payload of the new leaf, and the
//! assembly of the downstream compressed-mint call. The call appends one new
//! leaf to the tree; no merkle proof is needed for an append.

use vstd::prelude::*;
use crate::account::{AccountView, mint_data_initialized, unpack_mint};
use crate::call::{CallAccount, Collection, Creator, MetadataArgs, SELLER_FEE_BASIS_POINTS,
    TokenProgramVersion, TokenStandardKind, call_account, call_account_matches};
use crate::error::BubblegumCpiError;
use crate::key::{Pubkey, account_compression_id, account_compression_id_bytes, mpl_bubblegum_id,
    mpl_bubblegum_id_bytes, noop_id, noop_id_bytes, pubkey_eq, system_program_id,
    system_program_id_bytes, token_metadata_id, token_metadata_id_bytes, token_program_id,
    token_program_id_bytes};

verus! {

/// The account set of minting a compressed NFT into a collection.
#[derive(Debug)]
pub struct MintCnftToCollection {
    /// The tree's config account.
    pub tree_config: AccountView,
    /// The owner of the new leaf, a plain system-owned account.
    pub leaf_owner: AccountView,
    /// The delegate of the new leaf, a plain system-owned account.
    pub leaf_delegate: AccountView,
    /// The merkle tree the leaf is appended to.
    pub merkle_tree: AccountView,
    /// The account funding the mint.
    pub payer: AccountView,
    /// The tree's creator; it signs as the minting authority.
    pub tree_creator: AccountView,
    /// The collection's authority.
    pub collection_authority: AccountView,
    /// The collection's mint: an initialized token mint whose remaining mint
    /// authority is the master-edition account.
    pub collection_mint: AccountView,
    /// The collection's metadata account.
    pub collection_metadata: AccountView,
    /// The collection's master-edition account.
    pub edition_account: AccountView,
    /// The logging program.
    pub log_wrapper: AccountView,
    /// The account-compression program.
    pub compression_program: AccountView,
    /// The token-metadata program.
    pub token_metadata_program: AccountView,
    /// The system program.
    pub system_program: AccountView,
    /// The compressed-NFT minting program.
    pub mpl_bubblegum_program: AccountView,
}

/// The collection mint is owned by the token program, decodes as an
/// initialized mint, and its remaining mint authority is exactly the
/// master-edition account.
pub open spec fn collection_mint_ok(a: &MintCnftToCollection) -> bool {
    &&& a.collection_mint.owner@ == token_program_id_bytes()
    &&& mint_data_initialized(a.collection_mint.data@)
    &&& a.collection_mint.data@[0] == 1
    &&& a.collection_mint.data@.subrange(4, 36) == a.edition_account.key@
}

/// The first constraint of compressed minting that the account set violates,
/// in the order the accounts are declared, or `None` when every constraint
/// holds.
pub open spec fn mint_cnft_first_violation(a: &MintCnftToCollection) -> Option<BubblegumCpiError> {
    if !a.tree_config.is_writable {
        Some(BubblegumCpiError::AccountNotWritable)
    } else if a.leaf_owner.owner@ != system_program_id_bytes() {
        Some(BubblegumCpiError::InvalidAccountOwner)
    } else if a.leaf_delegate.owner@ != system_program_id_bytes() {
        Some(BubblegumCpiError::InvalidAccountOwner)
    } else if !a.merkle_tree.is_writable {
        Some(BubblegumCpiError::AccountNotWritable)
    } else if !a.payer.is_writable {
        Some(BubblegumCpiError::AccountNotWritable)
    } else if !a.payer.is_signer {
        Some(BubblegumCpiError::AccountNotSigner)
    } else if !a.tree_creator.is_signer {
        Some(BubblegumCpiError::AccountNotSigner)
    } else if !a.collection_authority.is_signer {
        Some(BubblegumCpiError::AccountNotSigner)
    } else if !collection_mint_ok(a) {
        Some(BubblegumCpiError::InvalidCollectionMint)
    } else if !a.collection_metadata.is_writable {
        Some(BubblegumCpiError::AccountNotWritable)
    } else if a.log_wrapper.key@ != noop_id_bytes() {
        Some(BubblegumCpiError::InvalidProgramAccount)
    } else if a.compression_program.key@ != account_compression_id_bytes() {
        Some(BubblegumCpiError::InvalidProgramAccount)
    } else if a.token_metadata_program.key@ != token_metadata_id_bytes() {
        Some(BubblegumCpiError::InvalidProgramAccount)
    } else if a.system_program.key@ != system_program_id_bytes() {
        Some(BubblegumCpiError::InvalidProgramAccount)
    } else if a.mpl_bubblegum_program.key@ != mpl_bubblegum_id_bytes() {
        Some(BubblegumCpiError::InvalidProgramAccount)
    } else {
        None
    }
}

/// Every constraint of compressed minting holds of the account set.
pub open spec fn mint_cnft_accounts_ok(a: &MintCnftToCollection) -> bool {
    mint_cnft_first_violation(a) is None
}

/// The assembled downstream compressed-mint call.
#[derive(Debug)]
pub struct MintToCollectionV1Call {
    /// The compressed-NFT minting program the call targets.
    pub program_id: Pubkey,
    /// The call's ordered account list.
    pub accounts: Vec<CallAccount>,
    /// The metadata payload of the new leaf.
    pub metadata: MetadataArgs,
}

/// The new leaf's metadata: the given name and URI, the fixed symbol tag and
/// royalty, mutable, no primary sale, no edition nonce, the non-fungible
/// standard, the original token program, membership of the given collection
/// left unverified, and a single verified creator entry attributing the full
/// share to the tree creator.
pub open spec fn leaf_metadata_correct(
    m: &MetadataArgs,
    a: &MintCnftToCollection,
    uri: Seq<char>,
    name: Seq<char>,
) -> bool {
    &&& m.name@ == name
    &&& m.uri@ == uri
    &&& m.symbol@ == "cNFT"@
    &&& m.seller_fee_basis_points == SELLER_FEE_BASIS_POINTS
    &&& !m.primary_sale_happened
    &&& m.is_mutable
    &&& m.edition_nonce is None
    &&& m.token_standard == Some(TokenStandardKind::NonFungible)
    &&& m.collection matches Some(col) && col.key@ == a.collection_mint.key@ && !col.verified
    &&& m.token_program_version is Original
    &&& m.creators@.len() == 1
    &&& m.creators@[0].address@ == a.tree_creator.key@
    &&& m.creators@[0].verified
    &&& m.creators@[0].share == 100
}

/// The call carries the account set in the downstream program's expected
/// order and flags — the absent collection-authority-record slot is filled
/// with the minting program's own address, as the downstream interface
/// prescribes, and the tree creator stands in the delegate-proof slot — and
/// the leaf's metadata payload.
pub open spec fn mint_cnft_call_correct(
    c: &MintToCollectionV1Call,
    a: &MintCnftToCollection,
    uri: Seq<char>,
    name: Seq<char>,
) -> bool {
    &&& c.program_id@ == mpl_bubblegum_id_bytes()
    &&& c.accounts@.len() == 16
    &&& call_account_matches(c.accounts@[0], a.tree_config.key@, false, true)
    &&& call_account_matches(c.accounts@[1], a.leaf_owner.key@, false, false)
    &&& call_account_matches(c.accounts@[2], a.leaf_delegate.key@, false, false)
    &&& call_account_matches(c.accounts@[3], a.merkle_tree.key@, false, true)
    &&& call_account_matches(c.accounts@[4], a.payer.key@, true, false)
    &&& call_account_matches(c.accounts@[5], a.tree_creator.key@, true, false)
    &&& call_account_matches(c.accounts@[6], a.collection_authority.key@, true, false)
    &&& call_account_matches(c.accounts@[7], mpl_bubblegum_id_bytes(), false, false)
    &&& call_account_matches(c.accounts@[8], a.collection_mint.key@, false, false)
    &&& call_account_matches(c.accounts@[9], a.collection_metadata.key@, false, true)
    &&& call_account_matches(c.accounts@[10], a.edition_account.key@, false, false)
    &&& call_account_matches(c.accounts@[11], a.tree_creator.key@, false, false)
    &&& call_account_matches(c.accounts@[12], a.log_wrapper.key@, false, false)
    &&& call_account_matches(c.accounts@[13], a.compression_program.key@, false, false)
    &&& call_account_matches(c.accounts@[14], a.token_metadata_program.key@, false, false)
    &&& call_account_matches(c.accounts@[15], a.system_program.key@, false, false)
    &&& leaf_metadata_correct(&c.metadata, a, uri, name)
}

/// Validates the account set of compressed minting and assembles the
/// downstream compressed-mint call that appends one new leaf, tagged to the
/// given collection with membership left unverified. Returns the first
/// violated constraint instead; nothing is assembled then, so a rejected
/// instruction issues no downstream call.
pub fn mint_comp_nft_to_collection(
    accounts: &MintCnftToCollection,
    uri: &str,
    name: &str,
) -> (r: Result<MintToCollectionV1Call, BubblegumCpiError>)
    ensures
        r is Ok <==> mint_cnft_accounts_ok(accounts),
        r matches Err(e) ==> mint_cnft_first_violation(accounts) == Some(e),
        r matches Ok(c) ==> mint_cnft_call_correct(&c, accounts, uri@, name@),
{
    if !accounts.tree_config.is_writable {
        return Err(BubblegumCpiError::AccountNotWritable);
    }
    if !pubkey_eq(&accounts.leaf_owner.owner, &system_program_id()) {
        return Err(BubblegumCpiError::InvalidAccountOwner);
    }
    if !pubkey_eq(&accounts.leaf_delegate.owner, &system_program_id()) {
        return Err(BubblegumCpiError::InvalidAccountOwner);
    }
    if !accounts.merkle_tree.is_writable {
        return Err(BubblegumCpiError::AccountNotWritable);
    }
    if !accounts.payer.is_writable {
        return Err(BubblegumCpiError::AccountNotWritable);
    }
    if !accounts.payer.is_signer {
        return Err(BubblegumCpiError::AccountNotSigner);
    }
    if !accounts.tree_creator.is_signer {
        return Err(BubblegumCpiError::AccountNotSigner);
    }
    if !accounts.collection_authority.is_signer {
        return Err(BubblegumCpiError::AccountNotSigner);
    }
    if !pubkey_eq(&accounts.collection_mint.owner, &token_program_id()) {
        return Err(BubblegumCpiError::InvalidCollectionMint);
    }
    let authority_matches: bool = match unpack_mint(&accounts.collection_mint.data) {
        Some(mint) => match &mint.mint_authority {
            Some(authority) => pubkey_eq(authority, &accounts.edition_account.key),
            None => false,
        },
        None => false,
    };
    if !authority_matches {
        return Err(BubblegumCpiError::InvalidCollectionMint);
    }
    if !accounts.collection_metadata.is_writable {
        return Err(BubblegumCpiError::AccountNotWritable);
    }
    if !pubkey_eq(&accounts.log_wrapper.key, &noop_id()) {
        return Err(BubblegumCpiError::InvalidProgramAccount);
    }
    if !pubkey_eq(&accounts.compression_program.key, &account_compression_id()) {
        return Err(BubblegumCpiError::InvalidProgramAccount);
    }
    if !pubkey_eq(&accounts.token_metadata_program.key, &token_metadata_id()) {
        return Err(BubblegumCpiError::InvalidProgramAccount);
    }
    if !pubkey_eq(&accounts.system_program.key, &system_program_id()) {
        return Err(BubblegumCpiError::InvalidProgramAccount);
    }
    if !pubkey_eq(&accounts.mpl_bubblegum_program.key, &mpl_bubblegum_id()) {
        return Err(BubblegumCpiError::InvalidProgramAccount);
    }
    let bubblegum = mpl_bubblegum_id();
    let mut creators: Vec<Creator> = Vec::new();
    creators.push(Creator { address: accounts.tree_creator.key, verified: true, share: 100 });
    let metadata = MetadataArgs {
        name: name.to_owned(),
        symbol: "cNFT".to_owned(),
        uri: uri.to_owned(),
        seller_fee_basis_points: SELLER_FEE_BASIS_POINTS,
        primary_sale_happened: false,
        is_mutable: true,
        edition_nonce: None,
        token_standard: Some(TokenStandardKind::NonFungible),
        collection: Some(Collection { key: accounts.collection_mint.key, verified: false }),
        token_program_version: TokenProgramVersion::Original,
        creators,
    };
    let mut metas: Vec<CallAccount> = Vec::new();
    metas.push(call_account(&accounts.tree_config.key, false, true));
    metas.push(call_account(&accounts.leaf_owner.key, false, false));
    metas.push(call_account(&accounts.leaf_delegate.key, false, false));
    metas.push(call_account(&accounts.merkle_tree.key, false, true));
    metas.push(call_account(&accounts.payer.key, true, false));
    metas.push(call_account(&accounts.tree_creator.key, true, false));
    metas.push(call_account(&accounts.collection_authority.key, true, false));
    metas.push(call_account(&bubblegum, false, false));
    metas.push(call_account(&accounts.collection_mint.key, false, false));
    metas.push(call_account(&accounts.collection_metadata.key, false, true));
    metas.push(call_account(&accounts.edition_account.key, false, false));
    metas.push(call_account(&accounts.tree_creator.key, false, false));
    metas.push(call_account(&accounts.log_wrapper.key, false, false));
    metas.push(call_account(&accounts.compression_program.key, false, false));
    metas.push(call_account(&accounts.token_metadata_program.key, false, false));
    metas.push(call_account(&accounts.system_program.key, false, false));
    Ok(MintToCollectionV1Call { program_id: bubblegum, accounts: metas, metadata })
}

} // verus!
