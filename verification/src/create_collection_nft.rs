//! Creation of a collection NFT: name and URI validation, the pre-invocation
//! account checks, and the assembly of the two downstream token-metadata
//! calls (create the non-fungible mint, then mint one unit into the wallet's
//! associated token account).

use vstd::prelude::*;
use crate::account::AccountView;
use crate::call::{CallAccount, PrintSupplyKind, SELLER_FEE_BASIS_POINTS, TokenStandardKind,
    call_account, call_account_matches};
use crate::error::BubblegumCpiError;
use crate::key::{Pubkey, associated_token_program_id, associated_token_program_id_bytes, ata_key,
    derive_associated_token_address, pubkey_eq, rent_sysvar_id, rent_sysvar_id_bytes,
    system_program_id, system_program_id_bytes, token_metadata_id, token_metadata_id_bytes,
    token_program_id, token_program_id_bytes};
use crate::utils::{name_ok, uri_len_ok, uri_ok, uri_parses, validate_name, validate_uri};

verus! {

/// The account set of collection-NFT creation.
#[derive(Debug)]
pub struct CreateCollectionNft {
    /// The new collection mint; it co-signs its own creation.
    pub collection_mint: AccountView,
    /// The account funding rent.
    pub payer: AccountView,
    /// The collection authority, a plain system-owned account.
    pub wallet: AccountView,
    /// The metadata account the downstream program fills; it must still be
    /// unclaimed.
    pub token_metadata: AccountView,
    /// The master-edition account the downstream program fills; it must still
    /// be unclaimed.
    pub master_edition: AccountView,
    /// The wallet's associated token account for the new mint.
    pub associated_token: AccountView,
    /// The token-metadata program.
    pub token_metadata_program: AccountView,
    /// The token program.
    pub token_program: AccountView,
    /// The system program.
    pub system_program: AccountView,
    /// The associated-token-account program.
    pub associated_program: AccountView,
    /// The rent sysvar.
    pub rent: AccountView,
}

/// The first check of collection-NFT creation that fails: the name, then the
/// URI, then each account constraint in declaration order. `None` when
/// everything holds.
pub open spec fn create_collection_first_violation(
    a: &CreateCollectionNft,
    uri: Seq<char>,
    name: Seq<char>,
) -> Option<BubblegumCpiError> {
    if !name_ok(name) {
        Some(BubblegumCpiError::InvalidNftName)
    } else if !uri_len_ok(uri) {
        Some(BubblegumCpiError::UriTooLong)
    } else if !uri_parses(uri) {
        Some(BubblegumCpiError::InvalidUri)
    } else if !a.collection_mint.is_writable {
        Some(BubblegumCpiError::AccountNotWritable)
    } else if !a.collection_mint.is_signer {
        Some(BubblegumCpiError::AccountNotSigner)
    } else if !a.payer.is_writable {
        Some(BubblegumCpiError::AccountNotWritable)
    } else if !a.payer.is_signer {
        Some(BubblegumCpiError::AccountNotSigner)
    } else if a.wallet.owner@ != system_program_id_bytes() {
        Some(BubblegumCpiError::InvalidAccountOwner)
    } else if !a.token_metadata.is_writable {
        Some(BubblegumCpiError::AccountNotWritable)
    } else if a.token_metadata.owner@ != system_program_id_bytes() {
        Some(BubblegumCpiError::InvalidAccountOwner)
    } else if a.token_metadata.data@.len() != 0 {
        Some(BubblegumCpiError::MetadataAccountAlreadyInUse)
    } else if !a.master_edition.is_writable {
        Some(BubblegumCpiError::AccountNotWritable)
    } else if a.master_edition.owner@ != system_program_id_bytes() {
        Some(BubblegumCpiError::InvalidAccountOwner)
    } else if a.master_edition.data@.len() != 0 {
        Some(BubblegumCpiError::MasterEditionAccountAlreadyInUse)
    } else if !a.associated_token.is_writable {
        Some(BubblegumCpiError::AccountNotWritable)
    } else if a.associated_token.key@ != ata_key(a.wallet.key@, a.collection_mint.key@, a.token_program.key@) {
        Some(BubblegumCpiError::InvalidAssociatedTokenAccount)
    } else if a.token_metadata_program.key@ != token_metadata_id_bytes() {
        Some(BubblegumCpiError::InvalidProgramAccount)
    } else if a.token_program.key@ != token_program_id_bytes() {
        Some(BubblegumCpiError::InvalidProgramAccount)
    } else if a.system_program.key@ != system_program_id_bytes() {
        Some(BubblegumCpiError::InvalidProgramAccount)
    } else if a.associated_program.key@ != associated_token_program_id_bytes() {
        Some(BubblegumCpiError::InvalidProgramAccount)
    } else if a.rent.key@ != rent_sysvar_id_bytes() {
        Some(BubblegumCpiError::InvalidSysvarAccount)
    } else {
        None
    }
}

/// Every check of collection-NFT creation passes.
pub open spec fn create_collection_ok(a: &CreateCollectionNft, uri: Seq<char>, name: Seq<char>) -> bool {
    create_collection_first_violation(a, uri, name) is None
}

/// The assembled downstream call that creates the non-fungible mint with its
/// metadata and master edition.
#[derive(Debug)]
pub struct CreateV1Call {
    /// The token-metadata program the call targets.
    pub program_id: Pubkey,
    /// The call's ordered account list.
    pub accounts: Vec<CallAccount>,
    /// The NFT's name.
    pub name: String,
    /// The NFT's metadata URI.
    pub uri: String,
    /// Royalties on secondary sales, in basis points.
    pub seller_fee_basis_points: u16,
    /// The token standard of the new mint.
    pub token_standard: TokenStandardKind,
    /// How many print editions the new mint allows.
    pub print_supply: PrintSupplyKind,
}

/// The assembled downstream call that mints units of the new token.
#[derive(Debug)]
pub struct MintV1Call {
    /// The token-metadata program the call targets.
    pub program_id: Pubkey,
    /// The call's ordered account list.
    pub accounts: Vec<CallAccount>,
    /// How many units are minted.
    pub amount: u64,
}

/// The two downstream calls of collection-NFT creation, issued strictly in
/// sequence; the host aborts the whole transaction if either fails, so both
/// succeed or neither leaves any effect.
#[derive(Debug)]
pub struct CollectionNftCalls {
    /// The first call: create the non-fungible mint.
    pub create: CreateV1Call,
    /// The second call: mint exactly one unit into the wallet's associated
    /// token account.
    pub mint: MintV1Call,
}

/// The create call carries the accounts in the downstream program's expected
/// order and flags, the wallet as both authority and update authority, the
/// validated name and URI, the fixed royalty, the non-fungible standard and
/// a zero print supply.
pub open spec fn create_v1_call_correct(
    c: &CreateV1Call,
    a: &CreateCollectionNft,
    uri: Seq<char>,
    name: Seq<char>,
) -> bool {
    &&& c.program_id@ == token_metadata_id_bytes()
    &&& c.accounts@.len() == 9
    &&& call_account_matches(c.accounts@[0], a.token_metadata.key@, false, true)
    &&& call_account_matches(c.accounts@[1], a.master_edition.key@, false, true)
    &&& call_account_matches(c.accounts@[2], a.collection_mint.key@, true, true)
    &&& call_account_matches(c.accounts@[3], a.wallet.key@, true, false)
    &&& call_account_matches(c.accounts@[4], a.payer.key@, true, true)
    &&& call_account_matches(c.accounts@[5], a.wallet.key@, false, false)
    &&& call_account_matches(c.accounts@[6], a.system_program.key@, false, false)
    &&& call_account_matches(c.accounts@[7], a.rent.key@, false, false)
    &&& call_account_matches(c.accounts@[8], a.token_program.key@, false, false)
    &&& c.name@ == name
    &&& c.uri@ == uri
    &&& c.seller_fee_basis_points == SELLER_FEE_BASIS_POINTS
    &&& c.token_standard is NonFungible
    &&& c.print_supply is Zero
}

/// The mint call carries the accounts in the downstream program's expected
/// order and flags — the optional token-record, delegate-record and
/// authorization-rules slots are filled with the token-metadata program's
/// own address, as the downstream interface prescribes for absent accounts —
/// and mints exactly one unit.
pub open spec fn mint_v1_call_correct(c: &MintV1Call, a: &CreateCollectionNft) -> bool {
    &&& c.program_id@ == token_metadata_id_bytes()
    &&& c.accounts@.len() == 15
    &&& call_account_matches(c.accounts@[0], a.associated_token.key@, false, true)
    &&& call_account_matches(c.accounts@[1], a.wallet.key@, false, false)
    &&& call_account_matches(c.accounts@[2], a.token_metadata.key@, false, false)
    &&& call_account_matches(c.accounts@[3], a.master_edition.key@, false, true)
    &&& call_account_matches(c.accounts@[4], token_metadata_id_bytes(), false, false)
    &&& call_account_matches(c.accounts@[5], a.collection_mint.key@, false, true)
    &&& call_account_matches(c.accounts@[6], a.wallet.key@, true, false)
    &&& call_account_matches(c.accounts@[7], token_metadata_id_bytes(), false, false)
    &&& call_account_matches(c.accounts@[8], a.payer.key@, true, true)
    &&& call_account_matches(c.accounts@[9], a.system_program.key@, false, false)
    &&& call_account_matches(c.accounts@[10], a.rent.key@, false, false)
    &&& call_account_matches(c.accounts@[11], a.token_program.key@, false, false)
    &&& call_account_matches(c.accounts@[12], a.associated_program.key@, false, false)
    &&& call_account_matches(c.accounts@[13], token_metadata_id_bytes(), false, false)
    &&& call_account_matches(c.accounts@[14], token_metadata_id_bytes(), false, false)
    &&& c.amount == 1
}

/// Validates the name, then the URI, then the account set, and assembles the
/// two downstream calls of collection-NFT creation. On any violation the
/// matching error is returned before anything is assembled, so a rejected
/// instruction issues no downstream call and mutates no account.
pub fn create_collection_nft(
    accounts: &CreateCollectionNft,
    uri: &str,
    name: &str,
) -> (r: Result<CollectionNftCalls, BubblegumCpiError>)
    ensures
        r is Ok <==> create_collection_ok(accounts, uri@, name@),
        r matches Err(e) ==> create_collection_first_violation(accounts, uri@, name@) == Some(e),
        r matches Ok(c) ==> {
            &&& create_v1_call_correct(&c.create, accounts, uri@, name@)
            &&& mint_v1_call_correct(&c.mint, accounts)
        },
{
    validate_name(name)?;
    validate_uri(uri)?;
    if !accounts.collection_mint.is_writable {
        return Err(BubblegumCpiError::AccountNotWritable);
    }
    if !accounts.collection_mint.is_signer {
        return Err(BubblegumCpiError::AccountNotSigner);
    }
    if !accounts.payer.is_writable {
        return Err(BubblegumCpiError::AccountNotWritable);
    }
    if !accounts.payer.is_signer {
        return Err(BubblegumCpiError::AccountNotSigner);
    }
    if !pubkey_eq(&accounts.wallet.owner, &system_program_id()) {
        return Err(BubblegumCpiError::InvalidAccountOwner);
    }
    if !accounts.token_metadata.is_writable {
        return Err(BubblegumCpiError::AccountNotWritable);
    }
    if !pubkey_eq(&accounts.token_metadata.owner, &system_program_id()) {
        return Err(BubblegumCpiError::InvalidAccountOwner);
    }
    if !accounts.token_metadata.data_is_empty() {
        return Err(BubblegumCpiError::MetadataAccountAlreadyInUse);
    }
    if !accounts.master_edition.is_writable {
        return Err(BubblegumCpiError::AccountNotWritable);
    }
    if !pubkey_eq(&accounts.master_edition.owner, &system_program_id()) {
        return Err(BubblegumCpiError::InvalidAccountOwner);
    }
    if !accounts.master_edition.data_is_empty() {
        return Err(BubblegumCpiError::MasterEditionAccountAlreadyInUse);
    }
    if !accounts.associated_token.is_writable {
        return Err(BubblegumCpiError::AccountNotWritable);
    }
    let canonical = derive_associated_token_address(
        &accounts.wallet.key,
        &accounts.collection_mint.key,
        &accounts.token_program.key,
    );
    if !pubkey_eq(&accounts.associated_token.key, &canonical) {
        return Err(BubblegumCpiError::InvalidAssociatedTokenAccount);
    }
    if !pubkey_eq(&accounts.token_metadata_program.key, &token_metadata_id()) {
        return Err(BubblegumCpiError::InvalidProgramAccount);
    }
    if !pubkey_eq(&accounts.token_program.key, &token_program_id()) {
        return Err(BubblegumCpiError::InvalidProgramAccount);
    }
    if !pubkey_eq(&accounts.system_program.key, &system_program_id()) {
        return Err(BubblegumCpiError::InvalidProgramAccount);
    }
    if !pubkey_eq(&accounts.associated_program.key, &associated_token_program_id()) {
        return Err(BubblegumCpiError::InvalidProgramAccount);
    }
    if !pubkey_eq(&accounts.rent.key, &rent_sysvar_id()) {
        return Err(BubblegumCpiError::InvalidSysvarAccount);
    }
    let metadata_program = token_metadata_id();
    let mut create_metas: Vec<CallAccount> = Vec::new();
    create_metas.push(call_account(&accounts.token_metadata.key, false, true));
    create_metas.push(call_account(&accounts.master_edition.key, false, true));
    create_metas.push(call_account(&accounts.collection_mint.key, true, true));
    create_metas.push(call_account(&accounts.wallet.key, true, false));
    create_metas.push(call_account(&accounts.payer.key, true, true));
    create_metas.push(call_account(&accounts.wallet.key, false, false));
    create_metas.push(call_account(&accounts.system_program.key, false, false));
    create_metas.push(call_account(&accounts.rent.key, false, false));
    create_metas.push(call_account(&accounts.token_program.key, false, false));
    let create = CreateV1Call {
        program_id: metadata_program,
        accounts: create_metas,
        name: name.to_owned(),
        uri: uri.to_owned(),
        seller_fee_basis_points: SELLER_FEE_BASIS_POINTS,
        token_standard: TokenStandardKind::NonFungible,
        print_supply: PrintSupplyKind::Zero,
    };
    let mut mint_metas: Vec<CallAccount> = Vec::new();
    mint_metas.push(call_account(&accounts.associated_token.key, false, true));
    mint_metas.push(call_account(&accounts.wallet.key, false, false));
    mint_metas.push(call_account(&accounts.token_metadata.key, false, false));
    mint_metas.push(call_account(&accounts.master_edition.key, false, true));
    mint_metas.push(call_account(&metadata_program, false, false));
    mint_metas.push(call_account(&accounts.collection_mint.key, false, true));
    mint_metas.push(call_account(&accounts.wallet.key, true, false));
    mint_metas.push(call_account(&metadata_program, false, false));
    mint_metas.push(call_account(&accounts.payer.key, true, true));
    mint_metas.push(call_account(&accounts.system_program.key, false, false));
    mint_metas.push(call_account(&accounts.rent.key, false, false));
    mint_metas.push(call_account(&accounts.token_program.key, false, false));
    mint_metas.push(call_account(&accounts.associated_program.key, false, false));
    mint_metas.push(call_account(&metadata_program, false, false));
    mint_metas.push(call_account(&metadata_program, false, false));
    let mint = MintV1Call {
        program_id: metadata_program,
        accounts: mint_metas,
        amount: 1,
    };
    Ok(CollectionNftCalls { create, mint })
}

/// A collection NFT is never created over a token-metadata or master-edition
/// account that already holds data, whatever the name, the URI and the other
/// accounts look like.
pub proof fn lemma_nonempty_accounts_rejected(
    a: &CreateCollectionNft,
    uri: Seq<char>,
    name: Seq<char>,
)
    requires
        a.token_metadata.data@.len() != 0 || a.master_edition.data@.len() != 0,
    ensures
        create_collection_first_violation(a, uri, name) is Some,
{
}

/// An associated-token address that differs from the canonical derivation
/// for the wallet, mint and token program is always rejected, whatever the
/// name, the URI and the other accounts look like; nothing is assembled, so
/// no downstream call is issued.
pub proof fn lemma_ata_mismatch_rejected(a: &CreateCollectionNft, uri: Seq<char>, name: Seq<char>)
    requires
        a.associated_token.key@ != ata_key(a.wallet.key@, a.collection_mint.key@, a.token_program.key@),
    ensures
        create_collection_first_violation(a, uri, name) is Some,
{
}

} // verus!
