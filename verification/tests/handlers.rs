//! End-to-end scenarios for the three instruction handlers.

use bubblegum_cpi::account::AccountView;
use bubblegum_cpi::call::{PrintSupplyKind, TokenProgramVersion, TokenStandardKind};
use bubblegum_cpi::{
    BubblegumCpiError, CreateCollectionNft, CreateTreeCpi, MintCnftToCollection, Pubkey,
    create_collection_nft, create_tree, mint_comp_nft_to_collection,
};
use spl_token::solana_program::program_option::COption;
use spl_token::solana_program::program_pack::Pack;
use spl_token::solana_program::pubkey::Pubkey as SplPubkey;

fn account(key: [u8; 32], owner: [u8; 32], data: Vec<u8>, signer: bool, writable: bool) -> AccountView {
    AccountView {
        key: Pubkey::new(key),
        owner: Pubkey::new(owner),
        data,
        is_signer: signer,
        is_writable: writable,
    }
}

fn system_owned(key: [u8; 32], signer: bool, writable: bool) -> AccountView {
    account(key, solana_program::system_program::ID.to_bytes(), Vec::new(), signer, writable)
}

fn program_account(id: [u8; 32]) -> AccountView {
    account(id, [0u8; 32], Vec::new(), false, false)
}

fn valid_tree_accounts() -> CreateTreeCpi {
    CreateTreeCpi {
        tree_authority: system_owned([1u8; 32], false, true),
        merkle_tree: account([2u8; 32], [0u8; 32], vec![0u8; 128], true, true),
        payer: system_owned([3u8; 32], true, true),
        tree_creator: system_owned([4u8; 32], true, false),
        log_wrapper: program_account(spl_noop::ID.to_bytes()),
        compression_program: program_account(spl_account_compression::ID.to_bytes()),
        mpl_bubblegum_program: program_account(mpl_bubblegum::ID.to_bytes()),
        system_program: program_account(solana_program::system_program::ID.to_bytes()),
    }
}

#[test]
fn create_tree_succeeds_on_a_fresh_zeroed_tree() {
    let accounts = valid_tree_accounts();
    let call = create_tree(&accounts, 14, 64, None).unwrap();
    assert_eq!(call.max_depth, 14);
    assert_eq!(call.max_buffer_size, 64);
    // An absent flag is not forwarded; the downstream default applies.
    assert_eq!(call.public, None);
    assert_eq!(call.program_id.to_bytes(), mpl_bubblegum::ID.to_bytes());
    assert_eq!(call.accounts.len(), 7);
    assert_eq!(call.accounts[0].key.to_bytes(), [1u8; 32]);
    assert!(call.accounts[0].is_writable && !call.accounts[0].is_signer);
    assert_eq!(call.accounts[1].key.to_bytes(), [2u8; 32]);
    assert_eq!(call.accounts[2].key.to_bytes(), [3u8; 32]);
    assert!(call.accounts[2].is_signer && call.accounts[2].is_writable);
    assert_eq!(call.accounts[3].key.to_bytes(), [4u8; 32]);
    assert!(call.accounts[3].is_signer && !call.accounts[3].is_writable);
    assert_eq!(call.accounts[6].key.to_bytes(), solana_program::system_program::ID.to_bytes());
}

#[test]
fn create_tree_forwards_an_explicit_public_flag() {
    let accounts = valid_tree_accounts();
    let call = create_tree(&accounts, 5, 8, Some(true)).unwrap();
    assert_eq!(call.public, Some(true));
}

#[test]
fn create_tree_rejects_a_nonzero_tree_account() {
    let mut accounts = valid_tree_accounts();
    accounts.merkle_tree.data[17] = 1;
    let err = create_tree(&accounts, 14, 64, None).unwrap_err();
    assert_eq!(err, BubblegumCpiError::AccountNotZeroInitialized);
}

#[test]
fn create_tree_rejects_an_unsigned_tree_account() {
    let mut accounts = valid_tree_accounts();
    accounts.merkle_tree.is_signer = false;
    let err = create_tree(&accounts, 14, 64, None).unwrap_err();
    assert_eq!(err, BubblegumCpiError::AccountNotSigner);
}

#[test]
fn create_tree_rejects_a_read_only_tree_authority() {
    let mut accounts = valid_tree_accounts();
    accounts.tree_authority.is_writable = false;
    let err = create_tree(&accounts, 14, 64, None).unwrap_err();
    assert_eq!(err, BubblegumCpiError::AccountNotWritable);
}

#[test]
fn create_tree_rejects_a_wrong_program_account() {
    let mut accounts = valid_tree_accounts();
    accounts.compression_program = program_account([42u8; 32]);
    let err = create_tree(&accounts, 14, 64, None).unwrap_err();
    assert_eq!(err, BubblegumCpiError::InvalidProgramAccount);
}

#[allow(deprecated)]
fn derive_ata(wallet: [u8; 32], mint: [u8; 32]) -> [u8; 32] {
    spl_associated_token_account::get_associated_token_address_with_program_id(
        &SplPubkey::new_from_array(wallet),
        &SplPubkey::new_from_array(mint),
        &SplPubkey::new_from_array(spl_token::ID.to_bytes()),
    )
    .to_bytes()
}

fn valid_collection_accounts() -> CreateCollectionNft {
    let wallet = [7u8; 32];
    let mint = [9u8; 32];
    CreateCollectionNft {
        collection_mint: system_owned(mint, true, true),
        payer: system_owned([3u8; 32], true, true),
        wallet: system_owned(wallet, false, false),
        token_metadata: system_owned([10u8; 32], false, true),
        master_edition: system_owned([11u8; 32], false, true),
        associated_token: account(derive_ata(wallet, mint), [0u8; 32], Vec::new(), false, true),
        token_metadata_program: program_account(mpl_token_metadata::ID.to_bytes()),
        token_program: program_account(spl_token::ID.to_bytes()),
        system_program: program_account(solana_program::system_program::ID.to_bytes()),
        associated_program: program_account(spl_associated_token_account::ID.to_bytes()),
        rent: program_account(solana_program::sysvar::rent::ID.to_bytes()),
    }
}

#[test]
fn create_collection_nft_succeeds_on_fresh_accounts() {
    let accounts = valid_collection_accounts();
    let calls =
        create_collection_nft(&accounts, "https://example.com/meta.json", "My Collection").unwrap();
    assert_eq!(calls.create.program_id.to_bytes(), mpl_token_metadata::ID.to_bytes());
    assert_eq!(calls.create.accounts.len(), 9);
    assert_eq!(calls.create.name, "My Collection");
    assert_eq!(calls.create.uri, "https://example.com/meta.json");
    assert_eq!(calls.create.seller_fee_basis_points, 550);
    assert!(matches!(calls.create.token_standard, TokenStandardKind::NonFungible));
    assert!(matches!(calls.create.print_supply, PrintSupplyKind::Zero));
    // The new mint co-signs its own creation.
    assert_eq!(calls.create.accounts[2].key.to_bytes(), [9u8; 32]);
    assert!(calls.create.accounts[2].is_signer && calls.create.accounts[2].is_writable);
    // Exactly one unit is minted into the wallet's associated token account.
    assert_eq!(calls.mint.amount, 1);
    assert_eq!(calls.mint.accounts.len(), 15);
    assert_eq!(calls.mint.accounts[0].key.to_bytes(), derive_ata([7u8; 32], [9u8; 32]));
    assert!(calls.mint.accounts[0].is_writable);
    assert_eq!(calls.mint.accounts[1].key.to_bytes(), [7u8; 32]);
    assert!(calls.mint.accounts[6].is_signer);
}

#[test]
fn create_collection_nft_rejects_an_empty_name_before_touching_accounts() {
    let accounts = valid_collection_accounts();
    let err = create_collection_nft(&accounts, "https://example.com/meta.json", "").unwrap_err();
    assert_eq!(err, BubblegumCpiError::InvalidNftName);
}

#[test]
fn create_collection_nft_rejects_a_used_metadata_account() {
    let mut accounts = valid_collection_accounts();
    accounts.token_metadata.data = vec![1u8; 4];
    let err = create_collection_nft(&accounts, "https://example.com/meta.json", "My Collection")
        .unwrap_err();
    assert_eq!(err, BubblegumCpiError::MetadataAccountAlreadyInUse);
}

#[test]
fn create_collection_nft_rejects_a_used_master_edition_account() {
    let mut accounts = valid_collection_accounts();
    accounts.master_edition.data = vec![1u8; 4];
    let err = create_collection_nft(&accounts, "https://example.com/meta.json", "My Collection")
        .unwrap_err();
    assert_eq!(err, BubblegumCpiError::MasterEditionAccountAlreadyInUse);
}

#[test]
fn create_collection_nft_rejects_a_used_metadata_account_even_with_a_bad_name() {
    let mut accounts = valid_collection_accounts();
    accounts.token_metadata.data = vec![1u8; 4];
    assert!(create_collection_nft(&accounts, "https://example.com/meta.json", "").is_err());
}

#[test]
fn create_collection_nft_rejects_a_foreign_owner_of_the_metadata_account() {
    let mut accounts = valid_collection_accounts();
    accounts.token_metadata.owner = Pubkey::new([42u8; 32]);
    let err = create_collection_nft(&accounts, "https://example.com/meta.json", "My Collection")
        .unwrap_err();
    assert_eq!(err, BubblegumCpiError::InvalidAccountOwner);
}

#[test]
fn create_collection_nft_rejects_a_mismatched_associated_token_account() {
    let mut accounts = valid_collection_accounts();
    // Any address other than the canonical derivation must be rejected.
    accounts.associated_token.key = Pubkey::new([7u8; 32]);
    let err = create_collection_nft(&accounts, "https://example.com/meta.json", "My Collection")
        .unwrap_err();
    assert_eq!(err, BubblegumCpiError::InvalidAssociatedTokenAccount);
}

#[test]
fn create_collection_nft_rejects_a_wrong_rent_sysvar_account() {
    let mut accounts = valid_collection_accounts();
    accounts.rent = program_account([42u8; 32]);
    let err = create_collection_nft(&accounts, "https://example.com/meta.json", "My Collection")
        .unwrap_err();
    assert_eq!(err, BubblegumCpiError::InvalidSysvarAccount);
}

fn packed_mint(authority: [u8; 32]) -> Vec<u8> {
    let mint = spl_token::state::Mint {
        mint_authority: COption::Some(SplPubkey::new_from_array(authority)),
        supply: 1,
        decimals: 0,
        is_initialized: true,
        freeze_authority: COption::None,
    };
    let mut data = vec![0u8; 82];
    spl_token::state::Mint::pack(mint, &mut data).unwrap();
    data
}

fn valid_mint_accounts() -> MintCnftToCollection {
    let edition = [21u8; 32];
    MintCnftToCollection {
        tree_config: system_owned([1u8; 32], false, true),
        leaf_owner: system_owned([5u8; 32], false, false),
        leaf_delegate: system_owned([5u8; 32], false, false),
        merkle_tree: system_owned([2u8; 32], false, true),
        payer: system_owned([3u8; 32], true, true),
        tree_creator: system_owned([4u8; 32], true, false),
        collection_authority: system_owned([7u8; 32], true, false),
        collection_mint: account([9u8; 32], spl_token::ID.to_bytes(), packed_mint(edition), false, false),
        collection_metadata: system_owned([20u8; 32], false, true),
        edition_account: system_owned(edition, false, false),
        log_wrapper: program_account(spl_noop::ID.to_bytes()),
        compression_program: program_account(spl_account_compression::ID.to_bytes()),
        token_metadata_program: program_account(mpl_token_metadata::ID.to_bytes()),
        system_program: program_account(solana_program::system_program::ID.to_bytes()),
        mpl_bubblegum_program: program_account(mpl_bubblegum::ID.to_bytes()),
    }
}

#[test]
fn mint_comp_nft_appends_one_unverified_leaf() {
    let accounts = valid_mint_accounts();
    let call =
        mint_comp_nft_to_collection(&accounts, "https://example.com/leaf.json", "Leaf #1").unwrap();
    assert_eq!(call.program_id.to_bytes(), mpl_bubblegum::ID.to_bytes());
    // One downstream call appends exactly one leaf to the tree.
    assert_eq!(call.accounts.len(), 16);
    assert_eq!(call.accounts[3].key.to_bytes(), [2u8; 32]);
    assert!(call.accounts[3].is_writable);
    let metadata = &call.metadata;
    assert_eq!(metadata.name, "Leaf #1");
    assert_eq!(metadata.uri, "https://example.com/leaf.json");
    assert_eq!(metadata.symbol, "cNFT");
    assert_eq!(metadata.seller_fee_basis_points, 550);
    assert!(!metadata.primary_sale_happened);
    assert!(metadata.is_mutable);
    assert!(metadata.edition_nonce.is_none());
    assert!(matches!(metadata.token_standard, Some(TokenStandardKind::NonFungible)));
    assert!(matches!(metadata.token_program_version, TokenProgramVersion::Original));
    // The leaf is tagged to the collection with membership left unverified.
    let collection = metadata.collection.as_ref().unwrap();
    assert_eq!(collection.key.to_bytes(), [9u8; 32]);
    assert!(!collection.verified);
    // A single verified creator entry attributes the full share to the tree
    // creator.
    assert_eq!(metadata.creators.len(), 1);
    assert_eq!(metadata.creators[0].address.to_bytes(), [4u8; 32]);
    assert!(metadata.creators[0].verified);
    assert_eq!(metadata.creators[0].share, 100);
    // The absent collection-authority-record slot carries the minting
    // program's own address.
    assert_eq!(call.accounts[7].key.to_bytes(), mpl_bubblegum::ID.to_bytes());
    // The tree creator stands in the delegate-proof slot.
    assert_eq!(call.accounts[11].key.to_bytes(), [4u8; 32]);
}

#[test]
fn mint_comp_nft_rejects_a_mint_with_a_foreign_authority() {
    let mut accounts = valid_mint_accounts();
    accounts.collection_mint.data = packed_mint([42u8; 32]);
    let err = mint_comp_nft_to_collection(&accounts, "https://example.com/leaf.json", "Leaf #1")
        .unwrap_err();
    assert_eq!(err, BubblegumCpiError::InvalidCollectionMint);
}

#[test]
fn mint_comp_nft_rejects_an_uninitialized_mint() {
    let mut accounts = valid_mint_accounts();
    accounts.collection_mint.data = vec![0u8; 82];
    let err = mint_comp_nft_to_collection(&accounts, "https://example.com/leaf.json", "Leaf #1")
        .unwrap_err();
    assert_eq!(err, BubblegumCpiError::InvalidCollectionMint);
}

#[test]
fn mint_comp_nft_rejects_truncated_mint_data() {
    let mut accounts = valid_mint_accounts();
    accounts.collection_mint.data = vec![1u8; 81];
    let err = mint_comp_nft_to_collection(&accounts, "https://example.com/leaf.json", "Leaf #1")
        .unwrap_err();
    assert_eq!(err, BubblegumCpiError::InvalidCollectionMint);
}

#[test]
fn mint_comp_nft_rejects_a_mint_owned_by_another_program() {
    let mut accounts = valid_mint_accounts();
    accounts.collection_mint.owner = Pubkey::new([42u8; 32]);
    let err = mint_comp_nft_to_collection(&accounts, "https://example.com/leaf.json", "Leaf #1")
        .unwrap_err();
    assert_eq!(err, BubblegumCpiError::InvalidCollectionMint);
}

#[test]
fn mint_comp_nft_rejects_an_unsigned_collection_authority() {
    let mut accounts = valid_mint_accounts();
    accounts.collection_authority.is_signer = false;
    let err = mint_comp_nft_to_collection(&accounts, "https://example.com/leaf.json", "Leaf #1")
        .unwrap_err();
    assert_eq!(err, BubblegumCpiError::AccountNotSigner);
}
