//! Assembly and validation layer for minting compressed NFTs into a verified
//! collection.
//!
//! The crate validates instruction arguments and account sets against the
//! ownership, emptiness, signer and address-derivation constraints that the
//! three downstream programs (account compression, compressed-NFT minting,
//! token metadata) expect, and assembles the full parameter set of each
//! downstream call before it is issued. The host that owns the live account
//! handles performs the calls; everything decided here is proved.

pub mod account;
pub mod call;
pub mod create_collection_nft;
pub mod create_tree;
pub mod error;
pub mod key;
pub mod mint_cnft_to_collection;
pub mod utils;

pub use account::AccountView;
pub use create_collection_nft::{CollectionNftCalls, CreateCollectionNft, create_collection_nft};
pub use create_tree::{CreateTreeConfigCall, CreateTreeCpi, create_tree};
pub use error::BubblegumCpiError;
pub use key::{MplBubblegumProgram, Pubkey, TokenMetadataProgram};
pub use mint_cnft_to_collection::{MintCnftToCollection, MintToCollectionV1Call,
    mint_comp_nft_to_collection};
pub use utils::{validate_name, validate_uri};
