//! Typed errors raised by argument validation and by the pre-invocation
//! account checks.

use vstd::prelude::*;

verus! {

/// Every way a handler can reject an instruction before the downstream call
/// is assembled. Validation errors are raised before any downstream call is
/// issued, so a rejected instruction leaves every account untouched.
#[derive(Clone, Copy, Debug, PartialEq, Eq, Structural)]
pub enum BubblegumCpiError {
    /// An account that must still be owned by the system program is owned by
    /// some other program.
    InvalidAccountOwner,
    /// The token-metadata account for the new collection mint already holds
    /// data, so it is already claimed by an earlier mint.
    MetadataAccountAlreadyInUse,
    /// The master-edition account for the new collection mint already holds
    /// data, so it is already claimed by an earlier mint.
    MasterEditionAccountAlreadyInUse,
    /// The URI exceeds the metadata program's maximum URI length.
    UriTooLong,
    /// The URI is within the length bound but is not a well-formed URI.
    InvalidUri,
    /// The NFT name is empty after trimming whitespace, or the trimmed name
    /// exceeds the metadata program's maximum name length.
    InvalidNftName,
    /// The supplied associated-token-account address differs from the
    /// canonical derivation for (wallet, mint, token program).
    InvalidAssociatedTokenAccount,
    /// An account that must authorize the instruction did not sign it.
    AccountNotSigner,
    /// An account that the downstream call writes was not marked writable.
    AccountNotWritable,
    /// The merkle-tree account must be supplied pre-allocated and entirely
    /// zero-filled, and it is not.
    AccountNotZeroInitialized,
    /// A program account does not carry the address of the program it must
    /// stand for.
    InvalidProgramAccount,
    /// A sysvar account does not carry the address of the sysvar it must
    /// stand for.
    InvalidSysvarAccount,
    /// The collection mint account does not decode as an initialized token
    /// mint whose authority is the master-edition account.
    InvalidCollectionMint,
}

impl BubblegumCpiError {
    /// The human-readable message of each error.
    pub fn message(&self) -> (r: &'static str)
        ensures
            *self is InvalidAccountOwner ==> r@ == "Invalid Account Owner"@,
            *self is MetadataAccountAlreadyInUse ==> r@ == "Token Metadata account must be empty"@,
            *self is MasterEditionAccountAlreadyInUse ==> r@ == "Master edition account must be empty"@,
            *self is UriTooLong ==> r@ == "Uri is too long"@,
            *self is InvalidUri ==> r@ == "Uri is invalid"@,
            *self is InvalidNftName ==> r@ == "Nft name is invalid"@,
            *self is InvalidAssociatedTokenAccount ==> r@ == "Associated token account is invalid"@,
            *self is AccountNotSigner ==> r@ == "Account must be a signer"@,
            *self is AccountNotWritable ==> r@ == "Account must be writable"@,
            *self is AccountNotZeroInitialized ==> r@ == "Account must be zero initialized"@,
            *self is InvalidProgramAccount ==> r@ == "Program account is invalid"@,
            *self is InvalidSysvarAccount ==> r@ == "Sysvar account is invalid"@,
            *self is InvalidCollectionMint ==> r@ == "Collection mint account is invalid"@,
    {
        match self {
            BubblegumCpiError::InvalidAccountOwner => "Invalid Account Owner",
            BubblegumCpiError::MetadataAccountAlreadyInUse => "Token Metadata account must be empty",
            BubblegumCpiError::MasterEditionAccountAlreadyInUse => "Master edition account must be empty",
            BubblegumCpiError::UriTooLong => "Uri is too long",
            BubblegumCpiError::InvalidUri => "Uri is invalid",
            BubblegumCpiError::InvalidNftName => "Nft name is invalid",
            BubblegumCpiError::InvalidAssociatedTokenAccount => "Associated token account is invalid",
            BubblegumCpiError::AccountNotSigner => "Account must be a signer",
            BubblegumCpiError::AccountNotWritable => "Account must be writable",
            BubblegumCpiError::AccountNotZeroInitialized => "Account must be zero initialized",
            BubblegumCpiError::InvalidProgramAccount => "Program account is invalid",
            BubblegumCpiError::InvalidSysvarAccount => "Sysvar account is invalid",
            BubblegumCpiError::InvalidCollectionMint => "Collection mint account is invalid",
        }
    }
}

} // verus!
