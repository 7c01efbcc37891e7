//! Creation of a new compressed-NFT tree: the pre-invocation account checks
//! and the assembly of the downstream tree-config call.

use vstd::prelude::*;
use crate::account::{AccountView, all_zero};
use crate::call::{CallAccount, call_account, call_account_matches};
use crate::error::BubblegumCpiError;
use crate::key::{Pubkey, account_compression_id, account_compression_id_bytes, mpl_bubblegum_id,
    mpl_bubblegum_id_bytes, noop_id, noop_id_bytes, pubkey_eq, system_program_id,
    system_program_id_bytes};

verus! {

/// The account set of tree creation.
#[derive(Debug)]
pub struct CreateTreeCpi {
    /// The tree's config account, initialized by the downstream program.
    pub tree_authority: AccountView,
    /// The pre-allocated, zero-filled account that becomes the merkle tree.
    pub merkle_tree: AccountView,
    /// The account funding rent.
    pub payer: AccountView,
    /// The signer that becomes the tree's administrative authority.
    pub tree_creator: AccountView,
    /// The logging program.
    pub log_wrapper: AccountView,
    /// The account-compression program.
    pub compression_program: AccountView,
    /// The compressed-NFT minting program.
    pub mpl_bubblegum_program: AccountView,
    /// The system program.
    pub system_program: AccountView,
}

/// The first constraint of tree creation that the account set violates, in
/// the order the accounts are declared, or `None` when every constraint
/// holds.
pub open spec fn create_tree_first_violation(a: &CreateTreeCpi) -> Option<BubblegumCpiError> {
    if !a.tree_authority.is_writable {
        Some(BubblegumCpiError::AccountNotWritable)
    } else if !all_zero(a.merkle_tree.data@) {
        Some(BubblegumCpiError::AccountNotZeroInitialized)
    } else if !a.merkle_tree.is_signer {
        Some(BubblegumCpiError::AccountNotSigner)
    } else if !a.payer.is_writable {
        Some(BubblegumCpiError::AccountNotWritable)
    } else if !a.payer.is_signer {
        Some(BubblegumCpiError::AccountNotSigner)
    } else if !a.tree_creator.is_signer {
        Some(BubblegumCpiError::AccountNotSigner)
    } else if a.log_wrapper.key@ != noop_id_bytes() {
        Some(BubblegumCpiError::InvalidProgramAccount)
    } else if a.compression_program.key@ != account_compression_id_bytes() {
        Some(BubblegumCpiError::InvalidProgramAccount)
    } else if a.mpl_bubblegum_program.key@ != mpl_bubblegum_id_bytes() {
        Some(BubblegumCpiError::InvalidProgramAccount)
    } else if a.system_program.key@ != system_program_id_bytes() {
        Some(BubblegumCpiError::InvalidProgramAccount)
    } else {
        None
    }
}

/// Every constraint of tree creation holds of the account set.
pub open spec fn create_tree_accounts_ok(a: &CreateTreeCpi) -> bool {
    create_tree_first_violation(a) is None
}

/// The assembled downstream tree-config call.
#[derive(Debug)]
pub struct CreateTreeConfigCall {
    /// The compressed-NFT minting program the call targets.
    pub program_id: Pubkey,
    /// The call's ordered account list.
    pub accounts: Vec<CallAccount>,
    /// The tree's depth; the tree holds at most two-to-this-power leaves.
    pub max_depth: u32,
    /// The size of the tree's concurrent-change buffer.
    pub max_buffer_size: u32,
    /// Whether non-owners may mint into the tree; left to the downstream
    /// default when absent.
    pub public: Option<bool>,
}

/// The call carries the account set in the downstream program's expected
/// order and flags, and the arguments unchanged.
pub open spec fn create_tree_call_correct(
    c: &CreateTreeConfigCall,
    a: &CreateTreeCpi,
    max_depth: u32,
    max_buffer_size: u32,
    public: Option<bool>,
) -> bool {
    &&& c.program_id@ == mpl_bubblegum_id_bytes()
    &&& c.accounts@.len() == 7
    &&& call_account_matches(c.accounts@[0], a.tree_authority.key@, false, true)
    &&& call_account_matches(c.accounts@[1], a.merkle_tree.key@, false, true)
    &&& call_account_matches(c.accounts@[2], a.payer.key@, true, true)
    &&& call_account_matches(c.accounts@[3], a.tree_creator.key@, true, false)
    &&& call_account_matches(c.accounts@[4], a.log_wrapper.key@, false, false)
    &&& call_account_matches(c.accounts@[5], a.compression_program.key@, false, false)
    &&& call_account_matches(c.accounts@[6], a.system_program.key@, false, false)
    &&& c.max_depth == max_depth
    &&& c.max_buffer_size == max_buffer_size
    &&& c.public == public
}

/// Validates the account set of tree creation and assembles the downstream
/// tree-config call, forwarding `max_depth` and `max_buffer_size` and
/// forwarding `public` only when it was explicitly provided. Returns the
/// first violated constraint instead; nothing is assembled then, so a
/// rejected instruction issues no downstream call.
pub fn create_tree(
    accounts: &CreateTreeCpi,
    max_depth: u32,
    max_buffer_size: u32,
    public: Option<bool>,
) -> (r: Result<CreateTreeConfigCall, BubblegumCpiError>)
    ensures
        r is Ok <==> create_tree_accounts_ok(accounts),
        r matches Err(e) ==> create_tree_first_violation(accounts) == Some(e),
        r matches Ok(c) ==> create_tree_call_correct(&c, accounts, max_depth, max_buffer_size, public),
{
    if !accounts.tree_authority.is_writable {
        return Err(BubblegumCpiError::AccountNotWritable);
    }
    if !accounts.merkle_tree.data_is_zero_filled() {
        return Err(BubblegumCpiError::AccountNotZeroInitialized);
    }
    if !accounts.merkle_tree.is_signer {
        return Err(BubblegumCpiError::AccountNotSigner);
    }
    if !accounts.payer.is_writable {
        return Err(BubblegumCpiError::AccountNotWritable);
    }
    if !accounts.payer.is_signer {
        return Err(BubblegumCpiError::AccountNotSigner);
    }
    if !accounts.tree_creator.is_signer {
        return Err(BubblegumCpiError::AccountNotSigner);
    }
    if !pubkey_eq(&accounts.log_wrapper.key, &noop_id()) {
        return Err(BubblegumCpiError::InvalidProgramAccount);
    }
    if !pubkey_eq(&accounts.compression_program.key, &account_compression_id()) {
        return Err(BubblegumCpiError::InvalidProgramAccount);
    }
    if !pubkey_eq(&accounts.mpl_bubblegum_program.key, &mpl_bubblegum_id()) {
        return Err(BubblegumCpiError::InvalidProgramAccount);
    }
    if !pubkey_eq(&accounts.system_program.key, &system_program_id()) {
        return Err(BubblegumCpiError::InvalidProgramAccount);
    }
    let mut metas: Vec<CallAccount> = Vec::new();
    metas.push(call_account(&accounts.tree_authority.key, false, true));
    metas.push(call_account(&accounts.merkle_tree.key, false, true));
    metas.push(call_account(&accounts.payer.key, true, true));
    metas.push(call_account(&accounts.tree_creator.key, true, false));
    metas.push(call_account(&accounts.log_wrapper.key, false, false));
    metas.push(call_account(&accounts.compression_program.key, false, false));
    metas.push(call_account(&accounts.system_program.key, false, false));
    Ok(CreateTreeConfigCall {
        program_id: mpl_bubblegum_id(),
        accounts: metas,
        max_depth,
        max_buffer_size,
        public,
    })
}

} // verus!
