//! Accounts as the validation pass sees them: address, owner, raw data and
//! the signer/writable flags the transaction declared, plus the decoded view
//! of a token-mint account.

use vstd::prelude::*;
use crate::key::Pubkey;
use spl_token::solana_program::program_pack::Pack;

verus! {

/// One account of an instruction's account set, reduced to the plain values
/// the pre-invocation checks read.
#[derive(Debug)]
pub struct AccountView {
    /// The account's address.
    pub key: Pubkey,
    /// The program that owns the account.
    pub owner: Pubkey,
    /// The account's stored bytes.
    pub data: Vec<u8>,
    /// Whether the account signed the transaction.
    pub is_signer: bool,
    /// Whether the transaction declared the account writable.
    pub is_writable: bool,
}

/// Every byte of `d` is zero.
pub open spec fn all_zero(d: Seq<u8>) -> bool {
    forall|i: int| 0 <= i < d.len() ==> d[i] == 0
}

impl AccountView {
    /// The account holds no data at all.
    pub fn data_is_empty(&self) -> (r: bool)
        ensures
            r == (self.data@.len() == 0),
    {
        self.data.len() == 0
    }

    /// The account's data is entirely zero-filled, as freshly allocated,
    /// unwritten storage is.
    pub fn data_is_zero_filled(&self) -> (r: bool)
        ensures
            r == all_zero(self.data@),
    {
        let n = self.data.len();
        let mut i: usize = 0;
        while i < n
            invariant
                n == self.data@.len(),
                i <= n,
                forall|j: int| 0 <= j < i ==> self.data@[j] == 0,
            decreases n - i,
        {
            if self.data[i] != 0 {
                return false;
            }
            i += 1;
        }
        true
    }
}

/// What the account checks read of a token-mint account, decoded from its
/// 82-byte layout.
#[derive(Debug)]
pub struct MintData {
    /// The authority allowed to mint new tokens, if one remains.
    pub mint_authority: Option<Pubkey>,
}

/// The four bytes at `off` encode an optional-key tag: a little-endian 0
/// (absent) or 1 (present).
pub open spec fn coption_tag_valid(d: Seq<u8>, off: int) -> bool {
    &&& (d[off] == 0 || d[off] == 1)
    &&& d[off + 1] == 0
    &&& d[off + 2] == 0
    &&& d[off + 3] == 0
}

/// `d` is the 82-byte layout of a token mint: an optional mint authority,
/// the supply, the decimals, an initialized flag and an optional freeze
/// authority.
pub open spec fn mint_data_well_formed(d: Seq<u8>) -> bool {
    &&& d.len() == 82
    &&& coption_tag_valid(d, 0)
    &&& (d[45] == 0 || d[45] == 1)
    &&& coption_tag_valid(d, 46)
}

/// `d` decodes as a mint that has been initialized.
pub open spec fn mint_data_initialized(d: Seq<u8>) -> bool {
    mint_data_well_formed(d) && d[45] == 1
}

/// Relies on `spl_token::state::Mint::unpack`: it decodes the fixed 82-byte
/// mint layout (optional mint authority at 0..36, initialized flag at 45,
/// optional freeze authority at 46..82) and fails on any other length, on an
/// invalid optional-key tag or flag, and on an uninitialized mint.
#[verifier::external_body]
pub(crate) fn unpack_mint(data: &Vec<u8>) -> (r: Option<MintData>)
    ensures
        r is Some <==> mint_data_initialized(data@),
        r matches Some(m) ==> {
            &&& m.mint_authority is Some <==> data@[0] == 1
            &&& m.mint_authority matches Some(a) ==> a@ == data@.subrange(4, 36)
        },
{
    match spl_token::state::Mint::unpack(data.as_slice()) {
        Ok(m) => Some(MintData {
            mint_authority: Option::<spl_token::solana_program::pubkey::Pubkey>::from(m.mint_authority)
                .map(|k| Pubkey { bytes: k.to_bytes() }),
        }),
        Err(_) => None,
    }
}

} // verus!
