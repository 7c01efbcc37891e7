//! Account addresses as plain 32-byte values, the fixed program and sysvar
//! addresses this crate wires into downstream calls, and the canonical
//! associated-token-account derivation.

use vstd::prelude::*;

verus! {

/// A 32-byte account address.
#[derive(Clone, Copy, Debug)]
pub struct Pubkey {
    pub bytes: [u8; 32],
}

impl View for Pubkey {
    type V = Seq<u8>;

    open spec fn view(&self) -> Seq<u8> {
        self.bytes@
    }
}

impl Pubkey {
    /// Builds an address from its 32 bytes.
    pub fn new(bytes: [u8; 32]) -> (r: Pubkey)
        ensures
            r@ == bytes@,
    {
        Pubkey { bytes }
    }

    /// The 32 bytes of the address.
    pub fn to_bytes(&self) -> (r: [u8; 32])
        ensures
            r@ == self@,
    {
        self.bytes
    }
}

/// Byte-for-byte equality of two addresses.
pub fn pubkey_eq(a: &Pubkey, b: &Pubkey) -> (r: bool)
    ensures
        r == (a@ == b@),
{
    let mut i: usize = 0;
    while i < 32
        invariant
            i <= 32,
            forall|j: int| 0 <= j < i ==> a@[j] == b@[j],
        decreases 32 - i,
    {
        if a.bytes[i] != b.bytes[i] {
            return false;
        }
        i += 1;
    }
    proof {
        assert(a@ =~= b@);
    }
    true
}

/// The address of the compressed-NFT minting program.
pub open spec fn mpl_bubblegum_id_bytes() -> Seq<u8> {
    seq![
        152u8, 139, 128, 235, 121, 53, 40, 105, 178, 36, 116, 95, 89, 221, 191, 138,
        38, 88, 202, 19, 220, 104, 129, 33, 38, 53, 28, 174, 7, 193, 165, 165,
    ]
}

/// The address of the token-metadata program.
pub open spec fn token_metadata_id_bytes() -> Seq<u8> {
    seq![
        11u8, 112, 101, 177, 227, 209, 124, 69, 56, 157, 82, 127, 107, 4, 195, 205,
        88, 184, 108, 115, 26, 160, 253, 181, 73, 182, 209, 188, 3, 248, 41, 70,
    ]
}

/// The address of the account-compression program.
pub open spec fn account_compression_id_bytes() -> Seq<u8> {
    seq![
        9u8, 42, 19, 238, 149, 196, 28, 186, 8, 166, 127, 90, 198, 126, 141, 247,
        225, 218, 17, 98, 94, 29, 100, 19, 127, 143, 79, 35, 131, 3, 127, 20,
    ]
}

/// The address of the no-op logging program.
pub open spec fn noop_id_bytes() -> Seq<u8> {
    seq![
        11u8, 188, 15, 192, 187, 71, 202, 47, 116, 196, 17, 46, 148, 171, 19, 207,
        163, 198, 52, 229, 220, 23, 234, 203, 3, 205, 26, 35, 205, 126, 120, 124,
    ]
}

/// The address of the system program.
pub open spec fn system_program_id_bytes() -> Seq<u8> {
    seq![
        0u8, 0, 0, 0, 0, 0, 0, 0, 0, 0, 0, 0, 0, 0, 0, 0,
        0, 0, 0, 0, 0, 0, 0, 0, 0, 0, 0, 0, 0, 0, 0, 0,
    ]
}

/// The address of the token program.
pub open spec fn token_program_id_bytes() -> Seq<u8> {
    seq![
        6u8, 221, 246, 225, 215, 101, 161, 147, 217, 203, 225, 70, 206, 235, 121, 172,
        28, 180, 133, 237, 95, 91, 55, 145, 58, 140, 245, 133, 126, 255, 0, 169,
    ]
}

/// The address of the associated-token-account program.
pub open spec fn associated_token_program_id_bytes() -> Seq<u8> {
    seq![
        140u8, 151, 37, 143, 78, 36, 137, 241, 187, 61, 16, 41, 20, 142, 13, 131,
        11, 90, 19, 153, 218, 255, 16, 132, 4, 142, 123, 216, 219, 233, 248, 89,
    ]
}

/// The address of the rent sysvar.
pub open spec fn rent_sysvar_id_bytes() -> Seq<u8> {
    seq![
        6u8, 167, 213, 23, 25, 44, 92, 81, 33, 140, 201, 76, 61, 74, 241, 127,
        88, 218, 238, 8, 155, 161, 253, 68, 227, 219, 217, 138, 0, 0, 0, 0,
    ]
}

/// Relies on `mpl_bubblegum::ID`, the minting program's declared address.
#[verifier::external_body]
pub(crate) fn mpl_bubblegum_id() -> (r: Pubkey)
    ensures
        r@ == mpl_bubblegum_id_bytes(),
{
    Pubkey { bytes: mpl_bubblegum::ID.to_bytes() }
}

/// Relies on `mpl_token_metadata::ID`, the metadata program's declared address.
#[verifier::external_body]
pub(crate) fn token_metadata_id() -> (r: Pubkey)
    ensures
        r@ == token_metadata_id_bytes(),
{
    Pubkey { bytes: mpl_token_metadata::ID.to_bytes() }
}

/// Relies on `spl_account_compression::ID`, the compression program's declared
/// address.
#[verifier::external_body]
pub(crate) fn account_compression_id() -> (r: Pubkey)
    ensures
        r@ == account_compression_id_bytes(),
{
    Pubkey { bytes: spl_account_compression::ID.to_bytes() }
}

/// Relies on `spl_noop::ID`, the logging program's declared address.
#[verifier::external_body]
pub(crate) fn noop_id() -> (r: Pubkey)
    ensures
        r@ == noop_id_bytes(),
{
    Pubkey { bytes: spl_noop::ID.to_bytes() }
}

/// Relies on `solana_program::system_program::ID`, the system program's
/// declared address.
#[verifier::external_body]
pub(crate) fn system_program_id() -> (r: Pubkey)
    ensures
        r@ == system_program_id_bytes(),
{
    Pubkey { bytes: solana_program::system_program::ID.to_bytes() }
}

/// Relies on `spl_token::ID`, the token program's declared address.
#[verifier::external_body]
pub(crate) fn token_program_id() -> (r: Pubkey)
    ensures
        r@ == token_program_id_bytes(),
{
    Pubkey { bytes: spl_token::ID.to_bytes() }
}

/// Relies on `spl_associated_token_account::ID`, the associated-token-account
/// program's declared address.
#[verifier::external_body]
pub(crate) fn associated_token_program_id() -> (r: Pubkey)
    ensures
        r@ == associated_token_program_id_bytes(),
{
    Pubkey { bytes: spl_associated_token_account::ID.to_bytes() }
}

/// Relies on `solana_program::sysvar::rent::ID`, the rent sysvar's declared
/// address.
#[verifier::external_body]
pub(crate) fn rent_sysvar_id() -> (r: Pubkey)
    ensures
        r@ == rent_sysvar_id_bytes(),
{
    Pubkey { bytes: solana_program::sysvar::rent::ID.to_bytes() }
}

/// The compressed-NFT minting program, named by its address.
#[derive(Clone, Copy, Debug)]
pub struct MplBubblegumProgram;

impl MplBubblegumProgram {
    /// The program's address.
    pub fn id() -> (r: Pubkey)
        ensures
            r@ == mpl_bubblegum_id_bytes(),
    {
        mpl_bubblegum_id()
    }
}

/// The token-metadata program, named by its address.
#[derive(Clone, Copy, Debug)]
pub struct TokenMetadataProgram;

impl TokenMetadataProgram {
    /// The program's address.
    pub fn id() -> (r: Pubkey)
        ensures
            r@ == token_metadata_id_bytes(),
    {
        token_metadata_id()
    }
}

/// The canonical associated-token-account address for a wallet, a mint and a
/// token program. It is a program-derived address, a function of the three
/// inputs alone.
pub uninterp spec fn ata_key(wallet: Seq<u8>, mint: Seq<u8>, token_program: Seq<u8>) -> Seq<u8>;

/// Relies on `spl_associated_token_account::get_associated_token_address_with_program_id`:
/// the canonical associated-token-account address, derived from the wallet,
/// mint and token-program addresses alone. The derivation aborts only if no
/// bump seed yields a valid program-derived address, which occurs for no
/// known input.
#[verifier::external_body]
#[allow(deprecated)]
pub(crate) fn derive_associated_token_address(wallet: &Pubkey, mint: &Pubkey, token_program: &Pubkey) -> (r: Pubkey)
    ensures
        r@ == ata_key(wallet@, mint@, token_program@),
{
    let w = spl_token::solana_program::pubkey::Pubkey::new_from_array(wallet.bytes);
    let m = spl_token::solana_program::pubkey::Pubkey::new_from_array(mint.bytes);
    let t = spl_token::solana_program::pubkey::Pubkey::new_from_array(token_program.bytes);
    let a = spl_associated_token_account::get_associated_token_address_with_program_id(&w, &m, &t);
    Pubkey { bytes: a.to_bytes() }
}

} // verus!
