//! Address handling: byte-level equality and the program addresses the crate
//! exposes, held against the programs' own declarations.

use bubblegum_cpi::key::{self, Pubkey};

#[test]
fn pubkey_round_trips_its_bytes() {
    let bytes = [13u8; 32];
    assert_eq!(Pubkey::new(bytes).to_bytes(), bytes);
}

#[test]
fn pubkey_equality_is_byte_equality() {
    let mut a = [7u8; 32];
    let b = a;
    assert!(key::pubkey_eq(&Pubkey::new(a), &Pubkey::new(b)));
    a[31] = 8;
    assert!(!key::pubkey_eq(&Pubkey::new(a), &Pubkey::new(b)));
}

#[test]
fn program_structs_expose_the_declared_ids() {
    assert_eq!(
        bubblegum_cpi::MplBubblegumProgram::id().to_bytes(),
        mpl_bubblegum::ID.to_bytes()
    );
    assert_eq!(
        bubblegum_cpi::TokenMetadataProgram::id().to_bytes(),
        mpl_token_metadata::ID.to_bytes()
    );
}
