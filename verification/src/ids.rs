//! The well-known program and sysvar addresses that the library uses, each
//! taken from the crate that defines it.

use vstd::prelude::*;

verus! {

/// The 32 bytes of the SPL Token program id `TokenkegQfeZyiNwAJbNbGKPFXCWuBvf9Ss623VQ5DA`.
pub open spec fn spl_token_id() -> Seq<u8> {
    seq![6u8, 221, 246, 225, 215, 101, 161, 147, 217, 203, 225, 70, 206, 235, 121, 172,
        28, 180, 133, 237, 95, 91, 55, 145, 58, 140, 245, 133, 126, 255, 0, 169]
}

/// The 32 bytes of the system program id `11111111111111111111111111111111`.
pub open spec fn system_program_id() -> Seq<u8> {
    Seq::new(32, |i: int| 0u8)
}

/// The 32 bytes of the associated token account program id
/// `ATokenGPvbdGVxr1b2hvZbsiqW5xWH25efTNsLJA8knL`.
pub open spec fn associated_token_program_id() -> Seq<u8> {
    seq![140u8, 151, 37, 143, 78, 36, 137, 241, 187, 61, 16, 41, 20, 142, 13, 131,
        11, 90, 19, 153, 218, 255, 16, 132, 4, 142, 123, 216, 219, 233, 248, 89]
}

/// The 32 bytes of the token metadata program id
/// `metaqbxxUerdq28cj1RbAWkYQm3ybzjb6a8bt518x1s`.
pub open spec fn token_metadata_program_id() -> Seq<u8> {
    seq![11u8, 112, 101, 177, 227, 209, 124, 69, 56, 157, 82, 127, 107, 4, 195, 205,
        88, 184, 108, 115, 26, 160, 253, 181, 73, 182, 209, 188, 3, 248, 41, 70]
}

/// The 32 bytes of the instructions sysvar id `Sysvar1nstructions1111111111111111111111111`.
pub open spec fn sysvar_instructions_id() -> Seq<u8> {
    seq![6u8, 167, 213, 23, 24, 123, 209, 102, 53, 218, 212, 4, 85, 253, 194, 192,
        193, 36, 198, 143, 33, 86, 117, 165, 219, 186, 203, 95, 8, 0, 0, 0]
}

/// The 32 bytes of the rent sysvar id `SysvarRent111111111111111111111111111111111`.
pub open spec fn sysvar_rent_id() -> Seq<u8> {
    seq![6u8, 167, 213, 23, 25, 44, 92, 81, 33, 140, 201, 76, 61, 74, 241, 127,
        88, 218, 238, 8, 155, 161, 253, 68, 227, 219, 217, 138, 0, 0, 0, 0]
}

/// `spl_token::id()`: the id that `declare_id!` decodes from the base58
/// literal of the SPL Token crate.
#[verifier::external_body]
pub(crate) fn spl_token_program() -> (id: [u8; 32])
    ensures
        id@ == spl_token_id(),
{
    spl_token::id().to_bytes()
}

/// `solana_program::system_program::id()`: the all-zero address.
#[verifier::external_body]
pub(crate) fn system_program() -> (id: [u8; 32])
    ensures
        id@ == system_program_id(),
{
    solana_program::system_program::id().to_bytes()
}

/// `spl_associated_token_account::id()`: the id that `declare_id!` decodes
/// from the base58 literal of the associated token account crate.
#[verifier::external_body]
pub(crate) fn associated_token_program() -> (id: [u8; 32])
    ensures
        id@ == associated_token_program_id(),
{
    spl_associated_token_account::id().to_bytes()
}

/// `mpl_token_metadata::ID`: the constant that `pubkey!` decodes from the
/// base58 literal of the token metadata crate.
#[verifier::external_body]
pub(crate) fn token_metadata_program() -> (id: [u8; 32])
    ensures
        id@ == token_metadata_program_id(),
{
    mpl_token_metadata::ID.to_bytes()
}

/// `solana_program::sysvar::instructions::id()`.
#[verifier::external_body]
pub(crate) fn sysvar_instructions() -> (id: [u8; 32])
    ensures
        id@ == sysvar_instructions_id(),
{
    solana_program::sysvar::instructions::id().to_bytes()
}

} // verus!
