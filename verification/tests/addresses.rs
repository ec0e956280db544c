use bootcamp3::pda::{associated_token_address, get_associated_account_address, metadata_account_address};
use solana_sdk::pubkey::Pubkey;

#[test]
fn associated_account_address_matches_the_derivation() {
    let wallet = Pubkey::new_unique();
    let mint = Pubkey::new_unique();
    let a = get_associated_account_address(&wallet.to_bytes(), &mint.to_bytes()).unwrap();
    let (expected, _) = Pubkey::find_program_address(
        &[&wallet.to_bytes(), &spl_token::id().to_bytes(), &mint.to_bytes()],
        &spl_associated_token_account::id(),
    );
    assert_eq!(a, expected.to_bytes());
    assert_ne!(a, wallet.to_bytes());
    assert_ne!(a, mint.to_bytes());
}

#[test]
fn associated_account_address_depends_on_the_token_program() {
    let wallet = Pubkey::new_unique().to_bytes();
    let mint = Pubkey::new_unique().to_bytes();
    let other_program = Pubkey::new_unique().to_bytes();
    let a = associated_token_address(&wallet, &mint, &spl_token::id().to_bytes()).unwrap();
    let b = associated_token_address(&wallet, &mint, &other_program).unwrap();
    assert_ne!(a, b);
    assert_eq!(
        b,
        spl_associated_token_account::get_associated_token_address_with_program_id(
            &Pubkey::new_from_array(wallet),
            &Pubkey::new_from_array(mint),
            &Pubkey::new_from_array(other_program)
        )
        .to_bytes()
    );
}

#[test]
fn metadata_address_matches_the_derivation() {
    let mint = Pubkey::new_unique();
    let a = metadata_account_address(&mint.to_bytes()).unwrap();
    let (expected, _) = Pubkey::find_program_address(
        &[b"metadata", &mpl_token_metadata::ID.to_bytes(), &mint.to_bytes()],
        &mpl_token_metadata::ID,
    );
    assert_eq!(a, expected.to_bytes());
}
