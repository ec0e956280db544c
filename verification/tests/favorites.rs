use bootcamp3::favorites::{
    favorites_address, set_favorites, update_favorites, Favorites, FavoritesError,
    ANCHOR_DISCRIMINATOR_SIZE, FAVORITES_ACCOUNT_SPACE, FAVORITES_INIT_SPACE, MAX_COLOR_LEN,
};
use solana_sdk::pubkey::Pubkey;

fn program() -> [u8; 32] {
    Pubkey::new_unique().to_bytes()
}

fn account_of(program_id: &[u8; 32], user: &[u8; 32]) -> [u8; 32] {
    Pubkey::find_program_address(&[b"favorites", user], &Pubkey::new_from_array(*program_id))
        .0
        .to_bytes()
}

#[test]
fn account_space() {
    assert_eq!(ANCHOR_DISCRIMINATOR_SIZE, 8);
    assert_eq!(FAVORITES_INIT_SPACE, 94);
    assert_eq!(FAVORITES_ACCOUNT_SPACE, ANCHOR_DISCRIMINATOR_SIZE + FAVORITES_INIT_SPACE);
    assert_eq!(MAX_COLOR_LEN, 50);
}

#[test]
fn address_is_derived_from_the_user() {
    let p = program();
    let user = Pubkey::new_unique().to_bytes();
    assert_eq!(favorites_address(&p, &user), Some(account_of(&p, &user)));
}

#[test]
fn set_writes_the_record() {
    let p = program();
    let user = Pubkey::new_unique().to_bytes();
    let acct = account_of(&p, &user);
    let f = set_favorites(&p, &user, &acct, false, 7, "red".to_string()).unwrap();
    assert_eq!(f.number, 7);
    assert_eq!(f.color, "red");
    assert_eq!(f.user, user);
}

#[test]
fn set_refuses_another_account() {
    let p = program();
    let user = Pubkey::new_unique().to_bytes();
    let other = Pubkey::new_unique().to_bytes();
    let acct = account_of(&p, &other);
    assert_eq!(set_favorites(&p, &user, &acct, false, 7, "red".to_string()).err(), Some(FavoritesError::ConstraintSeeds));
}

#[test]
fn set_refuses_a_color_that_does_not_fit() {
    let p = program();
    let user = Pubkey::new_unique().to_bytes();
    let acct = account_of(&p, &user);
    assert!(set_favorites(&p, &user, &acct, false, 1, "x".repeat(50)).is_ok());
    assert_eq!(
        set_favorites(&p, &user, &acct, false, 1, "x".repeat(51)).err(),
        Some(FavoritesError::AccountDidNotSerialize)
    );
    // 25 two-byte characters are 50 bytes; 26 are 52.
    assert!(set_favorites(&p, &user, &acct, false, 1, "é".repeat(25)).is_ok());
    assert_eq!(
        set_favorites(&p, &user, &acct, false, 1, "é".repeat(26)).err(),
        Some(FavoritesError::AccountDidNotSerialize)
    );
}

fn record(user: [u8; 32]) -> Favorites {
    Favorites { number: 3, color: "blue".to_string(), user }
}

#[test]
fn update_replaces_what_is_given() {
    let user = [1u8; 32];
    let mut f = record(user);
    assert_eq!(update_favorites(&mut f, &user, Some(9), None), Ok(()));
    assert_eq!((f.number, f.color.as_str()), (9, "blue"));
    assert_eq!(update_favorites(&mut f, &user, None, Some("green".to_string())), Ok(()));
    assert_eq!((f.number, f.color.as_str()), (9, "green"));
    assert_eq!(update_favorites(&mut f, &user, Some(4), Some("teal".to_string())), Ok(()));
    assert_eq!((f.number, f.color.as_str(), f.user), (4, "teal", user));
}

#[test]
fn empty_update_changes_nothing() {
    let user = [1u8; 32];
    let mut f = record(user);
    assert_eq!(update_favorites(&mut f, &user, None, None), Ok(()));
    assert_eq!((f.number, f.color.as_str(), f.user), (3, "blue", user));
}

#[test]
fn update_by_another_user_is_refused() {
    let user = [1u8; 32];
    let mut f = record(user);
    assert_eq!(
        update_favorites(&mut f, &[2u8; 32], Some(9), Some("x".to_string())),
        Err(FavoritesError::ConstraintHasOne)
    );
    assert_eq!((f.number, f.color.as_str()), (3, "blue"));
}

#[test]
fn update_that_does_not_fit_is_undone() {
    let user = [1u8; 32];
    let mut f = record(user);
    assert_eq!(
        update_favorites(&mut f, &user, Some(9), Some("y".repeat(51))),
        Err(FavoritesError::AccountDidNotSerialize)
    );
    assert_eq!((f.number, f.color.as_str()), (3, "blue"));
}

#[test]
fn same_update_twice_is_once() {
    let user = [1u8; 32];
    let mut f = record(user);
    update_favorites(&mut f, &user, Some(5), Some("red".to_string())).unwrap();
    update_favorites(&mut f, &user, Some(5), Some("red".to_string())).unwrap();
    assert_eq!((f.number, f.color.as_str()), (5, "red"));
}

#[test]
fn set_refuses_an_account_already_in_use() {
    let p = program();
    let user = Pubkey::new_unique().to_bytes();
    let acct = account_of(&p, &user);
    assert!(set_favorites(&p, &user, &acct, false, 7, "red".to_string()).is_ok());
    assert_eq!(
        set_favorites(&p, &user, &acct, true, 8, "blue".to_string()).err(),
        Some(FavoritesError::AccountAlreadyInUse)
    );
}
