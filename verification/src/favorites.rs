//! The "favorites" program: each user keeps one account, at an address
//! derived from the user's key, holding a favorite number and color.
//!
//! The functions here are the effect of the program's two instructions on
//! that account: what is written, when the instruction fails, and that a
//! failed instruction leaves the account as it was. The account checks that
//! the program declares are included: the address derived from the user's
//! key, the account already in use when it is to be created, the owner of the
//! record. Whether the user signed, and the rent that creating the account
//! costs, are not modelled.

use vstd::prelude::*;
use vstd::utf8::encode_utf8;
use crate::pda::{address_vec, find_program_address, lemma_seeds_view, try_find_program_address};

verus! {

/// Bytes that Anchor puts in front of every account's data.
pub const ANCHOR_DISCRIMINATOR_SIZE: usize = 8;

/// The most bytes a stored color may take.
pub const MAX_COLOR_LEN: usize = 50;

/// The space of a `Favorites` record: the number, the color's length prefix
/// and at most `MAX_COLOR_LEN` bytes, the user's key.
pub const FAVORITES_INIT_SPACE: usize = 8 + 4 + 50 + 32;

/// The size of a favorites account.
pub const FAVORITES_ACCOUNT_SPACE: usize = 8 + 94;

/// What a favorites account holds.
pub struct Favorites {
    pub number: u64,
    pub color: String,
    pub user: [u8; 32],
}

/// Why an instruction of the favorites program fails.
#[derive(Debug, Clone, Copy, PartialEq, Eq)]
pub enum FavoritesError {
    /// No bump seed derives the user's favorites address (the program aborts).
    NoProgramAddress,
    /// The account given is not the one derived from the user's key.
    ConstraintSeeds,
    /// The account to be created already exists.
    AccountAlreadyInUse,
    /// The account belongs to another user.
    ConstraintHasOne,
    /// The record does not fit the account: the color is too long.
    AccountDidNotSerialize,
}

/// The number of bytes of a color.
pub open spec fn color_len(color: Seq<char>) -> nat {
    encode_utf8(color).len()
}

/// Whether a record fits the account it is written to.
pub open spec fn fits_account(f: Favorites) -> bool {
    ANCHOR_DISCRIMINATOR_SIZE + 8 + 4 + color_len(f.color@) + 32 <= FAVORITES_ACCOUNT_SPACE
}

/// The seed `b"favorites"`.
pub open spec fn favorites_seed() -> Seq<u8> {
    seq![102u8, 97, 118, 111, 114, 105, 116, 101, 115]
}

/// The favorites account of `user` under the program `program_id`.
pub open spec fn favorites_address_of(program_id: Seq<u8>, user: Seq<u8>) -> Option<Seq<u8>> {
    match find_program_address(seq![favorites_seed(), user], program_id) {
        Some((a, _)) => Some(a),
        None => None,
    }
}

/// The record after an update: each given value replaces the stored one.
pub open spec fn updated(f: Favorites, number: Option<u64>, color: Option<String>) -> Favorites {
    Favorites {
        number: match number {
            Some(n) => n,
            None => f.number,
        },
        color: match color {
            Some(c) => c,
            None => f.color,
        },
        user: f.user,
    }
}

/// The result that `set_favorites` owes for the given inputs: the error, or
/// `None` where it succeeds.
pub open spec fn set_favorites_error(
    program_id: Seq<u8>,
    user: Seq<u8>,
    favorites_account: Seq<u8>,
    account_in_use: bool,
    color: Seq<char>,
) -> Option<FavoritesError> {
    match favorites_address_of(program_id, user) {
        None => Some(FavoritesError::NoProgramAddress),
        Some(a) => if a != favorites_account {
            Some(FavoritesError::ConstraintSeeds)
        } else if account_in_use {
            Some(FavoritesError::AccountAlreadyInUse)
        } else if color_len(color) > MAX_COLOR_LEN {
            Some(FavoritesError::AccountDidNotSerialize)
        } else {
            None
        },
    }
}

/// The number of bytes of `s`.
fn color_bytes(s: &String) -> (n: usize)
    ensures
        n == color_len(s@),
{
    s.as_str().as_bytes().len()
}

/// The favorites account of `user` under `program_id`; `None` where no bump
/// seed derives one.
pub fn favorites_address(program_id: &[u8; 32], user: &[u8; 32]) -> (a: Option<[u8; 32]>)
    ensures
        match a {
            Some(a) => favorites_address_of(program_id@, user@) == Some(a@),
            None => favorites_address_of(program_id@, user@) is None,
        },
{
    let s0: Vec<u8> = vec![102u8, 97, 118, 111, 114, 105, 116, 101, 115];
    let s1 = address_vec(user);
    let seeds: Vec<Vec<u8>> = vec![s0, s1];
    proof {
        lemma_seeds_view(seeds);
        assert(seeds.deep_view() =~= seq![favorites_seed(), user@]);
    }
    match try_find_program_address(&seeds, program_id) {
        Some((a, _)) => Some(a),
        None => None,
    }
}

/// The `set_favorites` instruction: `user` creates the favorites account
/// `favorites_account` holding `number` and `color`; `account_in_use` says
/// whether that account already exists. Returns the record written, or the
/// error for which the instruction fails: the account is not the one derived
/// from the user's key, it already exists, or the color takes more than
/// `MAX_COLOR_LEN` bytes.
pub fn set_favorites(
    program_id: &[u8; 32],
    user: &[u8; 32],
    favorites_account: &[u8; 32],
    account_in_use: bool,
    number: u64,
    color: String,
) -> (r: Result<Favorites, FavoritesError>)
    ensures
        match r {
            Ok(f) => {
                &&& set_favorites_error(program_id@, user@, favorites_account@, account_in_use, color@) is None
                &&& f.number == number
                &&& f.color@ == color@
                &&& f.user == *user
            },
            Err(e) => set_favorites_error(program_id@, user@, favorites_account@, account_in_use, color@) == Some(
                e,
            ),
        },
{
    match favorites_address(program_id, user) {
        None => Err(FavoritesError::NoProgramAddress),
        Some(a) => {
            if !crate::bytes::same_address(&a, favorites_account) {
                Err(FavoritesError::ConstraintSeeds)
            } else if account_in_use {
                Err(FavoritesError::AccountAlreadyInUse)
            } else if color_bytes(&color) > MAX_COLOR_LEN {
                Err(FavoritesError::AccountDidNotSerialize)
            } else {
                Ok(Favorites { number, color, user: *user })
            }
        },
    }
}

/// The `update_favorites` instruction: `user` replaces the number, the
/// color, or both, of the favorites account `favorites`. Fails, leaving the
/// account as it was, when the account belongs to another user or when the
/// new record does not fit the account.
pub fn update_favorites(
    favorites: &mut Favorites,
    user: &[u8; 32],
    number: Option<u64>,
    color: Option<String>,
) -> (r: Result<(), FavoritesError>)
    ensures
        r matches Err(FavoritesError::ConstraintHasOne) <==> old(favorites).user@ != user@,
        r matches Err(FavoritesError::AccountDidNotSerialize) <==> old(favorites).user@ == user@
            && !fits_account(updated(*old(favorites), number, color)),
        r is Ok <==> old(favorites).user@ == user@ && fits_account(
            updated(*old(favorites), number, color),
        ),
        r is Err ==> *final(favorites) == *old(favorites),
        r is Ok ==> *final(favorites) == updated(*old(favorites), number, color),
{
    if !crate::bytes::same_address(&favorites.user, user) {
        return Err(FavoritesError::ConstraintHasOne);
    }
    let new_len = match &color {
        Some(c) => color_bytes(c),
        None => color_bytes(&favorites.color),
    };
    if new_len > MAX_COLOR_LEN {
        return Err(FavoritesError::AccountDidNotSerialize);
    }
    match number {
        Some(n) => favorites.number = n,
        None => {},
    }
    match color {
        Some(c) => favorites.color = c,
        None => {},
    }
    Ok(())
}

/// An update that gives neither a number nor a color leaves the record as
/// it was.
pub proof fn lemma_empty_update_is_identity(f: Favorites)
    ensures
        updated(f, None, None) == f,
{
}

/// An update never changes whose account it is.
pub proof fn lemma_update_keeps_user(f: Favorites, number: Option<u64>, color: Option<String>)
    ensures
        updated(f, number, color).user == f.user,
{
}

/// Doing the same update twice is doing it once.
pub proof fn lemma_update_idempotent(f: Favorites, number: Option<u64>, color: Option<String>)
    ensures
        updated(updated(f, number, color), number, color) == updated(f, number, color),
{
}

/// Updating the number and then the color is updating both at once.
pub proof fn lemma_updates_compose(f: Favorites, n: u64, c: String)
    ensures
        updated(updated(f, Some(n), None), None, Some(c)) == updated(f, Some(n), Some(c)),
{
}

/// Every record that `set_favorites` writes fits its account, and a
/// successful update of a record keeps it fitting; so a favorites account
/// always holds a record that fits.
pub proof fn lemma_records_fit(
    f: Favorites,
    number: Option<u64>,
    color: Option<String>,
)
    ensures
        color_len(f.color@) <= MAX_COLOR_LEN <==> fits_account(f),
        fits_account(updated(f, number, color)) <==> color_len(
            updated(f, number, color).color@,
        ) <= MAX_COLOR_LEN,
{
}

/// A favorites account is created once: where the account already exists,
/// as it does after a successful `set_favorites`, another `set_favorites`
/// for it fails.
pub proof fn lemma_second_set_fails(
    program_id: Seq<u8>,
    user: Seq<u8>,
    favorites_account: Seq<u8>,
    color: Seq<char>,
)
    ensures
        set_favorites_error(program_id, user, favorites_account, true, color) is Some,
{
}

/// The record after a series of successful updates, applied in order.
pub open spec fn updated_all(f: Favorites, updates: Seq<(Option<u64>, Option<String>)>) -> Favorites
    decreases updates.len(),
{
    if updates.len() == 0 {
        f
    } else {
        updated(updated_all(f, updates.drop_last()), updates.last().0, updates.last().1)
    }
}

/// However many updates succeed, the record keeps its user, and so the
/// address derived from that user's key.
pub proof fn lemma_updates_keep_owner(
    program_id: Seq<u8>,
    f: Favorites,
    updates: Seq<(Option<u64>, Option<String>)>,
)
    ensures
        updated_all(f, updates).user == f.user,
        favorites_address_of(program_id, updated_all(f, updates).user@) == favorites_address_of(
            program_id,
            f.user@,
        ),
    decreases updates.len(),
{
    if updates.len() > 0 {
        lemma_updates_keep_owner(program_id, f, updates.drop_last());
    }
}

/// An update writes what it is given: a given number becomes the record's
/// number and a given color its color, whatever they are (zero and the
/// empty color included); what is not given stays as it was; the user never
/// changes.
pub proof fn lemma_update_writes_what_is_given(
    f: Favorites,
    n: u64,
    c: String,
    number: Option<u64>,
    color: Option<String>,
)
    ensures
        updated(f, Some(n), color).number == n,
        updated(f, number, Some(c)).color == c,
        updated(f, None, color).number == f.number,
        updated(f, number, None).color == f.color,
        updated(f, number, color).user == f.user,
{
}

/// A successful update by the record's owner leaves exactly the given
/// values in the record: the number given (any `u64`, zero included), or
/// the old one; the color given, or the old one.
pub proof fn lemma_successful_update_stores(
    f: Favorites,
    number: Option<u64>,
    color: Option<String>,
)
    ensures
        number matches Some(n) ==> updated(f, number, color).number == n,
        number is None ==> updated(f, number, color).number == f.number,
        color matches Some(c) ==> updated(f, number, color).color == c,
        color is None ==> updated(f, number, color).color == f.color,
{
}

} // verus!
