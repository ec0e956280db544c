//! The token escrow program: a maker offers an amount of token A, held in a
//! vault that the offer account owns, in exchange for an amount of token B;
//! a taker accepts, or the maker takes the offer back.
//!
//! The program's instructions ask the token program for transfers and for
//! the closing of the vault. Here each instruction is the function that
//! checks its accounts as the program declares, and the function that
//! computes the requests it makes to the token program (the caller performs
//! them, in order, stopping at the first that fails).
//!
//! The accounts are given by the values the checks and the instructions
//! read. Account flags (signer, writable), the owner and type of the offer
//! account, and the checks that the token and associated token programs make
//! themselves are not modelled.

use vstd::prelude::*;
use crate::bytes::{same_address, u64_le, u64_to_le_bytes};
use crate::pda::{
    address_vec, associated_token_address, associated_token_address_of, bump_search,
    find_program_address, lemma_seeds_view, program_address, try_find_program_address,
};

verus! {

/// A mint account.
#[derive(Clone, Copy)]
pub struct Mint {
    pub key: [u8; 32],
    pub decimals: u8,
    /// The program that owns the account.
    pub owner_program: [u8; 32],
}

/// A token account.
#[derive(Clone, Copy)]
pub struct TokenAccount {
    pub key: [u8; 32],
    pub mint: [u8; 32],
    /// The authority of the tokens.
    pub owner: [u8; 32],
    pub amount: u64,
    /// The program that owns the account.
    pub owner_program: [u8; 32],
}

/// What an offer account holds.
#[derive(Clone, Copy)]
pub struct Offer {
    pub id: u64,
    pub maker: [u8; 32],
    pub token_mint_a: [u8; 32],
    pub token_mint_b: [u8; 32],
    pub token_b_wanted_amount: u64,
    pub bump: u8,
}

/// The accounts of the `make_offer` instruction.
#[derive(Clone, Copy)]
pub struct MakeOffer {
    pub maker: [u8; 32],
    pub token_mint_a: Mint,
    pub token_mint_b: Mint,
    pub maker_token_account_a: TokenAccount,
    /// The offer account, created by the instruction.
    pub offer: [u8; 32],
    /// Whether the offer account already exists.
    pub offer_in_use: bool,
    /// The vault, created by the instruction.
    pub vault: [u8; 32],
    pub token_program: [u8; 32],
}

/// The accounts of the `take_offer` instruction.
#[derive(Clone, Copy)]
pub struct TakeOffer {
    pub taker: [u8; 32],
    pub maker: [u8; 32],
    pub token_mint_a: Mint,
    pub token_mint_b: Mint,
    /// Created by the instruction where it does not exist yet.
    pub taker_token_account_a: TokenAccount,
    pub taker_token_account_b: TokenAccount,
    /// Created by the instruction where it does not exist yet.
    pub maker_token_account_b: TokenAccount,
    pub offer_key: [u8; 32],
    pub offer: Offer,
    pub vault: TokenAccount,
    pub token_program: [u8; 32],
}

/// The accounts of the `close_offer` instruction.
#[derive(Clone, Copy)]
pub struct CloseOffer {
    pub maker: [u8; 32],
    pub token_mint_a: Mint,
    pub maker_token_account_a: TokenAccount,
    pub offer_key: [u8; 32],
    pub offer: Offer,
    pub vault: TokenAccount,
    pub token_program: [u8; 32],
}

/// A checked transfer that the program asks the token program for.
/// `signer_seeds` are the seeds with which the program signs for the
/// authority; they are empty where the authority signed the transaction.
pub struct TransferRequest {
    pub from: [u8; 32],
    pub mint: [u8; 32],
    pub to: [u8; 32],
    pub authority: [u8; 32],
    pub amount: u64,
    pub decimals: u8,
    pub signer_seeds: Vec<Vec<u8>>,
}

/// The closing of a token account that the program asks the token program
/// for; its lamports go to `destination`.
pub struct CloseRequest {
    pub account: [u8; 32],
    pub destination: [u8; 32],
    pub authority: [u8; 32],
    pub signer_seeds: Vec<Vec<u8>>,
}

/// Why the accounts of an instruction are refused.
#[derive(Debug, Clone, Copy, PartialEq, Eq)]
pub enum EscrowError {
    /// No bump seed derives the address (the program aborts).
    NoProgramAddress,
    /// The offer account is not the one derived from its seeds.
    ConstraintSeeds,
    /// The offer account to be created already exists.
    AccountAlreadyInUse,
    /// A mint is not owned by the token program given.
    ConstraintMintTokenProgram,
    /// A token account is not owned by the token program given.
    ConstraintAssociatedTokenTokenProgram,
    /// A token account has another authority than the one required.
    ConstraintTokenOwner,
    /// A token account holds another mint than the one required.
    ConstraintTokenMint,
    /// A token account is not the associated token account it must be.
    ConstraintAssociated,
    /// A created token account is not the associated token account.
    AccountNotAssociatedTokenAccount,
    /// The offer names another maker or mint than the accounts given.
    ConstraintHasOne,
    /// The offer account would be closed to itself.
    ConstraintClose,
}

/// The seed `b"offer"`.
pub open spec fn offer_seed() -> Seq<u8> {
    seq![111u8, 102, 102, 101, 114]
}

/// The seeds of the offer `id` of `maker`: `"offer"`, the maker, the id's
/// little-endian bytes.
pub open spec fn offer_seeds(maker: Seq<u8>, id: u64) -> Seq<Seq<u8>> {
    seq![offer_seed(), maker, u64_le(id)]
}

/// The seeds with which the program signs for an offer account: its seeds
/// and its bump seed.
pub open spec fn offer_signer_seeds_of(offer: Offer) -> Seq<Seq<u8>> {
    offer_seeds(offer.maker@, offer.id).push(seq![offer.bump])
}

/// The seeds with which the program signs for the offer account.
pub fn offer_signer_seeds(offer: &Offer) -> (seeds: Vec<Vec<u8>>)
    ensures
        seeds.deep_view() == offer_signer_seeds_of(*offer),
{
    let s0: Vec<u8> = vec![111u8, 102, 102, 101, 114];
    let s1 = address_vec(&offer.maker);
    let s2 = u64_to_le_bytes(offer.id);
    let s3: Vec<u8> = vec![offer.bump];
    let seeds: Vec<Vec<u8>> = vec![s0, s1, s2, s3];
    proof {
        lemma_seeds_view(seeds);
        assert(s0@ =~= offer_seed());
        assert(s3@ =~= seq![offer.bump]);
        assert(seeds.deep_view() =~= offer_signer_seeds_of(*offer));
    }
    seeds
}

/// The first failing check of an associated token account (the
/// `associated_token::` constraints): owned by the token program, with
/// `wallet` as authority, at the associated address of `wallet` for `mint`.
pub open spec fn associated_token_error(
    account: TokenAccount,
    wallet: Seq<u8>,
    mint: Seq<u8>,
    token_program: Seq<u8>,
) -> Option<EscrowError> {
    if account.owner_program@ != token_program {
        Some(EscrowError::ConstraintAssociatedTokenTokenProgram)
    } else if account.owner@ != wallet {
        Some(EscrowError::ConstraintTokenOwner)
    } else {
        match associated_token_address_of(wallet, mint, token_program) {
            None => Some(EscrowError::NoProgramAddress),
            Some(a) => if a != account.key@ {
                Some(EscrowError::ConstraintAssociated)
            } else {
                None
            },
        }
    }
}

/// The first failing check of an associated token account that the
/// instruction creates where it does not exist (`init_if_needed`).
pub open spec fn created_token_account_error(
    account: TokenAccount,
    wallet: Seq<u8>,
    mint: Seq<u8>,
    token_program: Seq<u8>,
) -> Option<EscrowError> {
    if account.mint@ != mint {
        Some(EscrowError::ConstraintTokenMint)
    } else if account.owner@ != wallet {
        Some(EscrowError::ConstraintTokenOwner)
    } else if account.owner_program@ != token_program {
        Some(EscrowError::ConstraintAssociatedTokenTokenProgram)
    } else {
        match associated_token_address_of(wallet, mint, token_program) {
            None => Some(EscrowError::NoProgramAddress),
            Some(a) => if a != account.key@ {
                Some(EscrowError::AccountNotAssociatedTokenAccount)
            } else {
                None
            },
        }
    }
}

/// The check of a mint (`mint::token_program`).
pub open spec fn mint_error(mint: Mint, token_program: Seq<u8>) -> Option<EscrowError> {
    if mint.owner_program@ != token_program {
        Some(EscrowError::ConstraintMintTokenProgram)
    } else {
        None
    }
}

/// The first of two checks that fails.
pub open spec fn first_error(a: Option<EscrowError>, b: Option<EscrowError>) -> Option<EscrowError> {
    if a is Some {
        a
    } else {
        b
    }
}

/// The offer account and bump seed derived for the offer `id` of `maker`.
pub open spec fn offer_address_of(program_id: Seq<u8>, maker: Seq<u8>, id: u64) -> Option<
    (Seq<u8>, u8),
> {
    find_program_address(offer_seeds(maker, id), program_id)
}

/// The first failing check of the accounts of `make_offer`, in the order
/// the program makes them: the offer account created (at its derived
/// address, and not yet in use), then the mints, then the maker's token
/// account.
pub open spec fn make_offer_error(program_id: Seq<u8>, a: MakeOffer, id: u64) -> Option<EscrowError> {
    let offer_check = match offer_address_of(program_id, a.maker@, id) {
        None => Some(EscrowError::NoProgramAddress),
        Some((addr, _)) => if addr != a.offer@ {
            Some(EscrowError::ConstraintSeeds)
        } else if a.offer_in_use {
            Some(EscrowError::AccountAlreadyInUse)
        } else {
            None
        },
    };
    first_error(
        offer_check,
        first_error(
            mint_error(a.token_mint_a, a.token_program@),
            first_error(
                mint_error(a.token_mint_b, a.token_program@),
                associated_token_error(
                    a.maker_token_account_a,
                    a.maker@,
                    a.token_mint_a.key@,
                    a.token_program@,
                ),
            ),
        ),
    )
}

/// The checks that the offer names the accounts given.
pub open spec fn offer_has_one_error(
    offer: Offer,
    maker: Seq<u8>,
    mint_a: Seq<u8>,
    mint_b: Option<Seq<u8>>,
) -> Option<EscrowError> {
    if offer.maker@ != maker || offer.token_mint_a@ != mint_a {
        Some(EscrowError::ConstraintHasOne)
    } else if mint_b is Some && offer.token_mint_b@ != mint_b->0 {
        Some(EscrowError::ConstraintHasOne)
    } else {
        None
    }
}

/// The first failing check of the accounts of `take_offer`, in the order
/// the program makes them.
pub open spec fn take_offer_error(a: TakeOffer) -> Option<EscrowError> {
    let tp = a.token_program@;
    first_error(
        created_token_account_error(a.taker_token_account_a, a.taker@, a.token_mint_a.key@, tp),
        first_error(
            created_token_account_error(a.maker_token_account_b, a.maker@, a.token_mint_b.key@, tp),
            first_error(
                associated_token_error(a.taker_token_account_b, a.taker@, a.token_mint_b.key@, tp),
                first_error(
                    offer_has_one_error(
                        a.offer,
                        a.maker@,
                        a.token_mint_a.key@,
                        Some(a.token_mint_b.key@),
                    ),
                    first_error(
                        if a.offer_key@ == a.maker@ {
                            Some(EscrowError::ConstraintClose)
                        } else {
                            None
                        },
                        associated_token_error(a.vault, a.offer_key@, a.token_mint_a.key@, tp),
                    ),
                ),
            ),
        ),
    )
}

/// The first failing check of the accounts of `close_offer`, in the order
/// the program makes them.
pub open spec fn close_offer_error(a: CloseOffer) -> Option<EscrowError> {
    let tp = a.token_program@;
    first_error(
        mint_error(a.token_mint_a, tp),
        first_error(
            associated_token_error(a.maker_token_account_a, a.maker@, a.token_mint_a.key@, tp),
            first_error(
                offer_has_one_error(a.offer, a.maker@, a.token_mint_a.key@, None),
                first_error(
                    if a.offer_key@ == a.maker@ {
                        Some(EscrowError::ConstraintClose)
                    } else {
                        None
                    },
                    associated_token_error(a.vault, a.offer_key@, a.token_mint_a.key@, tp),
                ),
            ),
        ),
    )
}

fn check_mint(mint: &Mint, token_program: &[u8; 32]) -> (r: Result<(), EscrowError>)
    ensures
        match r {
            Ok(()) => mint_error(*mint, token_program@) is None,
            Err(e) => mint_error(*mint, token_program@) == Some(e),
        },
{
    if !same_address(&mint.owner_program, token_program) {
        Err(EscrowError::ConstraintMintTokenProgram)
    } else {
        Ok(())
    }
}

fn check_associated_token(
    account: &TokenAccount,
    wallet: &[u8; 32],
    mint: &[u8; 32],
    token_program: &[u8; 32],
) -> (r: Result<(), EscrowError>)
    ensures
        match r {
            Ok(()) => associated_token_error(*account, wallet@, mint@, token_program@) is None,
            Err(e) => associated_token_error(*account, wallet@, mint@, token_program@) == Some(e),
        },
{
    if !same_address(&account.owner_program, token_program) {
        return Err(EscrowError::ConstraintAssociatedTokenTokenProgram);
    }
    if !same_address(&account.owner, wallet) {
        return Err(EscrowError::ConstraintTokenOwner);
    }
    match associated_token_address(wallet, mint, token_program) {
        None => Err(EscrowError::NoProgramAddress),
        Some(a) => if !same_address(&a, &account.key) {
            Err(EscrowError::ConstraintAssociated)
        } else {
            Ok(())
        },
    }
}

fn check_created_token_account(
    account: &TokenAccount,
    wallet: &[u8; 32],
    mint: &[u8; 32],
    token_program: &[u8; 32],
) -> (r: Result<(), EscrowError>)
    ensures
        match r {
            Ok(()) => created_token_account_error(*account, wallet@, mint@, token_program@) is None,
            Err(e) => created_token_account_error(*account, wallet@, mint@, token_program@) == Some(
                e,
            ),
        },
{
    if !same_address(&account.mint, mint) {
        return Err(EscrowError::ConstraintTokenMint);
    }
    if !same_address(&account.owner, wallet) {
        return Err(EscrowError::ConstraintTokenOwner);
    }
    if !same_address(&account.owner_program, token_program) {
        return Err(EscrowError::ConstraintAssociatedTokenTokenProgram);
    }
    match associated_token_address(wallet, mint, token_program) {
        None => Err(EscrowError::NoProgramAddress),
        Some(a) => if !same_address(&a, &account.key) {
            Err(EscrowError::AccountNotAssociatedTokenAccount)
        } else {
            Ok(())
        },
    }
}

fn check_has_one(offer: &Offer, maker: &[u8; 32], mint_a: &[u8; 32], mint_b: Option<&[u8; 32]>) -> (r:
    Result<(), EscrowError>)
    ensures
        ({
            let b = match mint_b {
                Some(m) => Some(m@),
                None => None,
            };
            match r {
                Ok(()) => offer_has_one_error(*offer, maker@, mint_a@, b) is None,
                Err(e) => offer_has_one_error(*offer, maker@, mint_a@, b) == Some(e),
            }
        }),
{
    if !same_address(&offer.maker, maker) || !same_address(&offer.token_mint_a, mint_a) {
        return Err(EscrowError::ConstraintHasOne);
    }
    match mint_b {
        Some(m) => if !same_address(&offer.token_mint_b, m) {
            Err(EscrowError::ConstraintHasOne)
        } else {
            Ok(())
        },
        None => Ok(()),
    }
}

/// The seeds of the offer `id` of `maker`.
pub fn offer_seed_vecs(maker: &[u8; 32], id: u64) -> (seeds: Vec<Vec<u8>>)
    ensures
        seeds.deep_view() == offer_seeds(maker@, id),
{
    let s0: Vec<u8> = vec![111u8, 102, 102, 101, 114];
    let s1 = address_vec(maker);
    let s2 = u64_to_le_bytes(id);
    let seeds: Vec<Vec<u8>> = vec![s0, s1, s2];
    proof {
        lemma_seeds_view(seeds);
        assert(s0@ =~= offer_seed());
        assert(seeds.deep_view() =~= offer_seeds(maker@, id));
    }
    seeds
}

/// The offer account and bump seed for the offer `id` of `maker` under the
/// escrow program `program_id`.
pub fn offer_address(program_id: &[u8; 32], maker: &[u8; 32], id: u64) -> (r: Option<([u8; 32], u8)>)
    ensures
        match r {
            Some((a, b)) => offer_address_of(program_id@, maker@, id) == Some((a@, b)),
            None => offer_address_of(program_id@, maker@, id) is None,
        },
{
    let seeds = offer_seed_vecs(maker, id);
    try_find_program_address(&seeds, program_id)
}

/// Checks the accounts of `make_offer` for the offer `id`; returns the bump
/// seed of the offer account.
pub fn validate_make_offer(program_id: &[u8; 32], accounts: &MakeOffer, id: u64) -> (r: Result<
    u8,
    EscrowError,
>)
    ensures
        match r {
            Ok(bump) => make_offer_error(program_id@, *accounts, id) is None
                && offer_address_of(program_id@, accounts.maker@, id) == Some(
                (accounts.offer@, bump),
            ),
            Err(e) => make_offer_error(program_id@, *accounts, id) == Some(e),
        },
{
    let bump = match offer_address(program_id, &accounts.maker, id) {
        None => return Err(EscrowError::NoProgramAddress),
        Some((a, b)) => {
            if !same_address(&a, &accounts.offer) {
                return Err(EscrowError::ConstraintSeeds);
            }
            if accounts.offer_in_use {
                return Err(EscrowError::AccountAlreadyInUse);
            }
            b
        },
    };
    check_mint(&accounts.token_mint_a, &accounts.token_program)?;
    check_mint(&accounts.token_mint_b, &accounts.token_program)?;
    check_associated_token(
        &accounts.maker_token_account_a,
        &accounts.maker,
        &accounts.token_mint_a.key,
        &accounts.token_program,
    )?;
    Ok(bump)
}

/// Checks the accounts of `take_offer`.
pub fn validate_take_offer(accounts: &TakeOffer) -> (r: Result<(), EscrowError>)
    ensures
        match r {
            Ok(()) => take_offer_error(*accounts) is None,
            Err(e) => take_offer_error(*accounts) == Some(e),
        },
{
    let tp = &accounts.token_program;
    check_created_token_account(
        &accounts.taker_token_account_a,
        &accounts.taker,
        &accounts.token_mint_a.key,
        tp,
    )?;
    check_created_token_account(
        &accounts.maker_token_account_b,
        &accounts.maker,
        &accounts.token_mint_b.key,
        tp,
    )?;
    check_associated_token(
        &accounts.taker_token_account_b,
        &accounts.taker,
        &accounts.token_mint_b.key,
        tp,
    )?;
    check_has_one(
        &accounts.offer,
        &accounts.maker,
        &accounts.token_mint_a.key,
        Some(&accounts.token_mint_b.key),
    )?;
    if same_address(&accounts.offer_key, &accounts.maker) {
        return Err(EscrowError::ConstraintClose);
    }
    check_associated_token(&accounts.vault, &accounts.offer_key, &accounts.token_mint_a.key, tp)
}

/// Checks the accounts of `close_offer`.
pub fn validate_close_offer(accounts: &CloseOffer) -> (r: Result<(), EscrowError>)
    ensures
        match r {
            Ok(()) => close_offer_error(*accounts) is None,
            Err(e) => close_offer_error(*accounts) == Some(e),
        },
{
    let tp = &accounts.token_program;
    check_mint(&accounts.token_mint_a, tp)?;
    check_associated_token(
        &accounts.maker_token_account_a,
        &accounts.maker,
        &accounts.token_mint_a.key,
        tp,
    )?;
    check_has_one(&accounts.offer, &accounts.maker, &accounts.token_mint_a.key, None)?;
    if same_address(&accounts.offer_key, &accounts.maker) {
        return Err(EscrowError::ConstraintClose);
    }
    check_associated_token(&accounts.vault, &accounts.offer_key, &accounts.token_mint_a.key, tp)
}

/// A movement of tokens: from which account, to which, how many.
pub open spec fn movement(t: TransferRequest) -> (Seq<u8>, Seq<u8>, nat) {
    (t.from@, t.to@, t.amount as nat)
}

/// The balances of token accounts after a movement, as the token program
/// documents a transfer: the amount leaves one account and reaches the
/// other.
pub open spec fn apply_movement(balances: Map<Seq<u8>, int>, mv: (Seq<u8>, Seq<u8>, nat)) -> Map<
    Seq<u8>,
    int,
> {
    let after = balances.insert(mv.0, balances[mv.0] - mv.2);
    after.insert(mv.1, after[mv.1] + mv.2)
}

/// The movement of `make_offer`: the offered amount, from the maker's
/// token A account into the vault.
pub open spec fn offered_movement(a: MakeOffer, amount: u64) -> (Seq<u8>, Seq<u8>, nat) {
    (a.maker_token_account_a.key@, a.vault@, amount as nat)
}

/// The payment of `take_offer`: the wanted amount of token B, from the
/// taker to the maker.
pub open spec fn payment_movement(a: TakeOffer) -> (Seq<u8>, Seq<u8>, nat) {
    (a.taker_token_account_b.key@, a.maker_token_account_b.key@, a.offer.token_b_wanted_amount as nat)
}

/// The withdrawal of `take_offer`: all of the vault, to the taker's token A
/// account.
pub open spec fn withdrawal_movement(a: TakeOffer) -> (Seq<u8>, Seq<u8>, nat) {
    (a.vault.key@, a.taker_token_account_a.key@, a.vault.amount as nat)
}

/// The refund of `close_offer`: all of the vault, back to the maker's
/// token A account.
pub open spec fn refund_movement(a: CloseOffer) -> (Seq<u8>, Seq<u8>, nat) {
    (a.vault.key@, a.maker_token_account_a.key@, a.vault.amount as nat)
}

/// The first step of `make_offer`: the maker moves `token_a_offered_amount`
/// of token A from their token account to the vault.
pub fn send_offered_tokens_to_vault(accounts: &MakeOffer, token_a_offered_amount: u64) -> (t:
    TransferRequest)
    ensures
        t.from == accounts.maker_token_account_a.key,
        t.mint == accounts.token_mint_a.key,
        t.to == accounts.vault,
        t.authority == accounts.maker,
        t.amount == token_a_offered_amount,
        t.decimals == accounts.token_mint_a.decimals,
        t.signer_seeds@.len() == 0,
        movement(t) == offered_movement(*accounts, token_a_offered_amount),
{
    TransferRequest {
        from: accounts.maker_token_account_a.key,
        mint: accounts.token_mint_a.key,
        to: accounts.vault,
        authority: accounts.maker,
        amount: token_a_offered_amount,
        decimals: accounts.token_mint_a.decimals,
        signer_seeds: Vec::new(),
    }
}

/// The second step of `make_offer`: the record written to the offer
/// account, with the bump seed found for it.
pub fn save_offer(accounts: &MakeOffer, id: u64, token_b_wanted_amount: u64, bump: u8) -> (o: Offer)
    ensures
        o == (Offer {
            id,
            maker: accounts.maker,
            token_mint_a: accounts.token_mint_a.key,
            token_mint_b: accounts.token_mint_b.key,
            token_b_wanted_amount,
            bump,
        }),
{
    Offer {
        id,
        maker: accounts.maker,
        token_mint_a: accounts.token_mint_a.key,
        token_mint_b: accounts.token_mint_b.key,
        token_b_wanted_amount,
        bump,
    }
}

/// The first step of `take_offer`: the taker pays the wanted amount of
/// token B to the maker's token account.
pub fn send_wanted_tokens_to_maker(accounts: &TakeOffer) -> (t: TransferRequest)
    ensures
        t.from == accounts.taker_token_account_b.key,
        t.mint == accounts.token_mint_b.key,
        t.to == accounts.maker_token_account_b.key,
        t.authority == accounts.taker,
        t.amount == accounts.offer.token_b_wanted_amount,
        t.decimals == accounts.token_mint_b.decimals,
        t.signer_seeds@.len() == 0,
        movement(t) == payment_movement(*accounts),
{
    TransferRequest {
        from: accounts.taker_token_account_b.key,
        mint: accounts.token_mint_b.key,
        to: accounts.maker_token_account_b.key,
        authority: accounts.taker,
        amount: accounts.offer.token_b_wanted_amount,
        decimals: accounts.token_mint_b.decimals,
        signer_seeds: Vec::new(),
    }
}

/// The second step of `take_offer`: the whole vault goes to the taker's
/// token A account, then the vault is closed to the taker; the offer
/// account signs both.
pub fn withdraw_and_close_vault(accounts: &TakeOffer) -> (r: (TransferRequest, CloseRequest))
    ensures
        r.0.from == accounts.vault.key,
        r.0.mint == accounts.token_mint_a.key,
        r.0.to == accounts.taker_token_account_a.key,
        r.0.authority == accounts.offer_key,
        r.0.amount == accounts.vault.amount,
        r.0.decimals == accounts.token_mint_a.decimals,
        r.0.signer_seeds.deep_view() == offer_signer_seeds_of(accounts.offer),
        r.1.account == accounts.vault.key,
        r.1.destination == accounts.taker,
        movement(r.0) == withdrawal_movement(*accounts),
        r.1.authority == accounts.offer_key,
        r.1.signer_seeds.deep_view() == offer_signer_seeds_of(accounts.offer),
{
    let transfer = TransferRequest {
        from: accounts.vault.key,
        mint: accounts.token_mint_a.key,
        to: accounts.taker_token_account_a.key,
        authority: accounts.offer_key,
        amount: accounts.vault.amount,
        decimals: accounts.token_mint_a.decimals,
        signer_seeds: offer_signer_seeds(&accounts.offer),
    };
    let close = CloseRequest {
        account: accounts.vault.key,
        destination: accounts.taker,
        authority: accounts.offer_key,
        signer_seeds: offer_signer_seeds(&accounts.offer),
    };
    (transfer, close)
}

/// The `close_offer` instruction: the whole vault goes back to the maker's
/// token A account, then the vault is closed to the maker; the offer
/// account signs both.
pub fn refund_and_close_vault(accounts: &CloseOffer) -> (r: (TransferRequest, CloseRequest))
    ensures
        r.0.from == accounts.vault.key,
        r.0.mint == accounts.token_mint_a.key,
        r.0.to == accounts.maker_token_account_a.key,
        r.0.authority == accounts.offer_key,
        r.0.amount == accounts.vault.amount,
        r.0.decimals == accounts.token_mint_a.decimals,
        r.0.signer_seeds.deep_view() == offer_signer_seeds_of(accounts.offer),
        r.1.account == accounts.vault.key,
        r.1.destination == accounts.maker,
        movement(r.0) == refund_movement(*accounts),
        r.1.authority == accounts.offer_key,
        r.1.signer_seeds.deep_view() == offer_signer_seeds_of(accounts.offer),
{
    let transfer = TransferRequest {
        from: accounts.vault.key,
        mint: accounts.token_mint_a.key,
        to: accounts.maker_token_account_a.key,
        authority: accounts.offer_key,
        amount: accounts.vault.amount,
        decimals: accounts.token_mint_a.decimals,
        signer_seeds: offer_signer_seeds(&accounts.offer),
    };
    let close = CloseRequest {
        account: accounts.vault.key,
        destination: accounts.maker,
        authority: accounts.offer_key,
        signer_seeds: offer_signer_seeds(&accounts.offer),
    };
    (transfer, close)
}

proof fn lemma_bump_search_derives(seeds: Seq<Seq<u8>>, program_id: Seq<u8>, bump: u8)
    ensures
        bump_search(seeds, program_id, bump) matches Some((a, b)) ==> program_address(
            seeds.push(seq![b]),
            program_id,
        ) == Some(a),
    decreases bump,
{
    if bump > 0 {
        lemma_bump_search_derives(seeds, program_id, (bump - 1) as u8);
    }
}

/// The seeds with which the program signs for an offer derive the offer's
/// address: an offer saved by `make_offer`, with the bump seed that its
/// accounts' check found, is signed for by `take_offer` and `close_offer`
/// with seeds that derive the very account it was created at.
pub proof fn lemma_signer_seeds_derive_offer(
    program_id: Seq<u8>,
    accounts: MakeOffer,
    id: u64,
    wanted: u64,
    bump: u8,
)
    requires
        offer_address_of(program_id, accounts.maker@, id) == Some((accounts.offer@, bump)),
    ensures
        ({
            let offer = Offer {
                id,
                maker: accounts.maker,
                token_mint_a: accounts.token_mint_a.key,
                token_mint_b: accounts.token_mint_b.key,
                token_b_wanted_amount: wanted,
                bump,
            };
            program_address(offer_signer_seeds_of(offer), program_id) == Some(accounts.offer@)
        }),
{
    let seeds = offer_seeds(accounts.maker@, id);
    lemma_bump_search_derives(seeds, program_id, 255);
}

/// An accepted offer is a swap: after `make_offer` and then `take_offer`,
/// the maker has given the offered amount of token A and received the
/// wanted amount of token B, the taker the reverse, the vault is empty
/// again, and no other token account has changed. The vault starts empty,
/// the take reads the vault as the make left it, and the five token
/// accounts are distinct.
pub proof fn lemma_make_then_take_swaps(
    make: MakeOffer,
    offered: u64,
    take: TakeOffer,
    balances: Map<Seq<u8>, int>,
)
    requires
        take.vault.key == make.vault,
        balances[make.vault@] == 0,
        take.vault.amount == offered,
        make.maker_token_account_a.key@ != make.vault@,
        make.maker_token_account_a.key@ != take.taker_token_account_a.key@,
        make.maker_token_account_a.key@ != take.taker_token_account_b.key@,
        make.maker_token_account_a.key@ != take.maker_token_account_b.key@,
        make.vault@ != take.taker_token_account_a.key@,
        make.vault@ != take.taker_token_account_b.key@,
        make.vault@ != take.maker_token_account_b.key@,
        take.taker_token_account_a.key@ != take.taker_token_account_b.key@,
        take.taker_token_account_a.key@ != take.maker_token_account_b.key@,
        take.taker_token_account_b.key@ != take.maker_token_account_b.key@,
    ensures
        ({
            let after_make = apply_movement(balances, offered_movement(make, offered));
            let after_pay = apply_movement(after_make, payment_movement(take));
            let after = apply_movement(after_pay, withdrawal_movement(take));
            let wanted = take.offer.token_b_wanted_amount;
            &&& after[make.maker_token_account_a.key@] == balances[make.maker_token_account_a.key@]
                - offered
            &&& after[take.taker_token_account_a.key@] == balances[take.taker_token_account_a.key@]
                + offered
            &&& after[take.taker_token_account_b.key@] == balances[take.taker_token_account_b.key@]
                - wanted
            &&& after[take.maker_token_account_b.key@] == balances[take.maker_token_account_b.key@]
                + wanted
            &&& after[make.vault@] == 0
            &&& forall|k: Seq<u8>|
                k != make.maker_token_account_a.key@ && k != make.vault@ && k
                    != take.taker_token_account_a.key@ && k != take.taker_token_account_b.key@ && k
                    != take.maker_token_account_b.key@ ==> #[trigger] after[k] == balances[k]
        }),
{
}

/// A withdrawn offer gives everything back: after `make_offer` and then
/// `close_offer`, the maker's token A account and the vault hold what they
/// held before, and no other token account has changed. The vault starts
/// empty and the close reads the vault as the make left it.
pub proof fn lemma_make_then_close_refunds(
    make: MakeOffer,
    offered: u64,
    close: CloseOffer,
    balances: Map<Seq<u8>, int>,
)
    requires
        close.vault.key == make.vault,
        close.maker_token_account_a.key == make.maker_token_account_a.key,
        balances[make.vault@] == 0,
        close.vault.amount == offered,
        make.maker_token_account_a.key@ != make.vault@,
    ensures
        ({
            let after_make = apply_movement(balances, offered_movement(make, offered));
            let after = apply_movement(after_make, refund_movement(close));
            &&& after[make.maker_token_account_a.key@] == balances[make.maker_token_account_a.key@]
            &&& after[make.vault@] == 0
            &&& forall|k: Seq<u8>|
                k != make.maker_token_account_a.key@ && k != make.vault@ ==> #[trigger] after[k]
                    == balances[k]
        }),
{
}

/// The vault is empty when it is closed: taking the whole vault, as read,
/// leaves it holding nothing, whatever it held, so the close that follows
/// the withdrawal of `take_offer` or the refund of `close_offer` is never
/// refused for tokens left in the vault.
pub proof fn lemma_vault_emptied_before_close(
    take: TakeOffer,
    close: CloseOffer,
    balances: Map<Seq<u8>, int>,
)
    requires
        take.vault.amount == balances[take.vault.key@],
        take.vault.key@ != take.taker_token_account_a.key@,
        close.vault.amount == balances[close.vault.key@],
        close.vault.key@ != close.maker_token_account_a.key@,
    ensures
        apply_movement(balances, withdrawal_movement(take))[take.vault.key@] == 0,
        apply_movement(balances, refund_movement(close))[close.vault.key@] == 0,
{
}

/// An offer is made once: where the offer account of `id` already exists,
/// as it does after a successful `make_offer` with that id, another
/// `make_offer` with the same maker and id fails.
pub proof fn lemma_second_make_fails(program_id: Seq<u8>, accounts: MakeOffer, id: u64)
    requires
        accounts.offer_in_use,
    ensures
        make_offer_error(program_id, accounts, id) is Some,
{
}

/// What one accepted offer moves: the taker pays the wanted amount of token
/// B to the maker and receives the whole vault in token A, the vault is then
/// empty, and no other token account changes. The vault is read as it is,
/// and the four token accounts are distinct.
pub proof fn lemma_take_moves(take: TakeOffer, balances: Map<Seq<u8>, int>)
    requires
        take.vault.amount == balances[take.vault.key@],
        take.vault.key@ != take.taker_token_account_a.key@,
        take.vault.key@ != take.taker_token_account_b.key@,
        take.vault.key@ != take.maker_token_account_b.key@,
        take.taker_token_account_a.key@ != take.taker_token_account_b.key@,
        take.taker_token_account_a.key@ != take.maker_token_account_b.key@,
        take.taker_token_account_b.key@ != take.maker_token_account_b.key@,
    ensures
        ({
            let after_pay = apply_movement(balances, payment_movement(take));
            let after = apply_movement(after_pay, withdrawal_movement(take));
            let wanted = take.offer.token_b_wanted_amount;
            let v0 = take.vault.amount;
            &&& after[take.maker_token_account_b.key@] == balances[take.maker_token_account_b.key@]
                + wanted
            &&& after[take.taker_token_account_b.key@] == balances[take.taker_token_account_b.key@]
                - wanted
            &&& after[take.taker_token_account_a.key@] == balances[take.taker_token_account_a.key@]
                + v0
            &&& after[take.vault.key@] == 0
            &&& forall|k: Seq<u8>|
                k != take.vault.key@ && k != take.taker_token_account_a.key@ && k
                    != take.taker_token_account_b.key@ && k != take.maker_token_account_b.key@
                    ==> #[trigger] after[k] == balances[k]
        }),
{
}

/// The mint check compares the mint's owning program with the token
/// program given, whichever it is (SPL Token, Token-2022 or another): it
/// passes exactly when the mint is owned by that program.
pub proof fn lemma_mint_check_uses_given_program(mint: Mint, token_program: Seq<u8>)
    ensures
        mint.owner_program@ == token_program ==> mint_error(mint, token_program) is None,
        mint.owner_program@ != token_program ==> mint_error(mint, token_program) == Some(
            EscrowError::ConstraintMintTokenProgram,
        ),
{
}

/// An existing associated token account passes its check under every token
/// program: the account at the address derived for `wallet` and `mint`
/// under the token program given, owned by that program, with `wallet` as
/// authority.
pub proof fn lemma_associated_account_accepted(
    account: TokenAccount,
    wallet: Seq<u8>,
    mint: Seq<u8>,
    token_program: Seq<u8>,
)
    requires
        associated_token_address_of(wallet, mint, token_program) == Some(account.key@),
        account.owner@ == wallet,
        account.owner_program@ == token_program,
    ensures
        associated_token_error(account, wallet, mint, token_program) is None,
{
}

/// A token account that the instruction creates where needed passes its
/// check under every token program: the account at the address derived for
/// `wallet` and `mint` under the token program given, owned by that program,
/// holding `mint`, with `wallet` as authority.
pub proof fn lemma_created_account_accepted(
    account: TokenAccount,
    wallet: Seq<u8>,
    mint: Seq<u8>,
    token_program: Seq<u8>,
)
    requires
        associated_token_address_of(wallet, mint, token_program) == Some(account.key@),
        account.mint@ == mint,
        account.owner@ == wallet,
        account.owner_program@ == token_program,
    ensures
        created_token_account_error(account, wallet, mint, token_program) is None,
{
}

/// A token account at another address than the one derived under the token
/// program given is refused, by an existing account's check and by a
/// created account's check.
pub proof fn lemma_other_address_refused(
    account: TokenAccount,
    wallet: Seq<u8>,
    mint: Seq<u8>,
    token_program: Seq<u8>,
)
    requires
        associated_token_address_of(wallet, mint, token_program) is Some,
        associated_token_address_of(wallet, mint, token_program) != Some(account.key@),
    ensures
        associated_token_error(account, wallet, mint, token_program) is Some,
        created_token_account_error(account, wallet, mint, token_program) is Some,
{
}

/// `make_offer` accepts the accounts that it derives for the token program
/// it is given, whichever that is: the offer account at the address derived
/// for the maker and id and not yet in use, both mints owned by the token
/// program, and the maker's token A account the associated account under
/// that program.
pub proof fn lemma_make_offer_accepted(program_id: Seq<u8>, a: MakeOffer, id: u64, bump: u8)
    requires
        offer_address_of(program_id, a.maker@, id) == Some((a.offer@, bump)),
        !a.offer_in_use,
        a.token_mint_a.owner_program == a.token_program,
        a.token_mint_b.owner_program == a.token_program,
        associated_token_address_of(a.maker@, a.token_mint_a.key@, a.token_program@) == Some(
            a.maker_token_account_a.key@,
        ),
        a.maker_token_account_a.owner == a.maker,
        a.maker_token_account_a.owner_program == a.token_program,
    ensures
        make_offer_error(program_id, a, id) is None,
{
}

/// `take_offer` accepts the accounts that it derives for the token program
/// it is given, whichever that is: the four token accounts the associated
/// accounts (of the taker for A and B, of the maker for B, of the offer for
/// A) under that program, owned by it, holding their mints; an offer that
/// names the maker and the two mints; an offer account other than the
/// maker.
pub proof fn lemma_take_offer_accepted(a: TakeOffer)
    requires
        associated_token_address_of(a.taker@, a.token_mint_a.key@, a.token_program@) == Some(
            a.taker_token_account_a.key@,
        ),
        a.taker_token_account_a.mint == a.token_mint_a.key,
        a.taker_token_account_a.owner == a.taker,
        a.taker_token_account_a.owner_program == a.token_program,
        associated_token_address_of(a.maker@, a.token_mint_b.key@, a.token_program@) == Some(
            a.maker_token_account_b.key@,
        ),
        a.maker_token_account_b.mint == a.token_mint_b.key,
        a.maker_token_account_b.owner == a.maker,
        a.maker_token_account_b.owner_program == a.token_program,
        associated_token_address_of(a.taker@, a.token_mint_b.key@, a.token_program@) == Some(
            a.taker_token_account_b.key@,
        ),
        a.taker_token_account_b.owner == a.taker,
        a.taker_token_account_b.owner_program == a.token_program,
        a.offer.maker == a.maker,
        a.offer.token_mint_a == a.token_mint_a.key,
        a.offer.token_mint_b == a.token_mint_b.key,
        a.offer_key@ != a.maker@,
        associated_token_address_of(a.offer_key@, a.token_mint_a.key@, a.token_program@) == Some(
            a.vault.key@,
        ),
        a.vault.owner == a.offer_key,
        a.vault.owner_program == a.token_program,
    ensures
        take_offer_error(a) is None,
{
}

/// `close_offer` accepts the accounts that it derives for the token program
/// it is given, whichever that is: mint A owned by that program, the
/// maker's token A account and the vault the associated accounts of the
/// maker and of the offer under it, owned by it; an offer that names the
/// maker and mint A; an offer account other than the maker.
pub proof fn lemma_close_offer_accepted(a: CloseOffer)
    requires
        a.token_mint_a.owner_program == a.token_program,
        associated_token_address_of(a.maker@, a.token_mint_a.key@, a.token_program@) == Some(
            a.maker_token_account_a.key@,
        ),
        a.maker_token_account_a.owner == a.maker,
        a.maker_token_account_a.owner_program == a.token_program,
        a.offer.maker == a.maker,
        a.offer.token_mint_a == a.token_mint_a.key,
        a.offer_key@ != a.maker@,
        associated_token_address_of(a.offer_key@, a.token_mint_a.key@, a.token_program@) == Some(
            a.vault.key@,
        ),
        a.vault.owner == a.offer_key,
        a.vault.owner_program == a.token_program,
    ensures
        close_offer_error(a) is None,
{
}

} // verus!
