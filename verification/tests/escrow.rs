use bootcamp3::escrow::{
    offer_address, offer_signer_seeds, refund_and_close_vault, save_offer,
    send_offered_tokens_to_vault, send_wanted_tokens_to_maker, validate_close_offer,
    validate_make_offer, validate_take_offer, withdraw_and_close_vault, CloseOffer, EscrowError,
    MakeOffer, Mint, Offer, TakeOffer, TokenAccount,
};
use solana_sdk::pubkey::Pubkey;
use std::collections::HashMap;

fn key() -> [u8; 32] {
    Pubkey::new_unique().to_bytes()
}

fn tp() -> [u8; 32] {
    spl_token::id().to_bytes()
}

fn ata(wallet: &[u8; 32], mint: &[u8; 32]) -> [u8; 32] {
    spl_associated_token_account::get_associated_token_address_with_program_id(
        &Pubkey::new_from_array(*wallet),
        &Pubkey::new_from_array(*mint),
        &spl_token::id(),
    )
    .to_bytes()
}

fn mint(decimals: u8) -> Mint {
    Mint { key: key(), decimals, owner_program: tp() }
}

fn token_account(wallet: &[u8; 32], mint: &Mint, amount: u64) -> TokenAccount {
    TokenAccount { key: ata(wallet, &mint.key), mint: mint.key, owner: *wallet, amount, owner_program: tp() }
}

struct World {
    program: [u8; 32],
    maker: [u8; 32],
    taker: [u8; 32],
    mint_a: Mint,
    mint_b: Mint,
    offer_key: [u8; 32],
    bump: u8,
}

const ID: u64 = 42;

fn world() -> World {
    let program = key();
    let maker = key();
    let (offer, bump) = Pubkey::find_program_address(
        &[b"offer", &maker, &ID.to_le_bytes()],
        &Pubkey::new_from_array(program),
    );
    World { program, maker, taker: key(), mint_a: mint(6), mint_b: mint(9), offer_key: offer.to_bytes(), bump }
}

fn make(w: &World, maker_a_amount: u64) -> MakeOffer {
    MakeOffer {
        maker: w.maker,
        token_mint_a: w.mint_a,
        token_mint_b: w.mint_b,
        maker_token_account_a: token_account(&w.maker, &w.mint_a, maker_a_amount),
        offer: w.offer_key,
        offer_in_use: false,
        vault: ata(&w.offer_key, &w.mint_a.key),
        token_program: tp(),
    }
}

fn offer(w: &World, wanted: u64) -> Offer {
    Offer { id: ID, maker: w.maker, token_mint_a: w.mint_a.key, token_mint_b: w.mint_b.key, token_b_wanted_amount: wanted, bump: w.bump }
}

fn take(w: &World, wanted: u64, vault_amount: u64) -> TakeOffer {
    TakeOffer {
        taker: w.taker,
        maker: w.maker,
        token_mint_a: w.mint_a,
        token_mint_b: w.mint_b,
        taker_token_account_a: token_account(&w.taker, &w.mint_a, 0),
        taker_token_account_b: token_account(&w.taker, &w.mint_b, 1000),
        maker_token_account_b: token_account(&w.maker, &w.mint_b, 0),
        offer_key: w.offer_key,
        offer: offer(w, wanted),
        vault: token_account(&w.offer_key, &w.mint_a, vault_amount),
        token_program: tp(),
    }
}

fn close(w: &World, vault_amount: u64) -> CloseOffer {
    CloseOffer {
        maker: w.maker,
        token_mint_a: w.mint_a,
        maker_token_account_a: token_account(&w.maker, &w.mint_a, 0),
        offer_key: w.offer_key,
        offer: offer(w, 5),
        vault: token_account(&w.offer_key, &w.mint_a, vault_amount),
        token_program: tp(),
    }
}

#[test]
fn offer_address_is_the_derived_one() {
    let w = world();
    assert_eq!(offer_address(&w.program, &w.maker, ID), Some((w.offer_key, w.bump)));
}

#[test]
fn signer_seeds_recreate_the_offer_address() {
    let w = world();
    let seeds = offer_signer_seeds(&offer(&w, 5));
    let refs: Vec<&[u8]> = seeds.iter().map(|s| s.as_slice()).collect();
    let a = Pubkey::create_program_address(&refs, &Pubkey::new_from_array(w.program)).unwrap();
    assert_eq!(a.to_bytes(), w.offer_key);
    assert_eq!(seeds[0], b"offer".to_vec());
    assert_eq!(seeds[2], ID.to_le_bytes().to_vec());
    assert_eq!(seeds[3], vec![w.bump]);
}

#[test]
fn make_offer_accounts_are_accepted() {
    let w = world();
    assert_eq!(validate_make_offer(&w.program, &make(&w, 100), ID), Ok(w.bump));
}

#[test]
fn make_offer_refuses_a_wrong_offer_account() {
    let w = world();
    let mut m = make(&w, 100);
    m.offer = key();
    assert_eq!(validate_make_offer(&w.program, &m, ID), Err(EscrowError::ConstraintSeeds));
    assert_eq!(validate_make_offer(&w.program, &make(&w, 100), ID + 1), Err(EscrowError::ConstraintSeeds));
}

#[test]
fn make_offer_refuses_a_foreign_mint() {
    let w = world();
    let mut m = make(&w, 100);
    m.token_mint_b.owner_program = key();
    assert_eq!(validate_make_offer(&w.program, &m, ID), Err(EscrowError::ConstraintMintTokenProgram));
}

#[test]
fn make_offer_refuses_someone_elses_token_account() {
    let w = world();
    let mut m = make(&w, 100);
    m.maker_token_account_a.owner = w.taker;
    assert_eq!(validate_make_offer(&w.program, &m, ID), Err(EscrowError::ConstraintTokenOwner));
    let mut m = make(&w, 100);
    m.maker_token_account_a.key = key();
    assert_eq!(validate_make_offer(&w.program, &m, ID), Err(EscrowError::ConstraintAssociated));
    let mut m = make(&w, 100);
    m.maker_token_account_a.owner_program = key();
    assert_eq!(validate_make_offer(&w.program, &m, ID), Err(EscrowError::ConstraintAssociatedTokenTokenProgram));
}

#[test]
fn make_offer_requests() {
    let w = world();
    let m = make(&w, 100);
    let t = send_offered_tokens_to_vault(&m, 30);
    assert_eq!((t.from, t.to, t.authority, t.mint), (m.maker_token_account_a.key, m.vault, w.maker, w.mint_a.key));
    assert_eq!((t.amount, t.decimals), (30, 6));
    assert!(t.signer_seeds.is_empty());
    let o = save_offer(&m, ID, 5, w.bump);
    assert_eq!((o.id, o.maker, o.token_mint_a, o.token_mint_b, o.token_b_wanted_amount, o.bump), (ID, w.maker, w.mint_a.key, w.mint_b.key, 5, w.bump));
}

#[test]
fn take_offer_accounts_are_accepted() {
    let w = world();
    assert_eq!(validate_take_offer(&take(&w, 5, 30)), Ok(()));
}

#[test]
fn take_offer_refuses_mismatches() {
    let w = world();
    let mut t = take(&w, 5, 30);
    t.offer.maker = w.taker;
    assert_eq!(validate_take_offer(&t), Err(EscrowError::ConstraintHasOne));
    let mut t = take(&w, 5, 30);
    t.offer.token_mint_b = key();
    assert_eq!(validate_take_offer(&t), Err(EscrowError::ConstraintHasOne));
    let mut t = take(&w, 5, 30);
    t.taker_token_account_a.mint = w.mint_b.key;
    assert_eq!(validate_take_offer(&t), Err(EscrowError::ConstraintTokenMint));
    let mut t = take(&w, 5, 30);
    t.maker_token_account_b.key = key();
    assert_eq!(validate_take_offer(&t), Err(EscrowError::AccountNotAssociatedTokenAccount));
    let mut t = take(&w, 5, 30);
    t.vault.owner = w.maker;
    assert_eq!(validate_take_offer(&t), Err(EscrowError::ConstraintTokenOwner));
    let mut t = take(&w, 5, 30);
    t.offer_key = w.maker;
    t.vault = token_account(&w.maker, &w.mint_a, 30);
    assert_eq!(validate_take_offer(&t), Err(EscrowError::ConstraintClose));
}

#[test]
fn close_offer_accounts() {
    let w = world();
    assert_eq!(validate_close_offer(&close(&w, 30)), Ok(()));
    let mut c = close(&w, 30);
    c.offer.token_mint_a = key();
    assert_eq!(validate_close_offer(&c), Err(EscrowError::ConstraintHasOne));
    let mut c = close(&w, 30);
    c.token_mint_a.owner_program = key();
    assert_eq!(validate_close_offer(&c), Err(EscrowError::ConstraintMintTokenProgram));
}

fn apply(bal: &mut HashMap<[u8; 32], i128>, from: [u8; 32], to: [u8; 32], amount: u64) {
    *bal.entry(from).or_insert(0) -= amount as i128;
    *bal.entry(to).or_insert(0) += amount as i128;
}

#[test]
fn make_then_take_is_a_swap() {
    let w = world();
    let m = make(&w, 100);
    let t = take(&w, 5, 30);
    let mut bal: HashMap<[u8; 32], i128> = HashMap::new();
    bal.insert(m.maker_token_account_a.key, 100);
    bal.insert(t.taker_token_account_b.key, 1000);
    let r = send_offered_tokens_to_vault(&m, 30);
    apply(&mut bal, r.from, r.to, r.amount);
    let r = send_wanted_tokens_to_maker(&t);
    apply(&mut bal, r.from, r.to, r.amount);
    let (r, c) = withdraw_and_close_vault(&t);
    apply(&mut bal, r.from, r.to, r.amount);
    assert_eq!(bal[&m.maker_token_account_a.key], 70);
    assert_eq!(bal[&t.taker_token_account_a.key], 30);
    assert_eq!(bal[&t.taker_token_account_b.key], 995);
    assert_eq!(bal[&t.maker_token_account_b.key], 5);
    assert_eq!(bal[&m.vault], 0);
    assert_eq!((c.account, c.destination, c.authority), (m.vault, w.taker, w.offer_key));
    assert_eq!(r.signer_seeds, c.signer_seeds);
    assert_eq!(r.decimals, 6);
}

#[test]
fn make_then_close_refunds() {
    let w = world();
    let m = make(&w, 100);
    let cl = close(&w, 30);
    let mut bal: HashMap<[u8; 32], i128> = HashMap::new();
    bal.insert(m.maker_token_account_a.key, 100);
    let r = send_offered_tokens_to_vault(&m, 30);
    apply(&mut bal, r.from, r.to, r.amount);
    let (r, c) = refund_and_close_vault(&cl);
    apply(&mut bal, r.from, r.to, r.amount);
    assert_eq!(bal[&m.maker_token_account_a.key], 100);
    assert_eq!(bal[&m.vault], 0);
    assert_eq!((c.account, c.destination, c.authority), (m.vault, w.maker, w.offer_key));
}

#[test]
fn make_refuses_an_offer_already_in_use() {
    let w = world();
    let mut m = make(&w, 100);
    m.offer_in_use = true;
    assert_eq!(validate_make_offer(&w.program, &m, ID), Err(EscrowError::AccountAlreadyInUse));
}
