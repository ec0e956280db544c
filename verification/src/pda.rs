//! Program derived addresses: the search for a bump seed, associated token
//! accounts and token metadata accounts.

use vstd::prelude::*;
use solana_sdk::pubkey::Pubkey;
use crate::ids::{associated_token_program, associated_token_program_id, spl_token_id, spl_token_program, token_metadata_program, token_metadata_program_id};

verus! {

/// The most seeds, bump seed included, that an address may be derived from.
pub const MAX_SEEDS: usize = 16;

/// The longest seed, in bytes.
pub const MAX_SEED_LEN: usize = 32;

/// The address that `Pubkey::create_program_address` derives from `seeds`
/// under `program_id`, or `None` where it errs.
pub uninterp spec fn program_address(seeds: Seq<Seq<u8>>, program_id: Seq<u8>) -> Option<Seq<u8>>;

/// Whether `seeds` holds at most `max_count` seeds of at most 32 bytes each.
pub open spec fn seeds_within_limits(seeds: Seq<Seq<u8>>, max_count: nat) -> bool {
    &&& seeds.len() <= max_count
    &&& forall|i: int| 0 <= i < seeds.len() ==> #[trigger] seeds[i].len() <= MAX_SEED_LEN
}

/// The first bump seed, counting down from `bump` to 1, for which `seeds`
/// followed by the bump seed derive an address, with that address.
pub open spec fn bump_search(seeds: Seq<Seq<u8>>, program_id: Seq<u8>, bump: u8) -> Option<
    (Seq<u8>, u8),
>
    decreases bump,
{
    if bump == 0 {
        None
    } else {
        match program_address(seeds.push(seq![bump]), program_id) {
            Some(a) => Some((a, bump)),
            None => bump_search(seeds, program_id, (bump - 1) as u8),
        }
    }
}

/// What `Pubkey::try_find_program_address` gives: the address and bump seed
/// of the first bump from 255 down to 1 that derives an address, or `None`
/// where the seeds, with room for the bump seed, break the limits.
pub open spec fn find_program_address(seeds: Seq<Seq<u8>>, program_id: Seq<u8>) -> Option<
    (Seq<u8>, u8),
> {
    if seeds_within_limits(seeds, (MAX_SEEDS - 1) as nat) {
        bump_search(seeds, program_id, 255)
    } else {
        None
    }
}

/// `Pubkey::try_find_program_address`. Its source tries the bump seeds 255
/// down to 1 with `Pubkey::create_program_address`, returns the first
/// address found with its bump, and stops with `None` at an error other than
/// a point on the curve, which the seed limits cause. `create_program_address`
/// errs when there are more than 16 seeds or a seed is longer than 32 bytes,
/// and otherwise hashes the seeds, the program id and a marker and errs when
/// the hash is a point of the ed25519 curve; the hash is left to
/// `program_address`.
#[verifier::external_body]
pub(crate) fn try_find_program_address(seeds: &Vec<Vec<u8>>, program_id: &[u8; 32]) -> (r:
    Option<([u8; 32], u8)>)
    ensures
        match r {
            Some((a, b)) => find_program_address(seeds.deep_view(), program_id@) == Some((a@, b)),
            None => find_program_address(seeds.deep_view(), program_id@) is None,
        },
        r matches Some((a, b)) ==> program_address(seeds.deep_view().push(seq![b]), program_id@)
            == Some(a@),
{
    let refs: Vec<&[u8]> = seeds.iter().map(|s| s.as_slice()).collect();
    Pubkey::try_find_program_address(&refs, &Pubkey::new_from_array(*program_id)).map(
        |(k, b)| (k.to_bytes(), b),
    )
}

/// The seeds that a vector of byte vectors holds.
pub proof fn lemma_seeds_view(seeds: Vec<Vec<u8>>)
    ensures
        seeds.deep_view() =~= seeds@.map_values(|s: Vec<u8>| s@),
{
    assert forall|i: int| 0 <= i < seeds@.len() implies #[trigger] seeds.deep_view()[i]
        == seeds@[i]@ by {
        assert(seeds@[i].deep_view() =~= seeds@[i]@);
    }
}

/// The bytes of an address as a vector.
pub fn address_vec(a: &[u8; 32]) -> (v: Vec<u8>)
    ensures
        v@ == a@,
{
    let mut v: Vec<u8> = Vec::new();
    let mut i: usize = 0;
    while i < 32
        invariant
            i <= 32,
            a@.len() == 32,
            v@ == a@.subrange(0, i as int),
        decreases 32 - i,
    {
        v.push(a[i]);
        assert(v@ =~= a@.subrange(0, i + 1));
        i = i + 1;
    }
    assert(a@.subrange(0, 32) =~= a@);
    v
}

/// The seeds of an associated token account: wallet, token program, mint.
pub open spec fn associated_token_seeds(wallet: Seq<u8>, mint: Seq<u8>, token_program: Seq<u8>) -> Seq<
    Seq<u8>,
> {
    seq![wallet, token_program, mint]
}

/// The associated token account of `wallet` for `mint` under
/// `token_program`, where the bump search finds one.
pub open spec fn associated_token_address_of(
    wallet: Seq<u8>,
    mint: Seq<u8>,
    token_program: Seq<u8>,
) -> Option<Seq<u8>> {
    match find_program_address(
        associated_token_seeds(wallet, mint, token_program),
        associated_token_program_id(),
    ) {
        Some((a, _)) => Some(a),
        None => None,
    }
}

/// `spl_associated_token_account::get_associated_token_address_with_program_id`.
/// Its source is `Pubkey::find_program_address` on the seeds wallet, token
/// program, mint under the associated token account program, which panics
/// where no bump seed derives an address; `requires` leaves that out.
#[verifier::external_body]
fn associated_token_address_call(wallet: &[u8; 32], mint: &[u8; 32], token_program: &[u8; 32]) -> (a:
    [u8; 32])
    requires
        associated_token_address_of(wallet@, mint@, token_program@) is Some,
    ensures
        associated_token_address_of(wallet@, mint@, token_program@) == Some(a@),
{
    spl_associated_token_account::get_associated_token_address_with_program_id(
        &Pubkey::new_from_array(*wallet),
        &Pubkey::new_from_array(*mint),
        &Pubkey::new_from_array(*token_program),
    ).to_bytes()
}

/// The associated token account of `wallet` for `mint` under
/// `token_program`; `None` where no bump seed derives one (where the
/// derivation would panic).
pub fn associated_token_address(wallet: &[u8; 32], mint: &[u8; 32], token_program: &[u8; 32]) -> (a:
    Option<[u8; 32]>)
    ensures
        match a {
            Some(a) => associated_token_address_of(wallet@, mint@, token_program@) == Some(a@),
            None => associated_token_address_of(wallet@, mint@, token_program@) is None,
        },
{
    let s0 = address_vec(wallet);
    let s1 = address_vec(token_program);
    let s2 = address_vec(mint);
    let seeds: Vec<Vec<u8>> = vec![s0, s1, s2];
    let ata_program = associated_token_program();
    proof {
        lemma_seeds_view(seeds);
        assert(seeds.deep_view() =~= associated_token_seeds(wallet@, mint@, token_program@));
    }
    match try_find_program_address(&seeds, &ata_program) {
        None => None,
        Some(_) => Some(associated_token_address_call(wallet, mint, token_program)),
    }
}

/// The associated token account of `wallet` for the SPL Token mint `mint`.
pub fn get_associated_account_address(wallet: &[u8; 32], mint: &[u8; 32]) -> (a: Option<[u8; 32]>)
    ensures
        match a {
            Some(a) => associated_token_address_of(wallet@, mint@, spl_token_id()) == Some(a@),
            None => associated_token_address_of(wallet@, mint@, spl_token_id()) is None,
        },
{
    let token_program = spl_token_program();
    associated_token_address(wallet, mint, &token_program)
}

/// The seed `b"metadata"`.
pub open spec fn metadata_seed() -> Seq<u8> {
    seq![109u8, 101, 116, 97, 100, 97, 116, 97]
}

/// The seed `b"metadata"` as a vector.
pub fn metadata_seed_vec() -> (v: Vec<u8>)
    ensures
        v@ == metadata_seed(),
{
    let v: Vec<u8> = vec![109u8, 101, 116, 97, 100, 97, 116, 97];
    assert(v@ =~= metadata_seed());
    v
}

/// The token metadata account of `mint`: the address derived from
/// `"metadata"`, the metadata program id and the mint, under the metadata
/// program.
pub open spec fn metadata_address_of(mint: Seq<u8>) -> Option<Seq<u8>> {
    match find_program_address(
        seq![metadata_seed(), token_metadata_program_id(), mint],
        token_metadata_program_id(),
    ) {
        Some((a, _)) => Some(a),
        None => None,
    }
}

/// The token metadata account of `mint`; `None` where no bump seed derives
/// one.
pub fn metadata_account_address(mint: &[u8; 32]) -> (a: Option<[u8; 32]>)
    ensures
        match a {
            Some(a) => metadata_address_of(mint@) == Some(a@),
            None => metadata_address_of(mint@) is None,
        },
{
    let program = token_metadata_program();
    let s0 = metadata_seed_vec();
    let s1 = address_vec(&program);
    let s2 = address_vec(mint);
    let seeds: Vec<Vec<u8>> = vec![s0, s1, s2];
    proof {
        lemma_seeds_view(seeds);
        assert(seeds.deep_view() =~= seq![metadata_seed(), token_metadata_program_id(), mint@]);
    }
    match try_find_program_address(&seeds, &program) {
        Some((a, _)) => Some(a),
        None => None,
    }
}

} // verus!
