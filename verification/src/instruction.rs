//! Transaction instructions as plain values, and the outside builders that
//! produce them: system transfers and account creation, SPL Token mint
//! instructions, associated token account creation and token metadata
//! creation.

use vstd::prelude::*;
use solana_sdk::pubkey::Pubkey;
use anchor_lang::prelude::borsh::{BorshDeserialize, BorshSerialize};
use mpl_token_metadata::instructions::{CreateV1, CreateV1InstructionArgs};
use mpl_token_metadata::types::{PrintSupply, TokenStandard};
use vstd::utf8::encode_utf8;
use crate::bytes::{le_bytes, u64_le};
use crate::ids::{
    associated_token_program_id, spl_token_id, sysvar_rent_id, system_program_id,
    token_metadata_program_id,
};
use crate::pda::associated_token_address_of;

verus! {

/// An account that an instruction names, with its roles.
#[derive(Clone, Copy)]
pub struct AccountMetaData {
    pub pubkey: [u8; 32],
    pub is_signer: bool,
    pub is_writable: bool,
}

/// An instruction: the program that runs it, the accounts it names, its data.
pub struct InstructionData {
    pub program_id: [u8; 32],
    pub accounts: Vec<AccountMetaData>,
    pub data: Vec<u8>,
}

/// An account with its roles, as plain values.
pub open spec fn meta_view(m: AccountMetaData) -> (Seq<u8>, bool, bool) {
    (m.pubkey@, m.is_signer, m.is_writable)
}

/// An instruction as plain values: program id, accounts, data.
pub open spec fn ix_view(ix: InstructionData) -> (Seq<u8>, Seq<(Seq<u8>, bool, bool)>, Seq<u8>) {
    (ix.program_id@, ix.accounts@.map_values(|m: AccountMetaData| meta_view(m)), ix.data@)
}

/// `AccountMeta::new`: a writable account.
pub open spec fn writable(key: Seq<u8>, is_signer: bool) -> (Seq<u8>, bool, bool) {
    (key, is_signer, true)
}

/// `AccountMeta::new_readonly`: a read-only account.
pub open spec fn readonly(key: Seq<u8>, is_signer: bool) -> (Seq<u8>, bool, bool) {
    (key, is_signer, false)
}

/// The data of the system program's `Transfer`: the variant index 2 as a
/// little-endian `u32`, then the lamports.
pub open spec fn transfer_data(lamports: u64) -> Seq<u8> {
    seq![2u8, 0, 0, 0] + u64_le(lamports)
}

/// The system program's transfer of `lamports` from `from` to `to`.
pub open spec fn transfer_ix(from: Seq<u8>, to: Seq<u8>, lamports: u64) -> (
    Seq<u8>,
    Seq<(Seq<u8>, bool, bool)>,
    Seq<u8>,
) {
    (system_program_id(), seq![writable(from, true), writable(to, false)], transfer_data(lamports))
}

/// The data of the system program's `CreateAccount`: the variant index 0 as
/// a little-endian `u32`, the lamports, the space, the owner.
pub open spec fn create_account_data(lamports: u64, space: u64, owner: Seq<u8>) -> Seq<u8> {
    seq![0u8, 0, 0, 0] + u64_le(lamports) + u64_le(space) + owner
}

/// The system program's creation of the account `to`, funded by `from`.
pub open spec fn create_account_ix(
    from: Seq<u8>,
    to: Seq<u8>,
    lamports: u64,
    space: u64,
    owner: Seq<u8>,
) -> (Seq<u8>, Seq<(Seq<u8>, bool, bool)>, Seq<u8>) {
    (
        system_program_id(),
        seq![writable(from, true), writable(to, true)],
        create_account_data(lamports, space, owner),
    )
}

/// A `COption<Pubkey>` as SPL Token packs it.
pub open spec fn packed_key_option(key: Option<Seq<u8>>) -> Seq<u8> {
    match key {
        Some(k) => seq![1u8] + k,
        None => seq![0u8],
    }
}

/// SPL Token's `InitializeMint` of `mint` under `token_program`.
pub open spec fn initialize_mint_ix(
    token_program: Seq<u8>,
    mint: Seq<u8>,
    authority: Seq<u8>,
    freeze_authority: Option<Seq<u8>>,
    decimals: u8,
) -> (Seq<u8>, Seq<(Seq<u8>, bool, bool)>, Seq<u8>) {
    (
        token_program,
        seq![writable(mint, false), readonly(sysvar_rent_id(), false)],
        seq![0u8, decimals] + authority + packed_key_option(freeze_authority),
    )
}

/// SPL Token's `MintTo` of `amount` tokens of `mint` into `account`, with
/// `owner` the mint authority and `signers` the signers of a multisig
/// authority.
pub open spec fn mint_to_ix(
    token_program: Seq<u8>,
    mint: Seq<u8>,
    account: Seq<u8>,
    owner: Seq<u8>,
    signers: Seq<Seq<u8>>,
    amount: u64,
) -> (Seq<u8>, Seq<(Seq<u8>, bool, bool)>, Seq<u8>) {
    (
        token_program,
        seq![writable(mint, false), writable(account, false), readonly(owner, signers.len() == 0)]
            + signers.map_values(|s: Seq<u8>| readonly(s, true)),
        seq![7u8] + u64_le(amount),
    )
}

/// The associated token program's `Create` of the associated token account
/// `ata` of `wallet` for `mint`, funded by `funding`.
pub open spec fn create_associated_token_account_ix(
    funding: Seq<u8>,
    ata: Seq<u8>,
    wallet: Seq<u8>,
    mint: Seq<u8>,
    token_program: Seq<u8>,
) -> (Seq<u8>, Seq<(Seq<u8>, bool, bool)>, Seq<u8>) {
    (
        associated_token_program_id(),
        seq![
            writable(funding, true),
            writable(ata, false),
            readonly(wallet, false),
            readonly(mint, false),
            readonly(system_program_id(), false),
            readonly(token_program, false),
        ],
        seq![0u8],
    )
}

/// The token standards of the token metadata program.
#[derive(Clone, Copy, Debug, PartialEq, Eq)]
pub enum TokenStandardKind {
    NonFungible,
    FungibleAsset,
    Fungible,
    NonFungibleEdition,
    ProgrammableNonFungible,
    ProgrammableNonFungibleEdition,
}

/// The print supplies of the token metadata program.
#[derive(Clone, Copy, Debug, PartialEq, Eq)]
pub enum PrintSupplyKind {
    Zero,
    Limited(u64),
    Unlimited,
}

/// The arguments of the token metadata program's `CreateV1`, without
/// creators, collection, uses and collection details, which this library
/// never sets (they are `None`).
pub struct MetadataArgs {
    pub name: String,
    pub symbol: String,
    pub uri: String,
    pub seller_fee_basis_points: u16,
    pub primary_sale_happened: bool,
    pub is_mutable: bool,
    pub token_standard: TokenStandardKind,
    pub rule_set: Option<[u8; 32]>,
    pub decimals: Option<u8>,
    pub print_supply: Option<PrintSupplyKind>,
}

/// The accounts of the token metadata program's `CreateV1`.
#[derive(Clone, Copy)]
pub struct CreateV1Accounts {
    pub metadata: [u8; 32],
    pub master_edition: Option<[u8; 32]>,
    pub mint: [u8; 32],
    pub mint_is_signer: bool,
    pub authority: [u8; 32],
    pub payer: [u8; 32],
    pub update_authority: [u8; 32],
    pub update_authority_is_signer: bool,
    pub system_program: [u8; 32],
    pub sysvar_instructions: [u8; 32],
    pub spl_token_program: Option<[u8; 32]>,
}

/// `solana_sdk::system_instruction::transfer`: by its source, the system
/// program with `from` (writable signer) and `to` (writable), and the
/// bincode encoding of `Transfer { lamports }`.
#[verifier::external_body]
pub(crate) fn system_transfer(from: &[u8; 32], to: &[u8; 32], lamports: u64) -> (ix: InstructionData)
    ensures
        ix_view(ix) == transfer_ix(from@, to@, lamports),
{
    let ix = solana_sdk::system_instruction::transfer(
        &Pubkey::new_from_array(*from),
        &Pubkey::new_from_array(*to),
        lamports,
    );
    let accounts = ix.accounts.iter().map(|m| AccountMetaData { pubkey: m.pubkey.to_bytes(), is_signer: m.is_signer, is_writable: m.is_writable }).collect();
    InstructionData { program_id: ix.program_id.to_bytes(), accounts, data: ix.data }
}

/// `solana_sdk::system_instruction::create_account`: by its source, the
/// system program with `from` and `to` (both writable signers), and the
/// bincode encoding of `CreateAccount { lamports, space, owner }`.
#[verifier::external_body]
pub(crate) fn system_create_account(
    from: &[u8; 32],
    to: &[u8; 32],
    lamports: u64,
    space: u64,
    owner: &[u8; 32],
) -> (ix: InstructionData)
    ensures
        ix_view(ix) == create_account_ix(from@, to@, lamports, space, owner@),
{
    let p = |k: &[u8; 32]| Pubkey::new_from_array(*k);
    let ix = solana_sdk::system_instruction::create_account(&p(from), &p(to), lamports, space, &p(owner));
    let accounts = ix.accounts.iter().map(|m| AccountMetaData { pubkey: m.pubkey.to_bytes(), is_signer: m.is_signer, is_writable: m.is_writable }).collect();
    InstructionData { program_id: ix.program_id.to_bytes(), accounts, data: ix.data }
}

/// `spl_token::instruction::initialize_mint`: by its source, an error
/// exactly when `token_program` is not the SPL Token program id; otherwise
/// the mint (writable) and the rent sysvar, and the packed `InitializeMint`
/// (tag 0, decimals, authority, optional freeze authority).
#[verifier::external_body]
pub(crate) fn token_initialize_mint(
    token_program: &[u8; 32],
    mint: &[u8; 32],
    authority: &[u8; 32],
    freeze_authority: Option<&[u8; 32]>,
    decimals: u8,
) -> (ix: Option<InstructionData>)
    ensures
        ix is None <==> token_program@ != spl_token_id(),
        ix matches Some(ix) ==> ix_view(ix) == initialize_mint_ix(
            token_program@,
            mint@,
            authority@,
            match freeze_authority {
                Some(f) => Some(f@),
                None => None,
            },
            decimals,
        ),
{
    let p = |k: &[u8; 32]| Pubkey::new_from_array(*k);
    let freeze = freeze_authority.map(|f| p(f));
    let ix = spl_token::instruction::initialize_mint(&p(token_program), &p(mint), &p(authority), freeze.as_ref(), decimals).ok()?;
    let accounts = ix.accounts.iter().map(|m| AccountMetaData { pubkey: m.pubkey.to_bytes(), is_signer: m.is_signer, is_writable: m.is_writable }).collect();
    Some(InstructionData { program_id: ix.program_id.to_bytes(), accounts, data: ix.data })
}

/// `spl_token::instruction::mint_to`: by its source, an error exactly when
/// `token_program` is not the SPL Token program id; otherwise the mint and
/// the account (writable), the owner (a signer when there are no multisig
/// signers), the signers, and the packed `MintTo` (tag 7, amount).
#[verifier::external_body]
pub(crate) fn token_mint_to(
    token_program: &[u8; 32],
    mint: &[u8; 32],
    account: &[u8; 32],
    owner: &[u8; 32],
    signers: &Vec<[u8; 32]>,
    amount: u64,
) -> (ix: Option<InstructionData>)
    ensures
        ix is None <==> token_program@ != spl_token_id(),
        ix matches Some(ix) ==> ix_view(ix) == mint_to_ix(
            token_program@,
            mint@,
            account@,
            owner@,
            signers@.map_values(|s: [u8; 32]| s@),
            amount,
        ),
{
    let p = |k: &[u8; 32]| Pubkey::new_from_array(*k);
    let keys: Vec<Pubkey> = signers.iter().map(|s| p(s)).collect();
    let refs: Vec<&Pubkey> = keys.iter().collect();
    let ix = spl_token::instruction::mint_to(&p(token_program), &p(mint), &p(account), &p(owner), &refs, amount).ok()?;
    let accounts = ix.accounts.iter().map(|m| AccountMetaData { pubkey: m.pubkey.to_bytes(), is_signer: m.is_signer, is_writable: m.is_writable }).collect();
    Some(InstructionData { program_id: ix.program_id.to_bytes(), accounts, data: ix.data })
}

/// `spl_associated_token_account::instruction::create_associated_token_account`:
/// by its source, the associated token program with the funding account
/// (writable signer), the associated token account (writable), the wallet,
/// the mint, the system program and the token program, and the borsh
/// encoding of `Create` (tag 0). Deriving the associated address panics
/// where no bump seed derives it; `requires` leaves that out.
#[verifier::external_body]
pub(crate) fn create_associated_token_account(
    funding: &[u8; 32],
    wallet: &[u8; 32],
    mint: &[u8; 32],
    token_program: &[u8; 32],
) -> (ix: InstructionData)
    requires
        associated_token_address_of(wallet@, mint@, token_program@) is Some,
    ensures
        ix_view(ix) == create_associated_token_account_ix(
            funding@,
            associated_token_address_of(wallet@, mint@, token_program@)->0,
            wallet@,
            mint@,
            token_program@,
        ),
{
    let p = |k: &[u8; 32]| Pubkey::new_from_array(*k);
    let ix = spl_associated_token_account::instruction::create_associated_token_account(&p(funding), &p(wallet), &p(mint), &p(token_program));
    let accounts = ix.accounts.iter().map(|m| AccountMetaData { pubkey: m.pubkey.to_bytes(), is_signer: m.is_signer, is_writable: m.is_writable }).collect();
    InstructionData { program_id: ix.program_id.to_bytes(), accounts, data: ix.data }
}

/// Borsh's `String`: the length of the UTF-8 bytes as a little-endian
/// `u32`, then the bytes.
pub open spec fn borsh_string(s: Seq<char>) -> Seq<u8> {
    le_bytes(encode_utf8(s).len(), 4) + encode_utf8(s)
}

/// Borsh's `bool`: one byte, 1 or 0.
pub open spec fn borsh_bool(b: bool) -> Seq<u8> {
    if b {
        seq![1u8]
    } else {
        seq![0u8]
    }
}

/// The index of a token standard, which borsh writes as its one byte.
pub open spec fn token_standard_index(k: TokenStandardKind) -> u8 {
    match k {
        TokenStandardKind::NonFungible => 0,
        TokenStandardKind::FungibleAsset => 1,
        TokenStandardKind::Fungible => 2,
        TokenStandardKind::NonFungibleEdition => 3,
        TokenStandardKind::ProgrammableNonFungible => 4,
        TokenStandardKind::ProgrammableNonFungibleEdition => 5,
    }
}

/// Borsh's `PrintSupply`: the variant's index, then `Limited`'s `u64`.
pub open spec fn borsh_print_supply(p: PrintSupplyKind) -> Seq<u8> {
    match p {
        PrintSupplyKind::Zero => seq![0u8],
        PrintSupplyKind::Limited(n) => seq![1u8] + u64_le(n),
        PrintSupplyKind::Unlimited => seq![2u8],
    }
}

/// Borsh's `Option`: 0, or 1 and the value's bytes.
pub open spec fn borsh_option(v: Option<Seq<u8>>) -> Seq<u8> {
    match v {
        None => seq![0u8],
        Some(b) => seq![1u8] + b,
    }
}

/// The borsh bytes of the `CreateV1` arguments: name, symbol, uri, seller
/// fee, no creators, primary sale, mutability, token standard, no collection,
/// uses or collection details, rule set, decimals, print supply.
pub open spec fn create_v1_args_bytes(
    name: Seq<char>,
    symbol: Seq<char>,
    uri: Seq<char>,
    seller_fee_basis_points: u16,
    primary_sale_happened: bool,
    is_mutable: bool,
    token_standard: TokenStandardKind,
    rule_set: Option<Seq<u8>>,
    decimals: Option<u8>,
    print_supply: Option<PrintSupplyKind>,
) -> Seq<u8> {
    borsh_string(name) + borsh_string(symbol) + borsh_string(uri) + le_bytes(
        seller_fee_basis_points as nat,
        2,
    ) + seq![0u8] + borsh_bool(primary_sale_happened) + borsh_bool(is_mutable) + seq![
        token_standard_index(token_standard),
    ] + seq![0u8, 0u8, 0u8] + borsh_option(rule_set) + borsh_option(
        match decimals {
            Some(d) => Some(seq![d]),
            None => None,
        },
    ) + borsh_option(
        match print_supply {
            Some(p) => Some(borsh_print_supply(p)),
            None => None,
        },
    )
}

/// The borsh bytes of `args`.
pub open spec fn metadata_args_bytes(args: MetadataArgs) -> Seq<u8> {
    create_v1_args_bytes(
        args.name@,
        args.symbol@,
        args.uri@,
        args.seller_fee_basis_points,
        args.primary_sale_happened,
        args.is_mutable,
        args.token_standard,
        match args.rule_set {
            Some(k) => Some(k@),
            None => None,
        },
        args.decimals,
        args.print_supply,
    )
}

/// Whether borsh can write the strings of `args`: each takes at most
/// `u32::MAX` bytes.
pub open spec fn metadata_args_fit(args: MetadataArgs) -> bool {
    &&& encode_utf8(args.name@).len() <= u32::MAX
    &&& encode_utf8(args.symbol@).len() <= u32::MAX
    &&& encode_utf8(args.uri@).len() <= u32::MAX
}

/// The accounts of `CreateV1`, in order; an absent master edition or token
/// program stands as the read-only token metadata program id.
pub open spec fn create_v1_accounts(a: CreateV1Accounts) -> Seq<(Seq<u8>, bool, bool)> {
    seq![
        writable(a.metadata@, false),
        match a.master_edition {
            Some(e) => writable(e@, false),
            None => readonly(token_metadata_program_id(), false),
        },
        writable(a.mint@, a.mint_is_signer),
        readonly(a.authority@, true),
        writable(a.payer@, true),
        readonly(a.update_authority@, a.update_authority_is_signer),
        readonly(a.system_program@, false),
        readonly(a.sysvar_instructions@, false),
        match a.spl_token_program {
            Some(t) => readonly(t@, false),
            None => readonly(token_metadata_program_id(), false),
        },
    ]
}

/// The token metadata program's `CreateV1` with the accounts `a` and the
/// argument bytes `args`: discriminators 42 and 0, then the arguments.
pub open spec fn create_v1_ix(a: CreateV1Accounts, args: Seq<u8>) -> (
    Seq<u8>,
    Seq<(Seq<u8>, bool, bool)>,
    Seq<u8>,
) {
    (token_metadata_program_id(), create_v1_accounts(a), seq![42u8, 0u8] + args)
}

/// The borsh serialization (`try_to_vec`) of `mpl_token_metadata`'s
/// `CreateV1InstructionArgs` built from `m`, the fields that `MetadataArgs`
/// lacks being `None`. The token standard is converted through its one-byte
/// borsh form, which the derived deserializer reads back as the variant of
/// that index. Borsh errs (`None` here) only where a string is longer than
/// `u32::MAX` bytes.
#[verifier::external_body]
pub(crate) fn create_v1_args_data(m: &MetadataArgs) -> (r: Option<Vec<u8>>)
    ensures
        r is Some <==> metadata_args_fit(*m),
        r matches Some(d) ==> d@ == metadata_args_bytes(*m),
{
    let a = CreateV1InstructionArgs { name: m.name.clone(), symbol: m.symbol.clone(), uri: m.uri.clone(), seller_fee_basis_points: m.seller_fee_basis_points, creators: None, primary_sale_happened: m.primary_sale_happened, is_mutable: m.is_mutable, token_standard: TokenStandard::try_from_slice(&[m.token_standard as u8]).ok()?, collection: None, uses: None, collection_details: None, rule_set: m.rule_set.map(Pubkey::new_from_array), decimals: m.decimals, print_supply: m.print_supply.map(|p| match p { PrintSupplyKind::Zero => PrintSupply::Zero, PrintSupplyKind::Limited(n) => PrintSupply::Limited(n), PrintSupplyKind::Unlimited => PrintSupply::Unlimited }) };
    a.try_to_vec().ok()
}

/// `mpl_token_metadata::instructions::CreateV1::instruction`: by its source,
/// the token metadata program, the accounts of `create_v1_accounts`, and the
/// data of the discriminators 42 and 0 followed by the borsh bytes of the
/// arguments. The arguments come as their borsh bytes, which
/// `CreateV1InstructionArgs::try_from_slice` reads back: borsh writes the
/// value that it read as the bytes it read.
#[verifier::external_body]
pub(crate) fn token_metadata_create_v1(a: &CreateV1Accounts, data: &[u8]) -> (ix: InstructionData)
    requires
        exists|m: MetadataArgs| metadata_args_fit(m) && data@ == #[trigger] metadata_args_bytes(m),
    ensures
        ix_view(ix) == create_v1_ix(*a, data@),
{
    let k = Pubkey::new_from_array;
    let args = CreateV1InstructionArgs::try_from_slice(data).unwrap();
    let ix = CreateV1 { metadata: k(a.metadata), master_edition: a.master_edition.map(k), mint: (k(a.mint), a.mint_is_signer), authority: k(a.authority), payer: k(a.payer), update_authority: (k(a.update_authority), a.update_authority_is_signer), system_program: k(a.system_program), sysvar_instructions: k(a.sysvar_instructions), spl_token_program: a.spl_token_program.map(k) }.instruction(args);
    let accounts = ix.accounts.iter().map(|m| AccountMetaData { pubkey: m.pubkey.to_bytes(), is_signer: m.is_signer, is_writable: m.is_writable }).collect();
    InstructionData { program_id: ix.program_id.to_bytes(), accounts, data: ix.data }
}

} // verus!
