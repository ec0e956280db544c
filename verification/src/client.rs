//! The instructions of the wallet client's transactions: sending SOL (with
//! or without a memo), creating a token mint, an associated token account
//! and a token metadata account, and minting tokens.
//!
//! Each function gives the instructions of one transaction, in order; the
//! caller signs them with the payer's keypair and a recent blockhash and
//! sends them.

use vstd::prelude::*;
use vstd::string::StringSliceAdditionalSpecFns;
use solana_sdk::pubkey::{ParsePubkeyError, Pubkey};
use solana_sdk::instruction::{AccountMeta, Instruction};
use solana_sdk::message::Message;
use std::str::FromStr;
use crate::ids::{
    spl_token_id, spl_token_program, sysvar_instructions, sysvar_instructions_id,
    system_program, system_program_id, token_metadata_program_id,
};
use crate::instruction::{
    create_account_ix, create_associated_token_account, create_associated_token_account_ix,
    create_v1_accounts, create_v1_args_bytes, create_v1_args_data,
    metadata_args_bytes, readonly, token_metadata_create_v1,
    initialize_mint_ix, ix_view, mint_to_ix, system_create_account, system_transfer, token_initialize_mint,
    token_mint_to, transfer_ix, writable, AccountMetaData, CreateV1Accounts, InstructionData,
    MetadataArgs, PrintSupplyKind, TokenStandardKind,
};
use crate::message::{ix_views, message_fits, message_fits_limits};
use crate::base58::{lemma_memo_program_decodes, memo_program_bytes, memo_program_text, parsed_pubkey};
use crate::pda::{
    associated_token_address, associated_token_address_of, metadata_account_address,
    metadata_address_of,
};

verus! {

#[verifier::external_type_specification]
#[verifier::external_body]
pub struct ExParsePubkeyError(ParsePubkeyError);

/// The decimals of the mints that the client creates.
pub const MINT_DECIMALS: u8 = 2;

/// `<Pubkey as FromStr>::from_str`. Its source errs on a text of more than
/// 44 bytes, then decodes it with `bs58` (Bitcoin alphabet), erring on a
/// character outside the alphabet, and errs where the result is not 32
/// bytes long. `bs58`'s `decode_into` gives a zero byte for each leading
/// `1`, then the value of the digits in big-endian bytes without leading
/// zeros: `parsed_pubkey`. (A text of base58 digits is ASCII, so its length
/// in bytes is its length in characters.)
#[verifier::external_body]
fn pubkey_from_str(s: &str) -> (r: Result<[u8; 32], ParsePubkeyError>)
    ensures
        match r {
            Ok(k) => parsed_pubkey(s@) == Some(k@),
            Err(_) => parsed_pubkey(s@) is None,
        },
{
    Pubkey::from_str(s).map(|k| k.to_bytes())
}

/// `spl_token::state::Mint::LEN`: the size of a packed mint, 82 bytes.
#[verifier::external_body]
fn mint_account_len() -> (n: u64)
    ensures
        n == 82,
{
    <spl_token::state::Mint as solana_sdk::program_pack::Pack>::LEN as u64
}

/// Lamports in one SOL.
pub const LAMPORTS_PER_SOL: u64 = 1_000_000_000;

/// The whole SOL in a balance of `lamports`, rounded down.
pub fn whole_sol(lamports: u64) -> (sol: u64)
    ensures
        sol == lamports / LAMPORTS_PER_SOL,
        sol * LAMPORTS_PER_SOL <= lamports < (sol + 1) * LAMPORTS_PER_SOL,
{
    lamports / LAMPORTS_PER_SOL
}

/// The memo program's id, decoded from its text
/// `MemoSq4gqABAXKb96qnH8TysNcWxMyWCqXgDLGmfcHr`.
pub fn memo_program_id() -> (k: [u8; 32])
    ensures
        k@ == memo_program_bytes(),
{
    let text = "MemoSq4gqABAXKb96qnH8TysNcWxMyWCqXgDLGmfcHr";
    proof {
        reveal_strlit("MemoSq4gqABAXKb96qnH8TysNcWxMyWCqXgDLGmfcHr");
        assert(text@ =~= memo_program_text());
        lemma_memo_program_decodes();
    }
    match pubkey_from_str(text) {
        Ok(k) => k,
        Err(_) => {
            assert(false);
            [0u8; 32]
        },
    }
}

/// An instruction to the memo program: `signer` (a writable signer) and the
/// UTF-8 bytes of `memo` as data.
pub fn memo_instruction(memo_program: &[u8; 32], signer: &[u8; 32], memo: &str) -> (ix:
    InstructionData)
    ensures
        ix_view(ix) == (memo_program@, seq![writable(signer@, true)], memo.spec_bytes()),
{
    let accounts: Vec<AccountMetaData> = vec![
        AccountMetaData { pubkey: *signer, is_signer: true, is_writable: true },
    ];
    let data = vstd::slice::slice_to_vec(memo.as_bytes());
    let ix = InstructionData { program_id: *memo_program, accounts, data };
    assert(ix.accounts@.map_values(|m: AccountMetaData| (m.pubkey@, m.is_signer, m.is_writable))
        =~= seq![writable(signer@, true)]);
    ix
}

/// A transaction before it is signed: the account that pays its fee, the
/// accounts whose keypairs sign it, in that order, and its instructions.
pub struct TransactionPlan {
    pub fee_payer: [u8; 32],
    pub signers: Vec<[u8; 32]>,
    pub instructions: Vec<InstructionData>,
}

/// A transaction paid for and signed by `payer` alone.
pub open spec fn paid_by(t: TransactionPlan, payer: [u8; 32]) -> bool {
    t.fee_payer == payer && t.signers@ == seq![payer]
}

/// The signers of a transaction that `payer` alone signs.
fn payer_only(payer: &[u8; 32]) -> (v: Vec<[u8; 32]>)
    ensures
        v@ == seq![*payer],
{
    let v = vec![*payer];
    assert(v@ =~= seq![*payer]);
    v
}

/// The transaction of `send_sol`: one transfer of `amount` lamports from
/// `payer` to `wallet`, paid for and signed by `payer`.
pub fn send_sol_transaction(payer: &[u8; 32], wallet: &[u8; 32], amount: u64) -> (t: TransactionPlan)
    ensures
        paid_by(t, *payer),
        t.instructions@.len() == 1,
        ix_view(t.instructions@[0]) == transfer_ix(payer@, wallet@, amount),
{
    TransactionPlan {
        fee_payer: *payer,
        signers: payer_only(payer),
        instructions: vec![system_transfer(payer, wallet, amount)],
    }
}

/// The transaction of `send_sol_with_memo`: the transfer of `amount`
/// lamports from `payer` to `wallet`, then a memo signed by the payer; paid
/// for and signed by `payer`.
pub fn send_sol_with_memo_transaction(
    payer: &[u8; 32],
    wallet: &[u8; 32],
    amount: u64,
    memo: &str,
) -> (t: TransactionPlan)
    ensures
        paid_by(t, *payer),
        t.instructions@.len() == 2,
        ix_view(t.instructions@[0]) == transfer_ix(payer@, wallet@, amount),
        ix_view(t.instructions@[1]) == (
            memo_program_bytes(),
            seq![writable(payer@, true)],
            memo.spec_bytes(),
        ),
{
    let transfer = system_transfer(payer, wallet, amount);
    let memo_program = memo_program_id();
    let memo_ix = memo_instruction(&memo_program, payer, memo);
    TransactionPlan { fee_payer: *payer, signers: payer_only(payer), instructions: vec![transfer, memo_ix] }
}

/// The transaction of `create_mint`: the system program creates the mint
/// account (82 bytes, owned by the SPL Token program, funded by `payer` with
/// `lamports`), then the token program initializes it with `payer` as mint
/// authority, no freeze authority and 2 decimals. `payer` pays the fee; the
/// payer and the new mint account sign, in that order.
pub fn create_mint_transaction(payer: &[u8; 32], mint: &[u8; 32], lamports: u64) -> (t:
    TransactionPlan)
    ensures
        t.fee_payer == *payer,
        t.signers@ == seq![*payer, *mint],
        t.instructions@.len() == 2,
        ix_view(t.instructions@[0]) == create_account_ix(payer@, mint@, lamports, 82, spl_token_id()),
        ix_view(t.instructions@[1]) == initialize_mint_ix(
            spl_token_id(),
            mint@,
            payer@,
            None,
            MINT_DECIMALS,
        ),
{
    let token_program = spl_token_program();
    let create = system_create_account(payer, mint, lamports, mint_account_len(), &token_program);
    let instructions = match token_initialize_mint(&token_program, mint, payer, None, MINT_DECIMALS) {
        Some(init) => vec![create, init],
        None => {
            assert(false);
            vec![create]
        },
    };
    let signers = vec![*payer, *mint];
    assert(signers@ =~= seq![*payer, *mint]);
    TransactionPlan { fee_payer: *payer, signers, instructions }
}

/// The transaction of `create_associated_account`: the associated token
/// program creates the SPL Token account of `wallet` for `mint`, funded by
/// `payer`; paid for and signed by `payer`. `None` where no associated
/// address derives.
pub fn create_associated_account_transaction(payer: &[u8; 32], wallet: &[u8; 32], mint: &[u8; 32]) -> (r:
    Option<TransactionPlan>)
    ensures
        r is None <==> associated_token_address_of(wallet@, mint@, spl_token_id()) is None,
        r matches Some(t) ==> {
            &&& paid_by(t, *payer)
            &&& t.instructions@.len() == 1
            &&& ix_view(t.instructions@[0]) == create_associated_token_account_ix(
                payer@,
                associated_token_address_of(wallet@, mint@, spl_token_id())->0,
                wallet@,
                mint@,
                spl_token_id(),
            )
        },
{
    let token_program = spl_token_program();
    match associated_token_address(wallet, mint, &token_program) {
        None => None,
        Some(_) => Some(
            TransactionPlan {
                fee_payer: *payer,
                signers: payer_only(payer),
                instructions: vec![create_associated_token_account(payer, wallet, mint, &token_program)],
            },
        ),
    }
}

/// The transaction of `mint_token`: the token program mints `amount`
/// tokens of `mint` into `account`, with `payer` as the mint authority; paid
/// for and signed by `payer`.
pub fn mint_token_transaction(payer: &[u8; 32], mint: &[u8; 32], account: &[u8; 32], amount: u64) -> (t:
    TransactionPlan)
    ensures
        paid_by(t, *payer),
        t.instructions@.len() == 1,
        ix_view(t.instructions@[0]) == mint_to_ix(spl_token_id(), mint@, account@, payer@, seq![], amount),
{
    let token_program = spl_token_program();
    let signers: Vec<[u8; 32]> = Vec::new();
    let instructions = match token_mint_to(&token_program, mint, account, payer, &signers, amount) {
        Some(ix) => {
            assert(signers@.map_values(|s: [u8; 32]| s@) =~= Seq::<Seq<u8>>::empty());
            vec![ix]
        },
        None => {
            assert(false);
            Vec::new()
        },
    };
    TransactionPlan { fee_payer: *payer, signers: payer_only(payer), instructions }
}

/// The accounts and arguments of the token metadata program's `CreateV1`
/// with which `create_token_metadata_account` creates the metadata of
/// `mint`: the metadata account derived for the mint, no master edition,
/// the mint (not a signer), the payer as authority, payer and update
/// authority (a signer), the system program, the instructions sysvar and the
/// SPL Token program; the given name, symbol and uri, a fungible token of 2
/// decimals, no seller fee, not yet sold, mutable, no rule set, a print
/// supply of zero. `None` where no metadata address derives.
pub fn token_metadata_parts(
    payer: &[u8; 32],
    mint: &[u8; 32],
    token_name: &str,
    token_symbol: &str,
    metadata_uri: &str,
) -> (r: Option<(CreateV1Accounts, MetadataArgs)>)
    ensures
        r is None <==> metadata_address_of(mint@) is None,
        r matches Some((a, args)) ==> {
            &&& Some(a.metadata@) == metadata_address_of(mint@)
            &&& a.master_edition is None
            &&& a.mint == *mint
            &&& !a.mint_is_signer
            &&& a.authority == *payer
            &&& a.payer == *payer
            &&& a.update_authority == *payer
            &&& a.update_authority_is_signer
            &&& a.system_program@ == system_program_id()
            &&& a.sysvar_instructions@ == sysvar_instructions_id()
            &&& a.spl_token_program matches Some(t) && t@ == spl_token_id()
            &&& args.name@ == token_name@
            &&& args.symbol@ == token_symbol@
            &&& args.uri@ == metadata_uri@
            &&& args.seller_fee_basis_points == 0
            &&& !args.primary_sale_happened
            &&& args.is_mutable
            &&& args.token_standard == TokenStandardKind::Fungible
            &&& args.rule_set is None
            &&& args.decimals == Some(MINT_DECIMALS)
            &&& args.print_supply == Some(PrintSupplyKind::Zero)
        },
{
    let metadata = metadata_account_address(mint)?;
    let accounts = CreateV1Accounts {
        metadata,
        master_edition: None,
        mint: *mint,
        mint_is_signer: false,
        authority: *payer,
        payer: *payer,
        update_authority: *payer,
        update_authority_is_signer: true,
        system_program: system_program(),
        sysvar_instructions: sysvar_instructions(),
        spl_token_program: Some(spl_token_program()),
    };
    let args = MetadataArgs {
        name: token_name.to_owned(),
        symbol: token_symbol.to_owned(),
        uri: metadata_uri.to_owned(),
        seller_fee_basis_points: 0,
        primary_sale_happened: false,
        is_mutable: true,
        token_standard: TokenStandardKind::Fungible,
        rule_set: None,
        decimals: Some(MINT_DECIMALS),
        print_supply: Some(PrintSupplyKind::Zero),
    };
    Some((accounts, args))
}

/// Whether borsh can write the name, symbol and uri of a token: each takes
/// at most `u32::MAX` bytes.
pub open spec fn names_fit(name: &str, symbol: &str, uri: &str) -> bool {
    &&& name.spec_bytes().len() <= u32::MAX
    &&& symbol.spec_bytes().len() <= u32::MAX
    &&& uri.spec_bytes().len() <= u32::MAX
}

/// The accounts of the `CreateV1` that creates the metadata account
/// `metadata` of `mint`: no master edition, the mint (writable, not a
/// signer), the payer as authority, payer and update authority, the system
/// program, the instructions sysvar and the SPL Token program.
pub open spec fn metadata_create_accounts(payer: Seq<u8>, mint: Seq<u8>, metadata: Seq<u8>) -> Seq<
    (Seq<u8>, bool, bool),
> {
    seq![
        writable(metadata, false),
        readonly(token_metadata_program_id(), false),
        writable(mint, false),
        readonly(payer, true),
        writable(payer, true),
        readonly(payer, true),
        readonly(system_program_id(), false),
        readonly(sysvar_instructions_id(), false),
        readonly(spl_token_id(), false),
    ]
}

/// The transaction of `create_token_metadata_account`: the token metadata
/// program's `CreateV1` of the metadata of `mint` (the accounts and
/// arguments of `token_metadata_parts`), paid for and signed by `payer`.
/// `None` where no metadata address derives, or where a string is too long
/// for borsh.
pub fn create_token_metadata_transaction(
    payer: &[u8; 32],
    mint: &[u8; 32],
    token_name: &str,
    token_symbol: &str,
    metadata_uri: &str,
) -> (r: Option<TransactionPlan>)
    ensures
        r is None <==> (metadata_address_of(mint@) is None || !names_fit(
            token_name,
            token_symbol,
            metadata_uri,
        )),
        r matches Some(t) ==> {
            &&& paid_by(t, *payer)
            &&& t.instructions@.len() == 1
            &&& ix_view(t.instructions@[0]) == (
                token_metadata_program_id(),
                metadata_create_accounts(payer@, mint@, metadata_address_of(mint@)->0),
                seq![42u8, 0u8] + create_v1_args_bytes(
                    token_name@,
                    token_symbol@,
                    metadata_uri@,
                    0,
                    false,
                    true,
                    TokenStandardKind::Fungible,
                    None,
                    Some(MINT_DECIMALS),
                    Some(PrintSupplyKind::Zero),
                ),
            )
        },
{
    let (accounts, args) = token_metadata_parts(payer, mint, token_name, token_symbol, metadata_uri)?;
    proof {
        assert(token_name.spec_bytes() == vstd::utf8::encode_utf8(token_name@));
    }
    let data = create_v1_args_data(&args)?;
    assert(metadata_args_bytes(args) == create_v1_args_bytes(
        token_name@,
        token_symbol@,
        metadata_uri@,
        0,
        false,
        true,
        TokenStandardKind::Fungible,
        None,
        Some(MINT_DECIMALS),
        Some(PrintSupplyKind::Zero),
    ));
    let ix = token_metadata_create_v1(&accounts, data.as_slice());
    assert(create_v1_accounts(accounts) =~= metadata_create_accounts(
        payer@,
        mint@,
        metadata_address_of(mint@)->0,
    ));
    Some(TransactionPlan { fee_payer: *payer, signers: payer_only(payer), instructions: vec![ix] })
}

/// The bytes of the legacy message that `Message::new_with_blockhash`
/// compiles from `instructions` with the fee payer `payer` and the recent
/// blockhash `blockhash`, serialized.
pub uninterp spec fn legacy_message(
    payer: Seq<u8>,
    instructions: Seq<(Seq<u8>, Seq<(Seq<u8>, bool, bool)>, Seq<u8>)>,
    blockhash: Seq<u8>,
) -> Seq<u8>;

/// `Message::new_with_blockhash` and `Message::serialize`. By their source,
/// the message is compiled from the instructions, the payer and the
/// blockhash alone (its keys are ordered through a `BTreeMap`). The
/// compilation panics where a header count does not fit a `u8`, and the
/// serialization where a compact length prefix would exceed `u16::MAX`;
/// `requires` leaves both out (`message_fits`). The serialized bytes are
/// left to `legacy_message`.
#[verifier::external_body]
fn compile_message(ixs: &Vec<InstructionData>, payer: &[u8; 32], blockhash: &[u8; 32]) -> (bytes: Vec<u8>)
    requires
        message_fits(payer@, ix_views(ixs@)),
    ensures
        bytes@ == legacy_message(payer@, ix_views(ixs@), blockhash@),
{
    let k = Pubkey::new_from_array;
    let ixs: Vec<Instruction> = ixs.iter().map(|i| Instruction { program_id: k(i.program_id), accounts: i.accounts.iter().map(|m| AccountMeta { pubkey: k(m.pubkey), is_signer: m.is_signer, is_writable: m.is_writable }).collect(), data: i.data.clone() }).collect();
    Message::new_with_blockhash(&ixs, Some(&k(*payer)), &solana_sdk::hash::Hash::new_from_array(*blockhash)).serialize()
}

/// The serialized message of the transaction `t` with the recent blockhash
/// `recent_blockhash`: the bytes that `t.signers` sign and that are sent.
/// `None` exactly where no legacy message of it can be compiled and
/// serialized (`message_fits`).
pub fn transaction_message(t: &TransactionPlan, recent_blockhash: &[u8; 32]) -> (r: Option<Vec<u8>>)
    ensures
        r is None <==> !message_fits(t.fee_payer@, ix_views(t.instructions@)),
        r matches Some(bytes) ==> bytes@ == legacy_message(
            t.fee_payer@,
            ix_views(t.instructions@),
            recent_blockhash@,
        ),
{
    if message_fits_limits(&t.fee_payer, &t.instructions) {
        Some(compile_message(&t.instructions, &t.fee_payer, recent_blockhash))
    } else {
        None
    }
}

} // verus!
