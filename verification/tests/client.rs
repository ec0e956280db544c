use bootcamp3::client::{
    create_associated_account_transaction, create_mint_transaction, create_token_metadata_transaction,
    memo_instruction, memo_program_id, mint_token_transaction, send_sol_transaction,
    send_sol_with_memo_transaction, token_metadata_parts, transaction_message, TransactionPlan,
    MINT_DECIMALS,
};
use bootcamp3::instruction::{AccountMetaData, InstructionData, PrintSupplyKind, TokenStandardKind};
use solana_sdk::instruction::Instruction;
use solana_sdk::pubkey::Pubkey;
use std::str::FromStr;

fn same(ix: &InstructionData, expected: &Instruction) {
    assert_eq!(ix.program_id, expected.program_id.to_bytes());
    assert_eq!(ix.data, expected.data);
    assert_eq!(ix.accounts.len(), expected.accounts.len());
    for (a, b) in ix.accounts.iter().zip(expected.accounts.iter()) {
        assert_eq!((a.pubkey, a.is_signer, a.is_writable), (b.pubkey.to_bytes(), b.is_signer, b.is_writable));
    }
}

fn paid_by(t: &TransactionPlan, payer: &Pubkey) {
    assert_eq!(t.fee_payer, payer.to_bytes());
    assert_eq!(t.signers, vec![payer.to_bytes()]);
}

#[test]
fn send_sol_is_one_transfer() {
    let payer = Pubkey::new_unique();
    let wallet = Pubkey::new_unique();
    let t = send_sol_transaction(&payer.to_bytes(), &wallet.to_bytes(), 20_000_000);
    paid_by(&t, &payer);
    let ixs = t.instructions;
    assert_eq!(ixs.len(), 1);
    same(&ixs[0], &solana_sdk::system_instruction::transfer(&payer, &wallet, 20_000_000));
    let mut data = vec![2u8, 0, 0, 0];
    data.extend_from_slice(&20_000_000u64.to_le_bytes());
    assert_eq!(ixs[0].data, data);
}

#[test]
fn memo_program_id_decodes() {
    assert_eq!(memo_program_id(), Pubkey::from_str("MemoSq4gqABAXKb96qnH8TysNcWxMyWCqXgDLGmfcHr").unwrap().to_bytes());
    assert_eq!(memo_program_id(), [5u8, 74, 83, 90, 153, 41, 33, 6, 77, 36, 232, 113, 96, 218, 56, 124, 124, 53, 181, 221, 188, 146, 187, 129, 228, 31, 168, 64, 65, 5, 68, 141]);
}

#[test]
fn send_sol_with_memo_adds_the_memo() {
    let payer = Pubkey::new_unique();
    let wallet = Pubkey::new_unique();
    let t = send_sol_with_memo_transaction(&payer.to_bytes(), &wallet.to_bytes(), 5, "hello ✓");
    paid_by(&t, &payer);
    let ixs = t.instructions;
    assert_eq!(ixs.len(), 2);
    same(&ixs[0], &solana_sdk::system_instruction::transfer(&payer, &wallet, 5));
    let memo = &ixs[1];
    assert_eq!(memo.program_id, [5u8, 74, 83, 90, 153, 41, 33, 6, 77, 36, 232, 113, 96, 218, 56, 124, 124, 53, 181, 221, 188, 146, 187, 129, 228, 31, 168, 64, 65, 5, 68, 141]);
    assert_eq!(memo.data, "hello ✓".as_bytes().to_vec());
    assert_eq!(memo.accounts.len(), 1);
    assert_eq!((memo.accounts[0].pubkey, memo.accounts[0].is_signer, memo.accounts[0].is_writable), (payer.to_bytes(), true, true));
}

#[test]
fn memo_instruction_carries_the_text() {
    let p = [9u8; 32];
    let s = [3u8; 32];
    let ix = memo_instruction(&p, &s, "");
    assert!(ix.data.is_empty());
    assert_eq!(ix.program_id, p);
}

#[test]
fn create_mint_matches_the_builders() {
    let payer = Pubkey::new_unique();
    let mint = Pubkey::new_unique();
    let t = create_mint_transaction(&payer.to_bytes(), &mint.to_bytes(), 1461600);
    assert_eq!(t.fee_payer, payer.to_bytes());
    assert_eq!(t.signers, vec![payer.to_bytes(), mint.to_bytes()]);
    let ixs = t.instructions;
    assert_eq!(ixs.len(), 2);
    same(&ixs[0], &solana_sdk::system_instruction::create_account(&payer, &mint, 1461600, 82, &spl_token::id()));
    same(&ixs[1], &spl_token::instruction::initialize_mint(&spl_token::id(), &mint, &payer, None, 2).unwrap());
    assert_eq!(MINT_DECIMALS, 2);
    assert_eq!(ixs[1].data[..2], [0u8, 2]);
}

#[test]
fn create_associated_account_matches_the_builder() {
    let payer = Pubkey::new_unique();
    let wallet = Pubkey::new_unique();
    let mint = Pubkey::new_unique();
    let t = create_associated_account_transaction(&payer.to_bytes(), &wallet.to_bytes(), &mint.to_bytes()).unwrap();
    paid_by(&t, &payer);
    let ixs = t.instructions;
    assert_eq!(ixs.len(), 1);
    same(&ixs[0], &spl_associated_token_account::instruction::create_associated_token_account(&payer, &wallet, &mint, &spl_token::id()));
    assert_eq!(ixs[0].data, vec![0u8]);
}

#[test]
fn mint_token_matches_the_builder() {
    let payer = Pubkey::new_unique();
    let mint = Pubkey::new_unique();
    let ata = Pubkey::new_unique();
    let t = mint_token_transaction(&payer.to_bytes(), &mint.to_bytes(), &ata.to_bytes(), 1000);
    paid_by(&t, &payer);
    let ixs = t.instructions;
    assert_eq!(ixs.len(), 1);
    same(&ixs[0], &spl_token::instruction::mint_to(&spl_token::id(), &mint, &ata, &payer, &[], 1000).unwrap());
    let mut data = vec![7u8];
    data.extend_from_slice(&1000u64.to_le_bytes());
    assert_eq!(ixs[0].data, data);
}

#[test]
fn token_metadata_parts_are_the_client_settings() {
    let payer = Pubkey::new_unique();
    let mint = Pubkey::new_unique();
    let (a, args) = token_metadata_parts(&payer.to_bytes(), &mint.to_bytes(), "Coin", "CN", "https://x/y.json").unwrap();
    let (expected, _) = Pubkey::find_program_address(&[b"metadata", &mpl_token_metadata::ID.to_bytes(), &mint.to_bytes()], &mpl_token_metadata::ID);
    assert_eq!(a.metadata, expected.to_bytes());
    assert_eq!(a.master_edition, None);
    assert_eq!((a.mint, a.mint_is_signer), (mint.to_bytes(), false));
    assert_eq!((a.authority, a.payer, a.update_authority, a.update_authority_is_signer), (payer.to_bytes(), payer.to_bytes(), payer.to_bytes(), true));
    assert_eq!(a.system_program, [0u8; 32]);
    assert_eq!(a.sysvar_instructions, solana_sdk::sysvar::instructions::id().to_bytes());
    assert_eq!(a.spl_token_program, Some(spl_token::id().to_bytes()));
    assert_eq!((args.name.as_str(), args.symbol.as_str(), args.uri.as_str()), ("Coin", "CN", "https://x/y.json"));
    assert_eq!((args.seller_fee_basis_points, args.primary_sale_happened, args.is_mutable), (0, false, true));
    assert_eq!(args.token_standard, TokenStandardKind::Fungible);
    assert_eq!((args.rule_set, args.decimals, args.print_supply), (None, Some(2), Some(PrintSupplyKind::Zero)));
}

#[test]
fn token_metadata_transaction_matches_the_builder() {
    let payer = Pubkey::new_unique();
    let mint = Pubkey::new_unique();
    let t = create_token_metadata_transaction(&payer.to_bytes(), &mint.to_bytes(), "Coin", "CN", "https://x/y.json").unwrap();
    paid_by(&t, &payer);
    assert_eq!(t.instructions.len(), 1);
    let (metadata, _) = Pubkey::find_program_address(&[b"metadata", &mpl_token_metadata::ID.to_bytes(), &mint.to_bytes()], &mpl_token_metadata::ID);
    let expected = mpl_token_metadata::instructions::CreateV1Builder::new()
        .metadata(metadata)
        .mint(mint, false)
        .authority(payer)
        .payer(payer)
        .update_authority(payer, true)
        .system_program(solana_sdk::system_program::id())
        .sysvar_instructions(solana_sdk::sysvar::instructions::id())
        .spl_token_program(Some(spl_token::id()))
        .name("Coin".to_string())
        .symbol("CN".to_string())
        .uri("https://x/y.json".to_string())
        .seller_fee_basis_points(0)
        .primary_sale_happened(false)
        .is_mutable(true)
        .token_standard(mpl_token_metadata::types::TokenStandard::Fungible)
        .decimals(2)
        .print_supply(mpl_token_metadata::types::PrintSupply::Zero)
        .instruction();
    same(&t.instructions[0], &expected);
    let mut data = vec![42u8, 0, 4, 0, 0, 0];
    data.extend_from_slice(b"Coin");
    data.extend_from_slice(&[2, 0, 0, 0]);
    data.extend_from_slice(b"CN");
    data.extend_from_slice(&[16, 0, 0, 0]);
    data.extend_from_slice(b"https://x/y.json");
    data.extend_from_slice(&[0, 0, 0, 0, 1, 2, 0, 0, 0, 0, 1, 2, 1, 0]);
    assert_eq!(t.instructions[0].data, data);
}

#[test]
fn message_is_the_legacy_message() {
    let payer = Pubkey::new_unique();
    let mint = Pubkey::new_unique();
    let t = create_mint_transaction(&payer.to_bytes(), &mint.to_bytes(), 10);
    let blockhash = [7u8; 32];
    let bytes = transaction_message(&t, &blockhash).unwrap();
    let expected = solana_sdk::message::Message::new_with_blockhash(
        &[
            solana_sdk::system_instruction::create_account(&payer, &mint, 10, 82, &spl_token::id()),
            spl_token::instruction::initialize_mint(&spl_token::id(), &mint, &payer, None, 2).unwrap(),
        ],
        Some(&payer),
        &solana_sdk::hash::Hash::new_from_array(blockhash),
    );
    assert_eq!(bytes, expected.serialize());
    assert_eq!(expected.account_keys[0], payer);
    assert_eq!(expected.header.num_required_signatures, 2);
    // The header: two signers, no read-only signer, the rent sysvar and the
    // two programs read-only.
    assert_eq!(bytes[..3], [2u8, 0, 3]);
}

fn meta(key: [u8; 32], is_signer: bool, is_writable: bool) -> AccountMetaData {
    AccountMetaData { pubkey: key, is_signer, is_writable }
}

fn key(n: u32) -> [u8; 32] {
    let mut k = [9u8; 32];
    k[..4].copy_from_slice(&n.to_le_bytes());
    k
}

fn plan_of(instructions: Vec<InstructionData>) -> TransactionPlan {
    TransactionPlan { fee_payer: [1u8; 32], signers: vec![[1u8; 32]], instructions }
}

#[test]
fn repeated_accounts_count_once() {
    // Two instructions naming the same 130 accounts: 131 distinct keys.
    let accounts: Vec<AccountMetaData> = (0..130).map(|n| meta(key(n), false, false)).collect();
    let ix = || InstructionData { program_id: [2u8; 32], accounts: accounts.clone(), data: Vec::new() };
    assert!(transaction_message(&plan_of(vec![ix(), ix()]), &[0u8; 32]).is_some());
}

#[test]
fn header_counts_must_fit_a_byte() {
    // 254 read-only non-signers plus the program: 255, which fits.
    let fits: Vec<AccountMetaData> = (0..254).map(|n| meta(key(n), false, false)).collect();
    let ix = InstructionData { program_id: [2u8; 32], accounts: fits, data: Vec::new() };
    assert!(transaction_message(&plan_of(vec![ix]), &[0u8; 32]).is_some());
    // 255 plus the program: 256 read-only non-signers.
    let over: Vec<AccountMetaData> = (0..255).map(|n| meta(key(n), false, false)).collect();
    let ix = InstructionData { program_id: [2u8; 32], accounts: over, data: Vec::new() };
    assert!(transaction_message(&plan_of(vec![ix]), &[0u8; 32]).is_none());
    // 255 signers besides the payer: 256 signers.
    let signers: Vec<AccountMetaData> = (0..255).map(|n| meta(key(n), true, true)).collect();
    let ix = InstructionData { program_id: [2u8; 32], accounts: signers, data: Vec::new() };
    assert!(transaction_message(&plan_of(vec![ix]), &[0u8; 32]).is_none());
    // 300 writable non-signers have no such limit.
    let writable: Vec<AccountMetaData> = (0..300).map(|n| meta(key(n), false, true)).collect();
    let ix = InstructionData { program_id: [2u8; 32], accounts: writable, data: Vec::new() };
    assert!(transaction_message(&plan_of(vec![ix]), &[0u8; 32]).is_some());
}

#[test]
fn data_longer_than_a_compact_length_is_refused() {
    let ix = InstructionData { program_id: [2u8; 32], accounts: Vec::new(), data: vec![0u8; 0x10000] };
    assert!(transaction_message(&plan_of(vec![ix]), &[0u8; 32]).is_none());
    let ix = InstructionData { program_id: [2u8; 32], accounts: Vec::new(), data: vec![0u8; 0xffff] };
    assert!(transaction_message(&plan_of(vec![ix]), &[0u8; 32]).is_some());
}
