use solana_arb::compile::{
    build_instructions_with_tip, create_tx_with_address_table_lookup, decode_swap_transaction,
    get_tip_instruction, resolve_lookup_tables, CompileFailure,
};
use solana_arb::error::ArbError;
use solana_arb::plan::SwapInstructions;
use solana_arb::quote::Address;
use solana_sdk::instruction::Instruction;
use solana_sdk::pubkey::Pubkey;
use solana_sdk::signature::Keypair;
use solana_sdk::signer::Signer;

fn addr(b: u8) -> Address {
    Address { bytes: [b; 32] }
}

/// Account data of an active lookup table holding `addresses`.
fn table_data(addresses: &[Pubkey]) -> Vec<u8> {
    let mut data = vec![0u8; 56];
    data[0] = 1;
    for a in addresses {
        data.extend_from_slice(&a.to_bytes());
    }
    data
}

#[test]
fn tip_instruction_transfers_from_payer_to_tip_account() {
    let ix = get_tip_instruction(&addr(3), &addr(4), 1_997_500);
    assert_eq!(ix.program_id, Pubkey::new_from_array([0u8; 32]));
    assert_eq!(ix.accounts.len(), 2);
    assert_eq!(ix.accounts[0].pubkey, Pubkey::new_from_array([3u8; 32]));
    assert!(ix.accounts[0].is_signer);
    assert_eq!(ix.accounts[1].pubkey, Pubkey::new_from_array([4u8; 32]));
    let mut data = vec![2u8, 0, 0, 0];
    data.extend_from_slice(&1_997_500u64.to_le_bytes());
    assert_eq!(ix.data, data);
}

#[test]
fn tip_goes_right_after_swap_in_the_plan() {
    let swap = Instruction::new_with_bytes(Pubkey::new_from_array([8u8; 32]), &[7], vec![]);
    let setup = Instruction::new_with_bytes(Pubkey::new_from_array([8u8; 32]), &[6], vec![]);
    let stages = SwapInstructions {
        compute_budget_instructions: vec![],
        setup_instructions: vec![setup.clone()],
        swap_instruction: swap.clone(),
        cleanup_instruction: None,
        other_instructions: vec![],
    };
    let ixs = build_instructions_with_tip(stages, &addr(3), &addr(4), 10);
    assert_eq!(ixs.len(), 3);
    assert_eq!(ixs[0], setup);
    assert_eq!(ixs[1], swap);
    assert_eq!(ixs[2], get_tip_instruction(&addr(3), &addr(4), 10));
}

#[test]
fn missing_and_undecodable_tables_are_skipped() {
    let listed = [Pubkey::new_from_array([5u8; 32]), Pubkey::new_from_array([6u8; 32])];
    let keys = vec![addr(1), addr(2), addr(3), addr(4)];
    let accounts = vec![None, Some(vec![9u8, 9, 9]), Some(table_data(&listed)), Some(table_data(&[]))];
    let tables = resolve_lookup_tables(&keys, &accounts);
    assert_eq!(tables.len(), 2);
    assert_eq!(tables[0].key, Pubkey::new_from_array([3u8; 32]));
    assert_eq!(tables[0].addresses, listed.to_vec());
    assert_eq!(tables[1].key, Pubkey::new_from_array([4u8; 32]));
    assert!(tables[1].addresses.is_empty());
}

#[test]
fn no_tables_for_no_keys() {
    assert!(resolve_lookup_tables(&vec![], &vec![Some(table_data(&[]))]).is_empty());
}

#[test]
fn compiled_transaction_is_signed_by_payer() {
    let payer = Keypair::new();
    let payer_address = Address { bytes: payer.pubkey().to_bytes() };
    let ixs = vec![get_tip_instruction(&payer_address, &addr(4), 5)];
    let tx = create_tx_with_address_table_lookup(&ixs, &vec![addr(1)], &vec![None], solana_sdk::hash::Hash::default(), &payer)
        .unwrap();
    assert_eq!(tx.signatures.len(), 1);
    assert_eq!(tx.message.static_account_keys()[0], payer.pubkey());
    assert!(tx.verify_with_results().iter().all(|ok| *ok));
}

#[test]
fn swap_transaction_bytes_decode() {
    let payer = Keypair::new();
    let payer_address = Address { bytes: payer.pubkey().to_bytes() };
    let ixs = vec![get_tip_instruction(&payer_address, &addr(4), 5)];
    let tx = create_tx_with_address_table_lookup(&ixs, &vec![], &vec![], solana_sdk::hash::Hash::default(), &payer)
        .unwrap();
    let bytes = bincode::serialize(&tx).unwrap();
    assert_eq!(decode_swap_transaction(&bytes), Some(tx));
    assert_eq!(decode_swap_transaction(&vec![1, 2, 3]), None);
    assert_eq!(decode_swap_transaction(&vec![]), None);
}

#[test]
fn oversized_instruction_fails_to_compile_without_panicking() {
    let payer = Keypair::new();
    let ix = Instruction::new_with_bytes(Pubkey::new_from_array([8u8; 32]), &vec![0u8; 65_536], vec![]);
    let r = create_tx_with_address_table_lookup(&vec![ix], &vec![], &vec![], solana_sdk::hash::Hash::default(), &payer);
    match r {
        Err(e) => {
            assert!(matches!(e, CompileFailure::Encode(_)));
            assert_eq!(e.kind(), ArbError::CompilationFailed);
        }
        Ok(_) => panic!("an instruction this large has no encoding"),
    }
}
