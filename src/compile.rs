use vstd::prelude::*;
use crate::chain::{
    address_of, compile_message, compiled_message_of, decode_lookup_table, decode_transaction,
    decoded_transaction_of, encode_message, encoded_message_of, keypair_address,
    lookup_table_of, sign_message, signed_transaction_of, transfer_instruction,
    transfer_instruction_of,
};
use crate::error::ArbError;
use crate::plan::{build_instructions, ordered_plan, SwapInstructions};
use crate::quote::Address;
use solana_sdk::instruction::Instruction;
use solana_sdk::message::{AddressLookupTableAccount, CompileError};
use solana_sdk::signature::Keypair;
use solana_sdk::signer::SignerError;
use solana_sdk::transaction::VersionedTransaction;

verus! {

/// The instruction that pays `tip_lamports` from `from_pubkey` to the relay's
/// `tip_account`.
pub fn get_tip_instruction(from_pubkey: &Address, tip_account: &Address, tip_lamports: u64) -> (r: Instruction)
    ensures
        r == transfer_instruction_of(*from_pubkey, *tip_account, tip_lamports),
{
    transfer_instruction(from_pubkey, tip_account, tip_lamports)
}

/// The swap's instructions in stage order, with the transfer of the tip from
/// `payer` to `tip_account` right after the swap.
pub fn build_instructions_with_tip(
    swap_instructions: SwapInstructions<Instruction>,
    payer: &Address,
    tip_account: &Address,
    tip_lamports: u64,
) -> (r: Vec<Instruction>)
    ensures
        r@ == ordered_plan(swap_instructions, transfer_instruction_of(*payer, *tip_account, tip_lamports)),
{
    let tip = get_tip_instruction(payer, tip_account, tip_lamports);
    build_instructions(swap_instructions, tip)
}

/// The ready-to-sign transaction that the swap service returned as bytes, if
/// they decode.
pub fn decode_swap_transaction(swap_transaction: &Vec<u8>) -> (r: Option<VersionedTransaction>)
    ensures
        r == decoded_transaction_of(swap_transaction@),
{
    match decode_transaction(swap_transaction) {
        Ok(tx) => Some(tx),
        Err(_) => None,
    }
}

/// The lookup tables among the first `n` pairs of `keys` and `accounts` whose
/// account exists and decodes, in order; the others are left out.
pub open spec fn resolved_upto(
    keys: Seq<Address>,
    accounts: Seq<Option<Vec<u8>>>,
    n: nat,
) -> Seq<AddressLookupTableAccount>
    decreases n,
{
    if n == 0 {
        Seq::empty()
    } else {
        let prev = resolved_upto(keys, accounts, (n - 1) as nat);
        match accounts[n - 1] {
            Some(data) => match lookup_table_of(keys[n - 1], data@) {
                Some(table) => prev.push(table),
                None => prev,
            },
            None => prev,
        }
    }
}

/// The lookup tables of `keys` (paired in order with the fetched `accounts`)
/// whose account exists and decodes.
pub open spec fn resolved_tables(keys: Seq<Address>, accounts: Seq<Option<Vec<u8>>>) -> Seq<
    AddressLookupTableAccount,
> {
    let n = if keys.len() <= accounts.len() {
        keys.len()
    } else {
        accounts.len()
    };
    resolved_upto(keys, accounts, n)
}

/// Decodes the fetched lookup-table accounts, skipping any that is missing or
/// does not decode.
pub fn resolve_lookup_tables(keys: &Vec<Address>, accounts: &Vec<Option<Vec<u8>>>) -> (r: Vec<
    AddressLookupTableAccount,
>)
    ensures
        r@ == resolved_tables(keys@, accounts@),
{
    let n: usize = if keys.len() <= accounts.len() {
        keys.len()
    } else {
        accounts.len()
    };
    let mut tables: Vec<AddressLookupTableAccount> = Vec::new();
    let mut i: usize = 0;
    while i < n
        invariant
            n <= keys@.len(),
            n <= accounts@.len(),
            i <= n,
            tables@ == resolved_upto(keys@, accounts@, i as nat),
        decreases n - i,
    {
        match &accounts[i] {
            Some(data) => match decode_lookup_table(&keys[i], data) {
                Some(table) => tables.push(table),
                None => {},
            },
            None => {},
        }
        i = i + 1;
    }
    tables
}

/// Why a transaction could not be compiled, with the underlying error.
#[derive(Debug)]
pub enum CompileFailure {
    /// The message could not be compiled from the instructions and tables.
    Compile(CompileError),
    /// The compiled message has no wire encoding (a list is too long).
    Encode(Box<bincode::ErrorKind>),
    /// The payer could not sign the message.
    Sign(SignerError),
}

impl CompileFailure {
    /// Every such failure is a compilation failure of the attempt.
    pub fn kind(&self) -> (r: ArbError)
        ensures
            r == ArbError::CompilationFailed,
    {
        ArbError::CompilationFailed
    }
}

/// What compiling, encoding and signing give for a payer, instructions,
/// resolved tables and blockhash; a failure carries its cause.
pub open spec fn compiled_transaction(
    instructions: Seq<Instruction>,
    tables: Seq<AddressLookupTableAccount>,
    blockhash: solana_sdk::hash::Hash,
    payer: Keypair,
) -> Result<VersionedTransaction, CompileFailure> {
    match compiled_message_of(address_of(payer), instructions, tables, blockhash) {
        Ok(message) => match encoded_message_of(message) {
            Ok(_) => match signed_transaction_of(message, payer) {
                Ok(tx) => Ok(tx),
                Err(e) => Err(CompileFailure::Sign(e)),
            },
            Err(e) => Err(CompileFailure::Encode(e)),
        },
        Err(e) => Err(CompileFailure::Compile(e)),
    }
}

/// Compiles `instructions` into one signed v0 transaction, compacted through
/// the lookup tables among the fetched accounts that decode.
pub fn create_tx_with_address_table_lookup(
    instructions: &Vec<Instruction>,
    address_lookup_table_keys: &Vec<Address>,
    lookup_table_accounts: &Vec<Option<Vec<u8>>>,
    blockhash: solana_sdk::hash::Hash,
    payer: &Keypair,
) -> (r: Result<VersionedTransaction, CompileFailure>)
    ensures
        r == compiled_transaction(
            instructions@,
            resolved_tables(address_lookup_table_keys@, lookup_table_accounts@),
            blockhash,
            *payer,
        ),
{
    let tables = resolve_lookup_tables(address_lookup_table_keys, lookup_table_accounts);
    let payer_address = keypair_address(payer);
    match compile_message(&payer_address, instructions, &tables, blockhash) {
        Ok(message) => match encode_message(&message) {
            Ok(_) => match sign_message(message, payer) {
                Ok(tx) => Ok(tx),
                Err(e) => Err(CompileFailure::Sign(e)),
            },
            Err(e) => Err(CompileFailure::Encode(e)),
        },
        Err(e) => Err(CompileFailure::Compile(e)),
    }
}

} // verus!
