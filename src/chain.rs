//! The chain library's types and calls that the library relies on.
use vstd::prelude::*;
use crate::quote::Address;
use solana_sdk::address_lookup_table::state::AddressLookupTable;
use solana_sdk::instruction::Instruction;
use solana_sdk::message::v0;
use solana_sdk::message::{AddressLookupTableAccount, CompileError, VersionedMessage};
use solana_sdk::pubkey::Pubkey;
use solana_sdk::signature::Keypair;
use solana_sdk::signer::{Signer, SignerError};
use solana_sdk::transaction::VersionedTransaction;

verus! {

#[verifier::external_type_specification]
#[verifier::external_body]
pub struct ExInstruction(Instruction);

#[verifier::external_type_specification]
#[verifier::external_body]
pub struct ExHash(solana_sdk::hash::Hash);

#[verifier::external_type_specification]
#[verifier::external_body]
pub struct ExKeypair(Keypair);

#[verifier::external_type_specification]
#[verifier::external_body]
pub struct ExAddressLookupTableAccount(AddressLookupTableAccount);

#[verifier::external_type_specification]
#[verifier::external_body]
pub struct ExMessage(v0::Message);

#[verifier::external_type_specification]
#[verifier::external_body]
pub struct ExVersionedTransaction(VersionedTransaction);

#[verifier::external_type_specification]
#[verifier::external_body]
pub struct ExCompileError(CompileError);

#[verifier::external_type_specification]
#[verifier::external_body]
pub struct ExSignerError(SignerError);

#[verifier::external_type_specification]
#[verifier::external_body]
pub struct ExBincodeErrorKind(bincode::ErrorKind);

/// The transaction that `bytes` encode in the wire format, if they do.
pub uninterp spec fn decoded_transaction_of(bytes: Seq<u8>) -> Option<VersionedTransaction>;

/// The system-program instruction that moves `lamports` from `from` to `to`.
pub uninterp spec fn transfer_instruction_of(from: Address, to: Address, lamports: u64) -> Instruction;

/// The lookup table stored under `key` with account data `data`, if the data decodes.
pub uninterp spec fn lookup_table_of(key: Address, data: Seq<u8>) -> Option<AddressLookupTableAccount>;

/// The address of the public key of a keypair.
pub uninterp spec fn address_of(payer: Keypair) -> Address;

/// The v0 message that pays from `payer` and runs `instructions`, compacted
/// through `tables`, anchored at `blockhash`.
pub uninterp spec fn compiled_message_of(
    payer: Address,
    instructions: Seq<Instruction>,
    tables: Seq<AddressLookupTableAccount>,
    blockhash: solana_sdk::hash::Hash,
) -> Result<v0::Message, CompileError>;

/// The wire encoding of `message` as a versioned message, or why it has none.
pub uninterp spec fn encoded_message_of(message: v0::Message) -> Result<Vec<u8>, Box<bincode::ErrorKind>>;

/// `message` signed by `payer`.
pub uninterp spec fn signed_transaction_of(message: v0::Message, payer: Keypair) -> Result<
    VersionedTransaction,
    SignerError,
>;

/// Relies on `system_instruction::transfer`: a pure function of the two
/// addresses and the amount.
#[verifier::external_body]
pub(crate) fn transfer_instruction(from: &Address, to: &Address, lamports: u64) -> (r: Instruction)
    ensures
        r == transfer_instruction_of(*from, *to, lamports),
{
    solana_sdk::system_instruction::transfer(
        &Pubkey::new_from_array(from.bytes),
        &Pubkey::new_from_array(to.bytes),
        lamports,
    )
}

/// Relies on `AddressLookupTable::deserialize`: it decodes the table's
/// addresses from the account data alone, or fails.
#[verifier::external_body]
pub(crate) fn decode_lookup_table(key: &Address, data: &Vec<u8>) -> (r: Option<AddressLookupTableAccount>)
    ensures
        r == lookup_table_of(*key, data@),
{
    match AddressLookupTable::deserialize(data) {
        Ok(table) => Some(
            AddressLookupTableAccount {
                key: Pubkey::new_from_array(key.bytes),
                addresses: table.addresses.to_vec(),
            },
        ),
        Err(_) => None,
    }
}

/// Relies on `bincode::deserialize`: decoding depends on the bytes alone.
#[verifier::external_body]
pub(crate) fn decode_transaction(bytes: &Vec<u8>) -> (r: Result<VersionedTransaction, Box<bincode::ErrorKind>>)
    ensures
        r is Ok <==> decoded_transaction_of(bytes@) is Some,
        r is Ok ==> decoded_transaction_of(bytes@) == Some(r->Ok_0),
{
    bincode::deserialize::<VersionedTransaction>(bytes)
}

/// Relies on `Keypair::pubkey`: the public key is fixed by the keypair.
#[verifier::external_body]
pub(crate) fn keypair_address(payer: &Keypair) -> (r: Address)
    ensures
        r == address_of(*payer),
{
    Address { bytes: payer.pubkey().to_bytes() }
}

/// Relies on `v0::Message::try_compile`: the message, or the reason it cannot
/// be compiled, follows from the arguments alone.
#[verifier::external_body]
pub(crate) fn compile_message(
    payer: &Address,
    instructions: &Vec<Instruction>,
    tables: &Vec<AddressLookupTableAccount>,
    blockhash: solana_sdk::hash::Hash,
) -> (r: Result<v0::Message, CompileError>)
    ensures
        r == compiled_message_of(*payer, instructions@, tables@, blockhash),
{
    v0::Message::try_compile(&Pubkey::new_from_array(payer.bytes), instructions, tables, blockhash)
}

/// Relies on `bincode::serialize` of the message as a versioned message, which
/// is the encoding that signing uses; it fails on a list longer than the
/// compact length prefix can count.
#[verifier::external_body]
pub(crate) fn encode_message(message: &v0::Message) -> (r: Result<Vec<u8>, Box<bincode::ErrorKind>>)
    ensures
        r == encoded_message_of(*message),
{
    bincode::serialize(&VersionedMessage::V0(message.clone()))
}

/// Relies on `VersionedTransaction::try_new`: ed25519 signatures are
/// deterministic, so the result follows from the message and the keypair.
/// It encodes the message with `unwrap`, so the encoding must succeed.
#[verifier::external_body]
pub(crate) fn sign_message(message: v0::Message, payer: &Keypair) -> (r: Result<VersionedTransaction, SignerError>)
    requires
        encoded_message_of(message) is Ok,
    ensures
        r == signed_transaction_of(message, *payer),
{
    VersionedTransaction::try_new(VersionedMessage::V0(message), &[payer])
}

} // verus!
