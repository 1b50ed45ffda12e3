//! Signed transactions for the tools, as the Solana crates make them.
use vstd::prelude::*;
use solana_keypair::Keypair;
use solana_signer::Signer;
use solana_transaction::Transaction;
use solana_transaction::versioned::VersionedTransaction;

verus! {

/// An Ed25519 keypair.
#[verifier::external_type_specification]
#[verifier::external_body]
pub struct ExKeypair(Keypair);

/// A blockhash.
#[verifier::external_type_specification]
#[verifier::external_body]
pub struct ExHash(solana_hash::Hash);

/// A legacy transaction.
#[verifier::external_type_specification]
#[verifier::external_body]
pub struct ExTransaction(Transaction);

/// A versioned transaction.
#[verifier::external_type_specification]
#[verifier::external_body]
pub struct ExVersionedTransaction(VersionedTransaction);

/// Why a value could not be serialized.
#[verifier::external_type_specification]
#[verifier::external_body]
pub struct ExErrorKind(bincode::ErrorKind);

/// The public key of a keypair.
pub uninterp spec fn pubkey_of(keypair: Keypair) -> Seq<u8>;

/// The transfer of `lamports` from `payer` to the account `to`, signed by
/// `payer` over `blockhash`.
pub uninterp spec fn transfer_of(
    payer: Keypair,
    to: Seq<u8>,
    lamports: u64,
    blockhash: solana_hash::Hash,
) -> Transaction;

/// A legacy transaction as a versioned one.
pub uninterp spec fn versioned_of(transaction: Transaction) -> VersionedTransaction;

/// The signatures of a legacy transaction, in base58.
pub uninterp spec fn signatures_of(transaction: Transaction) -> Seq<Seq<char>>;

/// The signatures of a versioned transaction, in base58.
pub uninterp spec fn versioned_signatures_of(transaction: VersionedTransaction) -> Seq<Seq<char>>;

/// The wire bytes of a legacy transaction, or nothing where it has none.
pub uninterp spec fn wire_of(transaction: Transaction) -> Option<Seq<u8>>;

/// The wire bytes of a versioned transaction, or nothing where it has none.
pub uninterp spec fn versioned_wire_of(transaction: VersionedTransaction) -> Option<Seq<u8>>;

/// `Keypair::new`: a random keypair. Nothing is claimed of it.
#[verifier::external_body]
pub(crate) fn ephemeral_keypair() -> Keypair {
    Keypair::new()
}

/// `Signer::pubkey` of a keypair: the bytes of its public key.
#[verifier::external_body]
pub(crate) fn pubkey(keypair: &Keypair) -> (key: [u8; 32])
    ensures
        key@ == pubkey_of(*keypair),
{
    keypair.pubkey().to_bytes()
}

/// `solana_system_transaction::transfer`: a transaction with the one signature
/// of the payer.
#[verifier::external_body]
pub(crate) fn transfer(
    payer: &Keypair,
    to: [u8; 32],
    lamports: u64,
    blockhash: solana_hash::Hash,
) -> (transaction: Transaction)
    ensures
        transaction == transfer_of(*payer, to@, lamports, blockhash),
        signatures_of(transaction).len() == 1,
{
    solana_system_transaction::transfer(payer, &to.into(), lamports, blockhash)
}

/// `<VersionedTransaction as From<Transaction>>::from`: the same transaction,
/// with the same signatures.
#[verifier::external_body]
pub(crate) fn versioned(transaction: Transaction) -> (versioned: VersionedTransaction)
    ensures
        versioned == versioned_of(transaction),
        versioned_signatures_of(versioned) == signatures_of(transaction),
{
    VersionedTransaction::from(transaction)
}

/// The first of `Transaction::signatures`, written by `Signature::to_string`.
#[verifier::external_body]
pub(crate) fn signature_text(transaction: &Transaction) -> (text: String)
    requires
        signatures_of(*transaction).len() > 0,
    ensures
        text@ == signatures_of(*transaction)[0],
{
    transaction.signatures[0].to_string()
}

/// The first of `VersionedTransaction::signatures`, written by
/// `Signature::to_string`.
#[verifier::external_body]
pub(crate) fn versioned_signature_text(transaction: &VersionedTransaction) -> (text: String)
    requires
        versioned_signatures_of(*transaction).len() > 0,
    ensures
        text@ == versioned_signatures_of(*transaction)[0],
{
    transaction.signatures[0].to_string()
}

/// `bincode::serialize` of a legacy transaction: its wire bytes.
#[verifier::external_body]
pub(crate) fn serialize(transaction: &Transaction) -> (wire: Result<
    Vec<u8>,
    Box<bincode::ErrorKind>,
>)
    ensures
        match wire {
            Ok(bytes) => wire_of(*transaction) == Some(bytes@),
            Err(_) => wire_of(*transaction) is None,
        },
{
    bincode::serialize(transaction)
}

/// `bincode::serialize` of a versioned transaction: its wire bytes.
#[verifier::external_body]
pub(crate) fn serialize_versioned(transaction: &VersionedTransaction) -> (wire: Result<
    Vec<u8>,
    Box<bincode::ErrorKind>,
>)
    ensures
        match wire {
            Ok(bytes) => versioned_wire_of(*transaction) == Some(bytes@),
            Err(_) => versioned_wire_of(*transaction) is None,
        },
{
    bincode::serialize(transaction)
}

} // verus!
