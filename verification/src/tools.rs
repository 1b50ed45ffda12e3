//! What the tools send: signed transfers for `fast-send` and the TPU injector,
//! fixed payloads for the synthetic client.
use vstd::prelude::*;
use std::time::Duration;
use solana_keypair::Keypair;
use solana_transaction::versioned::VersionedTransaction;
use crate::codec::{base58_text, wire_sha256};
use crate::config::check_endpoint;
use crate::event::{TransactionSource, VerifiedPacket, VerifiedPacketBatch};
use crate::proto::SendTransactionRequest;
use crate::transactions::{
    ephemeral_keypair, pubkey, serialize, serialize_versioned, signature_text, transfer, versioned,
    versioned_signature_text,
};

verus! {

/// A well-formed, signed transaction: a self-transfer of 0 lamports by some
/// payer.
pub open spec fn is_probe(
    transaction: VersionedTransaction,
    payer: Keypair,
    blockhash: solana_hash::Hash,
) -> bool {
    transaction == crate::transactions::versioned_of(
        self_transfer_of(payer, 0, blockhash),
    )
}

/// The transfer of `lamports` from `payer` to itself, signed over `blockhash`.
pub open spec fn self_transfer_of(
    payer: Keypair,
    lamports: u64,
    blockhash: solana_hash::Hash,
) -> solana_transaction::Transaction {
    crate::transactions::transfer_of(
        payer,
        crate::transactions::pubkey_of(payer),
        lamports,
        blockhash,
    )
}

/// Makes the transfer of `lamports` from `payer` to itself.
fn self_transfer(payer: &Keypair, lamports: u64, blockhash: solana_hash::Hash) -> (transaction:
    solana_transaction::Transaction)
    ensures
        transaction == self_transfer_of(*payer, lamports, blockhash),
        crate::transactions::signatures_of(transaction).len() == 1,
{
    transfer(payer, pubkey(payer), lamports, blockhash)
}

/// A well-formed, signed transaction: a self-transfer of 0 lamports from an
/// ephemeral keypair. It is never executed (`forward = false` routes it to the
/// ARB stream only), so the empty balance is irrelevant; the point is a valid
/// signature and wire encoding.
pub fn build_transaction(blockhash: solana_hash::Hash) -> (transaction: VersionedTransaction)
    ensures
        exists|payer: Keypair| is_probe(transaction, payer, blockhash),
        crate::transactions::versioned_signatures_of(transaction).len() == 1,
{
    let payer = ephemeral_keypair();
    let transaction = versioned(self_transfer(&payer, 0, blockhash));
    assert(is_probe(transaction, payer, blockhash));
    transaction
}

/// A transaction ready to be sent.
pub struct SignedWire {
    /// The first signature, by which the transaction is known.
    pub signature: String,
    /// The wire bytes.
    pub wire: Vec<u8>,
    /// The digest of the wire bytes, by which their arrival is checked.
    pub wire_sha256: String,
}

/// Why a transaction could not be made ready.
#[derive(Debug)]
pub enum WireError {
    /// It could not be serialized.
    Serialize(Box<bincode::ErrorKind>),
    /// Its wire bytes hold no signature to corrupt.
    TooShort,
}

/// Makes a signed transaction ready to be sent.
pub fn sign_off(transaction: &VersionedTransaction) -> (signed: Result<SignedWire, WireError>)
    requires
        crate::transactions::versioned_signatures_of(*transaction).len() > 0,
    ensures
        match signed {
            Ok(signed) => {
                &&& crate::transactions::versioned_wire_of(*transaction) == Some(signed.wire@)
                &&& signed.signature@ == crate::transactions::versioned_signatures_of(
                    *transaction,
                )[0]
                &&& signed.wire_sha256@ == crate::codec::hex(crate::codec::sha256(signed.wire@))
            },
            Err(error) => error is Serialize && crate::transactions::versioned_wire_of(
                *transaction,
            ) is None,
        },
{
    let signature = versioned_signature_text(transaction);
    match serialize_versioned(transaction) {
        Ok(wire) => {
            let digest = wire_sha256(wire.as_slice());
            Ok(SignedWire { signature, wire, wire_sha256: digest })
        },
        Err(error) => Err(WireError::Serialize(error)),
    }
}

/// Builds a probe over `blockhash` and makes it ready to be sent.
pub fn ready_probe(blockhash: solana_hash::Hash) -> (signed: Result<SignedWire, WireError>)
    ensures
        exists|transaction: VersionedTransaction, payer: Keypair|
            {
                &&& #[trigger] is_probe(transaction, payer, blockhash)
                &&& match signed {
                    Ok(signed) => {
                        &&& crate::transactions::versioned_wire_of(transaction) == Some(
                            signed.wire@,
                        )
                        &&& signed.signature@ == crate::transactions::versioned_signatures_of(
                            transaction,
                        )[0]
                        &&& signed.wire_sha256@ == crate::codec::hex(
                            crate::codec::sha256(signed.wire@),
                        )
                    },
                    Err(error) => error is Serialize && crate::transactions::versioned_wire_of(
                        transaction,
                    ) is None,
                }
            },
{
    let transaction = build_transaction(blockhash);
    sign_off(&transaction)
}

/// The text of a wire transaction for a JSON-RPC endpoint: base58.
pub fn wire_base58(wire: &[u8]) -> (text: String)
    ensures
        text@ == crate::codec::base58(wire@),
{
    base58_text(wire)
}

/// How long `fast-send` waits for its connection.
pub const CONNECT_TIMEOUT_MS: u64 = 10_000;

/// How `fast-send` connects.
pub struct ConnectPlan {
    /// The endpoint to connect to.
    pub url: String,
    /// Timeout of the connection attempt.
    pub connect_timeout: Duration,
    /// Whether small writes are sent at once.
    pub tcp_nodelay: bool,
}

/// Decides how `fast-send` connects, if the URL names an endpoint.
pub fn connect_plan(url: &str) -> (plan: Result<ConnectPlan, tonic::transport::Error>)
    ensures
        plan is Ok <==> crate::config::names_endpoint(url@),
        plan matches Ok(plan) ==> {
            &&& plan.url@ == url@
            &&& crate::clock::duration_nanos(plan.connect_timeout) == CONNECT_TIMEOUT_MS
                * 1_000_000
            &&& plan.tcp_nodelay
        },
{
    match check_endpoint(url) {
        Ok(_) => Ok(
            ConnectPlan {
                url: url.to_string(),
                connect_timeout: Duration::from_millis(CONNECT_TIMEOUT_MS),
                tcp_nodelay: true,
            },
        ),
        Err(error) => Err(error),
    }
}

/// The request that sends a wire transaction: to the ARB stream only.
pub fn send_request(wire: Vec<u8>, memo: Option<String>) -> (request: SendTransactionRequest)
    ensures
        request@ == (crate::proto::RequestModel {
            transaction: wire@,
            memo: crate::config::text_of(memo),
            forward: Some(false),
            cashback_address: None,
        }),
{
    SendTransactionRequest {
        transaction: wire,
        memo,
        forward: Some(false),
        cashback_address: None,
    }
}

/// Wire bytes with the primary signature corrupted: byte 1 is inside it (byte 0
/// is the compact-u16 signature count).
pub open spec fn corrupted(wire: Seq<u8>) -> Seq<u8> {
    wire.update(1, wire[1] ^ 0xff)
}

/// Corrupts the primary signature of a wire transaction.
pub fn corrupt_signature(wire: &mut Vec<u8>)
    requires
        old(wire)@.len() > 1,
    ensures
        final(wire)@ == corrupted(old(wire)@),
{
    let byte: u8 = wire[1] ^ 0xff;
    wire.set(1, byte);
}

/// A corrupted transaction is a different one, and corrupting it again gives
/// the first one back.
pub proof fn law_corruption_is_an_involution(wire: Seq<u8>)
    requires
        wire.len() > 1,
    ensures
        corrupted(wire) != wire,
        corrupted(corrupted(wire)) == wire,
{
    let byte = wire[1];
    assert(byte ^ 0xff != byte && (byte ^ 0xff) ^ 0xff == byte) by (bit_vector);
    assert(corrupted(wire)[1] != wire[1]);
    assert(corrupted(corrupted(wire)) =~= wire);
}

/// The transaction that the injector sends at `index`: a self-transfer of a
/// distinct lamport amount, which makes every signature unique under a shared
/// blockhash.
pub open spec fn injected(
    payer: Keypair,
    index: u64,
    blockhash: solana_hash::Hash,
) -> solana_transaction::Transaction {
    self_transfer_of(payer, (index + 1) as u64, blockhash)
}

/// `signed` is what the injector sends at `index`: the wire bytes, corrupted if
/// asked for, with the signature they were made with and their digest.
pub open spec fn is_injection(
    signed: SignedWire,
    payer: Keypair,
    index: u64,
    blockhash: solana_hash::Hash,
    corrupt: bool,
) -> bool {
    let transaction = injected(payer, index, blockhash);
    let wire = crate::transactions::wire_of(transaction);
    &&& wire is Some
    &&& corrupt ==> wire->0.len() > 1
    &&& signed.wire@ == if corrupt {
        corrupted(wire->0)
    } else {
        wire->0
    }
    &&& signed.signature@ == crate::transactions::signatures_of(transaction)[0]
    &&& signed.wire_sha256@ == crate::codec::hex(crate::codec::sha256(signed.wire@))
}

/// `error` is why the injector has nothing to send at `index`.
pub open spec fn is_no_injection(
    error: WireError,
    payer: Keypair,
    index: u64,
    blockhash: solana_hash::Hash,
    corrupt: bool,
) -> bool {
    let wire = crate::transactions::wire_of(injected(payer, index, blockhash));
    match error {
        WireError::Serialize(_) => wire is None,
        WireError::TooShort => wire is Some && corrupt && wire->0.len() <= 1,
    }
}

/// Makes the transaction that the injector sends at `index`, with its primary
/// signature corrupted after signing if asked for: such a transaction must be
/// discarded by sigverify and never reach the export.
pub fn inject(
    payer: &Keypair,
    index: u64,
    blockhash: solana_hash::Hash,
    corrupt: bool,
) -> (made: Result<SignedWire, WireError>)
    requires
        index < u64::MAX,
    ensures
        match made {
            Ok(signed) => is_injection(signed, *payer, index, blockhash, corrupt),
            Err(error) => is_no_injection(error, *payer, index, blockhash, corrupt),
        },
{
    let transaction = self_transfer(payer, index + 1, blockhash);
    let signature = signature_text(&transaction);
    match serialize(&transaction) {
        Err(error) => Err(WireError::Serialize(error)),
        Ok(mut wire) => {
            if corrupt {
                if wire.len() <= 1 {
                    return Err(WireError::TooShort);
                }
                corrupt_signature(&mut wire);
            }
            let digest = wire_sha256(wire.as_slice());
            Ok(SignedWire { signature, wire, wire_sha256: digest })
        },
    }
}

/// Makes the `count` transactions that the injector sends, in order. Where one
/// cannot be made, those before it and the reason are returned.
pub fn inject_all(
    payer: &Keypair,
    count: u64,
    blockhash: solana_hash::Hash,
    corrupt: bool,
) -> (made: (Vec<SignedWire>, Option<WireError>))
    ensures
        made.0@.len() <= count,
        forall|i: int|
            0 <= i < made.0@.len() ==> is_injection(
                #[trigger] made.0@[i],
                *payer,
                i as u64,
                blockhash,
                corrupt,
            ),
        match made.1 {
            None => made.0@.len() == count,
            Some(error) => made.0@.len() < count && is_no_injection(
                error,
                *payer,
                made.0@.len() as u64,
                blockhash,
                corrupt,
            ),
        },
{
    let mut made: Vec<SignedWire> = Vec::new();
    let mut index: u64 = 0;
    while index < count
        invariant
            index <= count,
            made@.len() == index,
            forall|i: int|
                0 <= i < made@.len() ==> is_injection(
                    #[trigger] made@[i],
                    *payer,
                    i as u64,
                    blockhash,
                    corrupt,
                ),
        decreases count - index,
    {
        match inject(payer, index, blockhash, corrupt) {
            Ok(signed) => made.push(signed),
            Err(error) => return (made, Some(error)),
        }
        index = index + 1;
    }
    (made, None)
}

/// The payload that the synthetic client sends at `index`.
pub open spec fn synthetic(index: u8) -> Seq<u8> {
    Seq::new((64 + index) as nat, |i: int| ((i * (index + 1)) % 256) as u8)
}

/// Makes the deterministic payload that the synthetic client sends at `index`.
pub fn synthetic_payload(index: u8) -> (payload: Vec<u8>)
    requires
        index < 255,
    ensures
        payload@ == synthetic(index),
{
    let len: usize = 64 + index as usize;
    let factor: u8 = index + 1;
    let mut payload: Vec<u8> = Vec::new();
    let mut i: usize = 0;
    while i < len
        invariant
            index < 255,
            len == 64 + index,
            factor == index + 1,
            i <= len,
            payload@ == synthetic(index).take(i as int),
        decreases len - i,
    {
        let low: u8 = (i % 256) as u8;
        let byte: u8 = low.wrapping_mul(factor);
        proof {
            assert(byte == (low * factor) % 256);
            assert(((i % 256) * factor) % 256 == (i * factor) % 256) by {
                vstd::arithmetic::div_mod::lemma_mul_mod_noop_left(i as int, factor as int, 256);
            }
        }
        payload.push(byte);
        assert(payload@ =~= synthetic(index).take(i + 1));
        i = i + 1;
    }
    assert(synthetic(index).take(i as int) =~= synthetic(index));
    payload
}

/// The batch of one that carries a synthetic payload.
pub fn synthetic_batch(payload: Vec<u8>, now: u64) -> (batch: VerifiedPacketBatch)
    ensures
        crate::event::packet_views(batch.packets@) == seq![(payload@, TransactionSource::Tpu)],
        batch.received_at_unix_nanos == now,
{
    let packet = VerifiedPacket { transaction: payload, source: TransactionSource::Tpu };
    let batch = VerifiedPacketBatch { packets: vec![packet], received_at_unix_nanos: now };
    assert(crate::event::packet_views(batch.packets@) =~= seq![
        (payload@, TransactionSource::Tpu),
    ]);
    batch
}

/// A probe moves nothing: it is the transfer of 0 lamports from its payer to
/// the payer's own account, over the given blockhash.
pub proof fn law_probes_move_nothing(
    transaction: VersionedTransaction,
    payer: Keypair,
    blockhash: solana_hash::Hash,
)
    requires
        is_probe(transaction, payer, blockhash),
    ensures
        transaction == crate::transactions::versioned_of(
            crate::transactions::transfer_of(
                payer,
                crate::transactions::pubkey_of(payer),
                0,
                blockhash,
            ),
        ),
{
}

/// The transaction at `index` transfers one lamport more than its index, from
/// the payer to itself.
pub proof fn law_injections_transfer_their_number(
    payer: Keypair,
    index: u64,
    blockhash: solana_hash::Hash,
)
    requires
        index < u64::MAX,
    ensures
        exists|lamports: u64|
            {
                &&& lamports == index + 1
                &&& injected(payer, index, blockhash)
                    == #[trigger] crate::transactions::transfer_of(
                    payer,
                    crate::transactions::pubkey_of(payer),
                    lamports,
                    blockhash,
                )
            },
{
    let lamports = (index + 1) as u64;
    assert(injected(payer, index, blockhash) == crate::transactions::transfer_of(
        payer,
        crate::transactions::pubkey_of(payer),
        lamports,
        blockhash,
    ));
}

/// No two injected transactions transfer the same amount: what is sent at two
/// indices are transfers of different numbers of lamports.
pub proof fn law_injected_amounts_differ(
    first: SignedWire,
    second: SignedWire,
    payer: Keypair,
    i: u64,
    j: u64,
    blockhash: solana_hash::Hash,
)
    requires
        i < j < u64::MAX,
        is_injection(first, payer, i, blockhash, false),
        is_injection(second, payer, j, blockhash, false),
    ensures
        exists|a: u64, b: u64|
            {
                &&& a == i + 1
                &&& b == j + 1
                &&& a != b
                &&& #[trigger] amount_transferred(first.wire@, payer, a, blockhash)
                &&& #[trigger] amount_transferred(second.wire@, payer, b, blockhash)
            },
{
    let a = (i + 1) as u64;
    let b = (j + 1) as u64;
    assert(amount_transferred(first.wire@, payer, a, blockhash));
    assert(amount_transferred(second.wire@, payer, b, blockhash));
}

/// These are the wire bytes of a transfer of so many lamports from the payer to
/// itself.
pub open spec fn amount_transferred(
    wire: Seq<u8>,
    payer: Keypair,
    lamports: u64,
    blockhash: solana_hash::Hash,
) -> bool {
    crate::transactions::wire_of(
        crate::transactions::transfer_of(
            payer,
            crate::transactions::pubkey_of(payer),
            lamports,
            blockhash,
        ),
    ) == Some(wire)
}

/// What the injector sends at `index` is the signed transfer of one lamport
/// more than the index, with the signature it was made with; corrupted, it
/// differs from it in the second byte alone, which is inverted. The digest is
/// that of what is sent.
pub proof fn law_injections_are_the_signed_transfers(
    signed: SignedWire,
    payer: Keypair,
    index: u64,
    blockhash: solana_hash::Hash,
    corrupt: bool,
)
    requires
        index < u64::MAX,
        is_injection(signed, payer, index, blockhash, corrupt),
    ensures
        ({
            let made = crate::transactions::transfer_of(
                payer,
                crate::transactions::pubkey_of(payer),
                (index + 1) as u64,
                blockhash,
            );
            let wire = crate::transactions::wire_of(made);
            &&& wire is Some
            &&& signed.signature@ == crate::transactions::signatures_of(made)[0]
            &&& signed.wire_sha256@ == crate::codec::hex(crate::codec::sha256(signed.wire@))
            &&& signed.wire@.len() == wire->0.len()
            &&& !corrupt ==> signed.wire@ == wire->0
            &&& corrupt ==> wire->0.len() > 1 && signed.wire@[1] == wire->0[1] ^ 0xff
            &&& forall|i: int|
                0 <= i < wire->0.len() && i != 1 ==> #[trigger] signed.wire@[i] == wire->0[i]
        }),
{
}

/// There is nothing to send only where the transfer has no wire form, or where
/// it is to be corrupted and has no second byte.
pub proof fn law_injections_fail_for_a_reason(
    error: WireError,
    payer: Keypair,
    index: u64,
    blockhash: solana_hash::Hash,
    corrupt: bool,
)
    requires
        index < u64::MAX,
        is_no_injection(error, payer, index, blockhash, corrupt),
    ensures
        ({
            let wire = crate::transactions::wire_of(
                crate::transactions::transfer_of(
                    payer,
                    crate::transactions::pubkey_of(payer),
                    (index + 1) as u64,
                    blockhash,
                ),
            );
            &&& error is Serialize ==> wire is None
            &&& error is TooShort ==> wire is Some && corrupt && wire->0.len() < 2
        }),
{
}

/// Corruption inverts the second byte and leaves every other as it is.
pub proof fn law_corruption_inverts_one_byte(wire: Seq<u8>)
    requires
        wire.len() > 1,
    ensures
        corrupted(wire).len() == wire.len(),
        corrupted(wire)[1] == wire[1] ^ 0xff,
        forall|i: int| 0 <= i < wire.len() && i != 1 ==> #[trigger] corrupted(wire)[i] == wire[i],
{
}

/// A synthetic payload grows by a byte with its index, and its bytes are the
/// multiples of one more than the index, in eight bits.
pub proof fn law_synthetic_payloads_are_multiples(index: u8, i: int)
    requires
        0 <= i < 64 + index,
    ensures
        synthetic(index).len() == 64 + index,
        synthetic(index)[i] as int == (i * (index + 1)) % 256,
{
}

} // verus!
