use circular_transaction_exporter::codec::wire_sha256;
use circular_transaction_exporter::receiver::primary_signature;
use circular_transaction_exporter::tools::{
    build_transaction, connect_plan, corrupt_signature, inject, inject_all, ready_probe, send_request, sign_off,
    synthetic_batch, synthetic_payload, wire_base58,
};
use circular_transaction_exporter::TransactionSource;
use solana_keypair::Keypair;
use solana_signer::Signer;
use solana_transaction::Transaction;
use std::collections::HashSet;
use std::time::Duration;

fn blockhash() -> solana_hash::Hash {
    solana_hash::Hash::new_from_array([7u8; 32])
}

fn verifies(transaction: &Transaction) -> bool {
    transaction.signatures[0].verify(
        transaction.message.account_keys[0].as_ref(),
        &transaction.message.serialize(),
    )
}

#[test]
fn probes_are_signed_over_the_blockhash() {
    let transaction = build_transaction(blockhash());
    assert_eq!(transaction.signatures.len(), 1);
    assert_eq!(*transaction.message.recent_blockhash(), blockhash());
    assert!(transaction.signatures[0].verify(
        transaction.message.static_account_keys()[0].as_ref(),
        &transaction.message.serialize()
    ));
    let other = build_transaction(blockhash());
    assert_ne!(transaction.signatures[0], other.signatures[0]);
}

#[test]
fn a_signed_off_transaction_carries_its_own_signature() {
    let transaction = build_transaction(blockhash());
    let signed = sign_off(&transaction).unwrap();
    assert_eq!(signed.signature, transaction.signatures[0].to_string());
    assert_eq!(signed.wire, bincode::serialize(&transaction).unwrap());
    assert_eq!(signed.wire_sha256, wire_sha256(&signed.wire));
    assert_eq!(primary_signature(&signed.wire), Some(signed.signature));
}

#[test]
fn a_ready_probe_can_be_read_back() {
    let signed = ready_probe(blockhash()).unwrap();
    let transaction: Transaction = bincode::deserialize(&signed.wire).unwrap();
    assert!(verifies(&transaction));
    assert_eq!(transaction.signatures[0].to_string(), signed.signature);
    assert_eq!(transaction.message.recent_blockhash, blockhash());
}

#[test]
fn wires_are_written_in_base58() {
    assert_eq!(wire_base58(b"Hello World!"), "2NEpo7TZRRrLZSi2U");
    assert_eq!(wire_base58(&[0x00, 0x00, 0x28, 0x7f, 0xb4, 0xcd]), "11233QC4");
    assert_eq!(wire_base58(b""), "");
}

#[test]
fn fast_send_connects_to_endpoints_only() {
    let plan = connect_plan("http://cashback.circular.fi").unwrap();
    assert_eq!(plan.url, "http://cashback.circular.fi");
    assert_eq!(plan.connect_timeout, Duration::from_secs(10));
    assert!(plan.tcp_nodelay);
    assert!(connect_plan("").is_err());
}

#[test]
fn sent_requests_disable_forwarding() {
    let request = send_request(vec![1, 2], Some("memo".to_string()));
    assert_eq!(request.transaction, vec![1, 2]);
    assert_eq!(request.memo.as_deref(), Some("memo"));
    assert_eq!(request.forward, Some(false));
    assert_eq!(request.cashback_address, None);
}

#[test]
fn corruption_changes_one_byte_and_undoes_itself() {
    let mut wire = vec![1u8, 0x0f, 3];
    corrupt_signature(&mut wire);
    assert_eq!(wire, vec![1, 0xf0, 3]);
    corrupt_signature(&mut wire);
    assert_eq!(wire, vec![1, 0x0f, 3]);
}

#[test]
fn injected_transactions_are_distinct_self_transfers() {
    let payer = Keypair::new();
    let (made, error) = inject_all(&payer, 5, blockhash(), false);
    assert!(error.is_none());
    assert_eq!(made.len(), 5);
    let signatures: HashSet<&str> = made.iter().map(|signed| signed.signature.as_str()).collect();
    assert_eq!(signatures.len(), 5);
    for signed in &made {
        let transaction: Transaction = bincode::deserialize(&signed.wire).unwrap();
        assert!(verifies(&transaction));
        assert_eq!(signed.wire_sha256, wire_sha256(&signed.wire));
    }
    // The only account besides the program is the payer, and the instruction
    // data ends in the lamports.
    let transaction: Transaction = bincode::deserialize(&made[4].wire).unwrap();
    assert_eq!(transaction.message.account_keys.len(), 2);
    assert_eq!(transaction.message.account_keys[0], payer.pubkey());
    assert_eq!(transaction.message.instructions[0].accounts, vec![0, 0]);
    assert_eq!(
        transaction.message.instructions[0].data,
        [&2u32.to_le_bytes()[..], &5u64.to_le_bytes()[..]].concat()
    );
}

#[test]
fn corrupted_injections_do_not_verify() {
    let payer = Keypair::new();
    let good = inject(&payer, 0, blockhash(), false).unwrap();
    let bad = inject(&payer, 0, blockhash(), true).unwrap();
    assert_eq!(good.signature, bad.signature);
    assert_ne!(good.wire_sha256, bad.wire_sha256);
    assert_eq!(bad.wire[1], good.wire[1] ^ 0xff);
    let transaction: Transaction = bincode::deserialize(&bad.wire).unwrap();
    assert!(!verifies(&transaction));
    let (none, error) = inject_all(&payer, 0, blockhash(), true);
    assert!(none.is_empty() && error.is_none());
}

#[test]
fn synthetic_payloads_are_deterministic() {
    let payload = synthetic_payload(9);
    assert_eq!(payload.len(), 73);
    assert_eq!(payload[..4], [0, 10, 20, 30]);
    assert_eq!(payload[72], 208);
    assert_eq!(
        wire_sha256(&payload),
        "3a98f6bc0bcf0022a28422dac5399e61dc2bc57f925165b65918416cd0251b9e"
    );
    assert_eq!(
        wire_sha256(&synthetic_payload(0)),
        "fdeab9acf3710362bd2658cdc9a29e8f9c757fcf9811603a8c447cd1d9151108"
    );
}

#[test]
fn a_synthetic_batch_holds_one_packet() {
    let batch = synthetic_batch(vec![1, 2, 3], 42);
    assert_eq!(batch.packets.len(), 1);
    assert_eq!(batch.packets[0].transaction, vec![1, 2, 3]);
    assert_eq!(batch.packets[0].source, TransactionSource::Tpu);
    assert_eq!(batch.received_at_unix_nanos, 42);
}
