use circular_transaction_exporter::metrics::CircularExportMetrics;
use circular_transaction_exporter::shared::SharedMetrics;
use circular_transaction_exporter::{
    CircularExportConfig, CircularExportSender, ExportItem, HookMode, TransactionSource,
    VerifiedPacket, VerifiedPacketBatch, build_owned_batch,
};
use solana_packet::{Meta, PacketFlags};
use solana_perf::packet::{BytesPacket, PacketBatch, to_packet_batches};
use std::sync::Arc;

fn make_batches(num_tx: usize) -> Arc<Vec<PacketBatch>> {
    let payloads: Vec<Vec<u8>> = (0..num_tx).map(|i| vec![i as u8; 64]).collect();
    Arc::new(to_packet_batches(&payloads, num_tx.max(1)))
}

fn packet(bytes: &[u8], flags: PacketFlags) -> BytesPacket {
    let mut meta = Meta::default();
    meta.size = bytes.len();
    meta.flags = flags;
    BytesPacket::new(bytes.to_vec().into(), meta)
}

/// Two batches: a valid packet, a discarded one, and then a simple vote and a
/// forwarded packet.
fn mixed_batches() -> Arc<Vec<PacketBatch>> {
    Arc::new(vec![
        PacketBatch::from(vec![
            packet(b"plain", PacketFlags::empty()),
            packet(b"discarded", PacketFlags::DISCARD),
        ]),
        PacketBatch::from(vec![
            packet(b"vote", PacketFlags::SIMPLE_VOTE_TX),
            packet(b"forwarded", PacketFlags::FORWARDED),
        ]),
    ])
}

fn owned(payloads: &[&[u8]]) -> VerifiedPacketBatch {
    VerifiedPacketBatch {
        packets: payloads
            .iter()
            .map(|bytes| VerifiedPacket {
                transaction: bytes.to_vec(),
                source: TransactionSource::Tpu,
            })
            .collect(),
        received_at_unix_nanos: 7,
    }
}

#[test]
fn shared_path_increments_enqueued_transactions() {
    let (mut sender, _rx) = CircularExportSender::new_for_tests(8, false);
    let batches = make_batches(7);
    sender.try_send_shared(batches, false);
    assert_eq!(sender.metrics().enqueued_transactions, 7);
    assert_eq!(sender.metrics().dropped_batches, 0);
}

#[test]
fn shared_path_full_queue_increments_dropped_transactions() {
    let (mut sender, _rx) = CircularExportSender::new_for_tests(1, false);
    let batches = make_batches(5);
    sender.try_send_shared(Arc::clone(&batches), false);
    sender.try_send_shared(batches, false);
    assert_eq!(sender.metrics().enqueued_transactions, 5);
    assert_eq!(sender.metrics().dropped_batches, 1);
    assert_eq!(sender.metrics().dropped_transactions, 5);
}

#[test]
fn owned_batch_holds_the_valid_packets_with_their_sources() {
    let batches = mixed_batches();
    let (batch, copied) = build_owned_batch(&batches, false).unwrap();
    let packets: Vec<(Vec<u8>, TransactionSource)> = batch
        .packets
        .into_iter()
        .map(|packet| (packet.transaction, packet.source))
        .collect();
    assert_eq!(
        packets,
        vec![
            (b"plain".to_vec(), TransactionSource::Tpu),
            (b"vote".to_vec(), TransactionSource::Tpu),
            (b"forwarded".to_vec(), TransactionSource::Forwarded),
        ]
    );
    assert_eq!(copied, 5 + 4 + 9);
    assert!(batch.received_at_unix_nanos > 0);
}

#[test]
fn vote_batches_are_tagged_as_votes() {
    let batches = mixed_batches();
    let (batch, _copied) =
        circular_transaction_exporter::event::build_owned_batch_at(&batches, true, 42).unwrap();
    assert!(
        batch
            .packets
            .iter()
            .all(|packet| packet.source == TransactionSource::TpuVote)
    );
    assert_eq!(batch.received_at_unix_nanos, 42);
}

#[test]
fn no_owned_batch_without_valid_packets() {
    let batches = vec![PacketBatch::from(vec![packet(
        b"discarded",
        PacketFlags::DISCARD,
    )])];
    assert!(build_owned_batch(&batches, false).is_none());
    assert!(build_owned_batch(&[], false).is_none());
}

#[test]
fn copying_and_sharing_export_the_same_transactions() {
    let batches = mixed_batches();
    let (batch, _copied) = build_owned_batch(&batches, false).unwrap();
    let copied = ExportItem::Owned(batch).into_transactions();
    let (mut sender, receiver) = CircularExportSender::new_for_tests(1, true);
    sender.try_send_shared(batches, false);
    let shared = receiver.recv().unwrap().into_transactions();
    assert_eq!(copied, shared);
}

#[test]
fn bam_hook_filters_votes_unless_they_are_exported() {
    for include_votes in [false, true] {
        let (mut sender, receiver) = CircularExportSender::new_for_tests(1, include_votes);
        assert_eq!(sender.include_votes(), include_votes);
        sender.export_bam_shared(mixed_batches());
        // The queue counts packets before any of them is filtered.
        assert_eq!(sender.metrics().enqueued_transactions, 4);
        assert_eq!(sender.metrics().copy_bytes, 0);
        let item = receiver.recv().unwrap();
        match &item {
            ExportItem::Shared(shared) => {
                assert!(!shared.is_tpu_vote);
                assert_eq!(shared.filter_simple_votes, !include_votes);
                assert!(shared.received_at_unix_nanos > 0);
            }
            ExportItem::Owned(_) => panic!("the bytes must not be copied by the hook"),
        }
        let expected: Vec<Vec<u8>> = if include_votes {
            vec![b"plain".to_vec(), b"vote".to_vec(), b"forwarded".to_vec()]
        } else {
            vec![b"plain".to_vec(), b"forwarded".to_vec()]
        };
        assert_eq!(item.into_transactions(), expected);
    }
}

#[test]
fn hook_modes_choose_what_is_queued() {
    let batches = mixed_batches();

    let (mut disabled, receiver) =
        CircularExportSender::new_for_tests_with_mode(4, false, HookMode::Disabled);
    disabled.export_verified(&batches, false);
    assert!(receiver.is_empty());
    assert_eq!(disabled.metrics(), CircularExportMetrics::default());

    let (mut copy, receiver) =
        CircularExportSender::new_for_tests_with_mode(4, false, HookMode::Copy);
    copy.export_verified(&batches, false);
    assert!(matches!(receiver.recv().unwrap(), ExportItem::Owned(_)));
    assert_eq!(copy.metrics().enqueued_transactions, 3);
    copy.export_verified(
        &Arc::new(vec![PacketBatch::from(vec![packet(
            b"discarded",
            PacketFlags::DISCARD,
        )])]),
        false,
    );
    assert!(receiver.is_empty());

    let (mut share, receiver) =
        CircularExportSender::new_for_tests_with_mode(4, false, HookMode::Arc);
    share.export_verified(&batches, true);
    match receiver.recv().unwrap() {
        ExportItem::Shared(shared) => {
            assert!(Arc::ptr_eq(&shared.batches, &batches));
            assert!(shared.is_tpu_vote);
            assert!(!shared.filter_simple_votes);
        }
        ExportItem::Owned(_) => panic!("the bytes must not be copied by the hook"),
    }
    assert_eq!(share.metrics().enqueued_transactions, 4);
}

#[test]
fn a_dead_exporter_is_a_counted_drop() {
    let (mut sender, receiver) = CircularExportSender::new_for_tests(4, false);
    drop(receiver);
    sender.try_send(owned(&[b"a", b"b"]));
    sender.try_send_shared(make_batches(3), false);
    let metrics = sender.metrics();
    assert_eq!(metrics.enqueued_transactions, 0);
    assert_eq!(metrics.dropped_batches, 2);
    assert_eq!(metrics.dropped_transactions, 5);
}

#[test]
fn a_queue_without_capacity_drops_everything() {
    let (mut sender, _receiver) = CircularExportSender::new_for_tests(0, false);
    sender.try_send_shared(make_batches(3), false);
    assert_eq!(sender.metrics().dropped_batches, 1);
    assert_eq!(sender.metrics().dropped_transactions, 3);
}

#[test]
fn accepted_batches_keep_their_order_and_every_offer_is_counted() {
    let (mut sender, receiver) = CircularExportSender::new_for_tests(2, false);
    sender.try_send(owned(&[b"first"]));
    sender.try_send(owned(&[b"second", b"third"]));
    sender.try_send(owned(&[b"too", b"much"]));
    let accepted: Vec<Vec<Vec<u8>>> = receiver
        .try_iter()
        .map(|item| item.into_transactions())
        .collect();
    assert_eq!(
        accepted,
        vec![
            vec![b"first".to_vec()],
            vec![b"second".to_vec(), b"third".to_vec()]
        ]
    );
    let metrics = sender.metrics();
    assert_eq!(
        metrics.enqueued_transactions + metrics.dropped_transactions,
        5
    );
    assert_eq!(metrics.dropped_batches, 1);
}

#[test]
fn handles_share_the_queue_and_count_on_their_own() {
    let (mut first, receiver) = CircularExportSender::new_for_tests(1, true);
    first.try_send(owned(&[b"a"]));
    let mut second = first.clone();
    assert!(second.include_votes());
    assert_eq!(second.ledger(), CircularExportMetrics::default());
    second.try_send(owned(&[b"b", b"c"]));
    first.record_hook(7, 9);
    assert_eq!(receiver.len(), 1);

    // Each ledger has what went through its handle.
    assert_eq!(first.ledger().enqueued_transactions, 1);
    assert_eq!(first.ledger().dropped_transactions, 0);
    assert_eq!(first.ledger().hook_us, 7);
    assert_eq!(second.ledger().enqueued_transactions, 0);
    assert_eq!(second.ledger().dropped_batches, 1);
    assert_eq!(second.ledger().dropped_transactions, 2);

    // The shared counters have the sum, whichever handle reads them.
    let mut totals = first.ledger();
    totals.absorb(second.ledger());
    assert_eq!(first.metrics(), totals);
    assert_eq!(second.metrics(), totals);
    assert_eq!(totals.enqueued_transactions + totals.dropped_transactions, 3);
    assert!(Arc::ptr_eq(
        &first.shared_metrics(),
        &second.shared_metrics()
    ));
}

#[test]
fn the_queue_is_as_large_as_configured() {
    let config = CircularExportConfig {
        queue_capacity: 2,
        include_votes: true,
        ..CircularExportConfig::default()
    };
    let (mut sender, receiver) = CircularExportSender::open(&config);
    assert!(sender.include_votes());
    assert_eq!(receiver.capacity(), Some(2));
    sender.record_hook(11, 22);
    sender.record_hook(1, 2);
    assert_eq!(sender.metrics().hook_us, 12);
    assert_eq!(sender.metrics().copy_bytes, 24);
}

#[test]
fn copying_and_sharing_are_counted_alike() {
    let batches = Arc::new(vec![PacketBatch::from(vec![
        packet(b"one", PacketFlags::empty()),
        packet(b"two", PacketFlags::FORWARDED),
    ])]);
    let (mut copy, _copied) =
        CircularExportSender::new_for_tests_with_mode(1, false, HookMode::Copy);
    let (mut share, _shared) =
        CircularExportSender::new_for_tests_with_mode(1, false, HookMode::Arc);
    for _ in 0..2 {
        copy.export_verified(&batches, false);
        share.export_verified(&batches, false);
        assert_eq!(copy.ledger(), share.ledger());
    }
    assert_eq!(copy.ledger().enqueued_transactions, 2);
    assert_eq!(copy.ledger().dropped_transactions, 2);
    assert_eq!(copy.ledger().hook_us, 0);
    assert_eq!(copy.ledger().copy_bytes, 0);
}

#[test]
fn hooks_on_a_queue_without_capacity_are_counted_drops() {
    let batches = mixed_batches();
    let (mut sender, _receiver) = CircularExportSender::new_for_tests(0, false);
    sender.export_verified(&batches, false);
    sender.export_bam_shared(batches);
    assert_eq!(sender.metrics().dropped_batches, 2);
    assert_eq!(sender.metrics().dropped_transactions, 8);
    assert_eq!(sender.metrics().enqueued_transactions, 0);
}

#[test]
fn shared_counters_are_added_to_read_and_taken() {
    let shared = SharedMetrics::default();
    shared.add_counts(CircularExportMetrics {
        received_transactions: 1,
        enqueued_transactions: 2,
        dropped_batches: 3,
        dropped_transactions: 4,
        dropped_no_permit: 5,
        dropped_timeout: 6,
        sent_ok: 7,
        sent_err: 8,
        sent_bytes: 9,
        send_us: 10,
        hook_us: 11,
        copy_bytes: 12,
    });
    shared.add_counts(CircularExportMetrics {
        sent_ok: 3,
        ..CircularExportMetrics::default()
    });
    assert_eq!(shared.read().sent_ok, 10);
    assert_eq!(shared.read().copy_bytes, 12);
    let hooks = shared.take_hooks();
    assert_eq!(
        hooks,
        CircularExportMetrics {
            enqueued_transactions: 2,
            dropped_batches: 3,
            dropped_transactions: 4,
            hook_us: 11,
            copy_bytes: 12,
            ..CircularExportMetrics::default()
        }
    );
    assert_eq!(shared.read().enqueued_transactions, 0);
    assert_eq!(shared.read().received_transactions, 1);
    shared.clear_submissions();
    assert_eq!(shared.read(), CircularExportMetrics::default());
}

#[test]
fn labels_tell_the_sources_apart() {
    let labels: Vec<&str> = [
        TransactionSource::Tpu,
        TransactionSource::TpuVote,
        TransactionSource::Forwarded,
        TransactionSource::Bam,
        TransactionSource::BamVote,
        TransactionSource::HarmonicScheduler,
    ]
    .iter()
    .map(|source| source.as_str())
    .collect();
    assert_eq!(
        labels,
        vec![
            "tpu",
            "tpu_vote",
            "forwarded",
            "bam",
            "bam_vote",
            "harmonic_scheduler"
        ]
    );
}
