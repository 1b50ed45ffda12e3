use circular_transaction_exporter::api_key::{ApiKey, ApiKeyError};
use circular_transaction_exporter::exporter::{
    Exporter, ExporterAction, ExporterEvent, Phase, StartError,
};
use circular_transaction_exporter::metrics::CircularExportMetrics;
use circular_transaction_exporter::service::{CallOutcome, Submission, SubmitContext};
use circular_transaction_exporter::shared::SharedMetrics;
use circular_transaction_exporter::{
    CircularExportConfig, CircularExportSender, ExportItem, TransactionSource, VerifiedPacket,
    VerifiedPacketBatch, unix_nanos_now,
};
use std::collections::HashSet;
use std::sync::Arc;
use std::time::{Duration, Instant};

fn test_config() -> CircularExportConfig {
    CircularExportConfig {
        api_key: "test-key".to_string(),
        ..CircularExportConfig::default()
    }
}

fn exporter_sharing(config: &CircularExportConfig, shared: Arc<SharedMetrics>) -> Exporter {
    match Exporter::start(config, shared, "0.1.0") {
        Ok((exporter, _plan)) => exporter,
        Err(error) => panic!("no exporter: {error:?}"),
    }
}

fn exporter_for(config: &CircularExportConfig) -> Exporter {
    exporter_sharing(config, Arc::new(SharedMetrics::default()))
}

/// A batch of `count` distinct, tiny transactions tagged with `wave`.
fn packet_batch(count: usize, wave: u8) -> VerifiedPacketBatch {
    VerifiedPacketBatch {
        packets: (0..count)
            .map(|index| VerifiedPacket {
                transaction: vec![wave, index as u8, (index >> 8) as u8],
                source: TransactionSource::Tpu,
            })
            .collect(),
        received_at_unix_nanos: unix_nanos_now(),
    }
}

fn single(bytes: &[u8]) -> VerifiedPacketBatch {
    VerifiedPacketBatch {
        packets: vec![VerifiedPacket {
            transaction: bytes.to_vec(),
            source: TransactionSource::Tpu,
        }],
        received_at_unix_nanos: unix_nanos_now(),
    }
}

fn submitted(exporter: &mut Exporter, item: ExportItem) -> Vec<Submission> {
    match exporter.step(ExporterEvent::Item(item)) {
        ExporterAction::Submit(submissions) => submissions,
        _ => panic!("an item is answered with calls"),
    }
}

fn finish(exporter: &mut Exporter, outcome: CallOutcome, bytes: u64, micros: u64) -> ExporterAction {
    exporter.step(ExporterEvent::CallFinished {
        outcome,
        transaction_bytes: bytes,
        elapsed: Duration::from_micros(micros),
    })
}

#[test]
fn metrics_are_exact_on_the_happy_path() {
    const N: u64 = 50;

    let config = test_config();
    let (mut sender, receiver) = CircularExportSender::open(&config);
    let mut exporter = exporter_sharing(&config, sender.shared_metrics());

    sender.try_send(packet_batch(N as usize, 0));
    let submissions = submitted(&mut exporter, receiver.recv().unwrap());
    for submission in &submissions {
        let bytes = submission.request.transaction.len() as u64;
        assert!(matches!(
            finish(&mut exporter, CallOutcome::Accepted, bytes, 10),
            ExporterAction::Wait
        ));
    }

    let metrics = sender.metrics();
    assert_eq!(metrics.received_transactions, N);
    assert_eq!(metrics.enqueued_transactions, N);
    assert_eq!(metrics.sent_ok, N);
    assert_eq!(metrics.sent_err, 0);
    assert_eq!(metrics.dropped_batches, 0);
    assert_eq!(metrics.dropped_transactions, 0);
    assert_eq!(metrics.dropped_no_permit, 0);
    assert_eq!(metrics.dropped_timeout, 0);
    assert_eq!(metrics.sent_bytes, 3 * N);
    assert_eq!(metrics.send_us, 10 * N);

    // The exporter accounts for the same, and a report empties both.
    assert!(matches!(
        exporter.step(ExporterEvent::Counted(sender.shared_metrics().take_hooks())),
        ExporterAction::Wait
    ));
    assert_eq!(exporter.metrics(), metrics);
    exporter.step(ExporterEvent::ReportDue { queue_depth: 0 });
    assert_eq!(exporter.metrics(), CircularExportMetrics::default());
    assert_eq!(sender.metrics(), CircularExportMetrics::default());
}

#[test]
fn burst_exceeding_max_in_flight_drops_overflow_then_recovers() {
    const MAX_IN_FLIGHT: u64 = 16;
    const WAVE_SIZE: u64 = 16;
    const NUM_WAVES: u64 = 3;
    const TOTAL: u64 = WAVE_SIZE * NUM_WAVES;

    let config = CircularExportConfig {
        max_in_flight: MAX_IN_FLIGHT as usize,
        queue_capacity: 256,
        ..test_config()
    };
    let mut exporter = exporter_for(&config);

    // All three waves arrive before any answer does.
    let mut started = 0u64;
    for wave in 0..NUM_WAVES {
        let item = ExportItem::Owned(packet_batch(WAVE_SIZE as usize, wave as u8));
        started += submitted(&mut exporter, item).len() as u64;
    }
    assert_eq!(started, MAX_IN_FLIGHT);
    assert_eq!(exporter.in_flight() as u64, MAX_IN_FLIGHT);
    assert_eq!(exporter.metrics().received_transactions, TOTAL);

    for _ in 0..started {
        finish(&mut exporter, CallOutcome::Accepted, 3, 300_000);
    }
    let sent_ok_after_burst = exporter.metrics().sent_ok;
    let dropped_no_permit_after_burst = exporter.metrics().dropped_no_permit;
    assert_eq!(
        sent_ok_after_burst + dropped_no_permit_after_burst,
        TOTAL,
        "every transaction must be either sent or accounted as dropped, never silently lost"
    );
    assert_eq!(sent_ok_after_burst, MAX_IN_FLIGHT);
    assert_eq!(exporter.metrics().dropped_batches, 0);
    assert_eq!(exporter.metrics().dropped_timeout, 0);

    // A fresh wave goes through once the permits are back.
    let item = ExportItem::Owned(packet_batch(WAVE_SIZE as usize, 99));
    let recovered = submitted(&mut exporter, item);
    assert_eq!(recovered.len() as u64, WAVE_SIZE);
    for _ in &recovered {
        finish(&mut exporter, CallOutcome::Accepted, 3, 300_000);
    }
    assert_eq!(exporter.metrics().sent_ok, sent_ok_after_burst + WAVE_SIZE);
    assert_eq!(
        exporter.metrics().dropped_no_permit,
        dropped_no_permit_after_burst,
        "no additional drops expected once permits have been released back to the semaphore"
    );
    assert_eq!(exporter.in_flight(), 0);
}

#[test]
fn roundtrip_bytes_flags_and_api_key() {
    let config = test_config();
    let mut exporter = exporter_for(&config);
    let payloads: Vec<Vec<u8>> = vec![
        (0u8..=255).collect(),
        vec![0u8; 1232],
        b"\x01circular".to_vec(),
    ];
    let batch = VerifiedPacketBatch {
        packets: payloads
            .iter()
            .map(|bytes| VerifiedPacket {
                transaction: bytes.clone(),
                source: TransactionSource::Tpu,
            })
            .collect(),
        received_at_unix_nanos: unix_nanos_now(),
    };

    let mut received = HashSet::new();
    for submission in submitted(&mut exporter, ExportItem::Owned(batch)) {
        assert_eq!(submission.api_key.as_str(), "test-key");
        assert_eq!(submission.request.forward, Some(false));
        assert_eq!(submission.request_timeout, config.request_timeout);
        received.insert(submission.request.transaction);
    }
    let expected: HashSet<Vec<u8>> = payloads.into_iter().collect();
    assert_eq!(received, expected);
}

#[test]
fn pending_transactions_are_submitted_before_shutdown() {
    let config = test_config();
    let mut exporter = exporter_for(&config);
    let (mut sender, receiver) = CircularExportSender::open(&config);

    // The handle is gone before the exporter looks at the queue.
    sender.try_send(single(b"last-words"));
    drop(sender);

    let submissions = submitted(&mut exporter, receiver.recv().unwrap());
    assert_eq!(submissions[0].request.transaction, b"last-words");
    assert!(receiver.recv().is_err());
    assert!(matches!(
        exporter.step(ExporterEvent::QueueClosed),
        ExporterAction::Drain
    ));
    assert_eq!(exporter.phase(), Phase::Draining);
    assert!(matches!(
        finish(&mut exporter, CallOutcome::Accepted, 10, 1),
        ExporterAction::Stop
    ));
    assert_eq!(exporter.phase(), Phase::Stopped);
}

#[test]
fn dead_endpoint_never_blocks_the_sender_and_shuts_down_cleanly() {
    let config = test_config();
    let mut exporter = exporter_for(&config);
    let (mut sender, receiver) = CircularExportSender::open(&config);

    // Every call fails at once, and the flood is absorbed or dropped.
    let start = Instant::now();
    for index in 0..10_000u32 {
        sender.try_send(single(&index.to_le_bytes()));
    }
    assert!(
        start.elapsed() < Duration::from_secs(1),
        "try_send must never block, took {:?}",
        start.elapsed()
    );
    assert_eq!(sender.metrics().enqueued_transactions, 8_192);
    assert_eq!(sender.metrics().dropped_transactions, 10_000 - 8_192);
    drop(sender);

    while let Ok(item) = receiver.recv() {
        for _ in submitted(&mut exporter, item) {
            finish(&mut exporter, CallOutcome::Rejected, 4, 1);
        }
    }
    assert_eq!(exporter.metrics().sent_err, 8_192);
    assert_eq!(exporter.metrics().dropped_no_permit, 0);
    assert!(matches!(
        exporter.step(ExporterEvent::QueueClosed),
        ExporterAction::Stop
    ));
}

#[test]
fn stalled_consumer_never_blocks_and_shuts_down() {
    let config = CircularExportConfig {
        max_in_flight: 4,
        queue_capacity: 16,
        ..test_config()
    };
    let mut exporter = exporter_for(&config);
    let (mut sender, receiver) = CircularExportSender::open(&config);

    // No call ever ends: once the permits are gone, the rest is dropped.
    let start = Instant::now();
    for index in 0..10_000u32 {
        sender.try_send(single(&index.to_le_bytes()));
    }
    assert!(
        start.elapsed() < Duration::from_secs(1),
        "try_send must never block, took {:?}",
        start.elapsed()
    );
    drop(sender);
    let mut started = 0;
    while let Ok(item) = receiver.recv() {
        started += submitted(&mut exporter, item).len();
    }
    assert_eq!(started, 4);
    assert_eq!(exporter.metrics().dropped_no_permit, 12);

    assert!(matches!(
        exporter.step(ExporterEvent::QueueClosed),
        ExporterAction::Drain
    ));
    assert!(matches!(
        exporter.step(ExporterEvent::DrainExpired),
        ExporterAction::Stop
    ));
    assert_eq!(exporter.in_flight(), 4);
}

#[test]
fn requests_carry_the_configured_memo_and_address() {
    let config = CircularExportConfig {
        memo: Some("memo".to_string()),
        cashback_address: Some("address".to_string()),
        max_in_flight: 1,
        ..test_config()
    };
    let shared = Arc::new(SharedMetrics::default());
    let mut context =
        SubmitContext::new(&config, ApiKey::parse("key").unwrap(), shared.clone());
    let submission = context.submit(vec![1, 2, 3]).unwrap();
    assert_eq!(submission.request.transaction, vec![1, 2, 3]);
    assert_eq!(submission.request.memo.as_deref(), Some("memo"));
    assert_eq!(
        submission.request.cashback_address.as_deref(),
        Some("address")
    );
    assert!(context.submit(vec![4]).is_none());
    assert_eq!(context.in_flight(), 1);
    assert!(!context.drained());
    context.finish(CallOutcome::TimedOut, 3, Duration::from_nanos(1_999));
    assert_eq!(context.metrics().dropped_timeout, 1);
    assert_eq!(context.metrics().send_us, 1);
    assert_eq!(context.metrics().sent_bytes, 0);
    assert_eq!(context.metrics().dropped_no_permit, 1);
    assert!(context.drained());
    assert_eq!(shared.read(), context.metrics());
}

#[test]
fn there_is_no_exporter_without_an_api_key() {
    let start = |config: &CircularExportConfig| {
        Exporter::start(config, Arc::new(SharedMetrics::default()), "0.1.0")
    };
    assert!(matches!(
        start(&CircularExportConfig::default()),
        Err(StartError::ApiKey(ApiKeyError::Missing))
    ));
    let config = CircularExportConfig {
        api_key: "bad\nkey".to_string(),
        ..CircularExportConfig::default()
    };
    assert!(matches!(
        start(&config),
        Err(StartError::ApiKey(ApiKeyError::Invalid(_)))
    ));
    let config = CircularExportConfig {
        url: String::new(),
        ..test_config()
    };
    assert!(matches!(start(&config), Err(StartError::Endpoint(_))));

    let (exporter, plan) = match start(&test_config()) {
        Ok(started) => started,
        Err(error) => panic!("no exporter: {error:?}"),
    };
    assert_eq!(exporter.phase(), Phase::Running);
    assert_eq!(plan.url, "http://cashback.circular.fi");
    assert_eq!(plan.user_agent, "circular-jito/0.1.0");
}

#[test]
fn every_outcome_is_settled_once() {
    let config = CircularExportConfig {
        max_in_flight: 3,
        ..test_config()
    };
    let mut exporter = exporter_for(&config);
    submitted(&mut exporter, ExportItem::Owned(packet_batch(5, 0)));
    finish(&mut exporter, CallOutcome::Accepted, 3, 1);
    finish(&mut exporter, CallOutcome::Rejected, 3, 1);
    finish(&mut exporter, CallOutcome::TimedOut, 3, 1);
    let metrics = exporter.metrics();
    assert_eq!(metrics.received_transactions, 5);
    assert_eq!(
        metrics.sent_ok + metrics.sent_err + metrics.dropped_timeout + metrics.dropped_no_permit,
        5
    );
    assert_eq!(metrics.sent_bytes, 3);
    assert_eq!(metrics.send_us, 3);
}

#[test]
fn a_report_shows_the_gauges_and_resets_the_counters() {
    let config = CircularExportConfig {
        max_in_flight: 2,
        queue_capacity: 64,
        ..test_config()
    };
    let mut exporter = exporter_for(&config);
    submitted(&mut exporter, ExportItem::Owned(packet_batch(3, 0)));
    let fields = match exporter.step(ExporterEvent::ReportDue { queue_depth: 5 }) {
        ExporterAction::Report(fields) => fields,
        _ => panic!("a report is due"),
    };
    assert_eq!(fields[0], ("received_transactions", 3));
    assert_eq!(fields[4], ("dropped_no_permit", 1));
    assert_eq!(fields[12], ("queue_depth", 5));
    assert_eq!(fields[13], ("queue_capacity", 64));
    assert_eq!(fields[14], ("in_flight", 2));
    assert_eq!(exporter.metrics(), CircularExportMetrics::default());
    assert_eq!(exporter.in_flight(), 2);
}

#[test]
fn without_a_budget_everything_is_dropped() {
    let config = CircularExportConfig {
        max_in_flight: 0,
        ..test_config()
    };
    let mut exporter = exporter_for(&config);
    assert!(submitted(&mut exporter, ExportItem::Owned(packet_batch(2, 0))).is_empty());
    assert_eq!(exporter.metrics().dropped_no_permit, 2);
    assert!(matches!(
        exporter.step(ExporterEvent::QueueClosed),
        ExporterAction::Stop
    ));
}
