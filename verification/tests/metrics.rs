use circular_transaction_exporter::clock::{low_bits, unix_nanos, unix_nanos_at, whole_micros};
use circular_transaction_exporter::metrics::{
    CircularExportMetrics, MEASUREMENT, add_to_counter, read_signed,
};
use circular_transaction_exporter::unix_nanos_now;
use std::time::{Duration, SystemTime};

#[test]
fn counters_wrap_around() {
    assert_eq!(add_to_counter(40, 2), 42);
    assert_eq!(add_to_counter(u64::MAX, 3), 2);
}

#[test]
fn counters_read_as_signed_fields() {
    assert_eq!(read_signed(7), 7);
    assert_eq!(read_signed(i64::MAX as u64), i64::MAX);
    assert_eq!(read_signed(u64::MAX), -1);
    assert_eq!(read_signed(1 << 63), i64::MIN);
}

#[test]
fn a_report_lists_every_counter_and_gauge_and_resets() {
    let mut metrics = CircularExportMetrics {
        received_transactions: 1,
        enqueued_transactions: 2,
        dropped_batches: 3,
        dropped_transactions: 4,
        dropped_no_permit: 5,
        dropped_timeout: 6,
        sent_ok: 7,
        sent_err: 8,
        sent_bytes: 9,
        send_us: 10,
        hook_us: 11,
        copy_bytes: u64::MAX,
    };
    assert_eq!(MEASUREMENT, "circular_transaction_exporter");
    assert_eq!(
        metrics.report(12, 8192, 13),
        vec![
            ("received_transactions", 1),
            ("enqueued_transactions", 2),
            ("dropped_batches", 3),
            ("dropped_transactions", 4),
            ("dropped_no_permit", 5),
            ("dropped_timeout", 6),
            ("sent_ok", 7),
            ("sent_err", 8),
            ("sent_bytes", 9),
            ("send_us", 10),
            ("hook_us", 11),
            ("copy_bytes", -1),
            ("queue_depth", 12),
            ("queue_capacity", 8192),
            ("in_flight", 13),
        ]
    );
    assert_eq!(metrics, CircularExportMetrics::default());
}

#[test]
fn offers_are_counted_as_enqueued_or_dropped() {
    let mut metrics = CircularExportMetrics::default();
    metrics.record_offer(true, 5);
    metrics.record_offer(false, 3);
    metrics.record_offer(false, 0);
    assert_eq!(metrics.enqueued_transactions, 5);
    assert_eq!(metrics.dropped_batches, 2);
    assert_eq!(metrics.dropped_transactions, 3);
}

#[test]
fn totals_do_not_depend_on_the_order() {
    let first = CircularExportMetrics {
        sent_ok: u64::MAX,
        hook_us: 3,
        ..CircularExportMetrics::default()
    };
    let second = CircularExportMetrics {
        sent_ok: 2,
        copy_bytes: 9,
        ..CircularExportMetrics::default()
    };
    let mut one_way = first;
    one_way.absorb(second);
    let mut other_way = second;
    other_way.absorb(first);
    assert_eq!(one_way, other_way);
    assert_eq!(one_way.sent_ok, 1);
    assert_eq!(one_way.hook_us, 3);
    assert_eq!(one_way.copy_bytes, 9);
    let before = one_way;
    one_way.absorb(CircularExportMetrics::default());
    assert_eq!(one_way, before);
}

#[test]
fn clocks_are_read_in_whole_units() {
    assert_eq!(unix_nanos(Ok(Duration::new(2, 5))), 2_000_000_005);
    assert_eq!(unix_nanos(Ok(Duration::new(u64::MAX, 0))), u64::MAX.wrapping_mul(1_000_000_000));
    assert_eq!(whole_micros(Duration::from_nanos(1_999)), 1);
    assert_eq!(whole_micros(Duration::from_millis(3)), 3_000);
    assert_eq!(low_bits((1u128 << 64) + 17), 17);
}

#[test]
fn a_clock_before_the_epoch_reads_zero() {
    let before = SystemTime::UNIX_EPOCH
        .checked_sub(Duration::from_secs(1))
        .unwrap();
    assert_eq!(
        unix_nanos(before.duration_since(SystemTime::UNIX_EPOCH)),
        0
    );
}

#[test]
fn points_in_time_are_counted_from_the_epoch() {
    let epoch = SystemTime::UNIX_EPOCH;
    assert_eq!(unix_nanos_at(epoch), 0);
    assert_eq!(unix_nanos_at(epoch + Duration::new(2, 5)), 2_000_000_005);
    assert_eq!(unix_nanos_at(epoch - Duration::new(2, 5)), 0);
}

#[test]
fn the_current_time_is_past_the_year_2020() {
    let now = unix_nanos_now();
    assert!(now > 1_577_836_800_000_000_000);
    assert!(unix_nanos_now() >= now);
}
