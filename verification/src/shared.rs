//! The counters that every part of the pipeline shares: one set of atomics that
//! all sender handles and the exporter add to, and that anyone may read.
//!
//! Other threads add to the atomics and reset them at any time, so no value is
//! claimed of them. What is stated is what they are asked: which counter is
//! added to, by how much, and which counter a number was read from. What a
//! handle added is kept exactly in a ledger of its own.
use vstd::prelude::*;
use std::sync::atomic::AtomicU64;
use std::sync::atomic::Ordering;
use crate::metrics::CircularExportMetrics;

verus! {

/// The counter is one that starts at zero.
pub open spec fn starts_at_zero(counter: AtomicU64) -> bool {
    call_ensures(AtomicU64::new, (0u64,), counter)
}

/// The counter is asked to grow by `amount`.
pub open spec fn is_asked_to_add(counter: AtomicU64, amount: u64) -> bool {
    exists|before: u64|
        call_ensures(AtomicU64::fetch_add, (&counter, amount, Ordering::Relaxed), before)
}

/// The counter, when asked, reads `value`.
pub open spec fn reads_as(counter: AtomicU64, value: u64) -> bool {
    call_ensures(AtomicU64::load, (&counter, Ordering::Relaxed), value)
}

/// The counter, when asked to start over at zero, hands out `value`.
pub open spec fn hands_out(counter: AtomicU64, value: u64) -> bool {
    call_ensures(AtomicU64::swap, (&counter, 0u64, Ordering::Relaxed), value)
}

/// The counter is asked to start over at zero.
pub open spec fn is_asked_to_clear(counter: AtomicU64) -> bool {
    exists|value: u64| hands_out(counter, value)
}

/// Adds to a shared counter; nothing is done for nothing.
fn add_to(counter: &AtomicU64, amount: u64)
    ensures
        amount > 0 ==> is_asked_to_add(*counter, amount),
{
    if amount > 0 {
        let _before: u64 = counter.fetch_add(amount, Ordering::Relaxed);
        assert(call_ensures(AtomicU64::fetch_add, (counter, amount, Ordering::Relaxed), _before));
    }
}

/// Reads a shared counter.
fn read_from(counter: &AtomicU64) -> (value: u64)
    ensures
        reads_as(*counter, value),
{
    counter.load(Ordering::Relaxed)
}

/// Empties a shared counter.
fn take_from(counter: &AtomicU64) -> (value: u64)
    ensures
        hands_out(*counter, value),
        is_asked_to_clear(*counter),
{
    let value: u64 = counter.swap(0, Ordering::Relaxed);
    assert(hands_out(*counter, value));
    value
}

/// Counters shared between the sigverify hook, the export queue and the Fast
/// gRPC calls. The fields are those of [`CircularExportMetrics`].
#[derive(Debug)]
pub struct SharedMetrics {
    pub received_transactions: AtomicU64,
    pub enqueued_transactions: AtomicU64,
    pub dropped_batches: AtomicU64,
    pub dropped_transactions: AtomicU64,
    pub dropped_no_permit: AtomicU64,
    pub dropped_timeout: AtomicU64,
    pub sent_ok: AtomicU64,
    pub sent_err: AtomicU64,
    pub sent_bytes: AtomicU64,
    pub send_us: AtomicU64,
    pub hook_us: AtomicU64,
    pub copy_bytes: AtomicU64,
}

impl SharedMetrics {
    /// Every counter is one that starts at zero.
    pub open spec fn starts_over(self) -> bool {
        &&& starts_at_zero(self.received_transactions)
        &&& starts_at_zero(self.enqueued_transactions)
        &&& starts_at_zero(self.dropped_batches)
        &&& starts_at_zero(self.dropped_transactions)
        &&& starts_at_zero(self.dropped_no_permit)
        &&& starts_at_zero(self.dropped_timeout)
        &&& starts_at_zero(self.sent_ok)
        &&& starts_at_zero(self.sent_err)
        &&& starts_at_zero(self.sent_bytes)
        &&& starts_at_zero(self.send_us)
        &&& starts_at_zero(self.hook_us)
        &&& starts_at_zero(self.copy_bytes)
    }

    /// Every counter is asked to grow by what was counted of it.
    pub open spec fn takes_up(self, counted: CircularExportMetrics) -> bool {
        &&& counted.received_transactions > 0 ==> is_asked_to_add(
            self.received_transactions,
            counted.received_transactions,
        )
        &&& counted.enqueued_transactions > 0 ==> is_asked_to_add(
            self.enqueued_transactions,
            counted.enqueued_transactions,
        )
        &&& counted.dropped_batches > 0 ==> is_asked_to_add(
            self.dropped_batches,
            counted.dropped_batches,
        )
        &&& counted.dropped_transactions > 0 ==> is_asked_to_add(
            self.dropped_transactions,
            counted.dropped_transactions,
        )
        &&& counted.dropped_no_permit > 0 ==> is_asked_to_add(
            self.dropped_no_permit,
            counted.dropped_no_permit,
        )
        &&& counted.dropped_timeout > 0 ==> is_asked_to_add(
            self.dropped_timeout,
            counted.dropped_timeout,
        )
        &&& counted.sent_ok > 0 ==> is_asked_to_add(self.sent_ok, counted.sent_ok)
        &&& counted.sent_err > 0 ==> is_asked_to_add(self.sent_err, counted.sent_err)
        &&& counted.sent_bytes > 0 ==> is_asked_to_add(self.sent_bytes, counted.sent_bytes)
        &&& counted.send_us > 0 ==> is_asked_to_add(self.send_us, counted.send_us)
        &&& counted.hook_us > 0 ==> is_asked_to_add(self.hook_us, counted.hook_us)
        &&& counted.copy_bytes > 0 ==> is_asked_to_add(self.copy_bytes, counted.copy_bytes)
    }

    /// Every counter, when asked, reads as `counters` has it.
    pub open spec fn shows(self, counters: CircularExportMetrics) -> bool {
        &&& reads_as(self.received_transactions, counters.received_transactions)
        &&& reads_as(self.enqueued_transactions, counters.enqueued_transactions)
        &&& reads_as(self.dropped_batches, counters.dropped_batches)
        &&& reads_as(self.dropped_transactions, counters.dropped_transactions)
        &&& reads_as(self.dropped_no_permit, counters.dropped_no_permit)
        &&& reads_as(self.dropped_timeout, counters.dropped_timeout)
        &&& reads_as(self.sent_ok, counters.sent_ok)
        &&& reads_as(self.sent_err, counters.sent_err)
        &&& reads_as(self.sent_bytes, counters.sent_bytes)
        &&& reads_as(self.send_us, counters.send_us)
        &&& reads_as(self.hook_us, counters.hook_us)
        &&& reads_as(self.copy_bytes, counters.copy_bytes)
    }

    /// The counters of the hook hand out what `counters` has of them, and
    /// `counters` has nothing else.
    pub open spec fn hands_out_hooks(self, counters: CircularExportMetrics) -> bool {
        &&& hands_out(self.enqueued_transactions, counters.enqueued_transactions)
        &&& hands_out(self.dropped_batches, counters.dropped_batches)
        &&& hands_out(self.dropped_transactions, counters.dropped_transactions)
        &&& hands_out(self.hook_us, counters.hook_us)
        &&& hands_out(self.copy_bytes, counters.copy_bytes)
        &&& counters == (CircularExportMetrics {
            enqueued_transactions: counters.enqueued_transactions,
            dropped_batches: counters.dropped_batches,
            dropped_transactions: counters.dropped_transactions,
            hook_us: counters.hook_us,
            copy_bytes: counters.copy_bytes,
            ..CircularExportMetrics::zero()
        })
    }

    /// The counters of the submissions are asked to start over at zero.
    pub open spec fn clears_submissions(self) -> bool {
        &&& is_asked_to_clear(self.received_transactions)
        &&& is_asked_to_clear(self.dropped_no_permit)
        &&& is_asked_to_clear(self.dropped_timeout)
        &&& is_asked_to_clear(self.sent_ok)
        &&& is_asked_to_clear(self.sent_err)
        &&& is_asked_to_clear(self.sent_bytes)
        &&& is_asked_to_clear(self.send_us)
    }

    /// Adds what a part of the pipeline counted.
    pub fn add_counts(&self, counted: CircularExportMetrics)
        ensures
            self.takes_up(counted),
    {
        add_to(&self.received_transactions, counted.received_transactions);
        add_to(&self.enqueued_transactions, counted.enqueued_transactions);
        add_to(&self.dropped_batches, counted.dropped_batches);
        add_to(&self.dropped_transactions, counted.dropped_transactions);
        add_to(&self.dropped_no_permit, counted.dropped_no_permit);
        add_to(&self.dropped_timeout, counted.dropped_timeout);
        add_to(&self.sent_ok, counted.sent_ok);
        add_to(&self.sent_err, counted.sent_err);
        add_to(&self.sent_bytes, counted.sent_bytes);
        add_to(&self.send_us, counted.send_us);
        add_to(&self.hook_us, counted.hook_us);
        add_to(&self.copy_bytes, counted.copy_bytes);
    }

    /// Reads the counters, one after the other.
    pub fn read(&self) -> (counters: CircularExportMetrics)
        ensures
            self.shows(counters),
    {
        CircularExportMetrics {
            received_transactions: read_from(&self.received_transactions),
            enqueued_transactions: read_from(&self.enqueued_transactions),
            dropped_batches: read_from(&self.dropped_batches),
            dropped_transactions: read_from(&self.dropped_transactions),
            dropped_no_permit: read_from(&self.dropped_no_permit),
            dropped_timeout: read_from(&self.dropped_timeout),
            sent_ok: read_from(&self.sent_ok),
            sent_err: read_from(&self.sent_err),
            sent_bytes: read_from(&self.sent_bytes),
            send_us: read_from(&self.send_us),
            hook_us: read_from(&self.hook_us),
            copy_bytes: read_from(&self.copy_bytes),
        }
    }

    /// Hands out what the hook counted and starts over at zero.
    pub fn take_hooks(&self) -> (counters: CircularExportMetrics)
        ensures
            self.hands_out_hooks(counters),
    {
        let mut counters = CircularExportMetrics::default();
        counters.enqueued_transactions = take_from(&self.enqueued_transactions);
        counters.dropped_batches = take_from(&self.dropped_batches);
        counters.dropped_transactions = take_from(&self.dropped_transactions);
        counters.hook_us = take_from(&self.hook_us);
        counters.copy_bytes = take_from(&self.copy_bytes);
        counters
    }

    /// Starts the counters of the submissions over at zero.
    pub fn clear_submissions(&self)
        ensures
            self.clears_submissions(),
    {
        let _: u64 = take_from(&self.received_transactions);
        let _: u64 = take_from(&self.dropped_no_permit);
        let _: u64 = take_from(&self.dropped_timeout);
        let _: u64 = take_from(&self.sent_ok);
        let _: u64 = take_from(&self.sent_err);
        let _: u64 = take_from(&self.sent_bytes);
        let _: u64 = take_from(&self.send_us);
    }
}

impl Default for SharedMetrics {
    fn default() -> (shared: Self)
        ensures
            shared.starts_over(),
    {
        SharedMetrics {
            received_transactions: AtomicU64::new(0),
            enqueued_transactions: AtomicU64::new(0),
            dropped_batches: AtomicU64::new(0),
            dropped_transactions: AtomicU64::new(0),
            dropped_no_permit: AtomicU64::new(0),
            dropped_timeout: AtomicU64::new(0),
            sent_ok: AtomicU64::new(0),
            sent_err: AtomicU64::new(0),
            sent_bytes: AtomicU64::new(0),
            send_us: AtomicU64::new(0),
            hook_us: AtomicU64::new(0),
            copy_bytes: AtomicU64::new(0),
        }
    }
}

/// What a shared counter is asked is what the atomic is asked.
pub proof fn law_counters_are_atomics(counter: AtomicU64, value: u64)
    ensures
        starts_at_zero(counter) <==> call_ensures(AtomicU64::new, (0u64,), counter),
        reads_as(counter, value) <==> call_ensures(
            AtomicU64::load,
            (&counter, Ordering::Relaxed),
            value,
        ),
        hands_out(counter, value) <==> call_ensures(
            AtomicU64::swap,
            (&counter, 0u64, Ordering::Relaxed),
            value,
        ),
        is_asked_to_add(counter, value) <==> exists|before: u64|
            call_ensures(AtomicU64::fetch_add, (&counter, value, Ordering::Relaxed), before),
{
}

/// What was counted goes to the counter of the same name, each in full.
pub proof fn law_counts_go_to_their_counters(shared: SharedMetrics, counted: CircularExportMetrics)
    requires
        shared.takes_up(counted),
    ensures
        counted.received_transactions > 0 ==> is_asked_to_add(shared.received_transactions, counted.received_transactions),
        counted.enqueued_transactions > 0 ==> is_asked_to_add(shared.enqueued_transactions, counted.enqueued_transactions),
        counted.dropped_batches > 0 ==> is_asked_to_add(shared.dropped_batches, counted.dropped_batches),
        counted.dropped_transactions > 0 ==> is_asked_to_add(shared.dropped_transactions, counted.dropped_transactions),
        counted.dropped_no_permit > 0 ==> is_asked_to_add(shared.dropped_no_permit, counted.dropped_no_permit),
        counted.dropped_timeout > 0 ==> is_asked_to_add(shared.dropped_timeout, counted.dropped_timeout),
        counted.sent_ok > 0 ==> is_asked_to_add(shared.sent_ok, counted.sent_ok),
        counted.sent_err > 0 ==> is_asked_to_add(shared.sent_err, counted.sent_err),
        counted.sent_bytes > 0 ==> is_asked_to_add(shared.sent_bytes, counted.sent_bytes),
        counted.send_us > 0 ==> is_asked_to_add(shared.send_us, counted.send_us),
        counted.hook_us > 0 ==> is_asked_to_add(shared.hook_us, counted.hook_us),
        counted.copy_bytes > 0 ==> is_asked_to_add(shared.copy_bytes, counted.copy_bytes),
{
}

/// What is read comes from the counter of the same name.
pub proof fn law_readings_come_from_their_counters(
    shared: SharedMetrics,
    counters: CircularExportMetrics,
)
    requires
        shared.shows(counters),
    ensures
        reads_as(shared.received_transactions, counters.received_transactions),
        reads_as(shared.enqueued_transactions, counters.enqueued_transactions),
        reads_as(shared.dropped_batches, counters.dropped_batches),
        reads_as(shared.dropped_transactions, counters.dropped_transactions),
        reads_as(shared.dropped_no_permit, counters.dropped_no_permit),
        reads_as(shared.dropped_timeout, counters.dropped_timeout),
        reads_as(shared.sent_ok, counters.sent_ok),
        reads_as(shared.sent_err, counters.sent_err),
        reads_as(shared.sent_bytes, counters.sent_bytes),
        reads_as(shared.send_us, counters.send_us),
        reads_as(shared.hook_us, counters.hook_us),
        reads_as(shared.copy_bytes, counters.copy_bytes),
{
}

/// What the hooks counted is taken out of the counters of the same name, and
/// nothing is taken of the submissions.
pub proof fn law_hooks_are_taken_from_their_counters(
    shared: SharedMetrics,
    counters: CircularExportMetrics,
)
    requires
        shared.hands_out_hooks(counters),
    ensures
        hands_out(shared.enqueued_transactions, counters.enqueued_transactions),
        hands_out(shared.dropped_batches, counters.dropped_batches),
        hands_out(shared.dropped_transactions, counters.dropped_transactions),
        hands_out(shared.hook_us, counters.hook_us),
        hands_out(shared.copy_bytes, counters.copy_bytes),
        counters.received_transactions == 0,
        counters.dropped_no_permit == 0,
        counters.dropped_timeout == 0,
        counters.sent_ok == 0,
        counters.sent_err == 0,
        counters.sent_bytes == 0,
        counters.send_us == 0,
{
}

/// A report starts every counter of the submissions over, and a new set starts
/// at zero.
pub proof fn law_sets_start_over_whole(shared: SharedMetrics)
    ensures
        shared.clears_submissions() ==> exists|value: u64| hands_out(shared.received_transactions, value),
        shared.clears_submissions() ==> exists|value: u64| hands_out(shared.dropped_no_permit, value),
        shared.clears_submissions() ==> exists|value: u64| hands_out(shared.dropped_timeout, value),
        shared.clears_submissions() ==> exists|value: u64| hands_out(shared.sent_ok, value),
        shared.clears_submissions() ==> exists|value: u64| hands_out(shared.sent_err, value),
        shared.clears_submissions() ==> exists|value: u64| hands_out(shared.sent_bytes, value),
        shared.clears_submissions() ==> exists|value: u64| hands_out(shared.send_us, value),
        shared.starts_over() ==> starts_at_zero(shared.received_transactions),
        shared.starts_over() ==> starts_at_zero(shared.enqueued_transactions),
        shared.starts_over() ==> starts_at_zero(shared.dropped_batches),
        shared.starts_over() ==> starts_at_zero(shared.dropped_transactions),
        shared.starts_over() ==> starts_at_zero(shared.dropped_no_permit),
        shared.starts_over() ==> starts_at_zero(shared.dropped_timeout),
        shared.starts_over() ==> starts_at_zero(shared.sent_ok),
        shared.starts_over() ==> starts_at_zero(shared.sent_err),
        shared.starts_over() ==> starts_at_zero(shared.sent_bytes),
        shared.starts_over() ==> starts_at_zero(shared.send_us),
        shared.starts_over() ==> starts_at_zero(shared.hook_us),
        shared.starts_over() ==> starts_at_zero(shared.copy_bytes),
{
}

} // verus!
