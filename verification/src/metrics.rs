//! Counters of the export pipeline and the datapoint they are reported as.
use vstd::prelude::*;

verus! {

/// A counter after `amount` more was added to it. Counters are 64 bits wide
/// and wrap around.
pub open spec fn bump(counter: u64, amount: nat) -> u64 {
    ((counter + amount) % 0x1_0000_0000_0000_0000) as u64
}

/// What a counter reads as in a datapoint field, which is signed: the same 64
/// bits in two's complement.
pub open spec fn signed_reading(value: u64) -> i64 {
    if value <= i64::MAX {
        value as i64
    } else {
        (value - 0x1_0000_0000_0000_0000) as i64
    }
}

/// Adds to a counter, wrapping around.
pub fn add_to_counter(counter: u64, amount: u64) -> (sum: u64)
    ensures
        sum == bump(counter, amount as nat),
{
    counter.wrapping_add(amount)
}

/// Reads a counter as a signed datapoint field.
pub fn read_signed(value: u64) -> (reading: i64)
    ensures
        reading == signed_reading(value),
{
    assert(value > 0x7fff_ffff_ffff_ffffu64 ==> (value as i64) as int == value
        - 0x1_0000_0000_0000_0000) by (bit_vector);
    assert(value <= 0x7fff_ffff_ffff_ffffu64 ==> (value as i64) as int == value) by (bit_vector);
    value as i64
}

/// Two additions to one counter are one addition of the sum.
pub proof fn law_bumps_compose(counter: u64, first: nat, second: nat)
    ensures
        bump(bump(counter, first), second) == bump(counter, first + second),
{
}

/// Name of the measurement that [`CircularExportMetrics::report`] fills in.
pub const MEASUREMENT: &'static str = "circular_transaction_exporter";

/// Counters of the sigverify hook, the export queue and the Fast gRPC calls.
/// Reported and reset periodically by the exporter.
///
/// These are the counts of one part of the pipeline, or a reading of the shared
/// ones; [`absorb`] adds parts up.
///
/// [`absorb`]: CircularExportMetrics::absorb
#[derive(Clone, Copy, Debug, PartialEq, Eq, Structural)]
pub struct CircularExportMetrics {
    /// Exportable transactions that reached the submission step.
    pub received_transactions: u64,
    /// Transactions accepted into the export queue.
    pub enqueued_transactions: u64,
    /// Batches dropped because the export queue was full or closed.
    pub dropped_batches: u64,
    /// Transactions dropped because the export queue was full or closed.
    pub dropped_transactions: u64,
    /// Transactions dropped because the in-flight limit was saturated (Fast
    /// slow or unreachable).
    pub dropped_no_permit: u64,
    /// Transactions dropped because their `SendTransaction` call timed out.
    pub dropped_timeout: u64,
    /// `SendTransaction` calls the Fast endpoint accepted (OK).
    pub sent_ok: u64,
    /// `SendTransaction` calls that returned a gRPC error status.
    pub sent_err: u64,
    /// Bytes of transaction payload accepted by Fast.
    pub sent_bytes: u64,
    /// Sum of per-call `SendTransaction` latencies (micros).
    pub send_us: u64,
    /// Time spent in the export hook (micros).
    pub hook_us: u64,
    /// Bytes copied out of packet buffers by the export hook.
    pub copy_bytes: u64,
}

impl CircularExportMetrics {
    /// All counters at zero.
    pub open spec fn zero() -> Self {
        CircularExportMetrics {
            received_transactions: 0,
            enqueued_transactions: 0,
            dropped_batches: 0,
            dropped_transactions: 0,
            dropped_no_permit: 0,
            dropped_timeout: 0,
            sent_ok: 0,
            sent_err: 0,
            sent_bytes: 0,
            send_us: 0,
            hook_us: 0,
            copy_bytes: 0,
        }
    }

    /// These counters with those of `other` added.
    pub open spec fn plus(self, other: Self) -> Self {
        CircularExportMetrics {
            received_transactions: bump(self.received_transactions, other.received_transactions as nat),
            enqueued_transactions: bump(self.enqueued_transactions, other.enqueued_transactions as nat),
            dropped_batches: bump(self.dropped_batches, other.dropped_batches as nat),
            dropped_transactions: bump(self.dropped_transactions, other.dropped_transactions as nat),
            dropped_no_permit: bump(self.dropped_no_permit, other.dropped_no_permit as nat),
            dropped_timeout: bump(self.dropped_timeout, other.dropped_timeout as nat),
            sent_ok: bump(self.sent_ok, other.sent_ok as nat),
            sent_err: bump(self.sent_err, other.sent_err as nat),
            sent_bytes: bump(self.sent_bytes, other.sent_bytes as nat),
            send_us: bump(self.send_us, other.send_us as nat),
            hook_us: bump(self.hook_us, other.hook_us as nat),
            copy_bytes: bump(self.copy_bytes, other.copy_bytes as nat),
        }
    }

    /// One batch of `count` transactions went into the export queue.
    pub open spec fn enqueued(self, count: u64) -> Self {
        CircularExportMetrics {
            enqueued_transactions: bump(self.enqueued_transactions, count as nat),
            ..self
        }
    }

    /// One batch of `count` transactions was turned away by the export queue.
    pub open spec fn dropped(self, count: u64) -> Self {
        CircularExportMetrics {
            dropped_batches: bump(self.dropped_batches, 1),
            dropped_transactions: bump(self.dropped_transactions, count as nat),
            ..self
        }
    }

    /// The hook ran for `hook_us` micros and copied `copy_bytes` bytes.
    pub open spec fn hooked(self, hook_us: u64, copy_bytes: u64) -> Self {
        CircularExportMetrics {
            hook_us: bump(self.hook_us, hook_us as nat),
            copy_bytes: bump(self.copy_bytes, copy_bytes as nat),
            ..self
        }
    }

    /// The fields of a report: every counter in this order, then the three
    /// gauges.
    pub open spec fn report_fields(
        self,
        queue_depth: usize,
        queue_capacity: usize,
        in_flight: usize,
    ) -> Seq<(Seq<char>, i64)> {
        seq![
            ("received_transactions"@, signed_reading(self.received_transactions)),
            ("enqueued_transactions"@, signed_reading(self.enqueued_transactions)),
            ("dropped_batches"@, signed_reading(self.dropped_batches)),
            ("dropped_transactions"@, signed_reading(self.dropped_transactions)),
            ("dropped_no_permit"@, signed_reading(self.dropped_no_permit)),
            ("dropped_timeout"@, signed_reading(self.dropped_timeout)),
            ("sent_ok"@, signed_reading(self.sent_ok)),
            ("sent_err"@, signed_reading(self.sent_err)),
            ("sent_bytes"@, signed_reading(self.sent_bytes)),
            ("send_us"@, signed_reading(self.send_us)),
            ("hook_us"@, signed_reading(self.hook_us)),
            ("copy_bytes"@, signed_reading(self.copy_bytes)),
            ("queue_depth"@, signed_reading(queue_depth as u64)),
            ("queue_capacity"@, signed_reading(queue_capacity as u64)),
            ("in_flight"@, signed_reading(in_flight as u64)),
        ]
    }

    /// Reports the counters and resets them: the fields of one
    /// [`MEASUREMENT`] datapoint.
    pub fn report(
        &mut self,
        queue_depth: usize,
        queue_capacity: usize,
        in_flight: usize,
    ) -> (fields: Vec<(&'static str, i64)>)
        ensures
            field_views(fields@) == old(self).report_fields(
                queue_depth,
                queue_capacity,
                in_flight,
            ),
            *final(self) == CircularExportMetrics::zero(),
    {
        let counters = self.take();
        let fields: Vec<(&'static str, i64)> = vec![
            ("received_transactions", read_signed(counters.received_transactions)),
            ("enqueued_transactions", read_signed(counters.enqueued_transactions)),
            ("dropped_batches", read_signed(counters.dropped_batches)),
            ("dropped_transactions", read_signed(counters.dropped_transactions)),
            ("dropped_no_permit", read_signed(counters.dropped_no_permit)),
            ("dropped_timeout", read_signed(counters.dropped_timeout)),
            ("sent_ok", read_signed(counters.sent_ok)),
            ("sent_err", read_signed(counters.sent_err)),
            ("sent_bytes", read_signed(counters.sent_bytes)),
            ("send_us", read_signed(counters.send_us)),
            ("hook_us", read_signed(counters.hook_us)),
            ("copy_bytes", read_signed(counters.copy_bytes)),
            ("queue_depth", read_signed(queue_depth as u64)),
            ("queue_capacity", read_signed(queue_capacity as u64)),
            ("in_flight", read_signed(in_flight as u64)),
        ];
        assert(field_views(fields@) =~= old(self).report_fields(
            queue_depth,
            queue_capacity,
            in_flight,
        ));
        fields
    }

    /// Hands the counters out and resets them.
    pub fn take(&mut self) -> (counters: CircularExportMetrics)
        ensures
            counters == *old(self),
            *final(self) == CircularExportMetrics::zero(),
    {
        let counters = *self;
        *self = CircularExportMetrics::default();
        counters
    }

    /// Adds the counters of another part of the pipeline to these.
    pub fn absorb(&mut self, other: CircularExportMetrics)
        ensures
            *final(self) == old(self).plus(other),
    {
        *self = CircularExportMetrics {
            received_transactions: add_to_counter(self.received_transactions, other.received_transactions),
            enqueued_transactions: add_to_counter(self.enqueued_transactions, other.enqueued_transactions),
            dropped_batches: add_to_counter(self.dropped_batches, other.dropped_batches),
            dropped_transactions: add_to_counter(self.dropped_transactions, other.dropped_transactions),
            dropped_no_permit: add_to_counter(self.dropped_no_permit, other.dropped_no_permit),
            dropped_timeout: add_to_counter(self.dropped_timeout, other.dropped_timeout),
            sent_ok: add_to_counter(self.sent_ok, other.sent_ok),
            sent_err: add_to_counter(self.sent_err, other.sent_err),
            sent_bytes: add_to_counter(self.sent_bytes, other.sent_bytes),
            send_us: add_to_counter(self.send_us, other.send_us),
            hook_us: add_to_counter(self.hook_us, other.hook_us),
            copy_bytes: add_to_counter(self.copy_bytes, other.copy_bytes),
        };
    }

    /// Counts a batch of `count` transactions that the export queue accepted.
    pub fn record_enqueued(&mut self, count: u64)
        ensures
            *final(self) == old(self).enqueued(count),
    {
        self.enqueued_transactions = add_to_counter(self.enqueued_transactions, count);
    }

    /// Counts a batch of `count` transactions that the export queue turned
    /// away.
    pub fn record_dropped(&mut self, count: u64)
        ensures
            *final(self) == old(self).dropped(count),
    {
        self.dropped_batches = add_to_counter(self.dropped_batches, 1);
        self.dropped_transactions = add_to_counter(self.dropped_transactions, count);
    }

    /// Counts a batch of `count` transactions that was offered to the export
    /// queue, which accepted it or turned it away.
    pub fn record_offer(&mut self, accepted: bool, count: u64)
        ensures
            *final(self) == if accepted {
                old(self).enqueued(count)
            } else {
                old(self).dropped(count)
            },
    {
        if accepted {
            self.record_enqueued(count);
        } else {
            self.record_dropped(count);
        }
    }

    /// Counts one run of the export hook.
    pub fn record_hook(&mut self, hook_us: u64, copy_bytes: u64)
        ensures
            *final(self) == old(self).hooked(hook_us, copy_bytes),
    {
        self.hook_us = add_to_counter(self.hook_us, hook_us);
        self.copy_bytes = add_to_counter(self.copy_bytes, copy_bytes);
    }
}

impl Default for CircularExportMetrics {
    fn default() -> (counters: Self)
        ensures
            counters == CircularExportMetrics::zero(),
    {
        CircularExportMetrics {
            received_transactions: 0,
            enqueued_transactions: 0,
            dropped_batches: 0,
            dropped_transactions: 0,
            dropped_no_permit: 0,
            dropped_timeout: 0,
            sent_ok: 0,
            sent_err: 0,
            sent_bytes: 0,
            send_us: 0,
            hook_us: 0,
            copy_bytes: 0,
        }
    }
}

/// Adding an amount that was itself counted with wrap-around is adding it.
pub proof fn lemma_counted_in_full(counter: u64, amount: nat)
    ensures
        bump(counter, bump(0, amount) as nat) == bump(counter, amount),
{
}

/// What two counters add up to grows by `amount` when either of them does.
pub proof fn lemma_sum_grows(a: u64, b: nat, total: nat, amount: nat)
    requires
        bump(a, b) == bump(0, total),
    ensures
        bump(bump(a, amount), b) == bump(0, total + amount),
        bump(a, b + amount) == bump(0, total + amount),
        b <= u64::MAX ==> bump(a, bump(b as u64, amount) as nat) == bump(0, total + amount),
{
    let m: int = 0x1_0000_0000_0000_0000;
    assert((a + b) % m == total as int % m);
    assert((a + b + amount) % m == (total + amount) as int % m) by {
        vstd::arithmetic::div_mod::lemma_add_mod_noop(a + b, amount as int, m);
        vstd::arithmetic::div_mod::lemma_add_mod_noop(total as int, amount as int, m);
    }
    assert(((a + amount) % m + b) % m == (a + amount + b) % m) by {
        vstd::arithmetic::div_mod::lemma_add_mod_noop_right(b as int, a + amount, m);
    }
    assert((a + ((b + amount) as int) % m) % m == (a + (b + amount)) % m) by {
        vstd::arithmetic::div_mod::lemma_add_mod_noop_right(a as int, (b + amount) as int, m);
    }
}

/// The fields of a report with their names as character sequences.
pub open spec fn field_views(fields: Seq<(&'static str, i64)>) -> Seq<(Seq<char>, i64)> {
    fields.map_values(|field: (&'static str, i64)| (field.0@, field.1))
}

/// The parts of the pipeline add up to the same totals in whatever order they
/// are absorbed, and a part that counted nothing changes nothing.
#[verifier::rlimit(60)]
#[verifier::spinoff_prover]
pub proof fn law_totals_do_not_depend_on_order(
    a: CircularExportMetrics,
    b: CircularExportMetrics,
    c: CircularExportMetrics,
)
    ensures
        a.plus(b) == b.plus(a),
        a.plus(b).plus(c) == a.plus(b.plus(c)),
        a.plus(CircularExportMetrics::zero()) == a,
{
    lemma_counter_sums(a.received_transactions, b.received_transactions, c.received_transactions);
    lemma_counter_sums(a.enqueued_transactions, b.enqueued_transactions, c.enqueued_transactions);
    lemma_counter_sums(a.dropped_batches, b.dropped_batches, c.dropped_batches);
    lemma_counter_sums(a.dropped_transactions, b.dropped_transactions, c.dropped_transactions);
    lemma_counter_sums(a.dropped_no_permit, b.dropped_no_permit, c.dropped_no_permit);
    lemma_counter_sums(a.dropped_timeout, b.dropped_timeout, c.dropped_timeout);
    lemma_counter_sums(a.sent_ok, b.sent_ok, c.sent_ok);
    lemma_counter_sums(a.sent_err, b.sent_err, c.sent_err);
    lemma_counter_sums(a.sent_bytes, b.sent_bytes, c.sent_bytes);
    lemma_counter_sums(a.send_us, b.send_us, c.send_us);
    lemma_counter_sums(a.hook_us, b.hook_us, c.hook_us);
    lemma_counter_sums(a.copy_bytes, b.copy_bytes, c.copy_bytes);
}

/// Wrapping addition of counters is commutative and associative, with zero as
/// its unit.
proof fn lemma_counter_sums(a: u64, b: u64, c: u64)
    ensures
        bump(a, b as nat) == bump(b, a as nat),
        bump(bump(a, b as nat), c as nat) == bump(a, bump(b, c as nat) as nat),
        bump(a, 0) == a,
{
}

/// What is counted in a part is counted in the sum.
pub proof fn lemma_plus_counts(a: CircularExportMetrics, b: CircularExportMetrics, count: u64)
    ensures
        a.plus(b.enqueued(count)) == a.plus(b).enqueued(count),
        a.enqueued(count).plus(b) == a.plus(b).enqueued(count),
        a.plus(b.dropped(count)) == a.plus(b).dropped(count),
        a.dropped(count).plus(b) == a.plus(b).dropped(count),
{
    lemma_added_to_either(a.enqueued_transactions, b.enqueued_transactions, count);
    lemma_added_to_either(a.dropped_batches, b.dropped_batches, 1);
    lemma_added_to_either(a.dropped_transactions, b.dropped_transactions, count);
}

/// What is added to a part of a sum is added to the sum.
proof fn lemma_added_to_either(a: u64, b: u64, amount: u64)
    ensures
        bump(a, bump(b, amount as nat) as nat) == bump(bump(a, b as nat), amount as nat),
        bump(bump(a, amount as nat), b as nat) == bump(bump(a, b as nat), amount as nat),
{
    let m: int = 0x1_0000_0000_0000_0000;
    vstd::arithmetic::div_mod::lemma_add_mod_noop_right(a as int, b + amount, m);
    vstd::arithmetic::div_mod::lemma_add_mod_noop_right(amount as int, a + b, m);
    vstd::arithmetic::div_mod::lemma_add_mod_noop_right(b as int, a + amount, m);
}

/// Different counters have different readings, and counters below 2^63 read
/// as themselves.
pub proof fn law_readings_are_faithful(a: u64, b: u64)
    ensures
        signed_reading(a) == signed_reading(b) ==> a == b,
        a <= i64::MAX ==> signed_reading(a) == a,
{
}

/// Two numbers that a counter cannot tell apart: they differ by a multiple of
/// what it wraps around at.
pub open spec fn alike(a: int, b: int) -> bool {
    (a - b) % 0x1_0000_0000_0000_0000 == 0
}

/// A counter counts: it is the true sum as long as that fits, and wraps around
/// past it.
pub proof fn law_counters_count(counter: u64, amount: nat)
    ensures
        counter + amount <= u64::MAX ==> bump(counter, amount) == counter + amount,
        alike(bump(counter, amount) as int, counter + amount),
{
}

/// Parts add up counter by counter.
pub proof fn law_parts_add_up(a: CircularExportMetrics, b: CircularExportMetrics)
    ensures
        ({
            let sum = a.plus(b);
            &&& sum.received_transactions == bump(
                a.received_transactions,
                b.received_transactions as nat,
            )
            &&& sum.enqueued_transactions == bump(
                a.enqueued_transactions,
                b.enqueued_transactions as nat,
            )
            &&& sum.dropped_batches == bump(a.dropped_batches, b.dropped_batches as nat)
            &&& sum.dropped_transactions == bump(
                a.dropped_transactions,
                b.dropped_transactions as nat,
            )
            &&& sum.dropped_no_permit == bump(a.dropped_no_permit, b.dropped_no_permit as nat)
            &&& sum.dropped_timeout == bump(a.dropped_timeout, b.dropped_timeout as nat)
            &&& sum.sent_ok == bump(a.sent_ok, b.sent_ok as nat)
            &&& sum.sent_err == bump(a.sent_err, b.sent_err as nat)
            &&& sum.sent_bytes == bump(a.sent_bytes, b.sent_bytes as nat)
            &&& sum.send_us == bump(a.send_us, b.send_us as nat)
            &&& sum.hook_us == bump(a.hook_us, b.hook_us as nat)
            &&& sum.copy_bytes == bump(a.copy_bytes, b.copy_bytes as nat)
        }),
{
}

/// Each thing that is counted moves its own counters and no other: an accepted
/// batch its transactions, a dropped one itself and its transactions, and a run
/// of the hook its time and bytes.
pub proof fn law_counters_are_separate(
    before: CircularExportMetrics,
    count: u64,
    hook_us: u64,
    copy_bytes: u64,
)
    ensures
        ({
            let after = before.enqueued(count);
            &&& after.enqueued_transactions == bump(before.enqueued_transactions, count as nat)
            &&& (CircularExportMetrics {
                enqueued_transactions: before.enqueued_transactions,
                ..after
            }) == before
        }),
        ({
            let after = before.dropped(count);
            &&& after.dropped_batches == bump(before.dropped_batches, 1)
            &&& after.dropped_transactions == bump(before.dropped_transactions, count as nat)
            &&& (CircularExportMetrics {
                dropped_batches: before.dropped_batches,
                dropped_transactions: before.dropped_transactions,
                ..after
            }) == before
        }),
        ({
            let after = before.hooked(hook_us, copy_bytes);
            &&& after.hook_us == bump(before.hook_us, hook_us as nat)
            &&& after.copy_bytes == bump(before.copy_bytes, copy_bytes as nat)
            &&& (CircularExportMetrics {
                hook_us: before.hook_us,
                copy_bytes: before.copy_bytes,
                ..after
            }) == before
        }),
{
}

/// A reading is the counter itself while it fits a signed field, and the same
/// bits otherwise.
pub proof fn law_readings_keep_the_bits(value: u64)
    ensures
        alike(signed_reading(value) as int, value as int),
{
}

/// A report names every counter and gauge once, each with its own reading.
pub proof fn law_reports_show_every_counter(
    metrics: CircularExportMetrics,
    queue_depth: usize,
    queue_capacity: usize,
    in_flight: usize,
)
    ensures
        ({
            let fields = metrics.report_fields(queue_depth, queue_capacity, in_flight);
            &&& fields.len() == 15
            &&& fields[0] == ("received_transactions"@, signed_reading(
                metrics.received_transactions,
            ))
            &&& fields[1] == ("enqueued_transactions"@, signed_reading(
                metrics.enqueued_transactions,
            ))
            &&& fields[2] == ("dropped_batches"@, signed_reading(metrics.dropped_batches))
            &&& fields[3] == ("dropped_transactions"@, signed_reading(
                metrics.dropped_transactions,
            ))
            &&& fields[4] == ("dropped_no_permit"@, signed_reading(metrics.dropped_no_permit))
            &&& fields[5] == ("dropped_timeout"@, signed_reading(metrics.dropped_timeout))
            &&& fields[6] == ("sent_ok"@, signed_reading(metrics.sent_ok))
            &&& fields[7] == ("sent_err"@, signed_reading(metrics.sent_err))
            &&& fields[8] == ("sent_bytes"@, signed_reading(metrics.sent_bytes))
            &&& fields[9] == ("send_us"@, signed_reading(metrics.send_us))
            &&& fields[10] == ("hook_us"@, signed_reading(metrics.hook_us))
            &&& fields[11] == ("copy_bytes"@, signed_reading(metrics.copy_bytes))
            &&& fields[12] == ("queue_depth"@, signed_reading(queue_depth as u64))
            &&& fields[13] == ("queue_capacity"@, signed_reading(queue_capacity as u64))
            &&& fields[14] == ("in_flight"@, signed_reading(in_flight as u64))
        }),
{
}

/// The fields of a report keep their order, names and values.
pub proof fn law_field_views_keep_everything(fields: Seq<(&'static str, i64)>, i: int)
    requires
        0 <= i < fields.len(),
    ensures
        field_views(fields).len() == fields.len(),
        field_views(fields)[i].0 == fields[i].0@,
        field_views(fields)[i].1 == fields[i].1,
{
}

} // verus!
