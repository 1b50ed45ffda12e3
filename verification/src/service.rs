//! The exporter: takes items off the queue, submits their transactions within
//! the in-flight budget, accounts for every call, and winds down.
//!
//! The exporter decides; whoever drives it performs the calls, keeps the
//! timers and hands the events back.
use vstd::prelude::*;
use std::sync::Arc;
use std::time::Duration;
use tokio::sync::Semaphore;
use crate::api_key::ApiKey;
use crate::clock::whole_micros;
use crate::config::CircularExportConfig;
use crate::event::ExportItem;
use crate::in_flight::{count_permits, new_semaphore, return_permit, take_permit};
use crate::metrics::{CircularExportMetrics, add_to_counter};
use crate::proto::SendTransactionRequest;
use crate::shared::SharedMetrics;

verus! {

/// A call to be made: the request, the key it carries and how long it may
/// take.
pub struct Submission {
    pub request: SendTransactionRequest,
    /// Sent as the `x-api-key` metadata.
    pub api_key: ApiKey,
    pub request_timeout: Duration,
}

/// A call to be made, as a mathematical value.
#[verifier::ext_equal]
pub struct SubmissionModel {
    pub request: crate::proto::RequestModel,
    pub api_key: Seq<char>,
    pub request_timeout: Duration,
}

impl View for Submission {
    type V = SubmissionModel;

    open spec fn view(&self) -> SubmissionModel {
        SubmissionModel {
            request: self.request@,
            api_key: self.api_key@,
            request_timeout: self.request_timeout,
        }
    }
}

/// The contents of a sequence of calls.
pub open spec fn submission_views(submissions: Seq<Submission>) -> Seq<SubmissionModel> {
    submissions.map_values(|submission: Submission| submission@)
}

/// How a call ended.
#[derive(Clone, Copy, Debug, PartialEq, Eq, Structural)]
pub enum CallOutcome {
    /// Fast accepted the transaction.
    Accepted,
    /// Fast answered with an error status.
    Rejected,
    /// No answer came within the request timeout.
    TimedOut,
}

/// The exporter's accounts, as a mathematical value.
#[verifier::ext_equal]
pub struct SubmitModel {
    /// The permits that are left.
    pub free: usize,
    /// The in-flight budget.
    pub max_in_flight: usize,
    /// What has been counted and not been reported yet.
    pub metrics: CircularExportMetrics,
    /// The counters that are shared with the senders.
    pub shared: Arc<SharedMetrics>,
    pub api_key: Seq<char>,
    pub memo: Option<Seq<char>>,
    pub cashback_address: Option<Seq<char>>,
    pub request_timeout: Duration,
}

impl SubmitModel {
    /// The budget is one that a semaphore can hold, and is not exceeded.
    pub open spec fn wf(self) -> bool {
        self.free <= self.max_in_flight <= crate::in_flight::max_permits()
    }

    /// The calls under way.
    pub open spec fn in_flight(self) -> int {
        self.max_in_flight - self.free
    }

    /// The call that submits `transaction`: its bytes unchanged, never to be
    /// forwarded, with the configured memo, address and key.
    pub open spec fn submission(self, transaction: Seq<u8>) -> SubmissionModel {
        SubmissionModel {
            request: crate::proto::RequestModel {
                transaction,
                memo: self.memo,
                forward: Some(false),
                cashback_address: self.cashback_address,
            },
            api_key: self.api_key,
            request_timeout: self.request_timeout,
        }
    }

    /// How many of `count` transactions submitted in a row find a permit.
    pub open spec fn admitted(self, count: nat) -> nat {
        if count <= self.free {
            count
        } else {
            self.free as nat
        }
    }

    /// The accounts after `count` transactions were submitted in a row: each is
    /// counted as received, and those that find no permit as dropped.
    pub open spec fn submitting(self, count: nat) -> Self {
        let admitted = self.admitted(count);
        SubmitModel {
            free: (self.free - admitted) as usize,
            metrics: CircularExportMetrics {
                received_transactions: crate::metrics::bump(
                    self.metrics.received_transactions,
                    count,
                ),
                dropped_no_permit: crate::metrics::bump(
                    self.metrics.dropped_no_permit,
                    (count - admitted) as nat,
                ),
                ..self.metrics
            },
            ..self
        }
    }

    /// The calls made when `transactions` are submitted in a row: the first
    /// ones, as far as the permits go.
    pub open spec fn submissions(self, transactions: Seq<Seq<u8>>) -> Seq<SubmissionModel> {
        transactions.take(self.admitted(transactions.len()) as int).map_values(
            |transaction: Seq<u8>| self.submission(transaction),
        )
    }

    /// Shutdown waits no longer: the whole budget is free.
    pub open spec fn drained(self) -> bool {
        self.free >= self.max_in_flight
    }

    /// The accounts with the counters of another part of the pipeline added.
    pub open spec fn absorbing(self, counters: CircularExportMetrics) -> Self {
        SubmitModel { metrics: self.metrics.plus(counters), ..self }
    }

    /// The accounts after the counters were reported.
    pub open spec fn reporting(self) -> Self {
        SubmitModel { metrics: CircularExportMetrics::zero(), ..self }
    }

    /// What is counted when `count` transactions are submitted in a row.
    pub open spec fn submit_counts(self, count: nat) -> CircularExportMetrics {
        CircularExportMetrics {
            received_transactions: crate::metrics::bump(0, count),
            dropped_no_permit: crate::metrics::bump(0, (count - self.admitted(count)) as nat),
            ..CircularExportMetrics::zero()
        }
    }

    /// What is counted when a call ends.
    pub open spec fn call_counts(
        outcome: CallOutcome,
        transaction_bytes: u64,
        elapsed: Duration,
    ) -> CircularExportMetrics {
        let timed = CircularExportMetrics {
            send_us: crate::clock::micros(elapsed),
            ..CircularExportMetrics::zero()
        };
        match outcome {
            CallOutcome::Accepted => CircularExportMetrics {
                sent_ok: 1,
                sent_bytes: transaction_bytes,
                ..timed
            },
            CallOutcome::Rejected => CircularExportMetrics { sent_err: 1, ..timed },
            CallOutcome::TimedOut => CircularExportMetrics { dropped_timeout: 1, ..timed },
        }
    }

    /// The accounts after a call ended: its permit is back, its latency is
    /// added, and it is counted by its outcome.
    pub open spec fn finishing(
        self,
        outcome: CallOutcome,
        transaction_bytes: u64,
        elapsed: Duration,
    ) -> Self {
        let timed = CircularExportMetrics {
            send_us: crate::metrics::bump(
                self.metrics.send_us,
                (crate::clock::duration_nanos(elapsed) / 1_000) as nat,
            ),
            ..self.metrics
        };
        SubmitModel {
            free: (self.free + 1) as usize,
            metrics: match outcome {
                CallOutcome::Accepted => CircularExportMetrics {
                    sent_ok: crate::metrics::bump(timed.sent_ok, 1),
                    sent_bytes: crate::metrics::bump(timed.sent_bytes, transaction_bytes as nat),
                    ..timed
                },
                CallOutcome::Rejected => CircularExportMetrics {
                    sent_err: crate::metrics::bump(timed.sent_err, 1),
                    ..timed
                },
                CallOutcome::TimedOut => CircularExportMetrics {
                    dropped_timeout: crate::metrics::bump(timed.dropped_timeout, 1),
                    ..timed
                },
            },
            ..self
        }
    }
}

/// Submitting transactions in a row is submitting them one by one.
proof fn lemma_one_more_submission(model: SubmitModel, transactions: Seq<Seq<u8>>, n: int)
    requires
        model.wf(),
        0 <= n < transactions.len(),
    ensures
        model.submitting(n as nat).submitting(1) == model.submitting((n + 1) as nat),
        model.submissions(transactions.take(n + 1)) == if model.submitting(n as nat).free > 0 {
            model.submissions(transactions.take(n)).push(model.submission(transactions[n]))
        } else {
            model.submissions(transactions.take(n))
        },
{
    let first = model.submitting(n as nat);
    crate::metrics::law_bumps_compose(model.metrics.received_transactions, n as nat, 1);
    let dropped = (n - model.admitted(n as nat)) as nat;
    crate::metrics::law_bumps_compose(model.metrics.dropped_no_permit, dropped, 0);
    crate::metrics::law_bumps_compose(model.metrics.dropped_no_permit, dropped, 1);
    assert(model.submissions(transactions.take(n + 1)) =~= if first.free > 0 {
        model.submissions(transactions.take(n)).push(model.submission(transactions[n]))
    } else {
        model.submissions(transactions.take(n))
    });
}

/// What is needed to submit transactions: the in-flight budget, the counters,
/// and what every request carries.
pub struct SubmitContext {
    in_flight: Semaphore,
    max_in_flight: usize,
    metrics: CircularExportMetrics,
    shared: Arc<SharedMetrics>,
    api_key: ApiKey,
    memo: Option<String>,
    cashback_address: Option<String>,
    request_timeout: Duration,
}

impl View for SubmitContext {
    type V = SubmitModel;

    closed spec fn view(&self) -> SubmitModel {
        SubmitModel {
            free: crate::in_flight::permits_left(self.in_flight),
            max_in_flight: self.max_in_flight,
            metrics: self.metrics,
            shared: self.shared,
            api_key: self.api_key@,
            memo: crate::config::text_of(self.memo),
            cashback_address: crate::config::text_of(self.cashback_address),
            request_timeout: self.request_timeout,
        }
    }
}

impl SubmitContext {
    /// A context with the whole budget free and nothing counted, which adds to
    /// the `shared` counters.
    pub fn new(
        config: &CircularExportConfig,
        api_key: ApiKey,
        shared: Arc<SharedMetrics>,
    ) -> (context: SubmitContext)
        requires
            config.max_in_flight <= crate::in_flight::max_permits(),
        ensures
            context@.wf(),
            context@ == (SubmitModel {
                free: config.max_in_flight,
                max_in_flight: config.max_in_flight,
                metrics: CircularExportMetrics::zero(),
                shared,
                api_key: api_key@,
                memo: crate::config::text_of(config.memo),
                cashback_address: crate::config::text_of(config.cashback_address),
                request_timeout: config.request_timeout,
            }),
    {
        SubmitContext {
            in_flight: new_semaphore(config.max_in_flight),
            max_in_flight: config.max_in_flight,
            metrics: CircularExportMetrics::default(),
            shared,
            api_key,
            memo: config.memo.clone(),
            cashback_address: config.cashback_address.clone(),
            request_timeout: config.request_timeout,
        }
    }

    /// Submits one transaction. Never waits: the backpressure valve is the
    /// in-flight budget, and a saturated exporter drops rather than queues.
    pub fn submit(&mut self, transaction: Vec<u8>) -> (submission: Option<Submission>)
        requires
            old(self)@.wf(),
        ensures
            final(self)@.wf(),
            final(self)@ == old(self)@.submitting(1),
            submission is Some <==> old(self)@.free > 0,
            submission matches Some(submission) ==> submission@ == old(self)@.submission(
                transaction@,
            ),
            old(self)@.shared.takes_up(old(self)@.submit_counts(1)),
    {
        let submission = self.take_on(transaction);
        let dropped: u64 = if submission.is_some() {
            0
        } else {
            1
        };
        self.publish_submitted(1, dropped);
        submission
    }

    /// Adds to the shared counters that `count` transactions were submitted, of
    /// which `dropped` found no permit.
    fn publish_submitted(&self, count: u64, dropped: u64)
        ensures
            self@.shared.takes_up(
                CircularExportMetrics {
                    received_transactions: count,
                    dropped_no_permit: dropped,
                    ..CircularExportMetrics::zero()
                },
            ),
    {
        let mut counted = CircularExportMetrics::default();
        counted.received_transactions = count;
        counted.dropped_no_permit = dropped;
        self.shared.add_counts(counted);
    }

    /// Takes one transaction on if there is a permit left, and counts it.
    fn take_on(&mut self, transaction: Vec<u8>) -> (submission: Option<Submission>)
        requires
            old(self)@.wf(),
        ensures
            final(self)@.wf(),
            final(self)@ == old(self)@.submitting(1),
            submission is Some <==> old(self)@.free > 0,
            submission matches Some(submission) ==> submission@ == old(self)@.submission(
                transaction@,
            ),
    {
        self.metrics.received_transactions = add_to_counter(self.metrics.received_transactions, 1);
        if !take_permit(&mut self.in_flight) {
            self.metrics.dropped_no_permit = add_to_counter(self.metrics.dropped_no_permit, 1);
            return None;
        }
        Some(
            Submission {
                request: SendTransactionRequest {
                    transaction,
                    memo: self.memo.clone(),
                    forward: Some(false),
                    cashback_address: self.cashback_address.clone(),
                },
                api_key: self.api_key.clone(),
                request_timeout: self.request_timeout,
            },
        )
    }

    /// Submits the transactions of a queue item, in order. No call ends while
    /// this goes on, so the first ones find the permits.
    pub fn submit_item(&mut self, item: ExportItem) -> (submissions: Vec<Submission>)
        requires
            old(self)@.wf(),
        ensures
            final(self)@.wf(),
            final(self)@ == old(self)@.submitting(item.transactions().len()),
            submission_views(submissions@) == old(self)@.submissions(item.transactions()),
            old(self)@.shared.takes_up(old(self)@.submit_counts(item.transactions().len())),
    {
        let transactions = item.into_transactions();
        let ghost views = crate::packets::byte_views(transactions@);
        let ghost vectors = transactions@;
        let count: usize = transactions.len();
        let mut submissions: Vec<Submission> = Vec::new();
        for transaction in iter: transactions
            invariant
                iter.seq() == vectors,
                views == crate::packets::byte_views(vectors),
                old(self)@.wf(),
                self@.wf(),
                self@ == old(self)@.submitting(iter.index() as nat),
                submission_views(submissions@) == old(self)@.submissions(
                    views.take(iter.index()),
                ),
        {
            let ghost n = iter.index();
            let ghost before = self@;
            let ghost sent = submissions@;
            if let Some(submission) = self.take_on(transaction) {
                submissions.push(submission);
            }
            proof {
                assert(views[n] == transaction@);
                lemma_one_more_submission(old(self)@, views, n);
                assert(submission_views(submissions@) =~= old(self)@.submissions(
                    views.take(n + 1),
                ));
            }
        }
        assert(views.take(views.len() as int) =~= views);
        assert(submission_views(submissions@).len() == submissions@.len());
        assert(submissions@.len() == old(self)@.admitted(count as nat));
        self.publish_submitted(count as u64, (count - submissions.len()) as u64);
        submissions
    }

    /// Accounts for a call that ended, after `elapsed`, on a transaction of
    /// `transaction_bytes` bytes, and frees its permit.
    pub fn finish(&mut self, outcome: CallOutcome, transaction_bytes: u64, elapsed: Duration)
        requires
            old(self)@.wf(),
            old(self)@.in_flight() > 0,
        ensures
            final(self)@.wf(),
            final(self)@ == old(self)@.finishing(outcome, transaction_bytes, elapsed),
            old(self)@.shared.takes_up(
                SubmitModel::call_counts(outcome, transaction_bytes, elapsed),
            ),
    {
        return_permit(&mut self.in_flight);
        let us: u64 = whole_micros(elapsed);
        proof {
            crate::metrics::lemma_counted_in_full(
                self.metrics.send_us,
                (crate::clock::duration_nanos(elapsed) / 1_000) as nat,
            );
        }
        let mut counted = CircularExportMetrics::default();
        counted.send_us = us;
        self.metrics.send_us = add_to_counter(self.metrics.send_us, us);
        match outcome {
            CallOutcome::Accepted => {
                counted.sent_ok = 1;
                counted.sent_bytes = transaction_bytes;
                self.metrics.sent_ok = add_to_counter(self.metrics.sent_ok, 1);
                self.metrics.sent_bytes = add_to_counter(
                    self.metrics.sent_bytes,
                    transaction_bytes,
                );
            },
            CallOutcome::Rejected => {
                counted.sent_err = 1;
                self.metrics.sent_err = add_to_counter(self.metrics.sent_err, 1);
            },
            CallOutcome::TimedOut => {
                counted.dropped_timeout = 1;
                self.metrics.dropped_timeout = add_to_counter(self.metrics.dropped_timeout, 1);
            },
        }
        self.shared.add_counts(counted);
    }

    /// The calls under way.
    pub fn in_flight(&self) -> (calls: usize)
        requires
            self@.wf(),
        ensures
            calls == self@.in_flight(),
    {
        self.max_in_flight.saturating_sub(count_permits(&self.in_flight))
    }

    /// Whether the whole budget is free again.
    pub fn drained(&self) -> (drained: bool)
        ensures
            drained == self@.drained(),
    {
        count_permits(&self.in_flight) >= self.max_in_flight
    }

    /// What has been counted and not been reported yet.
    pub fn metrics(&self) -> (metrics: CircularExportMetrics)
        ensures
            metrics == self@.metrics,
    {
        self.metrics
    }

    /// Adds counters of another part of the pipeline.
    pub fn absorb(&mut self, counters: CircularExportMetrics)
        ensures
            final(self)@ == old(self)@.absorbing(counters),
    {
        self.metrics.absorb(counters);
    }

    /// Reports the counters and resets them, together with those of the
    /// submissions in the shared set.
    pub fn report(&mut self, queue_depth: usize, queue_capacity: usize) -> (fields: Vec<
        (&'static str, i64),
    >)
        requires
            old(self)@.wf(),
        ensures
            final(self)@ == old(self)@.reporting(),
            crate::metrics::field_views(fields@) == old(self)@.metrics.report_fields(
                queue_depth,
                queue_capacity,
                old(self)@.in_flight() as usize,
            ),
            old(self)@.shared.clears_submissions(),
    {
        let live: usize = self.in_flight();
        self.shared.clear_submissions();
        self.metrics.report(queue_depth, queue_capacity, live)
    }
}

/// A call is its request, key and timeout, and a row of calls is each of them.
pub proof fn law_calls_are_their_fields(submissions: Seq<Submission>, i: int)
    requires
        0 <= i < submissions.len(),
    ensures
        submission_views(submissions).len() == submissions.len(),
        submission_views(submissions)[i].request == submissions[i].request@,
        submission_views(submissions)[i].api_key == submissions[i].api_key@,
        submission_views(submissions)[i].request_timeout == submissions[i].request_timeout,
{
}

/// Every call carries the transaction it is made for, unchanged, with the memo,
/// address, key and timeout of the accounts, each whatever the others are, and
/// asks for no forwarding.
pub proof fn law_calls_carry_what_is_configured(
    accounts: SubmitModel,
    transactions: Seq<Seq<u8>>,
    i: int,
)
    requires
        0 <= i < accounts.submissions(transactions).len(),
    ensures
        ({
            let call = accounts.submissions(transactions)[i];
            &&& call.request.transaction == transactions[i]
            &&& call.request.memo == accounts.memo
            &&& call.request.cashback_address == accounts.cashback_address
            &&& call.request.forward == Some(false)
            &&& call.api_key == accounts.api_key
            &&& call.request_timeout == accounts.request_timeout
        }),
{
}

/// One transaction that is submitted alone becomes the call that it becomes in
/// a row: it takes a permit if there is one, and is counted as dropped if not.
pub proof fn law_one_is_a_row_of_one(accounts: SubmitModel, transaction: Seq<u8>)
    requires
        accounts.wf(),
    ensures
        accounts.free > 0 ==> accounts.submissions(seq![transaction]) == seq![
            accounts.submission(transaction),
        ],
        accounts.free == 0 ==> accounts.submissions(seq![transaction]).len() == 0,
        accounts.submission(transaction).request.transaction == transaction,
        accounts.submission(transaction).request.memo == accounts.memo,
        accounts.submission(transaction).request.cashback_address == accounts.cashback_address,
        accounts.submission(transaction).request.forward == Some(false),
        accounts.submission(transaction).api_key == accounts.api_key,
        accounts.submission(transaction).request_timeout == accounts.request_timeout,
{
    let row = seq![transaction];
    if accounts.free > 0 {
        assert(accounts.submissions(row) =~= seq![accounts.submission(transaction)]);
    }
}

/// Submitting moves permits and two counters: a permit for each call, received
/// for each transaction, and dropped for each one without a permit.
pub proof fn law_submitting_moves_two_counters(accounts: SubmitModel, count: nat)
    requires
        accounts.wf(),
    ensures
        ({
            let after = accounts.submitting(count);
            let calls = if count <= accounts.free {
                count as int
            } else {
                accounts.free as int
            };
            &&& after.free == accounts.free - calls
            &&& after.metrics.received_transactions == crate::metrics::bump(
                accounts.metrics.received_transactions,
                count,
            )
            &&& after.metrics.dropped_no_permit == crate::metrics::bump(
                accounts.metrics.dropped_no_permit,
                (count - calls) as nat,
            )
            &&& (SubmitModel {
                free: accounts.free,
                metrics: CircularExportMetrics {
                    received_transactions: accounts.metrics.received_transactions,
                    dropped_no_permit: accounts.metrics.dropped_no_permit,
                    ..after.metrics
                },
                ..after
            }) == accounts
        }),
{
}

/// A call that ends gives its permit back and is counted once, by its outcome:
/// accepted with its bytes, rejected, or timed out. Its time is added whatever
/// the outcome.
pub proof fn law_calls_end_in_one_of_three_ways(
    accounts: SubmitModel,
    outcome: CallOutcome,
    transaction_bytes: u64,
    elapsed: Duration,
)
    requires
        accounts.wf(),
        accounts.in_flight() > 0,
    ensures
        ({
            let before = accounts.metrics;
            let after = accounts.finishing(outcome, transaction_bytes, elapsed);
            let ok: nat = if outcome == CallOutcome::Accepted {
                1
            } else {
                0
            };
            let err: nat = if outcome == CallOutcome::Rejected {
                1
            } else {
                0
            };
            let late: nat = if outcome == CallOutcome::TimedOut {
                1
            } else {
                0
            };
            &&& after.free == accounts.free + 1
            &&& after.metrics.sent_ok == crate::metrics::bump(before.sent_ok, ok)
            &&& after.metrics.sent_err == crate::metrics::bump(before.sent_err, err)
            &&& after.metrics.dropped_timeout == crate::metrics::bump(before.dropped_timeout, late)
            &&& after.metrics.sent_bytes == crate::metrics::bump(
                before.sent_bytes,
                ok * transaction_bytes as nat,
            )
            &&& after.metrics.send_us == crate::metrics::bump(
                before.send_us,
                (crate::clock::duration_nanos(elapsed) / 1_000) as nat,
            )
            &&& (SubmitModel {
                free: accounts.free,
                metrics: CircularExportMetrics {
                    sent_ok: before.sent_ok,
                    sent_err: before.sent_err,
                    dropped_timeout: before.dropped_timeout,
                    sent_bytes: before.sent_bytes,
                    send_us: before.send_us,
                    ..after.metrics
                },
                ..after
            }) == accounts
        }),
{
    lemma_nothing_added(accounts.metrics.sent_ok);
    lemma_nothing_added(accounts.metrics.sent_err);
    lemma_nothing_added(accounts.metrics.dropped_timeout);
    lemma_nothing_added(accounts.metrics.sent_bytes);
}

/// Adding nothing changes nothing.
proof fn lemma_nothing_added(counter: u64)
    ensures
        crate::metrics::bump(counter, 0) == counter,
{
}

/// What another part of the pipeline counted is added counter by counter, and
/// nothing else changes.
pub proof fn law_parts_are_absorbed_whole(accounts: SubmitModel, counters: CircularExportMetrics)
    ensures
        ({
            let before = accounts.metrics;
            let after = accounts.absorbing(counters);
            &&& after.metrics.received_transactions == crate::metrics::bump(
                before.received_transactions,
                counters.received_transactions as nat,
            )
            &&& after.metrics.enqueued_transactions == crate::metrics::bump(
                before.enqueued_transactions,
                counters.enqueued_transactions as nat,
            )
            &&& after.metrics.dropped_batches == crate::metrics::bump(
                before.dropped_batches,
                counters.dropped_batches as nat,
            )
            &&& after.metrics.dropped_transactions == crate::metrics::bump(
                before.dropped_transactions,
                counters.dropped_transactions as nat,
            )
            &&& after.metrics.dropped_no_permit == crate::metrics::bump(
                before.dropped_no_permit,
                counters.dropped_no_permit as nat,
            )
            &&& after.metrics.dropped_timeout == crate::metrics::bump(
                before.dropped_timeout,
                counters.dropped_timeout as nat,
            )
            &&& after.metrics.sent_ok == crate::metrics::bump(
                before.sent_ok,
                counters.sent_ok as nat,
            )
            &&& after.metrics.sent_err == crate::metrics::bump(
                before.sent_err,
                counters.sent_err as nat,
            )
            &&& after.metrics.sent_bytes == crate::metrics::bump(
                before.sent_bytes,
                counters.sent_bytes as nat,
            )
            &&& after.metrics.send_us == crate::metrics::bump(
                before.send_us,
                counters.send_us as nat,
            )
            &&& after.metrics.hook_us == crate::metrics::bump(
                before.hook_us,
                counters.hook_us as nat,
            )
            &&& after.metrics.copy_bytes == crate::metrics::bump(
                before.copy_bytes,
                counters.copy_bytes as nat,
            )
            &&& (SubmitModel { metrics: before, ..after }) == accounts
        }),
{
}

/// After a report every counter is at zero, and nothing else changed.
pub proof fn law_reports_reset_the_counters(accounts: SubmitModel)
    ensures
        ({
            let after = accounts.reporting();
            &&& after.metrics.received_transactions == 0
            &&& after.metrics.enqueued_transactions == 0
            &&& after.metrics.dropped_batches == 0
            &&& after.metrics.dropped_transactions == 0
            &&& after.metrics.dropped_no_permit == 0
            &&& after.metrics.dropped_timeout == 0
            &&& after.metrics.sent_ok == 0
            &&& after.metrics.sent_err == 0
            &&& after.metrics.sent_bytes == 0
            &&& after.metrics.send_us == 0
            &&& after.metrics.hook_us == 0
            &&& after.metrics.copy_bytes == 0
            &&& (SubmitModel { metrics: accounts.metrics, ..after }) == accounts
        }),
{
}

/// What is added to the shared counters is what the accounts grow by.
#[verifier::spinoff_prover]
pub proof fn law_the_shared_counters_are_told_the_same(
    accounts: SubmitModel,
    count: nat,
    outcome: CallOutcome,
    transaction_bytes: u64,
    elapsed: Duration,
)
    requires
        accounts.wf(),
    ensures
        accounts.submitting(count).metrics == accounts.metrics.plus(accounts.submit_counts(count)),
        accounts.finishing(outcome, transaction_bytes, elapsed).metrics == accounts.metrics.plus(
            SubmitModel::call_counts(outcome, transaction_bytes, elapsed),
        ),
{
    let m = accounts.metrics;
    let us = (crate::clock::duration_nanos(elapsed) / 1_000) as nat;
    crate::metrics::lemma_counted_in_full(m.received_transactions, count);
    crate::metrics::lemma_counted_in_full(
        m.dropped_no_permit,
        (count - accounts.admitted(count)) as nat,
    );
    crate::metrics::lemma_counted_in_full(m.send_us, us);
    assert(crate::metrics::bump(0, us) == crate::clock::micros(elapsed));
    lemma_nothing_added(m.received_transactions);
    lemma_nothing_added(m.enqueued_transactions);
    lemma_nothing_added(m.dropped_batches);
    lemma_nothing_added(m.dropped_transactions);
    lemma_nothing_added(m.dropped_no_permit);
    lemma_nothing_added(m.dropped_timeout);
    lemma_nothing_added(m.sent_ok);
    lemma_nothing_added(m.sent_err);
    lemma_nothing_added(m.sent_bytes);
    lemma_nothing_added(m.send_us);
    lemma_nothing_added(m.hook_us);
    lemma_nothing_added(m.copy_bytes);
}

} // verus!
