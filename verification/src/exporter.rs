//! The life of the exporter, event by event.
use vstd::prelude::*;
use std::sync::Arc;
use std::time::Duration;
use crate::api_key::{ApiKey, ApiKeyError};
use crate::config::{ChannelPlan, CircularExportConfig};
use crate::event::ExportItem;
use crate::metrics::CircularExportMetrics;
use crate::service::{CallOutcome, Submission, SubmitContext};
use crate::shared::SharedMetrics;

verus! {

/// Capacity, in packet batches, of the bridge between the blocking queue
/// reader and the submission loop. Small on purpose: the large buffer is the
/// export queue; this one only crosses the sync/async boundary.
pub const BRIDGE_CHANNEL_CAPACITY: usize = 16;

/// How often the counters are reported.
pub const METRICS_REPORT_INTERVAL_MS: u64 = 2_000;

/// How long to wait for in-flight submissions to drain on shutdown.
pub const SHUTDOWN_DRAIN_TIMEOUT_MS: u64 = 2_000;

/// Where the exporter stands.
#[derive(Clone, Copy, Debug, PartialEq, Eq, Structural)]
pub enum Phase {
    /// Items are taken off the queue and submitted.
    Running,
    /// Every sender is gone; calls under way get a short time to end.
    Draining,
    /// The exporter is done.
    Stopped,
}

/// What happens to the exporter.
pub enum ExporterEvent {
    /// An item came off the queue.
    Item(ExportItem),
    /// Every sender is gone and the queue is empty.
    QueueClosed,
    /// A call ended.
    CallFinished { outcome: CallOutcome, transaction_bytes: u64, elapsed: Duration },
    /// The senders hand over what they counted.
    Counted(CircularExportMetrics),
    /// It is time to report, with this many items in the queue.
    ReportDue { queue_depth: usize },
    /// The time to drain is up.
    DrainExpired,
}

/// What the exporter asks for in return.
pub enum ExporterAction {
    /// Make these calls.
    Submit(Vec<Submission>),
    /// Send these fields as a datapoint.
    Report(Vec<(&'static str, i64)>),
    /// Wait for the next event.
    Wait,
    /// Start the drain timer and wait for the next event.
    Drain,
    /// Abandon what is left and end.
    Stop,
}

/// What the exporter asks for, as a mathematical value.
#[verifier::ext_equal]
pub enum ActionModel {
    Submit(Seq<crate::service::SubmissionModel>),
    Report(Seq<(Seq<char>, i64)>),
    Wait,
    Drain,
    Stop,
}

impl View for ExporterAction {
    type V = ActionModel;

    open spec fn view(&self) -> ActionModel {
        match *self {
            ExporterAction::Submit(submissions) => ActionModel::Submit(
                crate::service::submission_views(submissions@),
            ),
            ExporterAction::Report(fields) => ActionModel::Report(
                crate::metrics::field_views(fields@),
            ),
            ExporterAction::Wait => ActionModel::Wait,
            ExporterAction::Drain => ActionModel::Drain,
            ExporterAction::Stop => ActionModel::Stop,
        }
    }
}

/// The exporter, as a mathematical value.
#[verifier::ext_equal]
pub struct ExporterModel {
    pub accounts: crate::service::SubmitModel,
    pub queue_capacity: usize,
    pub phase: Phase,
}

impl ExporterModel {
    /// An exporter for `config`: running, with the whole budget free and nothing
    /// counted.
    pub open spec fn started(
        config: CircularExportConfig,
        api_key: Seq<char>,
        shared: Arc<SharedMetrics>,
    ) -> Self {
        ExporterModel {
            accounts: crate::service::SubmitModel {
                free: config.max_in_flight,
                max_in_flight: config.max_in_flight,
                metrics: CircularExportMetrics::zero(),
                shared,
                api_key,
                memo: crate::config::text_of(config.memo),
                cashback_address: crate::config::text_of(config.cashback_address),
                request_timeout: config.request_timeout,
            },
            queue_capacity: config.queue_capacity,
            phase: Phase::Running,
        }
    }

    /// The accounts are in order.
    pub open spec fn wf(self) -> bool {
        self.accounts.wf()
    }

    /// The event can happen: items come while the exporter runs, a call ends
    /// only if one is under way, the drain timer only runs while draining, and
    /// nothing happens after the end.
    pub open spec fn can_happen(self, event: ExporterEvent) -> bool {
        match event {
            ExporterEvent::Item(_) => self.phase == Phase::Running,
            ExporterEvent::QueueClosed => self.phase == Phase::Running,
            ExporterEvent::CallFinished { .. } => self.phase != Phase::Stopped
                && self.accounts.in_flight() > 0,
            ExporterEvent::Counted(_) => self.phase != Phase::Stopped,
            ExporterEvent::ReportDue { .. } => self.phase != Phase::Stopped,
            ExporterEvent::DrainExpired => self.phase == Phase::Draining,
        }
    }

    /// The accounts after the event.
    pub open spec fn accounts_after(self, event: ExporterEvent) -> crate::service::SubmitModel {
        match event {
            ExporterEvent::Item(item) => self.accounts.submitting(item.transactions().len()),
            ExporterEvent::CallFinished { outcome, transaction_bytes, elapsed } => {
                self.accounts.finishing(outcome, transaction_bytes, elapsed)
            },
            ExporterEvent::Counted(counters) => self.accounts.absorbing(counters),
            ExporterEvent::ReportDue { .. } => self.accounts.reporting(),
            ExporterEvent::QueueClosed | ExporterEvent::DrainExpired => self.accounts,
        }
    }

    /// The phase after the event. Shutdown starts when the queue is closed, and
    /// ends when the budget is free again or the time is up.
    pub open spec fn phase_after(self, event: ExporterEvent) -> Phase {
        match event {
            ExporterEvent::QueueClosed => if self.accounts.drained() {
                Phase::Stopped
            } else {
                Phase::Draining
            },
            ExporterEvent::CallFinished { .. } => if self.phase == Phase::Draining
                && self.accounts_after(event).drained() {
                Phase::Stopped
            } else {
                self.phase
            },
            ExporterEvent::DrainExpired => Phase::Stopped,
            _ => self.phase,
        }
    }

    /// The exporter after the event.
    pub open spec fn next(self, event: ExporterEvent) -> Self {
        ExporterModel {
            accounts: self.accounts_after(event),
            phase: self.phase_after(event),
            ..self
        }
    }

    /// What the exporter asks for on the event.
    pub open spec fn answer(self, event: ExporterEvent) -> ActionModel {
        match event {
            ExporterEvent::Item(item) => ActionModel::Submit(
                self.accounts.submissions(item.transactions()),
            ),
            ExporterEvent::ReportDue { queue_depth } => ActionModel::Report(
                self.accounts.metrics.report_fields(
                    queue_depth,
                    self.queue_capacity,
                    self.accounts.in_flight() as usize,
                ),
            ),
            ExporterEvent::QueueClosed => if self.accounts.drained() {
                ActionModel::Stop
            } else {
                ActionModel::Drain
            },
            ExporterEvent::CallFinished { .. } => if self.phase_after(event) == Phase::Stopped {
                ActionModel::Stop
            } else {
                ActionModel::Wait
            },
            ExporterEvent::Counted(_) => ActionModel::Wait,
            ExporterEvent::DrainExpired => ActionModel::Stop,
        }
    }
}

impl ExporterModel {
    /// What the event changes in the shared counters: what is counted is added
    /// to them, and a report starts those of the submissions over at zero.
    pub open spec fn publishes(self, event: ExporterEvent) -> bool {
        let shared = *self.accounts.shared;
        match event {
            ExporterEvent::Item(item) => shared.takes_up(
                self.accounts.submit_counts(item.transactions().len()),
            ),
            ExporterEvent::CallFinished { outcome, transaction_bytes, elapsed } => {
                shared.takes_up(
                    crate::service::SubmitModel::call_counts(outcome, transaction_bytes, elapsed),
                )
            },
            ExporterEvent::ReportDue { .. } => shared.clears_submissions(),
            _ => true,
        }
    }
}

/// Why there is no exporter.
#[derive(Debug)]
pub enum StartError {
    /// The API key was turned down: the exporter is disabled.
    ApiKey(ApiKeyError),
    /// The URL names no endpoint.
    Endpoint(tonic::transport::Error),
}

/// The exporter.
pub struct Exporter {
    context: SubmitContext,
    queue_capacity: usize,
    phase: Phase,
}

impl View for Exporter {
    type V = ExporterModel;

    closed spec fn view(&self) -> ExporterModel {
        ExporterModel {
            accounts: self.context@,
            queue_capacity: self.queue_capacity,
            phase: self.phase,
        }
    }
}

impl Exporter {
    /// Starts the exporter that `config` asks for, for a client of the given
    /// version, and says how its channel is set up. There is none unless an API
    /// key is provided and can be sent, and the URL names an endpoint.
    pub fn start(
        config: &CircularExportConfig,
        shared: Arc<SharedMetrics>,
        version: &str,
    ) -> (started: Result<(Exporter, ChannelPlan), StartError>)
        requires
            config.max_in_flight <= crate::in_flight::max_permits(),
        ensures
            match started {
                Ok((exporter, plan)) => {
                    &&& config.api_key@.len() > 0 && crate::api_key::sendable(config.api_key@)
                    &&& crate::config::names_endpoint(config.url@)
                    &&& exporter@.wf()
                    &&& exporter@ == ExporterModel::started(*config, config.api_key@, shared)
                    &&& config.is_planned_as(plan, version@)
                },
                Err(StartError::ApiKey(ApiKeyError::Missing)) => config.api_key@.len() == 0,
                Err(StartError::ApiKey(ApiKeyError::Invalid(_))) => config.api_key@.len() > 0
                    && !crate::api_key::sendable(config.api_key@),
                Err(StartError::Endpoint(_)) => config.api_key@.len() > 0
                    && crate::api_key::sendable(config.api_key@)
                    && !crate::config::names_endpoint(config.url@),
            },
    {
        let api_key = match ApiKey::parse(config.api_key.as_str()) {
            Ok(api_key) => api_key,
            Err(error) => return Err(StartError::ApiKey(error)),
        };
        let plan = match config.channel_plan(version) {
            Ok(plan) => plan,
            Err(error) => return Err(StartError::Endpoint(error)),
        };
        Ok((Exporter::new(config, api_key, shared), plan))
    }

    /// An exporter for `config` that carries `api_key` and adds to the `shared`
    /// counters: running, with the whole budget free and nothing counted.
    pub fn new(
        config: &CircularExportConfig,
        api_key: ApiKey,
        shared: Arc<SharedMetrics>,
    ) -> (exporter: Exporter)
        requires
            config.max_in_flight <= crate::in_flight::max_permits(),
        ensures
            exporter@.wf(),
            exporter@ == ExporterModel::started(*config, api_key@, shared),
    {
        Exporter {
            context: SubmitContext::new(config, api_key, shared),
            queue_capacity: config.queue_capacity,
            phase: Phase::Running,
        }
    }

    /// Takes one event and says what to do.
    pub fn step(&mut self, event: ExporterEvent) -> (action: ExporterAction)
        requires
            old(self)@.wf(),
            old(self)@.can_happen(event),
        ensures
            final(self)@.wf(),
            final(self)@ == old(self)@.next(event),
            action@ == old(self)@.answer(event),
            old(self)@.publishes(event),
    {
        match event {
            ExporterEvent::Item(item) => ExporterAction::Submit(self.context.submit_item(item)),
            ExporterEvent::QueueClosed => {
                if self.context.drained() {
                    self.phase = Phase::Stopped;
                    ExporterAction::Stop
                } else {
                    self.phase = Phase::Draining;
                    ExporterAction::Drain
                }
            },
            ExporterEvent::CallFinished { outcome, transaction_bytes, elapsed } => {
                self.context.finish(outcome, transaction_bytes, elapsed);
                if self.phase == Phase::Draining && self.context.drained() {
                    self.phase = Phase::Stopped;
                    ExporterAction::Stop
                } else {
                    ExporterAction::Wait
                }
            },
            ExporterEvent::Counted(counters) => {
                self.context.absorb(counters);
                ExporterAction::Wait
            },
            ExporterEvent::ReportDue { queue_depth } => ExporterAction::Report(
                self.context.report(queue_depth, self.queue_capacity),
            ),
            ExporterEvent::DrainExpired => {
                self.phase = Phase::Stopped;
                ExporterAction::Stop
            },
        }
    }

    /// Where the exporter stands.
    pub fn phase(&self) -> (phase: Phase)
        ensures
            phase == self@.phase,
    {
        self.phase
    }

    /// The calls under way.
    pub fn in_flight(&self) -> (calls: usize)
        requires
            self@.wf(),
        ensures
            calls == self@.accounts.in_flight(),
    {
        self.context.in_flight()
    }

    /// What has been counted and not been reported yet.
    pub fn metrics(&self) -> (metrics: CircularExportMetrics)
        ensures
            metrics == self@.accounts.metrics,
    {
        self.context.metrics()
    }
}

/// The exporter after a run of events.
pub open spec fn run(start: ExporterModel, events: Seq<ExporterEvent>) -> ExporterModel
    decreases events.len(),
{
    if events.len() == 0 {
        start
    } else {
        run(start, events.drop_last()).next(events.last())
    }
}

/// Every event of the run can happen when it comes.
pub open spec fn runnable(start: ExporterModel, events: Seq<ExporterEvent>) -> bool
    decreases events.len(),
{
    events.len() > 0 ==> {
        &&& runnable(start, events.drop_last())
        &&& run(start, events.drop_last()).can_happen(events.last())
    }
}

/// An exporter that has done nothing yet.
pub open spec fn fresh(model: ExporterModel) -> bool {
    &&& model.wf()
    &&& model.phase == Phase::Running
    &&& model.accounts.free == model.accounts.max_in_flight
    &&& model.accounts.metrics == CircularExportMetrics::zero()
}

/// The number of calls that the exporter asked for in a run.
pub open spec fn calls_started(start: ExporterModel, events: Seq<ExporterEvent>) -> nat
    decreases events.len(),
{
    if events.len() == 0 {
        0
    } else {
        calls_started(start, events.drop_last()) + match run(start, events.drop_last()).answer(
            events.last(),
        ) {
            ActionModel::Submit(submissions) => submissions.len(),
            _ => 0,
        }
    }
}

/// The number of calls that ended in a run.
pub open spec fn calls_finished(events: Seq<ExporterEvent>) -> nat
    decreases events.len(),
{
    if events.len() == 0 {
        0
    } else {
        calls_finished(events.drop_last()) + if events.last() is CallFinished {
            1nat
        } else {
            0
        }
    }
}

/// The in-flight budget is never exceeded, and no permit is lost: at any time
/// the calls under way are those started and not ended.
pub proof fn law_permits_are_conserved(start: ExporterModel, events: Seq<ExporterEvent>)
    requires
        fresh(start),
        runnable(start, events),
    ensures
        run(start, events).wf(),
        run(start, events).accounts.max_in_flight == start.accounts.max_in_flight,
        0 <= run(start, events).accounts.in_flight() <= start.accounts.max_in_flight,
        run(start, events).accounts.in_flight() == calls_started(start, events) - calls_finished(
            events,
        ),
    decreases events.len(),
{
    if events.len() > 0 {
        law_permits_are_conserved(start, events.drop_last());
    }
}

/// The exporter recovers from saturation: once every call has ended, a wave of
/// transactions that fits the budget goes through whole, with no drop.
#[verifier::spinoff_prover]
pub proof fn law_saturation_is_recovered_from(
    start: ExporterModel,
    events: Seq<ExporterEvent>,
    item: ExportItem,
)
    requires
        fresh(start),
        runnable(start, events),
        calls_started(start, events) == calls_finished(events),
        item.transactions().len() <= start.accounts.max_in_flight,
    ensures
        ({
            let model = run(start, events);
            let after = model.next(ExporterEvent::Item(item));
            &&& model.accounts.free == start.accounts.max_in_flight
            &&& model.accounts.submissions(item.transactions()).len() == item.transactions().len()
            &&& after.accounts.metrics.dropped_no_permit
                == model.accounts.metrics.dropped_no_permit
        }),
{
    law_permits_are_conserved(start, events);
    lemma_unchanged(run(start, events).accounts.metrics.dropped_no_permit);
}

/// A saturated exporter drops rather than queues: of a burst, the first
/// transactions go out as far as the budget goes, and the rest is counted as
/// dropped for lack of a permit.
pub proof fn law_overflow_is_dropped(
    accounts: crate::service::SubmitModel,
    transactions: Seq<Seq<u8>>,
)
    requires
        accounts.wf(),
    ensures
        ({
            let sent = accounts.submissions(transactions).len();
            let after = accounts.submitting(transactions.len());
            &&& sent <= accounts.free
            &&& sent < transactions.len() ==> sent == accounts.free && after.free == 0
            &&& after.free == accounts.free - sent
            &&& after.metrics.received_transactions == crate::metrics::bump(
                accounts.metrics.received_transactions,
                transactions.len(),
            )
            &&& after.metrics.dropped_no_permit == crate::metrics::bump(
                accounts.metrics.dropped_no_permit,
                (transactions.len() - sent) as nat,
            )
        }),
{
}

/// What is submitted is what was handed over: the calls are the transactions
/// in order, byte for byte, never to be forwarded, each with the configured
/// key.
pub proof fn law_submissions_are_faithful(
    accounts: crate::service::SubmitModel,
    transactions: Seq<Seq<u8>>,
    i: int,
)
    requires
        accounts.wf(),
        0 <= i < accounts.submissions(transactions).len(),
    ensures
        i < transactions.len(),
        accounts.submissions(transactions)[i].request.transaction == transactions[i],
        accounts.submissions(transactions)[i].request.forward == Some(false),
        accounts.submissions(transactions)[i].api_key == accounts.api_key,
{
}

/// Every verified transaction of a BAM batch goes to Fast unchanged, and to the
/// ARB stream only: when the budget allows, the calls for the batch are exactly
/// its packets that survived verification and, unless votes are exported, are
/// no simple votes.
pub proof fn law_bam_batches_are_submitted(
    sender: crate::sender::SenderModel,
    batches: std::sync::Arc<Vec<solana_perf::packet::PacketBatch>>,
    now: u64,
    accounts: crate::service::SubmitModel,
)
    requires
        accounts.wf(),
        sender.bam_item(batches, now).transactions().len() <= accounts.free,
    ensures
        ({
            let wanted = crate::packets::all_packets(batches@).filter(
                |packet: crate::packets::PacketModel|
                    !packet.discard && packet.data is Some && (sender.include_votes
                        || !packet.simple_vote),
            );
            let calls = accounts.submissions(sender.bam_item(batches, now).transactions());
            &&& calls.len() == wanted.len()
            &&& forall|i: int|
                0 <= i < calls.len() ==> (#[trigger] calls[i]).request.transaction
                    == wanted[i].data->0 && calls[i].request.forward == Some(false)
        }),
{
    let filter_simple_votes = !sender.include_votes;
    let exported = |packet: crate::packets::PacketModel| packet.exported(filter_simple_votes);
    let wanted = |packet: crate::packets::PacketModel|
        !packet.discard && packet.data is Some && (sender.include_votes || !packet.simple_vote);
    assert(exported =~= wanted);
}

/// The capacity gauge is the configured one for good.
pub proof fn law_capacity_gauge_is_constant(start: ExporterModel, events: Seq<ExporterEvent>)
    ensures
        run(start, events).queue_capacity == start.queue_capacity,
    decreases events.len(),
{
    if events.len() > 0 {
        law_capacity_gauge_is_constant(start, events.drop_last());
    }
}

/// Shutdown is final: once the queue is closed the exporter submits nothing
/// more and never runs again.
pub proof fn law_shutdown_is_final(model: ExporterModel, event: ExporterEvent)
    requires
        model.phase != Phase::Running,
        model.can_happen(event),
    ensures
        model.next(event).phase != Phase::Running,
        !(model.answer(event) is Submit),
{
}

/// The exporter stops exactly when it says so, and only after the queue was
/// closed: when the budget is free again or when the time is up.
pub proof fn law_stop_has_a_reason(model: ExporterModel, event: ExporterEvent)
    requires
        model.wf(),
        model.can_happen(event),
    ensures
        model.answer(event) is Stop <==> model.next(event).phase == Phase::Stopped,
        model.answer(event) is Stop ==> event is DrainExpired || (model.next(
            event,
        ).accounts.drained() && (event is QueueClosed || model.phase == Phase::Draining)),
{
}

/// Shutdown waits for all calls: drained means that no call is under way.
pub proof fn law_drained_means_idle(accounts: crate::service::SubmitModel)
    requires
        accounts.wf(),
    ensures
        accounts.drained() <==> accounts.in_flight() == 0,
{
}

/// The counters of the submission side are untouched.
pub open spec fn counts_hooks_only(counters: CircularExportMetrics) -> bool {
    &&& counters.received_transactions == 0
    &&& counters.sent_ok == 0
    &&& counters.sent_err == 0
    &&& counters.dropped_timeout == 0
    &&& counters.dropped_no_permit == 0
}

/// The senders only ever hand over counters of their own side.
pub open spec fn hooks_count_their_own(events: Seq<ExporterEvent>) -> bool {
    forall|i: int|
        0 <= i < events.len() ==> (#[trigger] events[i] matches ExporterEvent::Counted(counters)
            ==> counts_hooks_only(counters))
}

/// The senders count on their own side only: a handle that has done so still
/// has after it offered an item or its hook ran, and a new one has.
pub proof fn law_senders_count_their_own(
    before: crate::sender::SenderModel,
    after: crate::sender::SenderModel,
    item: ExportItem,
    count: u64,
    hook_us: u64,
    copy_bytes: u64,
)
    requires
        counts_hooks_only(before.ledger),
    ensures
        before.offered(after, item, count) ==> counts_hooks_only(after.ledger),
        counts_hooks_only(before.hooking(hook_us, copy_bytes).ledger),
        counts_hooks_only(CircularExportMetrics::zero()),
{
}

/// All that was reported in a run, added up.
pub open spec fn reported(
    start: ExporterModel,
    events: Seq<ExporterEvent>,
) -> CircularExportMetrics
    decreases events.len(),
{
    if events.len() == 0 {
        CircularExportMetrics::zero()
    } else {
        let before = reported(start, events.drop_last());
        if events.last() is ReportDue {
            before.plus(run(start, events.drop_last()).accounts.metrics)
        } else {
            before
        }
    }
}

/// All that was counted in a run, reported or not.
pub open spec fn total(
    start: ExporterModel,
    events: Seq<ExporterEvent>,
) -> CircularExportMetrics {
    reported(start, events).plus(run(start, events).accounts.metrics)
}

/// The transactions with a known fate.
pub open spec fn settled(counters: CircularExportMetrics) -> nat {
    (counters.sent_ok + counters.sent_err + counters.dropped_timeout
        + counters.dropped_no_permit) as nat
}

/// Every transaction that was received is settled or under way. Counters wrap
/// around.
pub open spec fn balanced(counters: CircularExportMetrics, in_flight: int) -> bool {
    counters.received_transactions == crate::metrics::bump(
        0,
        (settled(counters) + in_flight) as nat,
    )
}

/// Every transaction is accounted for exactly once: accepted, rejected, timed
/// out, dropped for lack of a permit, or still under way. This holds of the
/// totals at any time, across reports: nothing vanishes silently.
pub proof fn law_every_transaction_is_accounted(
    start: ExporterModel,
    events: Seq<ExporterEvent>,
)
    requires
        fresh(start),
        runnable(start, events),
        hooks_count_their_own(events),
    ensures
        balanced(total(start, events), run(start, events).accounts.in_flight()),
    decreases events.len(),
{
    if events.len() > 0 {
        let rest = events.drop_last();
        let event = events.last();
        assert forall|i: int| 0 <= i < rest.len() implies (#[trigger] rest[i] matches
            ExporterEvent::Counted(counters) ==> counts_hooks_only(counters)) by {
            assert(rest[i] == events[i]);
        }
        law_every_transaction_is_accounted(start, rest);
        law_permits_are_conserved(start, rest);
        lemma_step_keeps_balance(run(start, rest), reported(start, rest), event);
    }
}

/// One event keeps the balance of the totals.
#[verifier::rlimit(40)]
#[verifier::spinoff_prover]
proof fn lemma_step_keeps_balance(
    model: ExporterModel,
    reported: CircularExportMetrics,
    event: ExporterEvent,
)
    requires
        model.wf(),
        model.can_happen(event),
        event matches ExporterEvent::Counted(counters) ==> counts_hooks_only(counters),
        balanced(reported.plus(model.accounts.metrics), model.accounts.in_flight()),
    ensures
        ({
            let after = model.next(event);
            let now_reported = if event is ReportDue {
                reported.plus(model.accounts.metrics)
            } else {
                reported
            };
            balanced(now_reported.plus(after.accounts.metrics), after.accounts.in_flight())
        }),
{
    let m = model.accounts.metrics;
    let in_flight = model.accounts.in_flight();
    match event {
        ExporterEvent::Item(item) => {
            let count = item.transactions().len();
            let admitted = model.accounts.admitted(count);
            lemma_submitting_keeps_balance(reported, m, in_flight, count, admitted);
        },
        ExporterEvent::CallFinished { outcome, .. } => {
            lemma_finishing_keeps_balance(reported, m, in_flight, outcome);
        },
        ExporterEvent::Counted(counters) => {
            lemma_hooks_keep_balance(reported, m, counters, in_flight);
        },
        ExporterEvent::ReportDue { .. } => {
            lemma_reporting_keeps_balance(reported.plus(m), in_flight);
        },
        _ => {},
    }
}

/// What the senders count keeps the balance.
#[verifier::spinoff_prover]
proof fn lemma_hooks_keep_balance(
    reported: CircularExportMetrics,
    m: CircularExportMetrics,
    counters: CircularExportMetrics,
    in_flight: int,
)
    requires
        counts_hooks_only(counters),
        balanced(reported.plus(m), in_flight),
    ensures
        balanced(reported.plus(m.plus(counters)), in_flight),
{
    lemma_unchanged(m.received_transactions);
    lemma_unchanged(m.sent_ok);
    lemma_unchanged(m.sent_err);
    lemma_unchanged(m.dropped_timeout);
    lemma_unchanged(m.dropped_no_permit);
}

/// Starting over at zero after a report keeps the balance.
#[verifier::spinoff_prover]
proof fn lemma_reporting_keeps_balance(all: CircularExportMetrics, in_flight: int)
    requires
        balanced(all, in_flight),
    ensures
        balanced(all.plus(CircularExportMetrics::zero()), in_flight),
{
    lemma_unchanged(all.received_transactions);
    lemma_unchanged(all.sent_ok);
    lemma_unchanged(all.sent_err);
    lemma_unchanged(all.dropped_timeout);
    lemma_unchanged(all.dropped_no_permit);
}

/// Adding nothing changes nothing.
proof fn lemma_unchanged(counter: u64)
    ensures
        crate::metrics::bump(counter, 0) == counter,
{
}

/// Submitting a burst keeps the balance.
#[verifier::spinoff_prover]
proof fn lemma_submitting_keeps_balance(
    reported: CircularExportMetrics,
    m: CircularExportMetrics,
    in_flight: int,
    count: nat,
    admitted: nat,
)
    requires
        admitted <= count,
        in_flight >= 0,
        balanced(reported.plus(m), in_flight),
    ensures
        balanced(
            reported.plus(
                CircularExportMetrics {
                    received_transactions: crate::metrics::bump(m.received_transactions, count),
                    dropped_no_permit: crate::metrics::bump(
                        m.dropped_no_permit,
                        (count - admitted) as nat,
                    ),
                    ..m
                },
            ),
            in_flight + admitted,
        ),
{
    let all = reported.plus(m);
    let rest = settled(all) + in_flight - all.dropped_no_permit;
    lemma_sum_of_both(
        reported.received_transactions,
        m.received_transactions,
        count,
    );
    lemma_sum_of_both(
        reported.dropped_no_permit,
        m.dropped_no_permit,
        (count - admitted) as nat,
    );
    lemma_balance_grows(
        all.received_transactions,
        all.dropped_no_permit,
        rest as nat,
        (count - admitted) as nat,
        admitted,
    );
}

/// The end of a call keeps the balance.
#[verifier::spinoff_prover]
proof fn lemma_finishing_keeps_balance(
    reported: CircularExportMetrics,
    m: CircularExportMetrics,
    in_flight: int,
    outcome: CallOutcome,
)
    requires
        in_flight > 0,
        balanced(reported.plus(m), in_flight),
    ensures
        outcome == CallOutcome::Accepted ==> balanced(
            reported.plus(
                CircularExportMetrics { sent_ok: crate::metrics::bump(m.sent_ok, 1), ..m },
            ),
            in_flight - 1,
        ),
        outcome == CallOutcome::Rejected ==> balanced(
            reported.plus(
                CircularExportMetrics { sent_err: crate::metrics::bump(m.sent_err, 1), ..m },
            ),
            in_flight - 1,
        ),
        outcome == CallOutcome::TimedOut ==> balanced(
            reported.plus(
                CircularExportMetrics {
                    dropped_timeout: crate::metrics::bump(m.dropped_timeout, 1),
                    ..m
                },
            ),
            in_flight - 1,
        ),
{
    let all = reported.plus(m);
    let field = |counters: CircularExportMetrics|
        match outcome {
            CallOutcome::Accepted => counters.sent_ok,
            CallOutcome::Rejected => counters.sent_err,
            CallOutcome::TimedOut => counters.dropped_timeout,
        };
    let rest = settled(all) + in_flight - 1 - field(all);
    lemma_sum_of_both(field(reported), field(m), 1);
    lemma_balance_moves(all.received_transactions, field(all), rest as nat);
}

/// What is added to a part of a total is added to the total.
proof fn lemma_sum_of_both(first: u64, second: u64, amount: nat)
    ensures
        crate::metrics::bump(first, crate::metrics::bump(second, amount) as nat)
            == crate::metrics::bump(crate::metrics::bump(first, second as nat), amount),
{
}

/// A balance is kept when both sides grow by the same amount.
proof fn lemma_balance_grows(left: u64, part: u64, rest: nat, to_part: nat, to_rest: nat)
    requires
        left == crate::metrics::bump(0, part as nat + rest),
    ensures
        crate::metrics::bump(left, to_part + to_rest) == crate::metrics::bump(
            0,
            crate::metrics::bump(part, to_part) as nat + rest + to_rest,
        ),
{
}

/// A balance is kept when one moves from the rest to a part.
proof fn lemma_balance_moves(left: u64, part: u64, rest: nat)
    requires
        left == crate::metrics::bump(0, part as nat + rest + 1),
    ensures
        left == crate::metrics::bump(0, crate::metrics::bump(part, 1) as nat + rest),
{
}

/// An exporter starts with what it was configured with: nothing under way, the
/// whole budget free and nothing counted.
pub proof fn law_exporters_start_as_configured(
    config: CircularExportConfig,
    api_key: Seq<char>,
    shared: Arc<SharedMetrics>,
)
    ensures
        ({
            let model = ExporterModel::started(config, api_key, shared);
            &&& model.phase == Phase::Running
            &&& model.queue_capacity == config.queue_capacity
            &&& model.accounts.max_in_flight == config.max_in_flight
            &&& model.accounts.free == config.max_in_flight
            &&& model.accounts.metrics == CircularExportMetrics::zero()
            &&& model.accounts.shared == shared
            &&& model.accounts.api_key == api_key
            &&& model.accounts.request_timeout == config.request_timeout
            &&& config.memo is None ==> model.accounts.memo is None
            &&& config.memo matches Some(memo) ==> model.accounts.memo == Some(memo@)
            &&& config.cashback_address is None ==> model.accounts.cashback_address is None
            &&& config.cashback_address matches Some(address) ==> model.accounts.cashback_address
                == Some(address@)
        }),
{
}

/// Whatever happens, what an exporter was configured with stays.
pub proof fn law_configuration_stays(start: ExporterModel, events: Seq<ExporterEvent>)
    ensures
        ({
            let now = run(start, events);
            &&& now.queue_capacity == start.queue_capacity
            &&& now.accounts.max_in_flight == start.accounts.max_in_flight
            &&& now.accounts.shared == start.accounts.shared
            &&& now.accounts.api_key == start.accounts.api_key
            &&& now.accounts.memo == start.accounts.memo
            &&& now.accounts.cashback_address == start.accounts.cashback_address
            &&& now.accounts.request_timeout == start.accounts.request_timeout
        }),
    decreases events.len(),
{
    if events.len() > 0 {
        law_configuration_stays(start, events.drop_last());
    }
}

/// Every call that an exporter asks for carries what it was configured with,
/// whenever it asks: the memo, if one is configured, the address, if one is
/// configured, each whatever the other is, the key and the timeout. It carries
/// the transaction of the item at its place, unchanged, and asks for no
/// forwarding.
pub proof fn law_calls_carry_the_configuration(
    config: CircularExportConfig,
    shared: Arc<SharedMetrics>,
    events: Seq<ExporterEvent>,
    item: ExportItem,
    i: int,
)
    requires
        config.max_in_flight <= crate::in_flight::max_permits(),
        0 <= i,
    ensures
        ({
            let start = ExporterModel::started(config, config.api_key@, shared);
            run(start, events).answer(ExporterEvent::Item(item)) matches ActionModel::Submit(calls)
                && (i < calls.len() ==> {
                let call = calls[i];
                &&& i < item.transactions().len()
                &&& call.request.transaction == item.transactions()[i]
                &&& call.request.forward == Some(false)
                &&& config.memo is None ==> call.request.memo is None
                &&& config.memo matches Some(memo) ==> call.request.memo == Some(memo@)
                &&& config.cashback_address is None ==> call.request.cashback_address is None
                &&& config.cashback_address matches Some(address)
                    ==> call.request.cashback_address == Some(address@)
                &&& call.api_key == config.api_key@
                &&& call.request_timeout == config.request_timeout
            })
        }),
{
    let start = ExporterModel::started(config, config.api_key@, shared);
    law_configuration_stays(start, events);
}

/// Every item is answered with its calls, as many as there are permits for, and
/// every other event with what the phase asks for: a report when one is due,
/// the end when nothing is left to wait for, and waiting otherwise.
pub proof fn law_events_are_answered(model: ExporterModel, event: ExporterEvent)
    requires
        model.wf(),
        model.can_happen(event),
    ensures
        match event {
            ExporterEvent::Item(item) => {
                &&& model.answer(event) is Submit
                &&& item.transactions().len() <= model.accounts.free ==> model.answer(
                    event,
                )->Submit_0.len() == item.transactions().len()
                &&& item.transactions().len() > model.accounts.free ==> model.answer(
                    event,
                )->Submit_0.len() == model.accounts.free
            },
            ExporterEvent::ReportDue { .. } => model.answer(event) is Report,
            ExporterEvent::Counted(_) => model.answer(event) is Wait,
            ExporterEvent::DrainExpired => model.answer(event) is Stop,
            ExporterEvent::QueueClosed => {
                &&& model.accounts.in_flight() == 0 ==> model.answer(event) is Stop
                &&& model.accounts.in_flight() > 0 ==> model.answer(event) is Drain
            },
            ExporterEvent::CallFinished { .. } => {
                &&& model.phase == Phase::Draining && model.accounts.in_flight() == 1
                    ==> model.answer(event) is Stop
                &&& model.phase != Phase::Draining || model.accounts.in_flight() > 1
                    ==> model.answer(event) is Wait
            },
        },
{
}

/// The phase changes only by the end of the queue, the end of the last call
/// after it, and the end of the drain time.
pub proof fn law_phases_follow_the_events(model: ExporterModel, event: ExporterEvent)
    requires
        model.wf(),
        model.can_happen(event),
    ensures
        match event {
            ExporterEvent::QueueClosed => {
                &&& model.accounts.in_flight() == 0 ==> model.next(event).phase == Phase::Stopped
                &&& model.accounts.in_flight() > 0 ==> model.next(event).phase == Phase::Draining
            },
            ExporterEvent::DrainExpired => model.next(event).phase == Phase::Stopped,
            ExporterEvent::CallFinished { .. } => {
                &&& model.phase == Phase::Draining && model.accounts.in_flight() == 1
                    ==> model.next(event).phase == Phase::Stopped
                &&& model.phase != Phase::Draining || model.accounts.in_flight() > 1
                    ==> model.next(event).phase == model.phase
            },
            _ => model.next(event).phase == model.phase,
        },
{
}

/// What can happen: items and the end of the queue while the exporter runs, the
/// end of a call while one is under way, the end of the drain time while it
/// drains, and reports and counts until it stops.
pub proof fn law_what_can_happen(model: ExporterModel, event: ExporterEvent)
    ensures
        event is Item || event is QueueClosed ==> (model.can_happen(event) <==> model.phase
            == Phase::Running),
        event is Counted || event is ReportDue ==> (model.can_happen(event) <==> model.phase
            != Phase::Stopped),
        event is CallFinished ==> (model.can_happen(event) <==> model.phase != Phase::Stopped
            && model.accounts.in_flight() > 0),
        event is DrainExpired ==> (model.can_happen(event) <==> model.phase == Phase::Draining),
{
}

/// A report shows what is counted and not reported yet, the depth of the queue
/// that was told, the configured capacity and the calls under way.
pub proof fn law_reports_show_what_is_pending(model: ExporterModel, queue_depth: usize)
    requires
        model.wf(),
    ensures
        model.answer(ExporterEvent::ReportDue { queue_depth }) matches ActionModel::Report(fields)
            && {
            &&& fields.len() == 15
            &&& fields[0] == ("received_transactions"@, crate::metrics::signed_reading(
                model.accounts.metrics.received_transactions,
            ))
            &&& fields[1] == ("enqueued_transactions"@, crate::metrics::signed_reading(
                model.accounts.metrics.enqueued_transactions,
            ))
            &&& fields[2] == ("dropped_batches"@, crate::metrics::signed_reading(
                model.accounts.metrics.dropped_batches,
            ))
            &&& fields[3] == ("dropped_transactions"@, crate::metrics::signed_reading(
                model.accounts.metrics.dropped_transactions,
            ))
            &&& fields[4] == ("dropped_no_permit"@, crate::metrics::signed_reading(
                model.accounts.metrics.dropped_no_permit,
            ))
            &&& fields[5] == ("dropped_timeout"@, crate::metrics::signed_reading(
                model.accounts.metrics.dropped_timeout,
            ))
            &&& fields[6] == ("sent_ok"@, crate::metrics::signed_reading(
                model.accounts.metrics.sent_ok,
            ))
            &&& fields[7] == ("sent_err"@, crate::metrics::signed_reading(
                model.accounts.metrics.sent_err,
            ))
            &&& fields[8] == ("sent_bytes"@, crate::metrics::signed_reading(
                model.accounts.metrics.sent_bytes,
            ))
            &&& fields[9] == ("send_us"@, crate::metrics::signed_reading(
                model.accounts.metrics.send_us,
            ))
            &&& fields[10] == ("hook_us"@, crate::metrics::signed_reading(
                model.accounts.metrics.hook_us,
            ))
            &&& fields[11] == ("copy_bytes"@, crate::metrics::signed_reading(
                model.accounts.metrics.copy_bytes,
            ))
            &&& fields[12] == ("queue_depth"@, crate::metrics::signed_reading(queue_depth as u64))
            &&& fields[13] == ("queue_capacity"@, crate::metrics::signed_reading(
                model.queue_capacity as u64,
            ))
            &&& fields[14] == ("in_flight"@, crate::metrics::signed_reading(
                model.accounts.in_flight() as u64,
            ))
        },
{
    let in_flight = model.accounts.in_flight() as usize;
    assert(in_flight as u64 == model.accounts.in_flight() as u64);
    crate::metrics::law_reports_show_every_counter(
        model.accounts.metrics,
        queue_depth,
        model.queue_capacity,
        in_flight,
    );
}

/// What an event adds to the accounts is added to the shared counters, and a
/// report starts those of the submissions over.
pub proof fn law_the_shared_counters_follow(model: ExporterModel, event: ExporterEvent)
    requires
        model.wf(),
        model.can_happen(event),
        model.publishes(event),
    ensures
        event is Item || event is CallFinished ==> exists|counted: CircularExportMetrics|
            {
                &&& #[trigger] model.accounts.shared.takes_up(counted)
                &&& model.next(event).accounts.metrics == model.accounts.metrics.plus(counted)
            },
        event is ReportDue ==> model.accounts.shared.clears_submissions(),
{
    match event {
        ExporterEvent::Item(item) => {
            let count = item.transactions().len();
            crate::service::law_the_shared_counters_are_told_the_same(
                model.accounts,
                count,
                CallOutcome::Accepted,
                0,
                arbitrary(),
            );
            assert(model.accounts.shared.takes_up(model.accounts.submit_counts(count)));
        },
        ExporterEvent::CallFinished { outcome, transaction_bytes, elapsed } => {
            crate::service::law_the_shared_counters_are_told_the_same(
                model.accounts,
                0,
                outcome,
                transaction_bytes,
                elapsed,
            );
            assert(model.accounts.shared.takes_up(
                crate::service::SubmitModel::call_counts(outcome, transaction_bytes, elapsed),
            ));
        },
        _ => {},
    }
}

/// What is asked for is told as it is.
pub proof fn law_actions_are_told_as_they_are(
    submissions: Vec<Submission>,
    fields: Vec<(&'static str, i64)>,
)
    ensures
        ExporterAction::Submit(submissions)@ == ActionModel::Submit(
            crate::service::submission_views(submissions@),
        ),
        ExporterAction::Report(fields)@ == ActionModel::Report(
            crate::metrics::field_views(fields@),
        ),
        ExporterAction::Wait@ == ActionModel::Wait,
        ExporterAction::Drain@ == ActionModel::Drain,
        ExporterAction::Stop@ == ActionModel::Stop,
{
}

/// The counter that stands at place `k` of a report.
pub open spec fn counter_at(counters: CircularExportMetrics, k: int) -> u64 {
    if k == 0 {
        counters.received_transactions
    } else if k == 1 {
        counters.enqueued_transactions
    } else if k == 2 {
        counters.dropped_batches
    } else if k == 3 {
        counters.dropped_transactions
    } else if k == 4 {
        counters.dropped_no_permit
    } else if k == 5 {
        counters.dropped_timeout
    } else if k == 6 {
        counters.sent_ok
    } else if k == 7 {
        counters.sent_err
    } else if k == 8 {
        counters.sent_bytes
    } else if k == 9 {
        counters.send_us
    } else if k == 10 {
        counters.hook_us
    } else {
        counters.copy_bytes
    }
}

/// What an event has to add to the counter at place `k`: what the senders hand
/// over of it; for an item, its transactions, and those of them that became no
/// call; and for a call that ended, one for its outcome, its bytes if it was
/// accepted, and its time.
pub open spec fn owed(model: ExporterModel, event: ExporterEvent, k: int) -> int {
    match event {
        ExporterEvent::Counted(counters) => counter_at(counters, k) as int,
        ExporterEvent::Item(item) => if k == 0 {
            item.transactions().len() as int
        } else if k == 4 {
            item.transactions().len() - model.answer(event)->Submit_0.len()
        } else {
            0
        },
        ExporterEvent::CallFinished { outcome, transaction_bytes, elapsed } => if k == 5
            && outcome == CallOutcome::TimedOut {
            1
        } else if k == 6 && outcome == CallOutcome::Accepted {
            1
        } else if k == 7 && outcome == CallOutcome::Rejected {
            1
        } else if k == 8 && outcome == CallOutcome::Accepted {
            transaction_bytes as int
        } else if k == 9 {
            crate::clock::duration_nanos(elapsed) as int / 1_000
        } else {
            0
        },
        _ => 0,
    }
}

/// What the answer to an event reports at place `k`.
pub open spec fn told(model: ExporterModel, event: ExporterEvent, k: int) -> int {
    match model.answer(event) {
        ActionModel::Report(fields) => fields[k].1 as int,
        _ => 0,
    }
}

/// What the events of a run have to add to the counter at place `k`.
pub open spec fn owed_in(start: ExporterModel, events: Seq<ExporterEvent>, k: int) -> int
    decreases events.len(),
{
    if events.len() == 0 {
        0
    } else {
        owed_in(start, events.drop_last(), k) + owed(
            run(start, events.drop_last()),
            events.last(),
            k,
        )
    }
}

/// What all reports of a run told at place `k`, added up.
pub open spec fn told_in(start: ExporterModel, events: Seq<ExporterEvent>, k: int) -> int
    decreases events.len(),
{
    if events.len() == 0 {
        0
    } else {
        told_in(start, events.drop_last(), k) + told(
            run(start, events.drop_last()),
            events.last(),
            k,
        )
    }
}

/// Nothing that was counted is missing in the reports, and nothing is told
/// twice: over any run, for every counter, what all reports told of it and what
/// is not reported yet add up to what the events had to add to it, those of the
/// senders included. Counters wrap around.
pub proof fn law_everything_counted_is_reported(
    start: ExporterModel,
    events: Seq<ExporterEvent>,
    k: int,
)
    requires
        fresh(start),
        runnable(start, events),
        0 <= k < 12,
    ensures
        crate::metrics::alike(
            told_in(start, events, k) + counter_at(run(start, events).accounts.metrics, k),
            owed_in(start, events, k),
        ),
    decreases events.len(),
{
    if events.len() > 0 {
        let rest = events.drop_last();
        let model = run(start, rest);
        law_everything_counted_is_reported(start, rest, k);
        law_permits_are_conserved(start, rest);
        lemma_event_is_counted(model, events.last(), k);
        lemma_alike_sums(
            told_in(start, rest, k) + counter_at(model.accounts.metrics, k),
            owed_in(start, rest, k),
            told(model, events.last(), k) + counter_at(
                model.next(events.last()).accounts.metrics,
                k,
            ) - counter_at(model.accounts.metrics, k),
            owed(model, events.last(), k),
        );
    }
}

/// Sums of alike numbers are alike.
proof fn lemma_alike_sums(a: int, b: int, c: int, d: int)
    requires
        crate::metrics::alike(a, b),
        crate::metrics::alike(c, d),
    ensures
        crate::metrics::alike(a + c, b + d),
{
}

/// One event adds what it has to, and a report moves what it tells out of the
/// accounts.
#[verifier::spinoff_prover]
proof fn lemma_event_is_counted(model: ExporterModel, event: ExporterEvent, k: int)
    requires
        model.wf(),
        model.can_happen(event),
        0 <= k < 12,
    ensures
        crate::metrics::alike(
            told(model, event, k) + counter_at(model.next(event).accounts.metrics, k) - counter_at(
                model.accounts.metrics,
                k,
            ),
            owed(model, event, k),
        ),
{
    let before = counter_at(model.accounts.metrics, k);
    match event {
        ExporterEvent::Item(item) => {
            let count = item.transactions().len();
            crate::service::law_submitting_moves_two_counters(model.accounts, count);
            law_events_are_answered(model, event);
            lemma_counter_moved(before, owed(model, event, k) as nat);
        },
        ExporterEvent::CallFinished { outcome, transaction_bytes, elapsed } => {
            crate::service::law_calls_end_in_one_of_three_ways(
                model.accounts,
                outcome,
                transaction_bytes,
                elapsed,
            );
            assert(1 * transaction_bytes as nat == transaction_bytes) by (nonlinear_arith);
            assert(0 * transaction_bytes as nat == 0) by (nonlinear_arith);
            lemma_counter_moved(before, owed(model, event, k) as nat);
        },
        ExporterEvent::Counted(counters) => {
            crate::service::law_parts_are_absorbed_whole(model.accounts, counters);
            lemma_counter_moved(before, counter_at(counters, k) as nat);
        },
        ExporterEvent::ReportDue { queue_depth } => {
            law_reports_show_what_is_pending(model, queue_depth);
            crate::service::law_reports_reset_the_counters(model.accounts);
            crate::metrics::law_readings_keep_the_bits(before);
        },
        _ => {},
    }
}

/// A counter moves by what is added to it.
proof fn lemma_counter_moved(counter: u64, amount: nat)
    ensures
        crate::metrics::alike(crate::metrics::bump(counter, amount) - counter, amount as int),
        crate::metrics::bump(counter, 0) == counter,
{
    crate::metrics::law_counters_count(counter, amount);
}

/// Reports are due every two seconds, and calls under way get two seconds to
/// end on shutdown.
pub proof fn law_timings()
    ensures
        METRICS_REPORT_INTERVAL_MS == 2 * 1_000,
        SHUTDOWN_DRAIN_TIMEOUT_MS == 2 * 1_000,
{
}

} // verus!
