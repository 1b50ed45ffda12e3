//! The handle that the sigverify workers export through.
use vstd::prelude::*;
use std::sync::Arc;
use std::time::Instant;
use solana_perf::packet::PacketBatch;
use crate::clock::{unix_nanos_now, whole_micros};
use crate::config::CircularExportConfig;
use crate::event::{ExportItem, SharedVerifiedBatch, VerifiedPacketBatch, build_owned_batch};
use crate::metrics::{CircularExportMetrics, add_to_counter};
use crate::packets::batch_len;
use crate::queue::{another_handle, bounded_queue, is_full, offer};
use crate::shared::SharedMetrics;

verus! {

/// Strategy used by [`CircularExportSender::export_verified`]. Production
/// always takes the `Arc` (shared) path; the others let a benchmark drive the
/// real sigverify hook through each strategy.
#[derive(Clone, Copy, Debug, PartialEq, Eq, Structural)]
pub enum HookMode {
    /// Sender present but the hook does nothing (isolates the branch cost).
    Disabled,
    /// Copy the wire bytes on the sigverify thread.
    Copy,
    /// Production path: clone the shared `Arc`, defer the copy to the exporter.
    Arc,
}

/// What a sender handle has done, as a mathematical value.
#[verifier::ext_equal]
pub struct SenderModel {
    /// The items that the queue accepted from this handle, in order.
    pub accepted: Seq<ExportItem>,
    /// The number of times that the queue turned this handle down.
    pub refusals: nat,
    /// The ends that the queue is read from.
    pub receivers: Set<crossbeam_channel::Receiver<ExportItem>>,
    /// The number of items that the queue can hold.
    pub queue_limit: usize,
    /// What this handle counted.
    pub ledger: CircularExportMetrics,
    /// The counters that it shares with every other handle.
    pub shared: Arc<SharedMetrics>,
    /// Whether votes are exported.
    pub include_votes: bool,
    /// The strategy of the hook.
    pub mode: HookMode,
}

impl SenderModel {
    /// The item went into the queue and was counted as `count` transactions.
    pub open spec fn accepting(self, item: ExportItem, count: u64) -> Self {
        SenderModel {
            accepted: self.accepted.push(item),
            ledger: self.ledger.enqueued(count),
            ..self
        }
    }

    /// The queue turned a batch of `count` transactions down, which was dropped
    /// and counted.
    pub open spec fn dropping(self, count: u64) -> Self {
        SenderModel { refusals: self.refusals + 1, ledger: self.ledger.dropped(count), ..self }
    }

    /// The hook ran for `hook_us` micros and copied `copy_bytes` bytes.
    pub open spec fn hooking(self, hook_us: u64, copy_bytes: u64) -> Self {
        SenderModel { ledger: self.ledger.hooked(hook_us, copy_bytes), ..self }
    }

    /// The queue element of a BAM batch shared at the time `now`: simple votes
    /// are filtered out unless votes are exported.
    pub open spec fn bam_item(self, batches: Arc<Vec<PacketBatch>>, now: u64) -> ExportItem {
        shared_item(batches, false, !self.include_votes, now)
    }

    /// The item was offered to the queue: it is either accepted, or turned down
    /// and dropped, and counted as `count` transactions in either case, by the handle and in the
    /// shared counters.
    pub open spec fn offered(self, after: Self, item: ExportItem, count: u64) -> bool {
        ||| {
            &&& after == self.accepting(item, count)
            &&& self.shared.takes_up(CircularExportMetrics::zero().enqueued(count))
        }
        ||| {
            &&& after == self.dropping(count)
            &&& self.shared.takes_up(CircularExportMetrics::zero().dropped(count))
        }
    }

    /// A handle to a queue of that size through which nothing went yet, with
    /// shared counters that start at zero.
    pub open spec fn opened(self, queue_limit: usize, include_votes: bool, mode: HookMode) -> bool {
        &&& self.accepted.len() == 0
        &&& self.refusals == 0
        &&& self.queue_limit == queue_limit
        &&& self.ledger == CircularExportMetrics::zero()
        &&& self.shared.starts_over()
        &&& self.include_votes == include_votes
        &&& self.mode == mode
    }
}

/// The queue element of a batch shared at the time `now`.
pub open spec fn shared_item(
    batches: Arc<Vec<PacketBatch>>,
    is_tpu_vote: bool,
    filter_simple_votes: bool,
    now: u64,
) -> ExportItem {
    ExportItem::Shared(
        SharedVerifiedBatch {
            batches,
            is_tpu_vote,
            filter_simple_votes,
            received_at_unix_nanos: now,
        },
    )
}

/// A batch was shared with the exporter at the time it was when that was done:
/// it was offered to the queue, accepted or dropped, and counted.
pub open spec fn offers_shared(
    before: SenderModel,
    after: SenderModel,
    batches: Arc<Vec<PacketBatch>>,
    is_tpu_vote: bool,
    filter_simple_votes: bool,
) -> bool {
    exists|now: u64|
        {
            &&& crate::clock::is_unix_now(now)
            &&& before.offered(
                after,
                #[trigger] shared_item(batches, is_tpu_vote, filter_simple_votes, now),
                counted(shared_item(batches, is_tpu_vote, filter_simple_votes, now)),
            )
        }
}

/// What an item is counted as: its packets, in a counter that wraps around.
pub open spec fn counted(item: ExportItem) -> u64 {
    crate::metrics::bump(0, item.packet_count())
}

/// Handle given to the sigverify workers. Sending never blocks and never
/// returns an error to the caller: a full queue or a dead exporter results
/// in a counted drop, the validator pipeline is unaffected.
///
/// All handles add to one set of shared counters. Beside it, every handle keeps
/// a ledger of what went through itself.
pub struct CircularExportSender {
    sender: crossbeam_channel::Sender<ExportItem>,
    ledger: CircularExportMetrics,
    shared: Arc<SharedMetrics>,
    include_votes: bool,
    mode: HookMode,
}

impl View for CircularExportSender {
    type V = SenderModel;

    closed spec fn view(&self) -> SenderModel {
        SenderModel {
            accepted: crate::queue::accepted_items(self.sender),
            refusals: crate::queue::refusals(self.sender),
            receivers: crate::queue::receiving_ends(self.sender),
            queue_limit: crate::queue::queue_limit(self.sender),
            ledger: self.ledger,
            shared: self.shared,
            include_votes: self.include_votes,
            mode: self.mode,
        }
    }
}

/// The number of packets in `batches`, in a counter that wraps around.
pub fn count_packets(batches: &Vec<PacketBatch>) -> (count: u64)
    ensures
        count == crate::metrics::bump(0, crate::packets::all_packets(batches@).len()),
{
    let mut count: u64 = 0;
    let mut i: usize = 0;
    assert(batches@.take(0) =~= Seq::empty());
    while i < batches.len()
        invariant
            i <= batches.len(),
            count == crate::metrics::bump(
                0,
                crate::packets::all_packets(batches@.take(i as int)).len(),
            ),
        decreases batches.len() - i,
    {
        let len: usize = batch_len(&batches[i]);
        proof {
            assert(batches@.take(i + 1).drop_last() =~= batches@.take(i as int));
            assert(batches@.take(i + 1).last() == batches@[i as int]);
            crate::metrics::law_bumps_compose(
                0,
                crate::packets::all_packets(batches@.take(i as int)).len(),
                len as nat,
            );
        }
        count = add_to_counter(count, len as u64);
        i = i + 1;
    }
    assert(batches@.take(i as int) =~= batches@);
    count
}

impl CircularExportSender {
    /// A handle to `sender` that has counted nothing yet and adds to `shared`.
    pub(crate) fn new(
        sender: crossbeam_channel::Sender<ExportItem>,
        shared: Arc<SharedMetrics>,
        include_votes: bool,
    ) -> (handle: Self)
        ensures
            handle@ == (SenderModel {
                accepted: crate::queue::accepted_items(sender),
                refusals: crate::queue::refusals(sender),
                receivers: crate::queue::receiving_ends(sender),
                queue_limit: crate::queue::queue_limit(sender),
                ledger: CircularExportMetrics::zero(),
                shared,
                include_votes,
                mode: HookMode::Arc,
            }),
    {
        CircularExportSender {
            sender,
            ledger: CircularExportMetrics::default(),
            shared,
            include_votes,
            mode: HookMode::Arc,
        }
    }

    /// Opens the export queue that `config` asks for: the handle to wire into
    /// the sigverify workers, and the end that the exporter reads.
    pub fn open(config: &CircularExportConfig) -> (ends: (
        Self,
        crossbeam_channel::Receiver<ExportItem>,
    ))
        requires
            config.queue_capacity <= usize::MAX / 128,
        ensures
            ends.0@.opened(config.queue_capacity, config.include_votes, HookMode::Arc),
            ends.0@.receivers.contains(ends.1),
    {
        let (sender, receiver) = bounded_queue(config.queue_capacity);
        let shared = Arc::new(SharedMetrics::default());
        (CircularExportSender::new(sender, shared, config.include_votes), receiver)
    }

    /// Build a sender backed by a plain bounded channel, without an exporter.
    /// Lets tests and benchmarks inspect exactly what the sigverify hook hands
    /// to the exporter.
    pub fn new_for_tests(queue_capacity: usize, include_votes: bool) -> (ends: (
        Self,
        crossbeam_channel::Receiver<ExportItem>,
    ))
        requires
            queue_capacity <= usize::MAX / 128,
        ensures
            ends.0@.opened(queue_capacity, include_votes, HookMode::Arc),
            ends.0@.receivers.contains(ends.1),
    {
        let (sender, receiver) = bounded_queue(queue_capacity);
        let shared = Arc::new(SharedMetrics::default());
        (CircularExportSender::new(sender, shared, include_votes), receiver)
    }

    /// Like [`new_for_tests`] but pins the [`HookMode`] driven by
    /// [`export_verified`].
    ///
    /// [`new_for_tests`]: CircularExportSender::new_for_tests
    /// [`export_verified`]: CircularExportSender::export_verified
    pub fn new_for_tests_with_mode(
        queue_capacity: usize,
        include_votes: bool,
        mode: HookMode,
    ) -> (ends: (Self, crossbeam_channel::Receiver<ExportItem>))
        requires
            queue_capacity <= usize::MAX / 128,
        ensures
            ends.0@.opened(queue_capacity, include_votes, mode),
            ends.0@.receivers.contains(ends.1),
    {
        let (sender, receiver) = bounded_queue(queue_capacity);
        let shared = Arc::new(SharedMetrics::default());
        let mut handle = CircularExportSender::new(sender, shared, include_votes);
        handle.mode = mode;
        (handle, receiver)
    }

    /// Whether TPU vote transactions should be exported.
    pub fn include_votes(&self) -> (include_votes: bool)
        ensures
            include_votes == self@.include_votes,
    {
        self.include_votes
    }

    /// What the shared counters read now: what all handles and the exporter
    /// counted since the last report.
    pub fn metrics(&self) -> (metrics: CircularExportMetrics)
        ensures
            self@.shared.shows(metrics),
    {
        self.shared.read()
    }

    /// The shared counters.
    pub fn shared_metrics(&self) -> (shared: Arc<SharedMetrics>)
        ensures
            shared == self@.shared,
    {
        self.shared.clone()
    }

    /// What this handle has counted so far.
    pub fn ledger(&self) -> (ledger: CircularExportMetrics)
        ensures
            ledger == self@.ledger,
    {
        self.ledger
    }

    /// Entry point called by the sigverify hook, by the strategy of the
    /// [`HookMode`]. The production strategy takes the shared `Arc` path (an
    /// atomic refcount bump; the wire-byte copy and discard filtering happen
    /// later, in the exporter).
    pub fn export_verified(&mut self, batches: &Arc<Vec<PacketBatch>>, is_tpu_vote: bool)
        ensures
            ({
                let owned = crate::event::owned_packets(
                    crate::packets::all_packets(batches@),
                    is_tpu_vote,
                );
                match old(self)@.mode {
                    HookMode::Disabled => final(self)@ == old(self)@,
                    HookMode::Copy => if owned.len() == 0 {
                        final(self)@ == old(self)@
                    } else {
                        exists|batch: VerifiedPacketBatch|
                            {
                                &&& crate::event::packet_views(batch.packets@) == owned
                                &&& crate::clock::is_unix_now(batch.received_at_unix_nanos)
                                &&& #[trigger] old(self)@.offered(
                                    final(self)@,
                                    ExportItem::Owned(batch),
                                    counted(ExportItem::Owned(batch)),
                                )
                            }
                    },
                    HookMode::Arc => {
                        &&& offers_shared(old(self)@, final(self)@, *batches, is_tpu_vote, false)
                        &&& old(self)@.queue_limit == 0 ==> final(self)@ == old(self)@.dropping(
                            counted(shared_item(*batches, is_tpu_vote, false, 0)),
                        )
                    },
                }
            }),
    {
        match self.mode {
            HookMode::Disabled => {},
            HookMode::Copy => {
                if let Some((owned, _copy_bytes)) = build_owned_batch(
                    batches.as_slice(),
                    is_tpu_vote,
                ) {
                    self.try_send(owned);
                }
            },
            HookMode::Arc => self.try_send_shared(batches.clone(), is_tpu_vote),
        }
    }

    /// Owned path: the caller has already copied the wire bytes into a
    /// [`VerifiedPacketBatch`] on the sigverify thread.
    pub fn try_send(&mut self, batch: VerifiedPacketBatch)
        ensures
            old(self)@.offered(
                final(self)@,
                ExportItem::Owned(batch),
                counted(ExportItem::Owned(batch)),
            ),
    {
        let transaction_count: u64 = batch.packets.len() as u64;
        self.enqueue(ExportItem::Owned(batch), transaction_count);
    }

    /// Offers an item to the queue and counts it as `transaction_count`
    /// transactions, enqueued or dropped.
    fn enqueue(&mut self, item: ExportItem, transaction_count: u64)
        ensures
            old(self)@.offered(final(self)@, item, transaction_count),
    {
        let accepted = offer(&mut self.sender, item);
        self.count_offer(accepted, transaction_count);
    }

    /// Counts a batch of `count` transactions that was offered to the queue, in
    /// the ledger and in the shared counters.
    fn count_offer(&mut self, accepted: bool, count: u64)
        ensures
            final(self)@ == (SenderModel {
                ledger: if accepted {
                    old(self)@.ledger.enqueued(count)
                } else {
                    old(self)@.ledger.dropped(count)
                },
                ..old(self)@
            }),
            old(self)@.shared.takes_up(
                if accepted {
                    CircularExportMetrics::zero().enqueued(count)
                } else {
                    CircularExportMetrics::zero().dropped(count)
                },
            ),
    {
        let mut counted = CircularExportMetrics::default();
        counted.record_offer(accepted, count);
        self.shared.add_counts(counted);
        self.ledger.record_offer(accepted, count);
    }

    /// Shared path: hand the exporter an `Arc<Vec<PacketBatch>>`. The hot path
    /// only pays an `Arc` clone plus this enqueue; the wire-byte copy and
    /// discard filtering happen later, in the exporter.
    ///
    /// When the queue is already full the batch is dropped immediately, so
    /// nothing is retained and no copy is ever scheduled for it.
    pub fn try_send_shared(&mut self, batches: Arc<Vec<PacketBatch>>, is_tpu_vote: bool)
        ensures
            offers_shared(old(self)@, final(self)@, batches, is_tpu_vote, false),
            old(self)@.queue_limit == 0 ==> final(self)@ == old(self)@.dropping(
                counted(shared_item(batches, is_tpu_vote, false, 0)),
            ),
    {
        self.try_send_shared_with_vote_filter(batches, is_tpu_vote, false);
    }

    /// Like [`try_send_shared`], but when `filter_simple_votes` is true the
    /// exporter skips `SIMPLE_VOTE_TX` packets (BAM mixed batches).
    ///
    /// [`try_send_shared`]: CircularExportSender::try_send_shared
    pub fn try_send_shared_with_vote_filter(
        &mut self,
        batches: Arc<Vec<PacketBatch>>,
        is_tpu_vote: bool,
        filter_simple_votes: bool,
    )
        ensures
            offers_shared(old(self)@, final(self)@, batches, is_tpu_vote, filter_simple_votes),
            old(self)@.queue_limit == 0 ==> final(self)@ == old(self)@.dropping(
                counted(shared_item(batches, is_tpu_vote, filter_simple_votes, 0)),
            ),
    {
        self.try_send_shared_at(batches, is_tpu_vote, filter_simple_votes, unix_nanos_now());
    }

    /// The shared path at the time `now`. The packets are only counted here, so
    /// that the enqueued and dropped counters mean the same as on the owned
    /// path.
    pub fn try_send_shared_at(
        &mut self,
        batches: Arc<Vec<PacketBatch>>,
        is_tpu_vote: bool,
        filter_simple_votes: bool,
        now: u64,
    )
        ensures
            old(self)@.offered(
                final(self)@,
                shared_item(batches, is_tpu_vote, filter_simple_votes, now),
                counted(shared_item(batches, is_tpu_vote, filter_simple_votes, now)),
            ),
            old(self)@.queue_limit == 0 ==> final(self)@ == old(self)@.dropping(
                counted(shared_item(batches, is_tpu_vote, filter_simple_votes, now)),
            ),
    {
        let transaction_count: u64 = count_packets(&batches);
        if is_full(&mut self.sender) {
            self.count_offer(false, transaction_count);
            return;
        }
        let item = ExportItem::Shared(
            SharedVerifiedBatch {
                batches,
                is_tpu_vote,
                filter_simple_votes,
                received_at_unix_nanos: now,
            },
        );
        self.enqueue(item, transaction_count);
    }

    /// Record the time spent in the sigverify hook and the bytes copied out
    /// of the packet buffers.
    pub fn record_hook(&mut self, hook_us: u64, copy_bytes: u64)
        ensures
            final(self)@ == old(self)@.hooking(hook_us, copy_bytes),
            old(self)@.shared.takes_up(CircularExportMetrics::zero().hooked(hook_us, copy_bytes)),
    {
        let mut counted = CircularExportMetrics::default();
        counted.record_hook(hook_us, copy_bytes);
        self.shared.add_counts(counted);
        self.ledger.record_hook(hook_us, copy_bytes);
    }

    /// BAM post-sigverify hook (Arc path): share the verified batch with the
    /// exporter. Hot path cost is an `Arc` clone; vote filtering and wire-byte
    /// copy happen in the exporter.
    pub fn export_bam_shared(&mut self, batches: Arc<Vec<PacketBatch>>)
        ensures
            exists|hook_us: u64, sent: SenderModel|
                {
                    &&& offers_shared(old(self)@, sent, batches, false, !old(self)@.include_votes)
                    &&& old(self)@.queue_limit == 0 ==> sent == old(self)@.dropping(
                        counted(old(self)@.bam_item(batches, 0)),
                    )
                    &&& crate::clock::is_measured(hook_us)
                    &&& final(self)@ == #[trigger] sent.hooking(hook_us, 0)
                    &&& sent.shared.takes_up(CircularExportMetrics::zero().hooked(hook_us, 0))
                },
    {
        let start = Instant::now();
        let filter_simple_votes = !self.include_votes;
        self.try_send_shared_with_vote_filter(batches, false, filter_simple_votes);
        let ghost sent = self@;
        let elapsed = start.elapsed();
        let hook_us: u64 = whole_micros(elapsed);
        assert(call_ensures(Instant::elapsed, (&start,), elapsed));
        self.record_hook(hook_us, 0);
        assert(self@ == sent.hooking(hook_us, 0));
    }
}

impl Clone for CircularExportSender {
    /// Another handle to the same queue and the same shared counters, with a
    /// ledger of its own.
    fn clone(&self) -> (handle: Self)
        ensures
            handle@ == (SenderModel {
                accepted: Seq::empty(),
                refusals: 0,
                ledger: CircularExportMetrics::zero(),
                ..self@
            }),
    {
        CircularExportSender {
            sender: another_handle(&self.sender),
            ledger: CircularExportMetrics::default(),
            shared: self.shared.clone(),
            include_votes: self.include_votes,
            mode: self.mode,
        }
    }
}

/// The total number of packets in `items`.
pub open spec fn total_packets(items: Seq<ExportItem>) -> nat
    decreases items.len(),
{
    if items.len() == 0 {
        0
    } else {
        total_packets(items.drop_last()) + items.last().packet_count()
    }
}

/// `part` is what is left of `whole` when some of its items are left out.
pub open spec fn leaves_out(part: Seq<ExportItem>, whole: Seq<ExportItem>) -> bool
    decreases whole.len(),
{
    if whole.len() == 0 {
        part.len() == 0
    } else {
        ||| leaves_out(part, whole.drop_last())
        ||| part.len() > 0 && part.last() == whole.last() && leaves_out(
            part.drop_last(),
            whole.drop_last(),
        )
    }
}

/// The states of a handle, from a fresh one on, as `items` are offered through
/// it one after the other.
pub open spec fn offering(states: Seq<SenderModel>, items: Seq<ExportItem>) -> bool
    decreases items.len(),
{
    &&& states.len() == items.len() + 1
    &&& if items.len() == 0 {
        &&& states[0].accepted.len() == 0
        &&& states[0].refusals == 0
        &&& states[0].ledger == CircularExportMetrics::zero()
    } else {
        &&& offering(states.drop_last(), items.drop_last())
        &&& states[items.len() - 1].offered(states.last(), items.last(), counted(items.last()))
    }
}

/// One more offer keeps the accounts.
pub proof fn lemma_offer_is_accounted(
    before: SenderModel,
    after: SenderModel,
    item: ExportItem,
    rest: Seq<ExportItem>,
)
    requires
        before.offered(after, item, counted(item)),
        crate::metrics::bump(before.ledger.dropped_batches, before.accepted.len())
            == crate::metrics::bump(0, rest.len()),
        crate::metrics::bump(
            before.ledger.enqueued_transactions,
            before.ledger.dropped_transactions as nat,
        ) == crate::metrics::bump(0, total_packets(rest)),
        before.ledger.enqueued_transactions == crate::metrics::bump(
            0,
            total_packets(before.accepted),
        ),
    ensures
        crate::metrics::bump(after.ledger.dropped_batches, after.accepted.len())
            == crate::metrics::bump(0, rest.len() + 1),
        crate::metrics::bump(
            after.ledger.enqueued_transactions,
            after.ledger.dropped_transactions as nat,
        ) == crate::metrics::bump(0, total_packets(rest) + item.packet_count()),
        after.ledger.enqueued_transactions == crate::metrics::bump(
            0,
            total_packets(after.accepted),
        ),
{
    let amount = item.packet_count();
    assert(before.accepted.push(item).drop_last() =~= before.accepted);
    crate::metrics::lemma_counted_in_full(before.ledger.enqueued_transactions, amount);
    crate::metrics::lemma_counted_in_full(before.ledger.dropped_transactions, amount);
    crate::metrics::lemma_sum_grows(
        before.ledger.dropped_batches,
        before.accepted.len(),
        rest.len(),
        1,
    );
    crate::metrics::lemma_sum_grows(
        before.ledger.enqueued_transactions,
        before.ledger.dropped_transactions as nat,
        total_packets(rest),
        amount,
    );
    crate::metrics::law_bumps_compose(0, total_packets(before.accepted), amount);
}

/// Nothing vanishes at the queue. Whatever the queue answers, every batch
/// offered is either accepted or counted as dropped, every transaction is
/// counted exactly once, as enqueued or as dropped, and the enqueued counter
/// is that of the accepted batches. Counters wrap around.
pub proof fn law_every_offer_is_accounted(states: Seq<SenderModel>, items: Seq<ExportItem>)
    requires
        offering(states, items),
    ensures
        ({
            let end = states.last();
            &&& crate::metrics::bump(end.ledger.dropped_batches, end.accepted.len())
                == crate::metrics::bump(0, items.len())
            &&& crate::metrics::bump(
                end.ledger.enqueued_transactions,
                end.ledger.dropped_transactions as nat,
            ) == crate::metrics::bump(0, total_packets(items))
            &&& end.ledger.enqueued_transactions == crate::metrics::bump(
                0,
                total_packets(end.accepted),
            )
        }),
    decreases items.len(),
{
    if items.len() > 0 {
        let rest = items.drop_last();
        let before = states[items.len() - 1];
        let item = items.last();
        assert(states.drop_last().last() == before);
        law_every_offer_is_accounted(states.drop_last(), rest);
        assert(before.accepted.push(item).drop_last() =~= before.accepted);
        lemma_offer_is_accounted(before, states.last(), item, rest);
    }
}

/// The accepted batches are the offered ones in their order, some left out.
pub proof fn law_accepted_batches_keep_their_order(
    states: Seq<SenderModel>,
    items: Seq<ExportItem>,
)
    requires
        offering(states, items),
    ensures
        leaves_out(states.last().accepted, items),
    decreases items.len(),
{
    if items.len() > 0 {
        let before = states[items.len() - 1];
        assert(states.drop_last().last() == before);
        law_accepted_batches_keep_their_order(states.drop_last(), items.drop_last());
        assert(before.accepted.push(items.last()).drop_last() =~= before.accepted);
    }
}

/// Drops are the queue's doing: as many batches are counted as dropped as the
/// queue turned down, and every other batch is in it. Counters wrap around.
pub proof fn law_drops_are_refusals(states: Seq<SenderModel>, items: Seq<ExportItem>)
    requires
        offering(states, items),
    ensures
        states.last().ledger.dropped_batches == crate::metrics::bump(0, states.last().refusals),
        states.last().accepted.len() + states.last().refusals == items.len(),
    decreases items.len(),
{
    if items.len() > 0 {
        let before = states[items.len() - 1];
        assert(states.drop_last().last() == before);
        law_drops_are_refusals(states.drop_last(), items.drop_last());
        crate::metrics::law_bumps_compose(0, before.refusals, 1);
    }
}

/// An offer touches nothing but the queue and its own counters: not the
/// counters of the submissions, nor the configuration of the handle.
pub proof fn law_offers_leave_the_rest_alone(
    before: SenderModel,
    after: SenderModel,
    item: ExportItem,
    count: u64,
)
    requires
        before.offered(after, item, count),
    ensures
        after.receivers == before.receivers,
        after.queue_limit == before.queue_limit,
        after.include_votes == before.include_votes,
        after.mode == before.mode,
        after.ledger == (CircularExportMetrics {
            enqueued_transactions: after.ledger.enqueued_transactions,
            dropped_batches: after.ledger.dropped_batches,
            dropped_transactions: after.ledger.dropped_transactions,
            ..before.ledger
        }),
{
}

/// An offer ends in one of two ways. Either the item is in the queue, behind
/// those accepted before, and its transactions are counted as enqueued; or the
/// queue turned it down, and it is counted as one dropped batch of so many
/// dropped transactions. In either case the shared counters are asked for the
/// same, and nothing else changes.
pub proof fn law_offers_end_in_one_of_two_ways(
    before: SenderModel,
    after: SenderModel,
    item: ExportItem,
    count: u64,
)
    requires
        before.offered(after, item, count),
    ensures
        ({
            ||| {
                &&& after.accepted == before.accepted.push(item)
                &&& after.refusals == before.refusals
                &&& after.ledger.enqueued_transactions == crate::metrics::bump(
                    before.ledger.enqueued_transactions,
                    count as nat,
                )
                &&& after.ledger.dropped_batches == before.ledger.dropped_batches
                &&& after.ledger.dropped_transactions == before.ledger.dropped_transactions
                &&& count > 0 ==> crate::shared::is_asked_to_add(
                    before.shared.enqueued_transactions,
                    count,
                )
            }
            ||| {
                &&& after.accepted == before.accepted
                &&& after.refusals == before.refusals + 1
                &&& after.ledger.enqueued_transactions == before.ledger.enqueued_transactions
                &&& after.ledger.dropped_batches == crate::metrics::bump(
                    before.ledger.dropped_batches,
                    1,
                )
                &&& after.ledger.dropped_transactions == crate::metrics::bump(
                    before.ledger.dropped_transactions,
                    count as nat,
                )
                &&& crate::shared::is_asked_to_add(before.shared.dropped_batches, 1)
                &&& count > 0 ==> crate::shared::is_asked_to_add(
                    before.shared.dropped_transactions,
                    count,
                )
            }
        }),
        after.shared == before.shared,
        after.receivers == before.receivers,
        after.queue_limit == before.queue_limit,
        after.include_votes == before.include_votes,
        after.mode == before.mode,
        (CircularExportMetrics {
            enqueued_transactions: before.ledger.enqueued_transactions,
            dropped_batches: before.ledger.dropped_batches,
            dropped_transactions: before.ledger.dropped_transactions,
            ..after.ledger
        }) == before.ledger,
{
    crate::metrics::law_counters_count(0, 1);
    crate::metrics::law_counters_count(0, count as nat);
}

/// A run of the hook adds its time and bytes to what was counted before, and
/// changes nothing else.
pub proof fn law_hooks_add_up(before: SenderModel, hook_us: u64, copy_bytes: u64)
    ensures
        ({
            let after = before.hooking(hook_us, copy_bytes);
            &&& after.ledger.hook_us == crate::metrics::bump(
                before.ledger.hook_us,
                hook_us as nat,
            )
            &&& after.ledger.copy_bytes == crate::metrics::bump(
                before.ledger.copy_bytes,
                copy_bytes as nat,
            )
            &&& (SenderModel {
                ledger: CircularExportMetrics {
                    hook_us: before.ledger.hook_us,
                    copy_bytes: before.ledger.copy_bytes,
                    ..after.ledger
                },
                ..after
            }) == before
        }),
{
}

/// What is shared is the batch itself, with its flags and time. The BAM hook
/// shares it as no batch of votes, to be rid of simple votes exactly unless
/// votes are exported.
pub proof fn law_shared_items_carry_the_batch(
    sender: SenderModel,
    batches: Arc<Vec<PacketBatch>>,
    is_tpu_vote: bool,
    filter_simple_votes: bool,
    now: u64,
)
    ensures
        shared_item(batches, is_tpu_vote, filter_simple_votes, now) matches ExportItem::Shared(
            shared,
        ) && {
            &&& shared.batches == batches
            &&& shared.is_tpu_vote == is_tpu_vote
            &&& shared.filter_simple_votes == filter_simple_votes
            &&& shared.received_at_unix_nanos == now
        },
        sender.bam_item(batches, now) matches ExportItem::Shared(shared) && {
            &&& shared.batches == batches
            &&& !shared.is_tpu_vote
            &&& shared.filter_simple_votes == !sender.include_votes
            &&& shared.received_at_unix_nanos == now
        },
{
}

/// Sharing a batch offers one item: that batch, as it was asked for, at the
/// time of the clock. It goes into the queue or is turned down, and counts as
/// all its packets.
pub proof fn law_sharing_offers_the_batch(
    before: SenderModel,
    after: SenderModel,
    batches: Arc<Vec<PacketBatch>>,
    is_tpu_vote: bool,
    filter_simple_votes: bool,
)
    requires
        offers_shared(before, after, batches, is_tpu_vote, filter_simple_votes),
    ensures
        ({
            let packets = crate::packets::all_packets(batches@).len();
            ||| exists|now: u64|
                {
                    &&& #[trigger] crate::clock::is_unix_now(now)
                    &&& after.accepted == before.accepted.push(
                        ExportItem::Shared(
                            SharedVerifiedBatch {
                                batches,
                                is_tpu_vote,
                                filter_simple_votes,
                                received_at_unix_nanos: now,
                            },
                        ),
                    )
                    &&& after.ledger.enqueued_transactions == crate::metrics::bump(
                        before.ledger.enqueued_transactions,
                        packets,
                    )
                }
            ||| {
                &&& after.accepted == before.accepted
                &&& after.refusals == before.refusals + 1
                &&& after.ledger.dropped_transactions == crate::metrics::bump(
                    before.ledger.dropped_transactions,
                    packets,
                )
            }
        }),
{
    let now = choose|now: u64|
        {
            &&& crate::clock::is_unix_now(now)
            &&& before.offered(
                after,
                #[trigger] shared_item(batches, is_tpu_vote, filter_simple_votes, now),
                counted(shared_item(batches, is_tpu_vote, filter_simple_votes, now)),
            )
        };
    let item = shared_item(batches, is_tpu_vote, filter_simple_votes, now);
    assert(crate::clock::is_unix_now(now));
    law_offers_end_in_one_of_two_ways(before, after, item, counted(item));
    crate::metrics::lemma_counted_in_full(
        before.ledger.enqueued_transactions,
        item.packet_count(),
    );
    crate::metrics::lemma_counted_in_full(
        before.ledger.dropped_transactions,
        item.packet_count(),
    );
}

/// An item counts as the number of its packets, as long as that fits.
pub proof fn law_items_count_in_full(item: ExportItem)
    ensures
        item.packet_count() <= u64::MAX ==> counted(item) == item.packet_count(),
        crate::metrics::alike(counted(item) as int, item.packet_count() as int),
{
    crate::metrics::law_counters_count(0, item.packet_count());
}

/// A new handle is what was asked for and has done nothing.
pub proof fn law_new_handles_have_done_nothing(
    handle: SenderModel,
    queue_limit: usize,
    include_votes: bool,
    mode: HookMode,
)
    requires
        handle.opened(queue_limit, include_votes, mode),
    ensures
        handle.queue_limit == queue_limit,
        handle.include_votes == include_votes,
        handle.mode == mode,
        handle.accepted.len() == 0,
        handle.refusals == 0,
        handle.ledger.enqueued_transactions == 0,
        handle.ledger.dropped_batches == 0,
        handle.ledger.dropped_transactions == 0,
        handle.ledger.hook_us == 0,
        handle.ledger.copy_bytes == 0,
        handle.shared.starts_over(),
{
}

} // verus!
