//! What holds of all sender handles together, and of the strategies of the hook.
use vstd::prelude::*;
use std::sync::Arc;
use solana_perf::packet::PacketBatch;
use crate::event::{ExportItem, VerifiedPacketBatch};
use crate::metrics::CircularExportMetrics;
use crate::sender::SenderModel;

verus! {

/// The ledgers of the handles, added up.
pub open spec fn totals(handles: Seq<SenderModel>) -> CircularExportMetrics
    decreases handles.len(),
{
    if handles.len() == 0 {
        CircularExportMetrics::zero()
    } else {
        totals(handles.drop_last()).plus(handles.last().ledger)
    }
}

/// The number of items that the queue accepted from the handles.
pub open spec fn total_accepted(handles: Seq<SenderModel>) -> nat
    decreases handles.len(),
{
    if handles.len() == 0 {
        0
    } else {
        total_accepted(handles.drop_last()) + handles.last().accepted.len()
    }
}

/// One handle offered an item, and the others did nothing.
pub open spec fn one_offers(
    before: Seq<SenderModel>,
    after: Seq<SenderModel>,
    handle: int,
    item: ExportItem,
) -> bool {
    &&& 0 <= handle < before.len()
    &&& after == before.update(handle, after[handle])
    &&& before[handle].offered(after[handle], item, crate::sender::counted(item))
}

/// The states of all handles, from fresh ones on, as each of `offers` is made
/// through the handle it names. A handle that is cloned on the way is one that
/// has offered nothing until then.
pub open spec fn offering_through(
    states: Seq<Seq<SenderModel>>,
    offers: Seq<(int, ExportItem)>,
) -> bool
    decreases offers.len(),
{
    &&& states.len() == offers.len() + 1
    &&& if offers.len() == 0 {
        forall|h: int|
            0 <= h < states[0].len() ==> {
                &&& (#[trigger] states[0][h]).accepted.len() == 0
                &&& states[0][h].ledger == CircularExportMetrics::zero()
            }
    } else {
        &&& offering_through(states.drop_last(), offers.drop_last())
        &&& one_offers(
            states[offers.len() - 1],
            states.last(),
            offers.last().0,
            offers.last().1,
        )
    }
}

/// The items offered, in order.
pub open spec fn offered_items(offers: Seq<(int, ExportItem)>) -> Seq<ExportItem> {
    offers.map_values(|offer: (int, ExportItem)| offer.1)
}

/// The items that went into the queue, in the order of the offers.
pub open spec fn queued_items(
    states: Seq<Seq<SenderModel>>,
    offers: Seq<(int, ExportItem)>,
) -> Seq<ExportItem>
    decreases offers.len(),
{
    if offers.len() == 0 {
        Seq::empty()
    } else {
        let queued = queued_items(states.drop_last(), offers.drop_last());
        let handle = offers.last().0;
        if states.last()[handle].accepted.len() > states[offers.len() - 1][handle].accepted.len() {
            queued.push(offers.last().1)
        } else {
            queued
        }
    }
}

/// What one handle counts more, all handles together count more.
proof fn lemma_totals_follow(
    handles: Seq<SenderModel>,
    handle: int,
    changed: SenderModel,
    count: u64,
)
    requires
        0 <= handle < handles.len(),
    ensures
        changed.ledger == handles[handle].ledger.enqueued(count) ==> totals(
            handles.update(handle, changed),
        ) == totals(handles).enqueued(count),
        changed.ledger == handles[handle].ledger.dropped(count) ==> totals(
            handles.update(handle, changed),
        ) == totals(handles).dropped(count),
        total_accepted(handles.update(handle, changed)) == total_accepted(handles)
            + changed.accepted.len() - handles[handle].accepted.len(),
    decreases handles.len(),
{
    let rest = handles.drop_last();
    let last = handles.last();
    let updated = handles.update(handle, changed);
    if handle == handles.len() - 1 {
        assert(updated.drop_last() =~= rest);
        crate::metrics::lemma_plus_counts(totals(rest), last.ledger, count);
    } else {
        lemma_totals_follow(rest, handle, changed, count);
        assert(updated.drop_last() =~= rest.update(handle, changed));
        assert(updated.last() == last);
        crate::metrics::lemma_plus_counts(totals(rest), last.ledger, count);
    }
}

/// Fresh handles have counted nothing and put nothing into the queue.
proof fn lemma_fresh_handles(handles: Seq<SenderModel>)
    requires
        forall|h: int|
            0 <= h < handles.len() ==> {
                &&& (#[trigger] handles[h]).accepted.len() == 0
                &&& handles[h].ledger == CircularExportMetrics::zero()
            },
    ensures
        totals(handles) == CircularExportMetrics::zero(),
        total_accepted(handles) == 0,
    decreases handles.len(),
{
    if handles.len() > 0 {
        let rest = handles.drop_last();
        assert forall|h: int| 0 <= h < rest.len() implies {
            &&& (#[trigger] rest[h]).accepted.len() == 0
            &&& rest[h].ledger == CircularExportMetrics::zero()
        } by {
            assert(rest[h] == handles[h]);
        }
        lemma_fresh_handles(rest);
        assert(handles.last() == handles[handles.len() - 1]);
        crate::metrics::law_totals_do_not_depend_on_order(
            CircularExportMetrics::zero(),
            CircularExportMetrics::zero(),
            CircularExportMetrics::zero(),
        );
    }
}

/// The ledgers of the handles add up to what became of `items`: the batches
/// that are not in the queue are counted as dropped, every transaction is
/// counted once, as enqueued or as dropped, and the enqueued counter is that of
/// the batches in the queue. Counters wrap around.
pub open spec fn accounted(
    handles: Seq<SenderModel>,
    queued: Seq<ExportItem>,
    items: Seq<ExportItem>,
) -> bool {
    let sum = totals(handles);
    &&& crate::metrics::bump(sum.dropped_batches, queued.len()) == crate::metrics::bump(
        0,
        items.len(),
    )
    &&& crate::metrics::bump(sum.enqueued_transactions, sum.dropped_transactions as nat)
        == crate::metrics::bump(0, crate::sender::total_packets(items))
    &&& sum.enqueued_transactions == crate::metrics::bump(
        0,
        crate::sender::total_packets(queued),
    )
}

/// The queue holds `queued` out of `items` in their order, each accepted through
/// one handle, once.
pub open spec fn in_order(
    handles: Seq<SenderModel>,
    queued: Seq<ExportItem>,
    items: Seq<ExportItem>,
) -> bool {
    &&& crate::sender::leaves_out(queued, items)
    &&& total_accepted(handles) == queued.len()
    &&& forall|h: int|
        0 <= h < handles.len() ==> crate::sender::leaves_out(
            (#[trigger] handles[h]).accepted,
            queued,
        )
}

/// One more offer keeps the accounts of the handles.
#[verifier::spinoff_prover]
proof fn lemma_offer_keeps_accounts(
    before: Seq<SenderModel>,
    after: Seq<SenderModel>,
    handle: int,
    item: ExportItem,
    queued: Seq<ExportItem>,
    items: Seq<ExportItem>,
)
    requires
        one_offers(before, after, handle, item),
        accounted(before, queued, items),
    ensures
        accounted(
            after,
            if after[handle].accepted.len() > before[handle].accepted.len() {
                queued.push(item)
            } else {
                queued
            },
            items.push(item),
        ),
{
    let count = crate::sender::counted(item);
    lemma_totals_follow(before, handle, after[handle], count);
    let now_queued = if after[handle].accepted.len() > before[handle].accepted.len() {
        queued.push(item)
    } else {
        queued
    };
    let all_before = SenderModel { accepted: queued, ledger: totals(before), ..before[handle] };
    let all_after = SenderModel { accepted: now_queued, ledger: totals(after), ..after[handle] };
    assert(all_before.offered(all_after, item, count));
    crate::sender::lemma_offer_is_accounted(all_before, all_after, item, items);
    assert(items.push(item).drop_last() =~= items);
}

/// One more offer keeps the order of the queue.
#[verifier::spinoff_prover]
proof fn lemma_offer_keeps_order(
    before: Seq<SenderModel>,
    after: Seq<SenderModel>,
    handle: int,
    item: ExportItem,
    queued: Seq<ExportItem>,
    items: Seq<ExportItem>,
)
    requires
        one_offers(before, after, handle, item),
        in_order(before, queued, items),
    ensures
        in_order(
            after,
            if after[handle].accepted.len() > before[handle].accepted.len() {
                queued.push(item)
            } else {
                queued
            },
            items.push(item),
        ),
{
    lemma_totals_follow(before, handle, after[handle], crate::sender::counted(item));
    assert(queued.push(item).drop_last() =~= queued);
    assert(items.push(item).drop_last() =~= items);
    let now_queued = if after[handle].accepted.len() > before[handle].accepted.len() {
        queued.push(item)
    } else {
        queued
    };
    assert forall|h: int| 0 <= h < after.len() implies crate::sender::leaves_out(
        (#[trigger] after[h]).accepted,
        now_queued,
    ) by {
        assert(crate::sender::leaves_out(before[h].accepted, queued));
        if h == handle {
            assert(before[h].accepted.push(item).drop_last() =~= before[h].accepted);
        } else {
            assert(after[h] == before[h]);
        }
    }
}

/// Nothing vanishes at the queue, through however many handles it is reached.
/// Added up over the handles, every batch offered is accepted or counted as
/// dropped, every transaction is counted exactly once, as enqueued or as
/// dropped, and the enqueued counter is that of the batches in the queue.
/// These are the offered ones in the order of the offers, some left out; each
/// was accepted through one handle, once. Counters wrap around.
#[verifier::spinoff_prover]
pub proof fn law_handles_are_accounted_together(
    states: Seq<Seq<SenderModel>>,
    offers: Seq<(int, ExportItem)>,
)
    requires
        offering_through(states, offers),
    ensures
        accounted(states.last(), queued_items(states, offers), offered_items(offers)),
        in_order(states.last(), queued_items(states, offers), offered_items(offers)),
    decreases offers.len(),
{
    if offers.len() == 0 {
        lemma_fresh_handles(states[0]);
        assert(states.last() == states[0]);
        assert(offered_items(offers) =~= Seq::empty());
    } else {
        let rest = offers.drop_last();
        let before = states[offers.len() - 1];
        let (handle, item) = offers.last();
        let queued = queued_items(states.drop_last(), rest);
        assert(states.drop_last().last() == before);
        law_handles_are_accounted_together(states.drop_last(), rest);
        lemma_offer_keeps_accounts(
            before,
            states.last(),
            handle,
            item,
            queued,
            offered_items(rest),
        );
        lemma_offer_keeps_order(before, states.last(), handle, item, queued, offered_items(rest));
        assert(offered_items(offers) =~= offered_items(rest).push(item));
    }
}

/// Copying and sharing are counted alike: where no packet is discarded and
/// there is one, and the queue gives both the same answer, both hooks change
/// the counters by the same amounts, and both put one item into the queue or
/// none. Neither touches the counters of the submissions, the time of the hook
/// or the bytes it copied.
pub proof fn law_copying_and_sharing_count_alike(
    batches: Arc<Vec<PacketBatch>>,
    is_tpu_vote: bool,
    batch: VerifiedPacketBatch,
    now: u64,
    copying: SenderModel,
    copied: SenderModel,
    sharing: SenderModel,
    shared: SenderModel,
)
    requires
        crate::packets::all_packets(batches@).len() > 0,
        forall|i: int|
            0 <= i < crate::packets::all_packets(batches@).len() ==> (
            #[trigger] crate::packets::all_packets(batches@)[i]).valid(),
        crate::event::packet_views(batch.packets@) == crate::event::owned_packets(
            crate::packets::all_packets(batches@),
            is_tpu_vote,
        ),
        copying.ledger == sharing.ledger,
        copying.offered(
            copied,
            ExportItem::Owned(batch),
            crate::sender::counted(ExportItem::Owned(batch)),
        ),
        sharing.offered(
            shared,
            crate::sender::shared_item(batches, is_tpu_vote, false, now),
            crate::sender::counted(crate::sender::shared_item(batches, is_tpu_vote, false, now)),
        ),
        (copied.accepted == copying.accepted) == (shared.accepted == sharing.accepted),
    ensures
        copied.ledger == shared.ledger,
        copied.accepted.len() - copying.accepted.len() == shared.accepted.len()
            - sharing.accepted.len(),
        copied.ledger == (CircularExportMetrics {
            enqueued_transactions: copied.ledger.enqueued_transactions,
            dropped_batches: copied.ledger.dropped_batches,
            dropped_transactions: copied.ledger.dropped_transactions,
            ..copying.ledger
        }),
{
    let packets = crate::packets::all_packets(batches@);
    lemma_valid_packets_are_kept(packets);
    assert(batch.packets@.len() == packets.len()) by {
        assert(crate::event::packet_views(batch.packets@).len() == batch.packets@.len());
    }
    assert(copying.accepted.push(ExportItem::Owned(batch)).len() == copying.accepted.len() + 1);
}

/// Where every packet is valid, none is left out.
proof fn lemma_valid_packets_are_kept(packets: Seq<crate::packets::PacketModel>)
    requires
        forall|i: int| 0 <= i < packets.len() ==> (#[trigger] packets[i]).valid(),
    ensures
        packets.filter(|packet: crate::packets::PacketModel| packet.valid()) == packets,
    decreases packets.len(),
{
    reveal(Seq::filter);
    if packets.len() > 0 {
        let rest = packets.drop_last();
        assert forall|i: int| 0 <= i < rest.len() implies (#[trigger] rest[i]).valid() by {
            assert(rest[i] == packets[i]);
        }
        lemma_valid_packets_are_kept(rest);
        assert(packets.last() == packets[packets.len() - 1]);
        assert(rest.push(packets.last()) =~= packets);
    }
}

} // verus!
