//! What travels from the sigverify hook to the exporter.
use vstd::prelude::*;
use std::sync::Arc;
use solana_perf::packet::PacketBatch;
use crate::clock::unix_nanos_now;
use crate::metrics::add_to_counter;
use crate::packets::{
    PacketFields, batch_len, batch_packet, copy_bytes, exported_transactions,
};

verus! {

/// Ingress path of a verified transaction. Kept as internal metadata for
/// logging and metrics; the Fast contract carries no source field, so it is
/// not sent on the wire.
///
/// `Bam` / `BamVote` are set from the Jito BAM post-sigverify path.
/// `HarmonicScheduler` is reserved for Harmonic-only builds.
#[derive(Clone, Copy, Debug, PartialEq, Eq, Structural)]
pub enum TransactionSource {
    Tpu,
    TpuVote,
    Forwarded,
    Bam,
    BamVote,
    HarmonicScheduler,
}

impl TransactionSource {
    /// The label of a source.
    pub open spec fn label(self) -> Seq<char> {
        match self {
            TransactionSource::Tpu => "tpu"@,
            TransactionSource::TpuVote => "tpu_vote"@,
            TransactionSource::Forwarded => "forwarded"@,
            TransactionSource::Bam => "bam"@,
            TransactionSource::BamVote => "bam_vote"@,
            TransactionSource::HarmonicScheduler => "harmonic_scheduler"@,
        }
    }

    /// The label of the source in logs and metrics.
    pub fn as_str(self) -> (label: &'static str)
        ensures
            label@ == self.label(),
    {
        match self {
            TransactionSource::Tpu => "tpu",
            TransactionSource::TpuVote => "tpu_vote",
            TransactionSource::Forwarded => "forwarded",
            TransactionSource::Bam => "bam",
            TransactionSource::BamVote => "bam_vote",
            TransactionSource::HarmonicScheduler => "harmonic_scheduler",
        }
    }
}

/// A label tells its source: no two sources share one.
pub proof fn law_labels_are_distinct(a: TransactionSource, b: TransactionSource)
    ensures
        a.label() == b.label() ==> a == b,
{
    reveal_strlit("tpu");
    reveal_strlit("tpu_vote");
    reveal_strlit("forwarded");
    reveal_strlit("bam");
    reveal_strlit("bam_vote");
    reveal_strlit("harmonic_scheduler");
    assert(a.label() == b.label() ==> a.label().len() == b.label().len() && a.label()[0]
        == b.label()[0] && a.label()[2] == b.label()[2]);
}

/// A single verified (non-discarded) transaction, copied out of the sigverify
/// packet buffer. `transaction` is the Solana wire payload, which is exactly
/// the bincode serialization of a `VersionedTransaction`: the byte string
/// Fast expects in its `transaction` field, forwarded unchanged.
pub struct VerifiedPacket {
    pub transaction: Vec<u8>,
    pub source: TransactionSource,
}

impl View for VerifiedPacket {
    type V = (Seq<u8>, TransactionSource);

    open spec fn view(&self) -> (Seq<u8>, TransactionSource) {
        (self.transaction@, self.source)
    }
}

/// Batch of verified transactions handed from a sigverify worker to the
/// exporter. One timestamp per batch: all packets of a batch leave sigverify
/// at the same instant.
pub struct VerifiedPacketBatch {
    pub packets: Vec<VerifiedPacket>,
    pub received_at_unix_nanos: u64,
}

/// A batch shared with the exporter by reference. The sigverify hook only
/// clones the `Arc` (an atomic refcount bump, no data copy); the exporter
/// does the discard / vote filtering and the wire-byte copy off the hot path.
/// This is the low-overhead alternative to [`VerifiedPacketBatch`].
pub struct SharedVerifiedBatch {
    /// The exact `Arc<Vec<PacketBatch>>` also handed to banking stage. Held
    /// alive until the exporter has extracted the wire bytes.
    pub batches: Arc<Vec<PacketBatch>>,
    /// Whether these are TPU vote packets (for metrics/source only when
    /// [`Self::filter_simple_votes`] is false; the TPU hook decides
    /// include/exclude before enqueue).
    pub is_tpu_vote: bool,
    /// When true, the exporter skips packets flagged `SIMPLE_VOTE_TX`. Used
    /// by the BAM path where a batch can mix votes and non-votes.
    pub filter_simple_votes: bool,
    pub received_at_unix_nanos: u64,
}

/// Queue element handed from the sigverify hook to the exporter.
pub enum ExportItem {
    /// The bytes were copied on the sigverify thread.
    Owned(VerifiedPacketBatch),
    /// Only an `Arc` was cloned on the hot path.
    Shared(SharedVerifiedBatch),
}

/// The contents of a sequence of verified packets.
pub open spec fn packet_views(packets: Seq<VerifiedPacket>) -> Seq<(Seq<u8>, TransactionSource)> {
    packets.map_values(|packet: VerifiedPacket| packet@)
}

/// The payloads of a sequence of verified packets.
pub open spec fn payloads(packets: Seq<(Seq<u8>, TransactionSource)>) -> Seq<Seq<u8>> {
    packets.map_values(|packet: (Seq<u8>, TransactionSource)| packet.0)
}

impl ExportItem {
    /// The wire transactions that the exporter submits for this item, in order.
    pub open spec fn transactions(self) -> Seq<Seq<u8>> {
        match self {
            ExportItem::Owned(batch) => payloads(packet_views(batch.packets@)),
            ExportItem::Shared(shared) => crate::packets::exported_payloads(
                crate::packets::all_packets(shared.batches@),
                shared.filter_simple_votes,
            ),
        }
    }

    /// The number of packets that the item is counted as by the queue: for a
    /// shared item the discarded and filtered ones are still among them.
    pub open spec fn packet_count(self) -> nat {
        match self {
            ExportItem::Owned(batch) => batch.packets@.len(),
            ExportItem::Shared(shared) => crate::packets::all_packets(shared.batches@).len(),
        }
    }

    /// The wire transactions to submit for this item.
    pub fn into_transactions(self) -> (transactions: Vec<Vec<u8>>)
        ensures
            crate::packets::byte_views(transactions@) == self.transactions(),
    {
        match self {
            ExportItem::Owned(batch) => {
                let ghost packets = batch.packets@;
                let mut transactions: Vec<Vec<u8>> = Vec::new();
                for packet in iter: batch.packets
                    invariant
                        iter.seq() == packets,
                        crate::packets::byte_views(transactions@) == payloads(
                            packet_views(packets),
                        ).take(iter.index()),
                {
                    let ghost before = transactions@;
                    transactions.push(packet.transaction);
                    assert(crate::packets::byte_views(transactions@)
                        =~= crate::packets::byte_views(before).push(
                        packets[iter.index()].transaction@,
                    ));
                    assert(crate::packets::byte_views(transactions@) =~= payloads(
                        packet_views(packets),
                    ).take(iter.index() + 1));
                }
                assert(payloads(packet_views(packets)).take(packets.len() as int) =~= payloads(
                    packet_views(packets),
                ));
                transactions
            },
            ExportItem::Shared(shared) => exported_transactions(
                &shared.batches,
                shared.filter_simple_votes,
            ),
        }
    }
}

/// The source that a packet is tagged with when it is copied.
pub open spec fn packet_source(
    packet: crate::packets::PacketModel,
    is_tpu_vote: bool,
) -> TransactionSource {
    if is_tpu_vote {
        TransactionSource::TpuVote
    } else if packet.forwarded {
        TransactionSource::Forwarded
    } else {
        TransactionSource::Tpu
    }
}

/// The verified packets copied out of `packets`: the payload and source of
/// every valid one, in order.
pub open spec fn owned_packets(
    packets: Seq<crate::packets::PacketModel>,
    is_tpu_vote: bool,
) -> Seq<(Seq<u8>, TransactionSource)> {
    packets.filter(|packet: crate::packets::PacketModel| packet.valid()).map_values(
        |packet: crate::packets::PacketModel|
            (packet.data->0, packet_source(packet, is_tpu_vote)),
    )
}

/// The total length of the payloads of `packets`.
pub open spec fn payload_bytes(packets: Seq<(Seq<u8>, TransactionSource)>) -> nat
    decreases packets.len(),
{
    if packets.len() == 0 {
        0
    } else {
        payload_bytes(packets.drop_last()) + packets.last().0.len()
    }
}

/// One more packet adds its payload exactly where it is valid.
proof fn lemma_owned_packets_push(
    packets: Seq<crate::packets::PacketModel>,
    packet: crate::packets::PacketModel,
    is_tpu_vote: bool,
)
    ensures
        owned_packets(packets.push(packet), is_tpu_vote) == if packet.valid() {
            owned_packets(packets, is_tpu_vote).push(
                (packet.data->0, packet_source(packet, is_tpu_vote)),
            )
        } else {
            owned_packets(packets, is_tpu_vote)
        },
{
    reveal(Seq::filter);
    assert(packets.push(packet).drop_last() =~= packets);
    assert(owned_packets(packets.push(packet), is_tpu_vote) =~= if packet.valid() {
        owned_packets(packets, is_tpu_vote).push(
            (packet.data->0, packet_source(packet, is_tpu_vote)),
        )
    } else {
        owned_packets(packets, is_tpu_vote)
    });
}

/// Copies the wire bytes of every valid (non-discarded) packet out of
/// `batches`, stamped with the time `now`. Returns `None` when no packet
/// survived verification; else the batch and the number of bytes copied, as a
/// counter that wraps around.
pub fn build_owned_batch_at(
    batches: &[PacketBatch],
    is_tpu_vote: bool,
    now: u64,
) -> (built: Option<(VerifiedPacketBatch, u64)>)
    ensures
        ({
            let owned = owned_packets(crate::packets::all_packets(batches@), is_tpu_vote);
            match built {
                None => owned.len() == 0,
                Some((batch, copied)) => {
                    &&& owned.len() > 0
                    &&& packet_views(batch.packets@) == owned
                    &&& batch.received_at_unix_nanos == now
                    &&& copied == crate::metrics::bump(0, payload_bytes(owned))
                },
            }
        }),
{
    let mut packets: Vec<VerifiedPacket> = Vec::new();
    let mut copied: u64 = 0;
    proof {
        reveal(Seq::filter);
        assert(batches@.take(0) =~= Seq::empty());
        assert(packet_views(packets@) =~= owned_packets(
            crate::packets::all_packets(batches@.take(0)),
            is_tpu_vote,
        ));
    }
    let mut i: usize = 0;
    while i < batches.len()
        invariant
            i <= batches.len(),
            packet_views(packets@) == owned_packets(
                crate::packets::all_packets(batches@.take(i as int)),
                is_tpu_vote,
            ),
            copied == crate::metrics::bump(0, payload_bytes(packet_views(packets@))),
        decreases batches.len() - i,
    {
        let ghost done = crate::packets::all_packets(batches@.take(i as int));
        let ghost models = crate::packets::batch_packets(batches@[i as int]);
        let len: usize = batch_len(&batches[i]);
        let mut j: usize = 0;
        assert(done + models.take(0) =~= done);
        while j < len
            invariant
                i < batches.len(),
                len == models.len(),
                j <= len,
                models == crate::packets::batch_packets(batches@[i as int]),
                packet_views(packets@) == owned_packets(done + models.take(j as int), is_tpu_vote),
                copied == crate::metrics::bump(0, payload_bytes(packet_views(packets@))),
            decreases len - j,
        {
            let packet = batch_packet(&batches[i], j);
            proof {
                lemma_owned_packets_push(
                    done + models.take(j as int),
                    models[j as int],
                    is_tpu_vote,
                );
                assert((done + models.take(j as int)).push(models[j as int]) =~= done
                    + models.take(j + 1));
            }
            if !packet.discard {
                if let Some(data) = packet.data {
                    let source = source_of(&packet, is_tpu_vote);
                    let ghost before = packet_views(packets@);
                    proof {
                        crate::metrics::law_bumps_compose(0, payload_bytes(before), data@.len());
                        assert(before.push((data@, source)).drop_last() =~= before);
                    }
                    copied = add_to_counter(copied, data.len() as u64);
                    packets.push(VerifiedPacket { transaction: copy_bytes(data), source });
                    assert(packet_views(packets@) =~= before.push((data@, source)));
                }
            }
            j = j + 1;
        }
        proof {
            assert(models.take(j as int) =~= models);
            assert(batches@.take(i + 1).drop_last() =~= batches@.take(i as int));
            assert(batches@.take(i + 1).last() == batches@[i as int]);
        }
        i = i + 1;
    }
    assert(batches@.take(i as int) =~= batches@);
    if packets.len() == 0 {
        None
    } else {
        Some((VerifiedPacketBatch { packets, received_at_unix_nanos: now }, copied))
    }
}

/// The source that a packet is tagged with.
fn source_of(packet: &PacketFields<'_>, is_tpu_vote: bool) -> (source: TransactionSource)
    ensures
        source == packet_source(packet@, is_tpu_vote),
{
    if is_tpu_vote {
        TransactionSource::TpuVote
    } else if packet.forwarded {
        TransactionSource::Forwarded
    } else {
        TransactionSource::Tpu
    }
}

/// Copies the wire bytes of every valid (non-discarded) packet out of
/// `batches`. This is the work that the owned path performs on the sigverify
/// thread and the shared path defers to the exporter. Returns `None` when no
/// packet survived verification.
pub fn build_owned_batch(batches: &[PacketBatch], is_tpu_vote: bool) -> (built: Option<
    (VerifiedPacketBatch, u64),
>)
    ensures
        ({
            let owned = owned_packets(crate::packets::all_packets(batches@), is_tpu_vote);
            match built {
                None => owned.len() == 0,
                Some((batch, copied)) => {
                    &&& owned.len() > 0
                    &&& packet_views(batch.packets@) == owned
                    &&& crate::clock::is_unix_now(batch.received_at_unix_nanos)
                    &&& copied == crate::metrics::bump(0, payload_bytes(owned))
                },
            }
        }),
{
    build_owned_batch_at(batches, is_tpu_vote, unix_nanos_now())
}

/// Copying and sharing export the same transactions: the payloads of the
/// copied batch are those that the exporter extracts from the shared one when
/// it filters no votes.
pub proof fn law_copying_and_sharing_agree(
    batches: Seq<PacketBatch>,
    is_tpu_vote: bool,
)
    ensures
        payloads(owned_packets(crate::packets::all_packets(batches), is_tpu_vote))
            == crate::packets::exported_payloads(crate::packets::all_packets(batches), false),
{
    let packets = crate::packets::all_packets(batches);
    let valid = |packet: crate::packets::PacketModel| packet.valid();
    let exported = |packet: crate::packets::PacketModel| packet.exported(false);
    assert(valid =~= exported);
    assert(payloads(owned_packets(packets, is_tpu_vote)) =~= crate::packets::exported_payloads(
        packets,
        false,
    ));
}

/// Filtering votes takes simple votes out and nothing else: what is left is
/// what an unfiltered export of the other packets gives.
pub proof fn law_vote_filter_removes_only_votes(batches: Seq<PacketBatch>)
    ensures
        crate::packets::exported_payloads(crate::packets::all_packets(batches), true)
            == crate::packets::exported_payloads(
            crate::packets::all_packets(batches).filter(
                |packet: crate::packets::PacketModel| !packet.simple_vote,
            ),
            false,
        ),
{
    lemma_vote_filter(crate::packets::all_packets(batches));
}

proof fn lemma_vote_filter(packets: Seq<crate::packets::PacketModel>)
    ensures
        crate::packets::exported_payloads(packets, true) == crate::packets::exported_payloads(
            packets.filter(|packet: crate::packets::PacketModel| !packet.simple_vote),
            false,
        ),
    decreases packets.len(),
{
    let others = |packet: crate::packets::PacketModel| !packet.simple_vote;
    reveal(Seq::filter);
    if packets.len() > 0 {
        let rest = packets.drop_last();
        let last = packets.last();
        lemma_vote_filter(rest);
        crate::packets::lemma_exported_payloads_push(rest, last, true);
        crate::packets::lemma_exported_payloads_push(rest.filter(others), last, false);
        assert(rest.push(last) =~= packets);
    }
}

/// Every source has the label it is known by.
pub proof fn law_labels_name_the_sources()
    ensures
        TransactionSource::Tpu.label() == "tpu"@,
        TransactionSource::TpuVote.label() == "tpu_vote"@,
        TransactionSource::Forwarded.label() == "forwarded"@,
        TransactionSource::Bam.label() == "bam"@,
        TransactionSource::BamVote.label() == "bam_vote"@,
        TransactionSource::HarmonicScheduler.label() == "harmonic_scheduler"@,
{
}

/// What is copied is every packet that sigverify kept and that has a payload,
/// in order, as a vote where the batch is one of votes, else as forwarded or
/// not as the packet says.
pub proof fn law_copies_are_the_kept_packets(
    packets: Seq<crate::packets::PacketModel>,
    is_tpu_vote: bool,
)
    ensures
        ({
            let kept = packets.filter(
                |packet: crate::packets::PacketModel| !packet.discard && packet.data is Some,
            );
            let copies = owned_packets(packets, is_tpu_vote);
            &&& copies.len() == kept.len()
            &&& forall|i: int|
                0 <= i < kept.len() ==> {
                    &&& (#[trigger] copies[i]).0 == kept[i].data->0
                    &&& is_tpu_vote ==> copies[i].1 == TransactionSource::TpuVote
                    &&& !is_tpu_vote && kept[i].forwarded ==> copies[i].1
                        == TransactionSource::Forwarded
                    &&& !is_tpu_vote && !kept[i].forwarded ==> copies[i].1
                        == TransactionSource::Tpu
                }
        }),
{
    let valid = |packet: crate::packets::PacketModel| packet.valid();
    let kept = |packet: crate::packets::PacketModel| !packet.discard && packet.data is Some;
    assert(valid =~= kept);
}

/// The bytes copied are those of each payload, added up.
pub proof fn law_copied_bytes_add_up(
    first: Seq<(Seq<u8>, TransactionSource)>,
    second: Seq<(Seq<u8>, TransactionSource)>,
)
    ensures
        payload_bytes(first + second) == payload_bytes(first) + payload_bytes(second),
        payload_bytes(Seq::<(Seq<u8>, TransactionSource)>::empty()) == 0,
        first.len() == 1 ==> payload_bytes(first) == first[0].0.len(),
    decreases second.len(),
{
    reveal_with_fuel(payload_bytes, 2);
    if first.len() == 1 {
        assert(first.drop_last() =~= Seq::empty());
    }
    if second.len() == 0 {
        assert(first + second =~= first);
    } else {
        law_copied_bytes_add_up(first, second.drop_last());
        assert((first + second).drop_last() =~= first + second.drop_last());
        assert((first + second).last() == second.last());
    }
}

/// What is submitted for an item: for a copied batch every payload in it, for a
/// shared one the payload of each packet that sigverify kept and that has one,
/// but of no simple vote where those are filtered; in order in either case.
pub proof fn law_items_are_submitted_whole(item: ExportItem)
    ensures
        match item {
            ExportItem::Owned(batch) => {
                &&& item.transactions().len() == batch.packets@.len()
                &&& forall|i: int|
                    0 <= i < batch.packets@.len() ==> (#[trigger] item.transactions()[i])
                        == batch.packets@[i].transaction@
            },
            ExportItem::Shared(shared) => {
                let kept = crate::packets::all_packets(shared.batches@).filter(
                    |packet: crate::packets::PacketModel|
                        !packet.discard && packet.data is Some && (!shared.filter_simple_votes
                            || !packet.simple_vote),
                );
                &&& item.transactions().len() == kept.len()
                &&& forall|i: int|
                    0 <= i < kept.len() ==> (#[trigger] item.transactions()[i])
                        == kept[i].data->0
            },
        },
{
    if let ExportItem::Shared(shared) = item {
        crate::packets::law_exports_are_the_kept_packets(
            crate::packets::all_packets(shared.batches@),
            shared.filter_simple_votes,
        );
    }
}

/// An item counts as its packets: the copied ones, or all that are shared.
pub proof fn law_items_count_as_their_packets(item: ExportItem)
    ensures
        item matches ExportItem::Owned(batch) ==> item.packet_count() == batch.packets@.len(),
        item matches ExportItem::Shared(shared) ==> item.packet_count()
            == crate::packets::all_packets(shared.batches@).len(),
{
}

/// Packets are taken by their payload and source, in order.
pub proof fn law_packet_views_keep_everything(packets: Seq<VerifiedPacket>, i: int)
    requires
        0 <= i < packets.len(),
    ensures
        packet_views(packets).len() == packets.len(),
        packet_views(packets)[i].0 == packets[i].transaction@,
        packet_views(packets)[i].1 == packets[i].source,
        payloads(packet_views(packets)).len() == packets.len(),
        payloads(packet_views(packets))[i] == packets[i].transaction@,
{
}

} // verus!
