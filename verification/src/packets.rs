//! Packet batches as sigverify hands them over, and what the export reads of
//! them.
use vstd::prelude::*;
use solana_perf::packet::PacketBatch;

verus! {

/// The packet batch of `solana_perf`, carried as it is.
#[verifier::external_type_specification]
#[verifier::external_body]
pub struct ExPacketBatch(PacketBatch);

/// What the export reads of one packet, as a mathematical value.
#[verifier::ext_equal]
pub struct PacketModel {
    /// Sigverify rejected the packet.
    pub discard: bool,
    /// The packet was forwarded by another node.
    pub forwarded: bool,
    /// The packet is flagged as a simple vote transaction.
    pub simple_vote: bool,
    /// The wire payload, where it can be read.
    pub data: Option<Seq<u8>>,
}

impl PacketModel {
    /// The packet survived verification and has a payload.
    pub open spec fn valid(self) -> bool {
        !self.discard && self.data is Some
    }

    /// The packet is to be exported, with or without simple votes.
    pub open spec fn exported(self, filter_simple_votes: bool) -> bool {
        self.valid() && !(filter_simple_votes && self.simple_vote)
    }
}

/// What the export reads of one packet; the payload is borrowed from the batch.
pub struct PacketFields<'a> {
    pub discard: bool,
    pub forwarded: bool,
    pub simple_vote: bool,
    pub data: Option<&'a [u8]>,
}

impl<'a> View for PacketFields<'a> {
    type V = PacketModel;

    open spec fn view(&self) -> PacketModel {
        PacketModel {
            discard: self.discard,
            forwarded: self.forwarded,
            simple_vote: self.simple_vote,
            data: match self.data {
                Some(bytes) => Some(bytes@),
                None => None,
            },
        }
    }
}

/// The packets a batch holds, in order.
pub uninterp spec fn batch_packets(batch: PacketBatch) -> Seq<PacketModel>;

/// `PacketBatch::len`: the number of packets in the batch, discarded ones
/// included.
#[verifier::external_body]
pub(crate) fn batch_len(batch: &PacketBatch) -> (len: usize)
    ensures
        len == batch_packets(*batch).len(),
{
    batch.len()
}

/// `PacketBatch::get`, with the packet read through `PacketRef::meta` and
/// `PacketRef::data(..)`: the packet at `index`. The flags are those of the
/// packet's `Meta`.
#[verifier::external_body]
pub(crate) fn batch_packet<'a>(batch: &'a PacketBatch, index: usize) -> (packet: PacketFields<'a>)
    requires
        index < batch_packets(*batch).len(),
    ensures
        packet@ == batch_packets(*batch)[index as int],
{
    let packet = batch.get(index).unwrap();
    PacketFields {
        discard: packet.meta().discard(),
        forwarded: packet.meta().forwarded(),
        simple_vote: packet.meta().flags.contains(solana_packet::PacketFlags::SIMPLE_VOTE_TX),
        data: packet.data(..),
    }
}

/// All packets of a sequence of batches, in order.
pub open spec fn all_packets(batches: Seq<PacketBatch>) -> Seq<PacketModel>
    decreases batches.len(),
{
    if batches.len() == 0 {
        Seq::empty()
    } else {
        all_packets(batches.drop_last()) + batch_packets(batches.last())
    }
}

/// The payloads to be exported out of `packets`, in order.
pub open spec fn exported_payloads(
    packets: Seq<PacketModel>,
    filter_simple_votes: bool,
) -> Seq<Seq<u8>> {
    packets.filter(|packet: PacketModel| packet.exported(filter_simple_votes)).map_values(
        |packet: PacketModel| packet.data->0,
    )
}

/// The contents of a sequence of byte vectors.
pub open spec fn byte_views(vectors: Seq<Vec<u8>>) -> Seq<Seq<u8>> {
    vectors.map_values(|vector: Vec<u8>| vector@)
}

/// One more packet adds its payload exactly where it is to be exported.
pub proof fn lemma_exported_payloads_push(
    packets: Seq<PacketModel>,
    packet: PacketModel,
    filter_simple_votes: bool,
)
    ensures
        exported_payloads(packets.push(packet), filter_simple_votes) == if packet.exported(
            filter_simple_votes,
        ) {
            exported_payloads(packets, filter_simple_votes).push(packet.data->0)
        } else {
            exported_payloads(packets, filter_simple_votes)
        },
{
    reveal(Seq::filter);
    assert(packets.push(packet).drop_last() =~= packets);
    assert(exported_payloads(packets.push(packet), filter_simple_votes) =~= if packet.exported(
        filter_simple_votes,
    ) {
        exported_payloads(packets, filter_simple_votes).push(packet.data->0)
    } else {
        exported_payloads(packets, filter_simple_votes)
    });
}

/// A copy of `bytes`.
pub fn copy_bytes(bytes: &[u8]) -> (copy: Vec<u8>)
    ensures
        copy@ == bytes@,
{
    let mut copy: Vec<u8> = Vec::new();
    copy.extend_from_slice(bytes);
    assert(copy@ =~= bytes@);
    copy
}

/// Copies the payloads to be exported out of `batches`.
pub fn exported_transactions(batches: &Vec<PacketBatch>, filter_simple_votes: bool) -> (payloads:
    Vec<Vec<u8>>)
    ensures
        byte_views(payloads@) == exported_payloads(all_packets(batches@), filter_simple_votes),
{
    let mut payloads: Vec<Vec<u8>> = Vec::new();
    proof {
        reveal(Seq::filter);
        assert(batches@.take(0) =~= Seq::empty());
        assert(byte_views(payloads@) =~= exported_payloads(
            all_packets(batches@.take(0)),
            filter_simple_votes,
        ));
    }
    let mut i: usize = 0;
    while i < batches.len()
        invariant
            i <= batches.len(),
            byte_views(payloads@) == exported_payloads(
                all_packets(batches@.take(i as int)),
                filter_simple_votes,
            ),
        decreases batches.len() - i,
    {
        let ghost done = all_packets(batches@.take(i as int));
        let ghost packets = batch_packets(batches@[i as int]);
        let len: usize = batch_len(&batches[i]);
        let mut j: usize = 0;
        assert(done + packets.take(0) =~= done);
        while j < len
            invariant
                i < batches.len(),
                len == packets.len(),
                j <= len,
                packets == batch_packets(batches@[i as int]),
                byte_views(payloads@) == exported_payloads(
                    done + packets.take(j as int),
                    filter_simple_votes,
                ),
            decreases len - j,
        {
            let packet = batch_packet(&batches[i], j);
            proof {
                lemma_exported_payloads_push(
                    done + packets.take(j as int),
                    packets[j as int],
                    filter_simple_votes,
                );
                assert((done + packets.take(j as int)).push(packets[j as int]) =~= done
                    + packets.take(j + 1));
            }
            let ghost before = payloads@;
            if !packet.discard && !(filter_simple_votes && packet.simple_vote) {
                if let Some(data) = packet.data {
                    payloads.push(copy_bytes(data));
                    assert(byte_views(payloads@) =~= byte_views(before).push(data@));
                }
            }
            j = j + 1;
        }
        proof {
            assert(packets.take(j as int) =~= packets);
            assert(batches@.take(i + 1).drop_last() =~= batches@.take(i as int));
            assert(batches@.take(i + 1).last() == batches@[i as int]);
        }
        i = i + 1;
    }
    assert(batches@.take(i as int) =~= batches@);
    payloads
}

/// The packets of batches are those of each, one batch after the other.
pub proof fn law_packets_keep_their_order(first: Seq<PacketBatch>, second: Seq<PacketBatch>)
    ensures
        all_packets(first + second) == all_packets(first) + all_packets(second),
        all_packets(Seq::<PacketBatch>::empty()).len() == 0,
        first.len() == 1 ==> all_packets(first) == batch_packets(first[0]),
    decreases second.len(),
{
    reveal_with_fuel(all_packets, 2);
    if first.len() == 1 {
        assert(first.drop_last() =~= Seq::empty());
        assert(all_packets(first) =~= batch_packets(first[0]));
    }
    if second.len() == 0 {
        assert(first + second =~= first);
        assert(all_packets(first) + all_packets(second) =~= all_packets(first));
    } else {
        law_packets_keep_their_order(first, second.drop_last());
        assert((first + second).drop_last() =~= first + second.drop_last());
        assert((first + second).last() == second.last());
        assert(all_packets(first + second) =~= all_packets(first) + all_packets(second));
    }
}

/// What is exported of packets is the payload of each one that sigverify kept
/// and that has one, in order, but of no simple vote where those are filtered.
pub proof fn law_exports_are_the_kept_packets(
    packets: Seq<PacketModel>,
    filter_simple_votes: bool,
)
    ensures
        ({
            let kept = packets.filter(
                |packet: PacketModel|
                    !packet.discard && packet.data is Some && (!filter_simple_votes
                        || !packet.simple_vote),
            );
            let payloads = exported_payloads(packets, filter_simple_votes);
            &&& payloads.len() == kept.len()
            &&& forall|i: int|
                0 <= i < kept.len() ==> (#[trigger] payloads[i]) == kept[i].data->0
        }),
{
    let exported = |packet: PacketModel| packet.exported(filter_simple_votes);
    let kept = |packet: PacketModel|
        !packet.discard && packet.data is Some && (!filter_simple_votes || !packet.simple_vote);
    assert(exported =~= kept);
}

/// What is read of a packet is what its fields say.
pub proof fn law_packets_are_read_as_they_are(packet: PacketFields<'_>)
    ensures
        packet@.discard == packet.discard,
        packet@.forwarded == packet.forwarded,
        packet@.simple_vote == packet.simple_vote,
        packet.data is None ==> packet@.data is None,
        packet.data matches Some(bytes) ==> packet@.data == Some(bytes@),
{
}

/// Byte vectors are taken by their contents, in order.
pub proof fn law_byte_views_keep_everything(vectors: Seq<Vec<u8>>, i: int)
    requires
        0 <= i < vectors.len(),
    ensures
        byte_views(vectors).len() == vectors.len(),
        byte_views(vectors)[i] == vectors[i]@,
{
}

} // verus!
