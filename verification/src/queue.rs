//! The bounded queue between the sigverify hook and the exporter: a crossbeam
//! channel of [`ExportItem`]s.
//!
//! Other threads put items in and take items out at any time, so whether an
//! item is accepted is not a function of the handle. What is stated is what
//! holds whatever they do.
use vstd::prelude::*;
use crate::event::ExportItem;

verus! {

/// The sending half of a crossbeam channel.
#[verifier::external_type_specification]
#[verifier::external_body]
#[verifier::reject_recursive_types(T)]
pub struct ExSender<T>(crossbeam_channel::Sender<T>);

/// The receiving half of a crossbeam channel.
#[verifier::external_type_specification]
#[verifier::external_body]
#[verifier::reject_recursive_types(T)]
pub struct ExReceiver<T>(crossbeam_channel::Receiver<T>);

/// The items that went into the channel through this handle, in order.
pub uninterp spec fn accepted_items(sender: crossbeam_channel::Sender<ExportItem>) -> Seq<
    ExportItem,
>;

/// The number of times that the channel turned something down through this
/// handle: that it did not take an item, or that it was full when asked.
pub uninterp spec fn refusals(sender: crossbeam_channel::Sender<ExportItem>) -> nat;

/// The receiving ends of the channel of this handle.
pub uninterp spec fn receiving_ends(sender: crossbeam_channel::Sender<ExportItem>) -> Set<
    crossbeam_channel::Receiver<ExportItem>,
>;

/// The number of items that the channel of this handle can hold.
pub uninterp spec fn queue_limit(sender: crossbeam_channel::Sender<ExportItem>) -> usize;

/// `crossbeam_channel::bounded`: the two ends of one channel that holds up to
/// `capacity` items, into which nothing went yet. It panics where `capacity` slots cannot be
/// addressed; a slot takes less than 64 bytes.
#[verifier::external_body]
pub(crate) fn bounded_queue(capacity: usize) -> (ends: (
    crossbeam_channel::Sender<ExportItem>,
    crossbeam_channel::Receiver<ExportItem>,
))
    requires
        capacity <= usize::MAX / 128,
    ensures
        receiving_ends(ends.0).contains(ends.1),
        accepted_items(ends.0) == Seq::<ExportItem>::empty(),
        refusals(ends.0) == 0,
        queue_limit(ends.0) == capacity,
{
    crossbeam_channel::bounded(capacity)
}

/// `Sender::try_send`: either the item goes into the channel at once, or the
/// channel, full or disconnected, stays as it is. Which of the two is not
/// stated: it depends on the other threads.
#[verifier::external_body]
pub(crate) fn offer(
    sender: &mut crossbeam_channel::Sender<ExportItem>,
    item: ExportItem,
) -> (accepted: bool)
    ensures
        accepted_items(*final(sender)) == if accepted {
            accepted_items(*old(sender)).push(item)
        } else {
            accepted_items(*old(sender))
        },
        refusals(*final(sender)) == if accepted {
            refusals(*old(sender))
        } else {
            refusals(*old(sender)) + 1
        },
        receiving_ends(*final(sender)) == receiving_ends(*old(sender)),
        queue_limit(*final(sender)) == queue_limit(*old(sender)),
{
    sender.try_send(item).is_ok()
}

/// `Sender::is_full`: a channel without capacity is always full. For any other
/// channel the answer depends on the other threads and is not stated. Asking
/// puts nothing into the channel.
#[verifier::external_body]
pub(crate) fn is_full(sender: &mut crossbeam_channel::Sender<ExportItem>) -> (full: bool)
    ensures
        queue_limit(*old(sender)) == 0 ==> full,
        accepted_items(*final(sender)) == accepted_items(*old(sender)),
        refusals(*final(sender)) == if full {
            refusals(*old(sender)) + 1
        } else {
            refusals(*old(sender))
        },
        receiving_ends(*final(sender)) == receiving_ends(*old(sender)),
        queue_limit(*final(sender)) == queue_limit(*old(sender)),
{
    sender.is_full()
}

/// `Sender::clone`: another handle to the same channel, through which nothing
/// went yet.
#[verifier::external_body]
pub(crate) fn another_handle(sender: &crossbeam_channel::Sender<ExportItem>) -> (handle:
    crossbeam_channel::Sender<ExportItem>)
    ensures
        accepted_items(handle) == Seq::<ExportItem>::empty(),
        refusals(handle) == 0,
        receiving_ends(handle) == receiving_ends(*sender),
        queue_limit(handle) == queue_limit(*sender),
{
    sender.clone()
}

} // verus!
