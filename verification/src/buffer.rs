//! The fixed-capacity FIFO that backs the sink, held in the `ringbuffer`
//! crate's `AllocRingBuffer` behind trusted wrappers. The wrappers state,
//! over the buffer's abstract contents and its fixed capacity, what the
//! crate's operations do: creation yields an empty buffer, enqueueing at
//! capacity evicts the single oldest item, and conversion to a vector
//! yields the items oldest first.

use crate::item::LogItem;
use ringbuffer::AllocRingBuffer;
use ringbuffer::RingBuffer;
use vstd::prelude::*;

verus! {

#[verifier::external_type_specification]
#[verifier::external_body]
#[verifier::reject_recursive_types(T)]
pub struct ExAllocRingBuffer<T>(AllocRingBuffer<T>);

/// The items a buffer currently holds, oldest first, as
/// (level, module, message) character sequences.
pub uninterp spec fn rb_items(b: AllocRingBuffer<LogItem>) -> Seq<(Seq<char>, Seq<char>, Seq<char>)>;

/// The fixed maximum number of items the buffer was created to hold.
pub uninterp spec fn rb_capacity(b: AllocRingBuffer<LogItem>) -> nat;

/// Relies on AllocRingBuffer::new: creates an empty ring buffer with the
/// given capacity; it panics on a capacity of zero, which the precondition
/// rules out.
#[verifier::external_body]
pub(crate) fn rb_new(capacity: usize) -> (r: AllocRingBuffer<LogItem>)
    requires
        capacity >= 1,
    ensures
        rb_items(r) == Seq::<(Seq<char>, Seq<char>, Seq<char>)>::empty(),
        rb_capacity(r) == capacity as nat,
{
    AllocRingBuffer::new(capacity)
}

/// Relies on RingBuffer::enqueue for AllocRingBuffer: appends the value;
/// when the buffer is full it first removes the single oldest item, so the
/// length never exceeds the capacity.
#[verifier::external_body]
pub(crate) fn rb_enqueue(b: &mut AllocRingBuffer<LogItem>, item: LogItem)
    ensures
        rb_capacity(*final(b)) == rb_capacity(*old(b)),
        rb_items(*old(b)).len() < rb_capacity(*old(b)) ==> rb_items(*final(b)) == rb_items(
            *old(b),
        ).push(item@),
        rb_items(*old(b)).len() >= rb_capacity(*old(b)) ==> rb_items(*final(b)) == rb_items(
            *old(b),
        ).drop_first().push(item@),
{
    let _ = b.enqueue(item);
}

/// Relies on RingBuffer::to_vec for AllocRingBuffer: copies all items into
/// a vector, starting from the item enqueued the longest ago.
#[verifier::external_body]
pub(crate) fn rb_to_vec(b: &AllocRingBuffer<LogItem>) -> (r: Vec<LogItem>)
    ensures
        r@.map_values(|it: LogItem| it@) == rb_items(*b),
{
    b.to_vec()
}

} // verus!
