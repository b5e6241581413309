//! The ring buffer between the writer and the stream.
//!
//! It is the single-producer, single-consumer buffer of the `rb` crate. While
//! a stream runs, its consumer takes samples out on another thread, so of how
//! full the buffer is nothing is known but the bounds.

use crate::decoder::time::duration_secs;
use std::time::Duration;
use vstd::prelude::*;

verus! {

#[verifier::external_type_specification]
#[verifier::external_body]
#[verifier::reject_recursive_types(T)]
pub struct ExSpscRb<T>(rb::SpscRb<T>);

#[verifier::external_type_specification]
#[verifier::external_body]
#[verifier::reject_recursive_types(T)]
pub struct ExProducer<T>(rb::Producer<T>);

#[verifier::external_type_specification]
#[verifier::external_body]
#[verifier::reject_recursive_types(T)]
pub struct ExConsumer<T>(rb::Consumer<T>);

#[verifier::external_type_specification]
#[verifier::external_body]
pub struct ExRbError(rb::RbError);

/// The number of samples that a ring buffer was made to hold.
pub uninterp spec fn ring_capacity(ring: rb::SpscRb<i16>) -> nat;

/// The samples that were written through a producer since it was made, in
/// the order in which they were written.
pub uninterp spec fn produced(producer: rb::Producer<i16>) -> Seq<i16>;

/// The ring buffer that a producer writes into.
pub uninterp spec fn ring_of(producer: rb::Producer<i16>) -> rb::SpscRb<i16>;

/// `SpscRb::new`, then `RB::producer` on the new buffer: an empty buffer
/// for `size` samples, and the one handle that writes into it, through
/// which nothing was written yet. The buffer allocates one slot more than
/// it holds, and a vector refuses more than half the address space in
/// bytes, so `size` must leave room for both.
#[verifier::external_body]
pub(crate) fn ring_new(size: usize) -> (made: (rb::SpscRb<i16>, rb::Producer<i16>))
    requires
        4 * (size + 1) <= usize::MAX,
    ensures
        ring_capacity(made.0) == size,
        produced(made.1) == Seq::<i16>::empty(),
        ring_of(made.1) == made.0,
{
    let ring = rb::SpscRb::new(size);
    let producer = rb::RB::producer(&ring);
    (ring, producer)
}

/// `RB::consumer`: a handle that reads from the buffer.
#[verifier::external_body]
pub(crate) fn ring_consumer(ring: &rb::SpscRb<i16>) -> rb::Consumer<i16> {
    rb::RB::consumer(ring)
}

/// `RbInspector::is_full`: whether no slot was free when the buffer was
/// looked at. A buffer is empty when it is made and takes samples from its
/// producer alone, so a full one has been written to as much as it holds,
/// where the producer is the buffer's.
#[verifier::external_body]
pub(crate) fn ring_is_full(ring: &rb::SpscRb<i16>, producer: &rb::Producer<i16>) -> (full: bool)
    ensures
        ring_of(*producer) == *ring ==> (full ==> ring_capacity(*ring) <= produced(
            *producer,
        ).len()),
        ring_capacity(*ring) == 0 ==> full,
{
    rb::RbInspector::is_full(ring)
}

/// `RbInspector::count`: how many samples waited to be read when the buffer
/// was looked at; never more than it holds, and never more than were
/// written to it, where the producer is the buffer's.
#[verifier::external_body]
pub(crate) fn ring_count(ring: &rb::SpscRb<i16>, producer: &rb::Producer<i16>) -> (n: usize)
    ensures
        n <= ring_capacity(*ring),
        ring_of(*producer) == *ring ==> n <= produced(*producer).len(),
{
    rb::RbInspector::count(ring)
}

/// `RbInspector::capacity`: the size that the buffer was made with.
#[verifier::external_body]
pub(crate) fn ring_size(ring: &rb::SpscRb<i16>) -> (n: usize)
    ensures
        n == ring_capacity(*ring),
{
    rb::RbInspector::capacity(ring)
}

/// `RbInspector::slots_free`: how many samples could be written when the
/// buffer was looked at; never more than it holds, and never less than it
/// holds beyond what was written to it, where the producer is the buffer's.
#[verifier::external_body]
pub(crate) fn ring_slots_free(ring: &rb::SpscRb<i16>, producer: &rb::Producer<i16>) -> (n: usize)
    ensures
        n <= ring_capacity(*ring),
        ring_of(*producer) == *ring ==> n + produced(*producer).len() >= ring_capacity(*ring),
{
    rb::RbInspector::slots_free(ring)
}

/// `RbProducer::write`: writes as many of the samples as there is room for,
/// from the front and in their order, and says how many; an error where
/// there is room for none, and then nothing is written. Of no samples it
/// writes none; of some it writes one at least where it writes at all,
/// since room that was seen stays while only this producer writes. It
/// writes all the samples or as many as there was room for, and a buffer
/// that had no more room has been written to as much as it holds. It
/// refuses only a buffer that is full.
#[verifier::external_body]
pub(crate) fn ring_write(
    producer: &mut rb::Producer<i16>,
    data: &[i16],
) -> (r: Result<usize, rb::RbError>)
    ensures
        r matches Ok(n) ==> n <= data@.len() && produced(*final(producer)) == produced(
            *old(producer),
        ) + data@.subrange(0, n as int),
        r matches Ok(n) ==> (n == 0 <==> data@.len() == 0),
        r matches Ok(n) ==> n == data@.len() || ring_capacity(ring_of(*final(producer)))
            <= produced(*final(producer)).len(),
        r is Err ==> produced(*final(producer)) == produced(*old(producer)),
        r is Err ==> ring_capacity(ring_of(*final(producer))) <= produced(*final(producer)).len(),
        data@.len() == 0 ==> r is Ok,
        ring_of(*final(producer)) == ring_of(*old(producer)),
{
    rb::RbProducer::write(&*producer, data)
}

/// The most seconds that are waited for room in the buffer: as many as can
/// be counted in milliseconds.
pub const WAIT_LIMIT_SECS: u64 = u64::MAX / 1000;

/// Whether a time can be waited for room in the buffer. For the longest
/// time that a duration holds the buffer waits without end, and so does the
/// condition that it waits on for a time that its clock cannot count; a
/// time within the limit is far from both.
pub open spec fn wait_is_bounded(timeout: Duration) -> bool {
    duration_secs(timeout) <= WAIT_LIMIT_SECS
}

/// `RbProducer::write_blocking_timeout`: like `write`, but waits for room
/// for as long as `timeout`, and fails where none came, and then nothing is
/// written. `None` says that there was nothing to write, and is said of
/// nothing else. It fails, and it writes none of some samples, only where
/// the buffer was full, and a full buffer has been written to as much as
/// it holds. For the longest duration there is it waits without end, and
/// for one that the clock cannot count as good as that, which is why the
/// time must be bounded.
#[verifier::external_body]
pub(crate) fn ring_write_blocking_timeout(
    producer: &mut rb::Producer<i16>,
    data: &[i16],
    timeout: Duration,
) -> (r: Result<Option<usize>, rb::RbError>)
    requires
        wait_is_bounded(timeout),
    ensures
        r matches Ok(Some(n)) ==> n == data@.len() || ring_capacity(ring_of(*final(producer)))
            <= produced(*final(producer)).len(),
        r matches Ok(Some(n)) ==> n <= data@.len() && produced(*final(producer)) == produced(
            *old(producer),
        ) + data@.subrange(0, n as int),
        !(r matches Ok(Some(_))) ==> produced(*final(producer)) == produced(*old(producer)),
        r is Err ==> ring_capacity(ring_of(*final(producer))) <= produced(*final(producer)).len(),
        r matches Ok(Some(n)) ==> (n == 0 ==> ring_capacity(ring_of(*final(producer)))
            <= produced(*final(producer)).len()),
        data@.len() == 0 ==> r matches Ok(None),
        data@.len() > 0 ==> !(r matches Ok(None)),
        ring_of(*final(producer)) == ring_of(*old(producer)),
{
    rb::RbProducer::write_blocking_timeout(&*producer, data, timeout)
}

/// `RbConsumer::read`: takes as many samples out of the buffer as `data` has
/// room for, into its front, and says how many; an error where the buffer is
/// empty. What lies behind the samples read is not touched.
#[verifier::external_body]
pub(crate) fn ring_read(
    consumer: &rb::Consumer<i16>,
    data: &mut [i16],
) -> (r: Result<usize, rb::RbError>)
    ensures
        final(data)@.len() == old(data)@.len(),
        r matches Ok(n) ==> n <= old(data)@.len() && forall|i: int|
            n <= i < old(data)@.len() ==> #[trigger] final(data)@[i] == old(data)@[i],
        r is Err ==> final(data)@ == old(data)@,
{
    rb::RbConsumer::read(consumer, data)
}

} // verus!
