//! The rolling history of rates that the traffic graph draws.

use vstd::prelude::*;
use circular_queue::CircularQueue;

verus! {

/// The number of samples that a history holds: one minute of ticks.
pub const GRAPH_WINDOW: usize = 60;

/// The bounded queue of the `circular_queue` crate. Its contents are named
/// by `queue_items` and `queue_capacity`.
#[verifier::external_type_specification]
#[verifier::external_body]
#[verifier::reject_recursive_types(T)]
pub struct ExCircularQueue<T>(circular_queue::CircularQueue<T>);

/// The samples that a queue holds, the one pushed last first.
pub uninterp spec fn queue_items(queue: CircularQueue<u64>) -> Seq<u64>;

/// The number of samples that a queue was made to hold.
pub uninterp spec fn queue_capacity(queue: CircularQueue<u64>) -> nat;

/// The samples after one more was pushed: the new one in front, and the
/// oldest gone where the queue was full. A queue made for no sample stays
/// empty.
pub open spec fn pushed(items: Seq<u64>, capacity: nat, sample: u64) -> Seq<u64> {
    if capacity == 0 {
        items
    } else if items.len() < capacity {
        seq![sample] + items
    } else {
        seq![sample] + items.drop_last()
    }
}

/// The sample that a push evicts: the oldest, where the queue is full.
pub open spec fn evicted(items: Seq<u64>, capacity: nat) -> Option<u64> {
    if capacity == 0 || items.len() < capacity {
        None
    } else {
        Some(items.last())
    }
}

/// A history of zeros that fills its window.
pub open spec fn zero_history(window: nat) -> Seq<u64> {
    Seq::new(window, |i: int| 0u64)
}

/// Calls `CircularQueue::with_capacity`, which makes an empty queue of the
/// capacity asked for. It reserves the places at once, which fails past
/// `isize::MAX` bytes, so larger capacities are left out.
#[verifier::external_body]
pub(crate) fn queue_with_capacity(capacity: usize) -> (queue: CircularQueue<u64>)
    requires
        capacity * 8 <= isize::MAX,
    ensures
        queue_items(queue) == Seq::<u64>::empty(),
        queue_capacity(queue) == capacity,
{
    CircularQueue::with_capacity(capacity)
}

/// Calls `CircularQueue::push`, which puts the sample in front of the others
/// and, once the capacity is reached, overwrites and returns the oldest.
#[verifier::external_body]
pub(crate) fn queue_push(queue: &mut CircularQueue<u64>, sample: u64) -> (popped: Option<u64>)
    ensures
        queue_items(*final(queue)) == pushed(
            queue_items(*old(queue)),
            queue_capacity(*old(queue)),
            sample,
        ),
        queue_capacity(*final(queue)) == queue_capacity(*old(queue)),
        popped == evicted(queue_items(*old(queue)), queue_capacity(*old(queue))),
{
    queue.push(sample)
}

/// Calls `CircularQueue::iter`, which walks from the sample pushed last to
/// the oldest, and copies the samples out in that order.
#[verifier::external_body]
pub(crate) fn queue_to_vec(queue: &CircularQueue<u64>) -> (samples: Vec<u64>)
    ensures
        samples@ == queue_items(*queue),
{
    queue.iter().copied().collect()
}

/// A history made for `window` samples and filled with zeros. The window
/// must fit in memory: eight bytes a sample.
pub fn zeroed_history(window: usize) -> (queue: CircularQueue<u64>)
    requires
        window * 8 <= isize::MAX,
    ensures
        queue_items(queue) == zero_history(window as nat),
        queue_capacity(queue) == window,
{
    let mut queue = queue_with_capacity(window);
    let mut i: usize = 0;
    while i < window
        invariant
            i <= window,
            queue_capacity(queue) == window,
            queue_items(queue) == zero_history(i as nat),
        decreases window - i,
    {
        let _ = queue_push(&mut queue, 0);
        proof {
            assert(seq![0u64] + zero_history(i as nat) =~= zero_history((i + 1) as nat));
        }
        i = i + 1;
    }
    queue
}

/// The largest sample of a history, zero for an empty one.
pub open spec fn peak_of(items: Seq<u64>) -> u64
    decreases items.len(),
{
    if items.len() == 0 {
        0
    } else if items.last() > peak_of(items.drop_last()) {
        items.last()
    } else {
        peak_of(items.drop_last())
    }
}

/// The largest rate of a history, by which the graph is scaled.
pub fn history_peak(queue: &CircularQueue<u64>) -> (peak: u64)
    ensures
        peak == peak_of(queue_items(*queue)),
{
    let samples = queue_to_vec(queue);
    let mut peak: u64 = 0;
    let mut i: usize = 0;
    while i < samples.len()
        invariant
            i <= samples.len(),
            peak == peak_of(samples@.take(i as int)),
        decreases samples.len() - i,
    {
        proof {
            assert(samples@.take(i as int + 1).drop_last() =~= samples@.take(i as int));
        }
        if samples[i] > peak {
            peak = samples[i];
        }
        i = i + 1;
    }
    proof {
        assert(samples@.take(samples.len() as int) =~= samples@);
    }
    peak
}

/// The samples after a run of pushes, the first of `samples` pushed first.
pub open spec fn pushed_all(items: Seq<u64>, capacity: nat, samples: Seq<u64>) -> Seq<u64>
    decreases samples.len(),
{
    if samples.len() == 0 {
        items
    } else {
        pushed(pushed_all(items, capacity, samples.drop_last()), capacity, samples.last())
    }
}

/// A push keeps the length of a full history, whatever the sample.
pub proof fn lemma_full_history_stays_full(items: Seq<u64>, capacity: nat, sample: u64)
    requires
        items.len() == capacity,
    ensures
        pushed(items, capacity, sample).len() == capacity,
{
}

/// A history that starts filled with zeros holds as many samples as its
/// window has places after any number of pushes.
pub proof fn lemma_history_length(window: nat, samples: Seq<u64>)
    ensures
        pushed_all(zero_history(window), window, samples).len() == window,
    decreases samples.len(),
{
    if samples.len() > 0 {
        lemma_history_length(window, samples.drop_last());
    }
}

} // verus!
