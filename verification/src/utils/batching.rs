//! Batching utilities for efficient message processing.

use std::time::{Duration, Instant};
use vstd::prelude::*;

use crate::clock::{duration_at_least, duration_ge, elapsed_reading, now, read_elapsed};

verus! {

/// A generic batcher that collects items until reaching a size or timeout threshold.
#[derive(Debug)]
pub struct Batcher<T> {
    items: Vec<T>,
    max_size: usize,
    timeout: Duration,
    last_flush: Instant,
}

/// Whether a batch of `len` items is due: it holds `max_size` items or more,
/// or `elapsed` (the time since the last flush) has reached `timeout`.
pub fn flush_due(len: usize, max_size: usize, elapsed: &Duration, timeout: &Duration) -> (b: bool)
    ensures
        b == (len >= max_size || duration_ge(*elapsed, *timeout)),
{
    if len >= max_size {
        true
    } else {
        duration_at_least(elapsed, timeout)
    }
}

impl<T> Batcher<T> {
    /// The items collected since the last flush, oldest first.
    pub closed spec fn spec_items(&self) -> Seq<T> {
        self.items@
    }

    /// The size at which the batch is due.
    pub closed spec fn spec_max_size(&self) -> nat {
        self.max_size as nat
    }

    /// The timeout after which the batch is due.
    pub closed spec fn spec_timeout(&self) -> Duration {
        self.timeout
    }

    /// When the batch was last flushed (or created): a clock reading.
    pub closed spec fn spec_last_flush(&self) -> Instant {
        self.last_flush
    }

    /// Whether the batch is due when `e` has passed since the last flush:
    /// it holds `max_size` items or more, or `e` has reached the timeout.
    pub open spec fn due_after(&self, e: Duration) -> bool {
        self.spec_items().len() >= self.spec_max_size() || duration_ge(e, self.spec_timeout())
    }

    /// Create a new, empty batcher.
    pub fn new(max_size: usize, timeout: Duration) -> (b: Self)
        ensures
            b.spec_items() == Seq::<T>::empty(),
            b.spec_max_size() == max_size,
            b.spec_timeout() == timeout,
    {
        Batcher { items: Vec::with_capacity(max_size), max_size, timeout, last_flush: now() }
    }

    /// Add an item to the batch.
    pub fn add(&mut self, item: T)
        ensures
            final(self).spec_items() == old(self).spec_items().push(item),
            final(self).spec_max_size() == old(self).spec_max_size(),
            final(self).spec_timeout() == old(self).spec_timeout(),
            final(self).spec_last_flush() == old(self).spec_last_flush(),
    {
        self.items.push(item);
    }

    /// Check if the batch should be flushed: it holds `max_size` items or
    /// more, or the timeout has passed since the last flush.
    ///
    /// The time since the last flush is read from the clock; whatever it
    /// reads, the answer is `flush_due` of it.
    pub fn should_flush(&self) -> (b: bool)
        ensures
            exists|e: Duration|
                elapsed_reading(self.spec_last_flush(), e) && b == #[trigger] self.due_after(e),
    {
        let since = read_elapsed(&self.last_flush);
        let due = flush_due(self.items.len(), self.max_size, &since, &self.timeout);
        assert(due == self.due_after(since));
        due
    }

    /// Check if the batch is empty.
    pub fn is_empty(&self) -> (b: bool)
        ensures
            b == (self.spec_items().len() == 0),
    {
        self.items.len() == 0
    }

    /// Get the current batch size.
    pub fn len(&self) -> (n: usize)
        ensures
            n == self.spec_items().len(),
    {
        self.items.len()
    }

    /// Flush the batch and return all items, oldest first; the batch is then
    /// empty, and its timeout counts from a new reading of the clock.
    pub fn flush(&mut self) -> (out: Vec<T>)
        ensures
            out@ == old(self).spec_items(),
            final(self).spec_items() == Seq::<T>::empty(),
            final(self).spec_max_size() == old(self).spec_max_size(),
            final(self).spec_timeout() == old(self).spec_timeout(),
    {
        self.last_flush = now();
        let mut out: Vec<T> = Vec::new();
        core::mem::swap(&mut out, &mut self.items);
        out
    }

    /// Get a reference to the items without flushing.
    pub fn items(&self) -> (s: &[T])
        ensures
            s@ == self.spec_items(),
    {
        self.items.as_slice()
    }
}

/// `should_flush` answers from the clock: for the time it read as elapsed
/// since the last flush, it is true exactly when the batch holds `max_size`
/// items or more or that time has reached the timeout. In particular, once the
/// timeout has passed it is true, and a partial batch is never due before.
pub proof fn lemma_should_flush_reads_the_clock<T>(batch: Batcher<T>, r: bool)
    requires
        call_ensures(Batcher::<T>::should_flush, (&batch,), r),
    ensures
        exists|e: Duration|
            #[trigger] elapsed_reading(batch.spec_last_flush(), e) && (r <==> (batch.spec_items().len()
                >= batch.spec_max_size() || duration_ge(e, batch.spec_timeout()))),
{
    let e = choose|e: Duration|
        elapsed_reading(batch.spec_last_flush(), e) && r == #[trigger] batch.due_after(e);
    assert(elapsed_reading(batch.spec_last_flush(), e));
}

} // verus!
