//! The jitter buffer: a bounded FIFO queue of multichannel samples.
//!
//! It is the handoff point between the network side, which pushes converted
//! samples, and the audio side, which pops one (or two, or none) per output
//! frame. A push on a full buffer never blocks and never grows the buffer:
//! it fails, the sample is dropped, and the caller reports the overflow.
//! A pop on an empty buffer signals underrun by returning nothing.

use vstd::prelude::*;

use crate::convert::MultichannelSample;

verus! {

/// The error a push on a full buffer reports; the sample is dropped.
#[derive(Clone, Copy, Debug)]
pub struct BufferFull;

/// A bounded FIFO of multichannel samples. Its view is the queued samples,
/// oldest first; the occupancy never exceeds the capacity.
pub struct JitterBuffer {
    items: Vec<MultichannelSample>,
    capacity: usize,
}

impl View for JitterBuffer {
    type V = Seq<MultichannelSample>;

    closed spec fn view(&self) -> Seq<MultichannelSample> {
        self.items@
    }
}

impl JitterBuffer {
    /// The most samples the buffer can hold at once.
    pub closed spec fn spec_capacity(&self) -> usize {
        self.capacity
    }

    /// The occupancy never exceeds the capacity.
    pub open spec fn inv(&self) -> bool {
        self@.len() <= self.spec_capacity()
    }

    /// Makes an empty buffer of the given capacity.
    pub fn new(capacity: usize) -> (r: JitterBuffer)
        ensures
            r@ =~= Seq::<MultichannelSample>::empty(),
            r.spec_capacity() == capacity,
            r.inv(),
    {
        JitterBuffer { items: Vec::new(), capacity }
    }

    /// The most samples the buffer can hold at once.
    pub fn capacity(&self) -> (r: usize)
        ensures
            r == self.spec_capacity(),
    {
        self.capacity
    }

    /// The current occupancy.
    pub fn len(&self) -> (r: usize)
        ensures
            r == self@.len(),
    {
        self.items.len()
    }

    /// Appends a sample unless the buffer is full; on a full buffer the
    /// sample is dropped, the contents stay as they were, and the overflow
    /// is reported through the error.
    pub fn push(&mut self, sample: MultichannelSample) -> (r: Result<(), BufferFull>)
        ensures
            old(self)@.len() < old(self).spec_capacity() ==> r is Ok && final(self)@ =~= old(
                self,
            )@.push(sample),
            old(self)@.len() >= old(self).spec_capacity() ==> r is Err && final(self)@ =~= old(
                self,
            )@,
            final(self).spec_capacity() == old(self).spec_capacity(),
            old(self).inv() ==> final(self).inv(),
    {
        if self.items.len() < self.capacity {
            self.items.push(sample);
            Ok(())
        } else {
            Err(BufferFull)
        }
    }

    /// Removes and returns the oldest sample; an empty buffer signals
    /// underrun by returning nothing and staying as it was.
    pub fn pop(&mut self) -> (r: Option<MultichannelSample>)
        ensures
            old(self)@.len() == 0 ==> r is None && final(self)@ =~= old(self)@,
            old(self)@.len() > 0 ==> r == Some(old(self)@[0]) && final(self)@ =~= old(
                self,
            )@.skip(1),
            final(self).spec_capacity() == old(self).spec_capacity(),
            old(self).inv() ==> final(self).inv(),
    {
        if self.items.len() == 0 {
            None
        } else {
            let sample = self.items.remove(0);
            Some(sample)
        }
    }

    /// Drops the oldest `n` samples, or all of them where fewer are queued:
    /// the consumer's bulk recovery from sustained overrun.
    pub fn discard(&mut self, n: usize)
        ensures
            final(self)@ =~= old(self)@.skip(vstd::math::min(n as int, old(self)@.len() as int)),
            final(self).spec_capacity() == old(self).spec_capacity(),
            old(self).inv() ==> final(self).inv(),
    {
        let mut dropped: usize = 0;
        let ghost start = self@;
        while dropped < n && self.items.len() > 0
            invariant
                dropped <= n,
                dropped <= start.len(),
                self.items@ =~= start.skip(dropped as int),
                self.capacity == old(self).spec_capacity(),
            decreases self.items@.len(),
        {
            let _ = self.items.remove(0);
            dropped = dropped + 1;
            proof {
                assert(start.skip(dropped - 1 as int).skip(1) =~= start.skip(dropped as int));
            }
        }
    }
}

} // verus!
