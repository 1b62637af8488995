//! The bounded transfer channel: a fixed-capacity FIFO queue that decouples
//! disk speed from network speed. A producer that outruns its consumer is
//! stopped at the capacity (backpressure), items leave in the order they
//! entered, and none is dropped or duplicated.

use crate::CHANNEL_SIZE;
use vstd::prelude::*;

verus! {

/// A single-producer, single-consumer queue of fixed capacity.
pub struct BoundedChannel<T> {
    items: Vec<T>,
    capacity: usize,
}

impl<T> View for BoundedChannel<T> {
    type V = Seq<T>;

    /// The buffered items, oldest first.
    closed spec fn view(&self) -> Seq<T> {
        self.items@
    }
}

impl<T> BoundedChannel<T> {
    /// The fixed capacity the channel was made with.
    pub closed spec fn spec_capacity(&self) -> nat {
        self.capacity as nat
    }

    /// Well-formedness: the channel never buffers more items than its
    /// capacity.
    pub open spec fn inv(&self) -> bool {
        self@.len() <= self.spec_capacity()
    }

    pub fn new(capacity: usize) -> (ch: Self)
        ensures
            ch@ == Seq::<T>::empty(),
            ch.spec_capacity() == capacity,
            ch.inv(),
    {
        BoundedChannel { items: Vec::new(), capacity }
    }

    pub fn capacity(&self) -> (c: usize)
        ensures
            c == self.spec_capacity(),
    {
        self.capacity
    }

    pub fn len(&self) -> (n: usize)
        ensures
            n == self@.len(),
    {
        self.items.len()
    }

    /// Appends `item` when there is room; a full channel refuses and hands
    /// the item back untouched, so nothing is ever dropped.
    pub fn try_send(&mut self, item: T) -> (r: Result<(), T>)
        ensures
            final(self).spec_capacity() == old(self).spec_capacity(),
            old(self)@.len() < old(self).spec_capacity() ==> r is Ok && final(self)@ == old(
                self,
            )@.push(item),
            old(self)@.len() >= old(self).spec_capacity() ==> final(self)@ == old(self)@ && (
            r matches Err(back) && back == item),
            old(self).inv() ==> final(self).inv(),
    {
        if self.items.len() < self.capacity {
            self.items.push(item);
            Ok(())
        } else {
            Err(item)
        }
    }

    /// Takes the oldest buffered item; an empty channel yields nothing.
    pub fn try_recv(&mut self) -> (r: Option<T>)
        ensures
            final(self).spec_capacity() == old(self).spec_capacity(),
            old(self)@.len() == 0 ==> r is None && final(self)@ == old(self)@,
            old(self)@.len() > 0 ==> final(self)@ == old(self)@.skip(1) && (r matches Some(front)
                && front == old(self)@[0]),
            old(self).inv() ==> final(self).inv(),
    {
        if self.items.len() == 0 {
            None
        } else {
            let front = self.items.remove(0);
            proof {
                assert(self@ =~= old(self)@.skip(1));
            }
            Some(front)
        }
    }
}

/// Law: pushing a whole sequence of items through a bounded transfer channel
/// delivers every item, in order, with none dropped or duplicated, while the
/// channel never buffers more than `CHANNEL_SIZE` items at once (the loop
/// maintains `ch.inv()` throughout).
pub fn deliver_in_order<T>(items: Vec<T>) -> (r: Vec<T>)
    ensures
        r@ == items@,
{
    let ghost all = items@;
    let mut input = items;
    let mut ch: BoundedChannel<T> = BoundedChannel::new(CHANNEL_SIZE);
    let mut out: Vec<T> = Vec::new();
    while input.len() > 0 || ch.len() > 0
        invariant
            ch.inv(),
            ch.spec_capacity() == CHANNEL_SIZE as nat,
            out@ + ch@ + input@ =~= all,
        decreases 2 * input@.len() + ch@.len(),
    {
        if input.len() > 0 && ch.len() < ch.capacity() {
            let ghost input_before = input@;
            let x = input.remove(0);
            proof {
                assert(input_before =~= seq![x] + input@);
            }
            let sent = ch.try_send(x);
            proof {
                assert(sent is Ok);
                assert(out@ + ch@ + input@ =~= all);
            }
        }
        if let Some(front) = ch.try_recv() {
            out.push(front);
            proof {
                assert(out@ + ch@ + input@ =~= all);
            }
        }
    }
    proof {
        assert(out@ =~= all);
    }
    out
}

} // verus!
