//! First-in, first-out queues between the agent's threads.
use vstd::prelude::*;

verus! {

/// A FIFO list: items leave in the order in which they came.
pub struct FifoQueue<T> {
    items: Vec<T>,
}

impl<T> View for FifoQueue<T> {
    type V = Seq<T>;

    closed spec fn view(&self) -> Seq<T> {
        self.items@
    }
}

impl<T> FifoQueue<T> {
    pub fn new() -> (r: FifoQueue<T>)
        ensures
            r@ == Seq::<T>::empty(),
    {
        FifoQueue { items: Vec::new() }
    }

    /// Appends `item` at the back.
    pub fn push(&mut self, item: T)
        ensures
            final(self)@ == old(self)@.push(item),
    {
        self.items.push(item);
    }

    /// Takes every queued item out, front first.
    pub fn drain(&mut self) -> (r: Vec<T>)
        ensures
            r@ == old(self)@,
            final(self)@ == Seq::<T>::empty(),
    {
        let mut out: Vec<T> = Vec::new();
        std::mem::swap(&mut out, &mut self.items);
        out
    }

    pub fn len(&self) -> (r: usize)
        ensures
            r == self@.len(),
    {
        self.items.len()
    }
}

} // verus!
