use std::collections::VecDeque;
use vstd::prelude::*;

verus! {

/// The abstract value of the shared core: the queued items, front first,
/// and the number of sender handles currently alive.
pub struct CoreModel<T> {
    pub queue: Seq<T>,
    pub senders: nat,
}

/// The core of a fresh channel: nothing queued, one sender.
pub open spec fn fresh_model<T>() -> CoreModel<T> {
    CoreModel { queue: Seq::empty(), senders: 1 }
}

/// A send appends the item at the back of the queue.
pub open spec fn sent_model<T>(m: CoreModel<T>, item: T) -> CoreModel<T> {
    CoreModel { queue: m.queue.push(item), ..m }
}

/// Cloning a sender adds one live sender.
pub open spec fn cloned_model<T>(m: CoreModel<T>) -> CoreModel<T> {
    CoreModel { senders: m.senders + 1, ..m }
}

/// Destroying a sender removes one live sender; the count never goes below zero.
pub open spec fn dropped_model<T>(m: CoreModel<T>) -> CoreModel<T> {
    CoreModel { senders: if m.senders > 0 { (m.senders - 1) as nat } else { 0 }, ..m }
}

/// A receiver must block: the queue is empty and a sender may still add to it.
pub open spec fn waits<T>(m: CoreModel<T>) -> bool {
    m.queue.len() == 0 && m.senders > 0
}

/// The channel is closed: no sender remains.
pub open spec fn closed<T>(m: CoreModel<T>) -> bool {
    m.senders == 0
}

/// The outcome of a receive that does not block: the front item, taken off
/// the queue, or end-of-stream (`None`) with the core unchanged.
pub open spec fn received_model<T>(m: CoreModel<T>) -> (CoreModel<T>, Option<T>) {
    if m.queue.len() > 0 {
        (CoreModel { queue: m.queue.drop_first(), ..m }, Some(m.queue[0]))
    } else {
        (m, None)
    }
}

/// The state that the lock protects: the queue of items and the count of
/// live senders. Every operation on it runs while the lock is held.
pub struct ChannelState<T> {
    queue: VecDeque<T>,
    n_senders: usize,
}

impl<T> View for ChannelState<T> {
    type V = CoreModel<T>;

    closed spec fn view(&self) -> CoreModel<T> {
        CoreModel { queue: self.queue@, senders: self.n_senders as nat }
    }
}

impl<T> ChannelState<T> {
    /// The core of a new channel, which counts its first sender.
    pub fn new() -> (r: Self)
        ensures
            r@ == fresh_model::<T>(),
    {
        let r = ChannelState { queue: VecDeque::new(), n_senders: 1 };
        assert(r@.queue =~= Seq::<T>::empty());
        r
    }

    /// Appends `item` at the back of the queue.
    pub fn push(&mut self, item: T)
        ensures
            final(self)@ == sent_model(old(self)@, item),
    {
        self.queue.push_back(item);
    }

    /// Counts one more live sender. The count cannot reach `usize::MAX`
    /// in a running process, since each sender holds a reference to the
    /// core; should it get there, it stays.
    pub fn add_sender(&mut self)
        ensures
            old(self)@.senders < usize::MAX ==> final(self)@ == cloned_model(old(self)@),
            old(self)@.senders == usize::MAX ==> final(self)@ == old(self)@,
    no_unwind
    {
        if self.n_senders < usize::MAX {
            self.n_senders = self.n_senders + 1;
        }
    }

    /// Counts one sender less and reports whether none is left, in which
    /// case every blocked receiver has to be woken.
    pub fn remove_sender(&mut self) -> (now_closed: bool)
        ensures
            final(self)@ == dropped_model(old(self)@),
            now_closed == closed(final(self)@),
    opens_invariants none
    no_unwind
    {
        if self.n_senders > 0 {
            self.n_senders = self.n_senders - 1;
        }
        self.n_senders == 0
    }

    /// Whether a receiver has to block: nothing is queued and a sender
    /// may still add an item.
    pub fn must_wait(&self) -> (r: bool)
        ensures
            r == waits(self@),
    {
        self.queue.len() == 0 && self.n_senders > 0
    }

    /// Takes the front item off the queue, or returns end-of-stream
    /// (`None`) when the queue is empty. Receivers call it once
    /// `must_wait` is false, so that `None` means the channel is closed.
    pub fn take_next(&mut self) -> (r: Option<T>)
        ensures
            (final(self)@, r) == received_model(old(self)@),
    {
        let r = self.queue.pop_front();
        proof {
            if old(self)@.queue.len() > 0 {
                assert(self@.queue =~= old(self)@.queue.drop_first());
            }
        }
        r
    }
}

} // verus!
