use crate::state::ChannelState;
use std::sync::Arc;
use std::sync::Condvar;
use std::sync::Mutex;
use std::sync::MutexGuard;
use vstd::prelude::*;

verus! {

/// std's lock, which guards the shared state; opaque here.
#[verifier::external_type_specification]
#[verifier::external_body]
#[verifier::reject_recursive_types(T)]
pub struct ExMutex<T: ?Sized>(std::sync::Mutex<T>);

/// Proof of holding std's lock; the lock is released when it is dropped.
#[verifier::external_type_specification]
#[verifier::external_body]
#[verifier::reject_recursive_types(T)]
pub struct ExMutexGuard<'a, T: ?Sized + 'a>(std::sync::MutexGuard<'a, T>);

/// std's condition variable, on which receivers block.
#[verifier::external_type_specification]
#[verifier::external_body]
pub struct ExCondvar(std::sync::Condvar);

/// Relies on Mutex::new: a lock, not held, around `t`.
pub assume_specification<T>[ std::sync::Mutex::<T>::new ](t: T) -> Mutex<T>;

/// Relies on Condvar::new: a condition variable with no waiter.
pub assume_specification[ std::sync::Condvar::new ]() -> Condvar;

/// Relies on Condvar::notify_one: wakes at most one thread blocked on `cv`.
pub assume_specification[ std::sync::Condvar::notify_one ](cv: &Condvar);

/// Relies on Mutex::lock: blocks until this thread holds the lock. The lock
/// is poisoned only when a thread panics while holding it. Under it this
/// library runs only the methods of `ChannelState`: `add_sender` and
/// `remove_sender` are verified not to unwind; `push`, `must_wait` and
/// `take_next` only call `VecDeque::push_back`, `len` and `pop_front`, of
/// which `push_back` alone can panic, when the capacity overflows `usize`.
#[verifier::external_body]
fn lock_state<'a, T>(m: &'a Mutex<ChannelState<T>>) -> MutexGuard<'a, ChannelState<T>>
    opens_invariants none
    no_unwind
{
    m.lock().unwrap()
}

/// Relies on MutexGuard's DerefMut: access to the state while the lock is held.
#[verifier::external_body]
fn state_of<'b, 'a, T>(g: &'b mut MutexGuard<'a, ChannelState<T>>) -> &'b mut ChannelState<T>
    opens_invariants none
    no_unwind
{
    &mut **g
}

/// Relies on Condvar::wait_while: releases the lock while blocked, and
/// returns holding it once `must_wait` is false, re-checked on every wake.
#[verifier::external_body]
fn wait_while_empty<'a, T>(cv: &Condvar, g: MutexGuard<'a, ChannelState<T>>) -> MutexGuard<
    'a,
    ChannelState<T>,
> {
    cv.wait_while(g, |s| s.must_wait()).unwrap()
}

/// Relies on Condvar::notify_all: wakes every thread blocked on `cv`.
#[verifier::external_body]
fn wake_all(cv: &Condvar)
    opens_invariants none
    no_unwind
{
    cv.notify_all()
}

/// The core that every handle of one channel shares: the state, its lock,
/// and the condition on which receivers wait for an item or for closure.
#[verifier::reject_recursive_types(T)]
struct Shared<T> {
    inner: Mutex<ChannelState<T>>,
    available: Condvar,
}

/// A handle that adds items to the channel. The channel closes when the
/// last sender is dropped.
#[verifier::reject_recursive_types(T)]
pub struct Sender<T> {
    shared: Arc<Shared<T>>,
}

/// A handle that takes items from the channel; clones compete for them.
#[verifier::reject_recursive_types(T)]
pub struct Receiver<T> {
    shared: Arc<Shared<T>>,
}

impl<T> Sender<T> {
    /// This sender and `rx` belong to one channel: they refer to the same
    /// shared core.
    pub closed spec fn shares_core(&self, rx: &Receiver<T>) -> bool {
        self.shared == rx.shared
    }

    /// This sender and `other` refer to the same shared core.
    pub closed spec fn same_core(&self, other: &Sender<T>) -> bool {
        self.shared == other.shared
    }
}

impl<T> Receiver<T> {
    /// This receiver and `other` refer to the same shared core.
    pub closed spec fn same_core(&self, other: &Receiver<T>) -> bool {
        self.shared == other.shared
    }
}

/// Creates a channel with one sender and one receiver, both on one new core
/// that holds no item and counts one sender.
pub fn new_channel<T>() -> (r: (Sender<T>, Receiver<T>))
    ensures
        r.0.shares_core(&r.1),
{
    let shared = Arc::new(
        Shared { inner: Mutex::new(ChannelState::new()), available: Condvar::new() },
    );
    let tx = Sender { shared: shared.clone() };
    let rx = Receiver { shared };
    (tx, rx)
}

impl<T> Sender<T> {
    /// Appends `msg` at the back of the queue and wakes one blocked receiver.
    /// Never blocks on a full queue and never fails.
    pub fn send(&mut self, msg: T) {
        let mut guard = lock_state(&self.shared.inner);
        state_of(&mut guard).push(msg);
        self.shared.available.notify_one();
    }
}

impl<T> Clone for Sender<T> {
    /// Counts the new sender under the lock before handing it out.
    fn clone(&self) -> (r: Self)
        ensures
            r.same_core(self),
    {
        {
            let mut guard = lock_state(&self.shared.inner);
            state_of(&mut guard).add_sender();
        }
        Sender { shared: self.shared.clone() }
    }
}

impl<T> Drop for Sender<T> {
    /// Counts this sender out; the last one to go wakes every blocked
    /// receiver, so that each of them sees the closure.
    fn drop(&mut self)
        opens_invariants none
        no_unwind
    {
        let now_closed = {
            let mut guard = lock_state(&self.shared.inner);
            state_of(&mut guard).remove_sender()
        };
        if now_closed {
            wake_all(&self.shared.available);
        }
    }
}

impl<T> Receiver<T> {
    /// Takes the front item of the queue, blocking while the queue is empty
    /// and a sender remains. Returns `None` once the queue is empty and no
    /// sender is left: the channel is then closed for good.
    ///
    /// The state behind the lock is opaque to the verifier, so this method
    /// states nothing of its result. That `None` comes only after closure
    /// rests on `Condvar::wait_while`, which returns only once `must_wait`
    /// is false; what follows is `take_next`, whose contract is exact.
    pub fn recv(&mut self) -> Option<T> {
        let guard = lock_state(&self.shared.inner);
        let mut guard = wait_while_empty(&self.shared.available, guard);
        state_of(&mut guard).take_next()
    }
}

impl<T> Clone for Receiver<T> {
    /// Shares the core; receivers take no part in the closure count, so the
    /// core is not touched.
    fn clone(&self) -> (r: Self)
        ensures
            r.same_core(self),
    {
        Receiver { shared: self.shared.clone() }
    }
}

} // verus!
