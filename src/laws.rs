use crate::state::{
    closed, cloned_model, dropped_model, fresh_model, received_model, sent_model, waits, CoreModel,
};
use vstd::prelude::*;

verus! {

/// One operation on the shared core, as it happens under the lock.
pub enum Event<T> {
    /// A sender appends an item.
    Send(T),
    /// The receiver with this index asks for an item.
    Recv(nat),
    /// A sender is cloned.
    CloneSender,
    /// A sender is destroyed.
    DropSender,
}

/// The effect of one event: the next core, and what was delivered, each item
/// with the receiver that got it. A receive on a core where receivers must
/// wait delivers nothing and changes nothing: that receiver stays blocked.
/// The send, clone and drop steps are the exact contracts of `ChannelState`'s
/// methods; the receive step is `take_next` performed once `must_wait` is
/// false, which the handles obtain from std's `Condvar::wait_while`.
pub open spec fn step<T>(m: CoreModel<T>, e: Event<T>) -> (CoreModel<T>, Seq<(nat, T)>) {
    match e {
        Event::Send(x) => (sent_model(m, x), Seq::empty()),
        Event::Recv(r) => {
            if waits(m) {
                (m, Seq::empty())
            } else {
                let (next, got) = received_model(m);
                match got {
                    Some(x) => (next, seq![(r, x)]),
                    None => (next, Seq::empty()),
                }
            }
        },
        Event::CloneSender => (cloned_model(m), Seq::empty()),
        Event::DropSender => (dropped_model(m), Seq::empty()),
    }
}

/// The core after `events`, in order, starting from `m`, and every delivery
/// made on the way.
pub open spec fn run<T>(m: CoreModel<T>, events: Seq<Event<T>>) -> (CoreModel<T>, Seq<(nat, T)>)
    decreases events.len(),
{
    if events.len() == 0 {
        (m, Seq::empty())
    } else {
        let (mid, before) = run(m, events.drop_last());
        let (last, now) = step(mid, events.last());
        (last, before + now)
    }
}

/// The items that `events` send, in order.
pub open spec fn sent_items<T>(events: Seq<Event<T>>) -> Seq<T>
    decreases events.len(),
{
    if events.len() == 0 {
        Seq::empty()
    } else {
        let before = sent_items(events.drop_last());
        match events.last() {
            Event::Send(x) => before.push(x),
            _ => before,
        }
    }
}

/// The items of a list of deliveries, whichever receiver got them.
pub open spec fn delivered_items<T>(d: Seq<(nat, T)>) -> Seq<T> {
    d.map_values(|p: (nat, T)| p.1)
}

/// Every event is a receive.
pub open spec fn only_receives<T>(events: Seq<Event<T>>) -> bool {
    forall|i: int| 0 <= i < events.len() ==> (#[trigger] events[i]) is Recv
}

/// First in, first out: whatever the interleaving of sends, receives and
/// sender clones and drops, what was queued at the start followed by what
/// was sent equals what was delivered followed by what is still queued. So
/// items leave in the order in which they were enqueued.
pub proof fn lemma_fifo_delivery<T>(m: CoreModel<T>, events: Seq<Event<T>>)
    ensures
        m.queue + sent_items(events) == delivered_items(run(m, events).1) + run(m, events).0.queue,
    decreases events.len(),
{
    if events.len() == 0 {
        assert(m.queue + sent_items(events) =~= m.queue);
        assert(delivered_items(run(m, events).1) + run(m, events).0.queue =~= m.queue);
    } else {
        let init = events.drop_last();
        lemma_fifo_delivery(m, init);
        let (mid, before) = run(m, init);
        let (last, now) = step(mid, events.last());
        assert(delivered_items(before + now) =~= delivered_items(before) + delivered_items(now));
        match events.last() {
            Event::Send(x) => {
                assert(m.queue + sent_items(events) =~= (m.queue + sent_items(init)).push(x));
                assert(delivered_items(now) =~= Seq::<T>::empty());
                assert(delivered_items(before + now) + last.queue =~= (delivered_items(before)
                    + mid.queue).push(x));
            },
            Event::Recv(r) => {
                assert(sent_items(events) == sent_items(init));
                if !waits(mid) && mid.queue.len() > 0 {
                    assert(delivered_items(now) =~= seq![mid.queue[0]]);
                    assert(seq![mid.queue[0]] + mid.queue.drop_first() =~= mid.queue);
                    assert(delivered_items(before) + delivered_items(now) + last.queue
                        =~= delivered_items(before) + mid.queue);
                } else {
                    assert(delivered_items(now) =~= Seq::<T>::empty());
                    assert(delivered_items(before + now) =~= delivered_items(before));
                }
            },
            _ => {
                assert(sent_items(events) == sent_items(init));
                assert(delivered_items(now) =~= Seq::<T>::empty());
                assert(delivered_items(before + now) =~= delivered_items(before));
            },
        }
    }
}

/// No loss and no duplication: on a fresh channel, over any number of
/// receivers and any interleaving, the items delivered to all receivers
/// together with those still queued are, as a multiset, exactly the items
/// sent; once the queue is drained, the delivered items alone are.
pub proof fn lemma_no_loss_no_duplication<T>(events: Seq<Event<T>>)
    ensures
        sent_items(events).to_multiset() == delivered_items(
            run(fresh_model(), events).1,
        ).to_multiset().add(run(fresh_model(), events).0.queue.to_multiset()),
        run(fresh_model::<T>(), events).0.queue.len() == 0 ==> sent_items(events).to_multiset()
            == delivered_items(run(fresh_model(), events).1).to_multiset(),
{
    let m = fresh_model::<T>();
    let (last, d) = run(m, events);
    lemma_fifo_delivery(m, events);
    assert(m.queue + sent_items(events) =~= sent_items(events));
    vstd::seq_lib::lemma_multiset_commutative(delivered_items(d), last.queue);
    if last.queue.len() == 0 {
        assert(delivered_items(d) + last.queue =~= delivered_items(d));
    }
}

/// Closure is correct: a receive that does not block returns end-of-stream
/// exactly when the queue is empty, never while items remain; and once the
/// last sender is gone and the queue is drained, receivers no longer block
/// and every later receive, by any receiver, returns end-of-stream.
pub proof fn lemma_closure<T>(m: CoreModel<T>, events: Seq<Event<T>>)
    ensures
        received_model(m).1 is None <==> m.queue.len() == 0,
        closed(m) && m.queue.len() == 0 && only_receives(events) ==> {
            &&& !waits(m)
            &&& received_model(m) == (m, None::<T>)
            &&& run(m, events) == (m, Seq::<(nat, T)>::empty())
        },
{
    if closed(m) && m.queue.len() == 0 && only_receives(events) {
        lemma_receives_after_end(m, events);
    }
}

/// Closure is idempotent: once a receive has returned end-of-stream, the
/// core is unchanged and any number of further receives deliver nothing.
pub proof fn lemma_closure_idempotent<T>(m: CoreModel<T>, events: Seq<Event<T>>)
    requires
        !waits(m),
        received_model(m).1 is None,
        only_receives(events),
    ensures
        received_model(m).0 == m,
        run(m, events) == (m, Seq::<(nat, T)>::empty()),
{
    lemma_receives_after_end(m, events);
}

proof fn lemma_receives_after_end<T>(m: CoreModel<T>, events: Seq<Event<T>>)
    requires
        !waits(m),
        m.queue.len() == 0,
        only_receives(events),
    ensures
        run(m, events) == (m, Seq::<(nat, T)>::empty()),
    decreases events.len(),
{
    if events.len() > 0 {
        let init = events.drop_last();
        assert(events.last() is Recv);
        assert forall|i: int| 0 <= i < init.len() implies (#[trigger] init[i]) is Recv by {
            assert(init[i] == events[i]);
        }
        lemma_receives_after_end(m, init);
        assert(Seq::<(nat, T)>::empty() + Seq::<(nat, T)>::empty() =~= Seq::<(nat, T)>::empty());
    }
}

/// What a blocked receiver waits on ends with a send, and with the exit of
/// the last sender: after either, receivers no longer have to wait.
pub proof fn lemma_wait_ends_on_send_or_close<T>(m: CoreModel<T>, item: T)
    ensures
        !waits(sent_model(m, item)),
        m.senders == 1 ==> !waits(dropped_model(m)) && closed(dropped_model(m)),
{
}

} // verus!
