//! The queue of threads parked on one cell, and the decisions taken on it
//! while its lock is held.

use vstd::prelude::*;

use std::collections::VecDeque;

verus! {

/// How many entries a notify with bound `limit` wakes from a queue of `len`.
pub open spec fn wake_count(len: nat, limit: nat) -> nat {
    if limit < len {
        limit
    } else {
        len
    }
}

/// The entries that a notify with bound `limit` wakes, oldest first.
pub open spec fn woken_by<T>(q: Seq<T>, limit: nat) -> Seq<T> {
    q.take(wake_count(q.len(), limit) as int)
}

/// The entries still queued after a notify with bound `limit`.
pub open spec fn left_after<T>(q: Seq<T>, limit: nat) -> Seq<T> {
    q.skip(wake_count(q.len(), limit) as int)
}

/// The queue after a waiter `me` that observed `observed` while expecting
/// `expected` has been through the check-then-enqueue step.
pub open spec fn registered<T>(q: Seq<T>, observed: u64, expected: u64, me: T) -> Seq<T> {
    if observed == expected {
        q.push(me)
    } else {
        q
    }
}

/// A first-in first-out queue of parked waiters.
pub struct WaitQueue<T> {
    waiters: VecDeque<T>,
}

impl<T> View for WaitQueue<T> {
    type V = Seq<T>;

    closed spec fn view(&self) -> Seq<T> {
        self.waiters@
    }
}

impl<T> WaitQueue<T> {
    /// An empty queue.
    pub fn new() -> (q: Self)
        ensures
            q@ == Seq::<T>::empty(),
    {
        WaitQueue { waiters: VecDeque::new() }
    }

    /// Number of queued waiters.
    pub fn len(&self) -> (r: usize)
        ensures
            r == self@.len(),
    {
        self.waiters.len()
    }

    /// Appends a waiter at the back.
    pub fn enqueue(&mut self, w: T)
        ensures
            final(self)@ == old(self)@.push(w),
    {
        self.waiters.push_back(w);
    }

    /// The futex check: queues `me` exactly when the value observed under the
    /// queue's lock still equals the expected one, and reports whether it did.
    pub fn register_if_unchanged(&mut self, observed: u64, expected: u64, me: T) -> (queued: bool)
        ensures
            queued == (observed == expected),
            final(self)@ == registered(old(self)@, observed, expected, me),
    {
        if observed != expected {
            return false;
        }
        self.enqueue(me);
        true
    }

    /// Removes every waiter and hands them back, oldest first.
    pub fn take_all(&mut self) -> (woken: Vec<T>)
        ensures
            woken@ == old(self)@,
            final(self)@ == Seq::<T>::empty(),
    {
        let n = self.len();
        let woken = self.take_front(n);
        proof {
            assert(woken@ =~= old(self)@);
            assert(self@ =~= Seq::<T>::empty());
        }
        woken
    }

    /// Removes the oldest `min(limit, len)` waiters and hands them back,
    /// oldest first, for the caller to wake.
    pub fn take_front(&mut self, limit: usize) -> (woken: Vec<T>)
        ensures
            woken@ == woken_by(old(self)@, limit as nat),
            final(self)@ == left_after(old(self)@, limit as nat),
    {
        let mut woken: Vec<T> = Vec::new();
        let ghost start = self@;
        while woken.len() < limit
            invariant
                woken.len() <= limit,
                woken@ + self@ == start,
            ensures
                woken@ + self@ == start,
                woken.len() == limit || self@.len() == 0,
            decreases self@.len(),
        {
            match self.waiters.pop_front() {
                Some(w) => {
                    woken.push(w);
                    assert(woken@ + self@ =~= start);
                },
                None => {
                    break;
                },
            }
        }
        proof {
            let n = wake_count(start.len(), limit as nat);
            assert(woken@.len() == n);
            assert(woken@ =~= start.take(n as int));
            assert(self@ =~= start.skip(n as int));
        }
        woken
    }
}

/// A notify never wakes more entries than its bound, and the entries it wakes
/// and those it leaves make up the queue it found, each exactly once.
pub proof fn notify_splits_queue<T>(q: Seq<T>, limit: nat)
    ensures
        woken_by(q, limit).len() <= limit,
        woken_by(q, limit) + left_after(q, limit) == q,
{
    assert(woken_by(q, limit) + left_after(q, limit) =~= q);
}

/// Over two notifies, with any waiters arriving between them, each entry is
/// woken by at most one of them: the first wakes a prefix of the queue, the
/// second a prefix of what is left, and together with the remainder they are
/// exactly the entries that were ever queued, in order.
pub proof fn notify_wakes_each_entry_once<T>(
    q: Seq<T>,
    limit1: nat,
    arrivals: Seq<T>,
    limit2: nat,
)
    ensures
        ({
            let w1 = woken_by(q, limit1);
            let q2 = left_after(q, limit1) + arrivals;
            let w2 = woken_by(q2, limit2);
            &&& w1.len() <= limit1
            &&& w2.len() <= limit2
            &&& w1 + w2 + left_after(q2, limit2) == q + arrivals
        }),
{
    let w1 = woken_by(q, limit1);
    let q2 = left_after(q, limit1) + arrivals;
    notify_splits_queue(q, limit1);
    notify_splits_queue(q2, limit2);
    assert(w1 + q2 =~= q + arrivals);
    assert(w1 + woken_by(q2, limit2) + left_after(q2, limit2) =~= w1 + q2);
}

/// A waiter that passed the check is never lost: a later notify either wakes
/// it, in the place of every entry that was queued before it, or leaves it
/// queued at the back. In particular, when it is the only waiter a notify with
/// any positive bound wakes it.
pub proof fn registered_waiter_is_woken_or_kept<T>(
    q: Seq<T>,
    value: u64,
    me: T,
    limit: nat,
)
    ensures
        ({
            let after = registered(q, value, value, me);
            &&& after == q.push(me)
            &&& limit > q.len() ==> woken_by(after, limit).len() == q.len() + 1
                && woken_by(after, limit).last() == me
            &&& limit <= q.len() ==> left_after(after, limit).len() > 0
                && left_after(after, limit).last() == me
            &&& q.len() == 0 && limit > 0 ==> woken_by(after, limit) == seq![me]
        }),
{
    let after = q.push(me);
    if q.len() == 0 && limit > 0 {
        assert(woken_by(after, limit) =~= seq![me]);
    }
}

/// A waiter that finds the value already changed is not queued.
pub proof fn changed_value_is_not_queued<T>(q: Seq<T>, observed: u64, expected: u64, me: T)
    requires
        observed != expected,
    ensures
        registered(q, observed, expected, me) == q,
{
}

} // verus!
