//! An unbounded multi-producer, single-consumer (MPSC) channel.
//!
//! Any number of `Sender` handles enqueue values into one shared FIFO queue;
//! the single `Receiver` dequeues them in arrival order, blocking while the
//! channel is empty but still open, and reporting disconnection once every
//! sender is gone and the queue has drained.
//!
//! The shared state — the queue and the count of live senders — is only ever
//! touched inside a critical section of one mutex, and a condition paired
//! with that mutex wakes a parked receiver when a value arrives or the last
//! sender departs. Each critical section's read-modify-write is a verified
//! method of [`Inner`]; the lock and condition hand-offs themselves are the
//! trusted boundary around them.
//!
//! The receiver additionally keeps a private buffer, never shared with any
//! sender: when a lock-guarded dequeue finds more values behind the first
//! one, it swaps the whole remainder into that buffer, so the following
//! receives need no lock at all. The swap is an optimization only; the spec
//! functions [`pending`], [`model_recv_value`] and [`model_recv_rest`] and
//! the lemmas below state that what the receiver observes depends only on
//! the combined pending sequence, never on how it is split between the
//! buffer and the shared queue.

use std::collections::VecDeque;
use std::sync::Arc;
use std::sync::MutexGuard;
use vstd::prelude::*;

verus! {

/// Error returned by [`Receiver::recv`] once the queue is empty and every
/// `Sender` has been dropped: no further value can ever arrive. This is the
/// expected end-of-stream signal, not a fault.
#[derive(Debug, PartialEq, Eq, Structural)]
pub struct RecvError {}

impl RecvError {
    /// A short description of the condition, for callers that report it.
    pub fn message(&self) -> (r: &'static str)
        ensures
            r@ == "channel disconnected"@,
    {
        "channel disconnected"
    }
}

/// The values a receiver is still owed, oldest first: its private buffer
/// followed by the shared queue. Every observable statement about receiving
/// is made over this combined sequence, so the private-buffer optimization
/// cannot change behaviour.
pub open spec fn pending<T>(buffered: Seq<T>, queued: Seq<T>) -> Seq<T> {
    buffered + queued
}

/// What one `send` does to the pending values: the new one joins at the
/// back, behind everything sent earlier.
pub open spec fn model_send<T>(p: Seq<T>, v: T) -> Seq<T> {
    p.push(v)
}

/// What a run of sends does: each value joins at the back in turn, in the
/// order the senders acquired the lock.
pub open spec fn model_send_all<T>(p: Seq<T>, vs: Seq<T>) -> Seq<T>
    decreases vs.len(),
{
    if vs.len() == 0 {
        p
    } else {
        model_send_all(model_send(p, vs[0]), vs.drop_first())
    }
}

/// The value one receive yields from a non-empty pending sequence: the
/// oldest one.
pub open spec fn model_recv_value<T>(p: Seq<T>) -> T
    recommends
        p.len() > 0,
{
    p[0]
}

/// What one successful receive leaves pending: everything but the oldest.
pub open spec fn model_recv_rest<T>(p: Seq<T>) -> Seq<T>
    recommends
        p.len() > 0,
{
    p.drop_first()
}

/// Everything a full drain yields, in order, by receiving until nothing is
/// pending.
pub open spec fn model_drain<T>(p: Seq<T>) -> Seq<T>
    decreases p.len(),
{
    if p.len() == 0 {
        Seq::empty()
    } else {
        seq![model_recv_value(p)] + model_drain(model_recv_rest(p))
    }
}

/// Whether a receive observes disconnection: nothing pending, and no live
/// sender to ever change that. Terminal — every later receive observes it
/// again.
pub open spec fn model_disconnected<T>(p: Seq<T>, senders: nat) -> bool {
    p.len() == 0 && senders == 0
}

/// Whether a receive must block: nothing pending, yet a live sender may
/// still produce. This is the predicate the receiver's wait re-checks on
/// every wake, and the only state in which `recv` does not return.
pub open spec fn model_blocked<T>(p: Seq<T>, senders: nat) -> bool {
    p.len() == 0 && senders > 0
}

/// The receive decision is total and exclusive: every channel state falls
/// in exactly one of three classes — a value is pending and the oldest is
/// delivered; nothing is pending and no sender remains, so disconnection
/// is reported; or nothing is pending but a sender survives, and the
/// receiver blocks until a send or the last sender's departure wakes it.
pub proof fn lemma_recv_decision_total<T>(p: Seq<T>, senders: nat)
    ensures
        p.len() > 0 || model_disconnected(p, senders) || model_blocked(p, senders),
        !(p.len() > 0 && model_disconnected(p, senders)),
        !(p.len() > 0 && model_blocked(p, senders)),
        !(model_disconnected(p, senders) && model_blocked(p, senders)),
{
}

/// A run of sends appends exactly its values, in order: nothing already
/// pending moves, nothing is lost, nothing is duplicated.
pub proof fn lemma_send_all_appends<T>(p: Seq<T>, vs: Seq<T>)
    ensures
        model_send_all(p, vs) == p + vs,
    decreases vs.len(),
{
    if vs.len() == 0 {
        assert(p + vs =~= p);
    } else {
        lemma_send_all_appends(model_send(p, vs[0]), vs.drop_first());
        assert(model_send(p, vs[0]) + vs.drop_first() =~= p + vs);
    }
}

/// Draining a channel yields exactly the pending values, oldest first.
pub proof fn lemma_drain_yields_pending<T>(p: Seq<T>)
    ensures
        model_drain(p) == p,
    decreases p.len(),
{
    if p.len() == 0 {
        assert(model_drain(p) =~= p);
    } else {
        lemma_drain_yields_pending(model_recv_rest(p));
        assert(seq![model_recv_value(p)] + model_recv_rest(p) =~= p);
    }
}

/// FIFO: values sent `v1, v2, …, vn` by a single sender with no interleaved
/// sends are received as exactly `v1, v2, …, vn`, in that order.
pub proof fn lemma_fifo<T>(vs: Seq<T>)
    ensures
        model_drain(model_send_all(Seq::empty(), vs)) == vs,
{
    lemma_send_all_appends(Seq::empty(), vs);
    assert(Seq::<T>::empty() + vs =~= vs);
    lemma_drain_yields_pending(vs);
}

/// Disconnect-after-drop: with nothing pending, the departure of the last
/// live sender leaves the channel in the state every receive reports as
/// disconnected — and does so immediately, the departure itself signalling
/// the receiver, so no receive on it can wait for a value that will never
/// come.
pub proof fn lemma_disconnect_after_last_drop<T>(p: Seq<T>, senders: nat)
    requires
        senders == 1,
        p.len() == 0,
    ensures
        model_disconnected(p, (senders - 1) as nat),
{
}

/// The values of one sender within an interleaving of tagged send events,
/// in the order that sender issued them.
pub open spec fn by_sender<T>(evs: Seq<(int, T)>, k: int) -> Seq<(int, T)> {
    evs.filter(|e: (int, T)| e.0 == k)
}

/// Multi-sender interleave safety: for any interleaving of sends from any
/// number of senders — each event tagged with its sender — the receiver
/// drains exactly the sent values: none lost, none duplicated, and the
/// values of each single sender in that sender's own send order. No order
/// is promised across senders beyond the interleaving itself.
pub proof fn lemma_interleaving_safe<T>(evs: Seq<(int, T)>)
    ensures
        model_drain(model_send_all(Seq::empty(), evs)) == evs,
        model_drain(model_send_all(Seq::empty(), evs)).len() == evs.len(),
        forall|k: int| #[trigger] by_sender(model_drain(model_send_all(Seq::empty(), evs)), k)
            == by_sender(evs, k),
{
    lemma_fifo(evs);
}

/// Buffer-swap transparency: the outcome of a receive is a function of the
/// pending sequence alone. Any two splits of the same values between the
/// private buffer and the shared queue yield the same received value and
/// leave the same values pending, so the swap optimization is unobservable.
pub proof fn lemma_split_transparent<T>(b1: Seq<T>, q1: Seq<T>, b2: Seq<T>, q2: Seq<T>)
    requires
        pending(b1, q1) == pending(b2, q2),
    ensures
        pending(b1, q1).len() > 0 ==> model_recv_value(pending(b1, q1)) == model_recv_value(
            pending(b2, q2),
        ),
        pending(b1, q1).len() > 0 ==> model_recv_rest(pending(b1, q1)) == model_recv_rest(
            pending(b2, q2),
        ),
        model_disconnected(pending(b1, q1), 0) == model_disconnected(pending(b2, q2), 0),
{
}

/// The state all handles of one channel share, guarded by one lock: the FIFO
/// queue of sent-but-undelivered values, and the count of live `Sender`
/// handles. The count is kept separately from the shared allocation's own
/// reference count because the receiver also holds the allocation: the
/// reference count alone could not tell "no senders" from "no handles".
pub(crate) struct Inner<T> {
    /// Values in arrival order: pushed at the back, popped from the front.
    pub(crate) queue: VecDeque<T>,
    /// `Sender` handles not yet dropped. Reaches zero at most once.
    pub(crate) senders: usize,
}

/// The outcome of one lock-guarded pass of the receiver's slow path.
pub(crate) enum Step<T> {
    /// The front of the shared queue.
    Got(T),
    /// Queue empty and no sender left: terminal.
    Disconnected,
    /// Queue empty but senders remain: the receiver must park and retry.
    Empty,
}

impl<T> Inner<T> {
    /// The state of a freshly constructed channel: nothing queued, and one
    /// live sender (the one `channel` hands back).
    pub(crate) fn new() -> (r: Self)
        ensures
            r.queue@ =~= Seq::<T>::empty(),
            r.senders == 1,
    {
        Inner { queue: VecDeque::new(), senders: 1 }
    }

    /// The send critical section: the value joins at the back of the queue,
    /// behind everything sent earlier; the sender count is untouched.
    pub(crate) fn enqueue(&mut self, v: T)
        ensures
            final(self).queue@ == model_send(old(self).queue@, v),
            final(self).senders == old(self).senders,
    {
        self.queue.push_back(v);
    }

    /// The sender-registration critical section, run before a cloned handle
    /// exists. The count tracks live `Sender` handles, each of which owns at
    /// least a machine word of memory, so it cannot in fact reach
    /// `usize::MAX`; the guard only keeps the operation total.
    pub(crate) fn register_sender(&mut self)
        ensures
            final(self).queue@ == old(self).queue@,
            old(self).senders < usize::MAX ==> final(self).senders == old(self).senders + 1,
            old(self).senders == usize::MAX ==> final(self).senders == old(self).senders,
    {
        if self.senders < usize::MAX {
            self.senders = self.senders + 1;
        }
    }

    /// The sender-departure critical section: one handle gone. Reports
    /// whether it was the last, so the caller wakes the receiver exactly
    /// once and a blocked `recv` observes disconnection instead of waiting
    /// forever. The count never resurrects: once zero, it stays zero.
    pub(crate) fn release_sender(&mut self) -> (last: bool)
        ensures
            final(self).queue@ == old(self).queue@,
            old(self).senders > 0 ==> final(self).senders == old(self).senders - 1,
            old(self).senders == 0 ==> final(self).senders == 0,
            last == (old(self).senders == 1),
        opens_invariants none
        no_unwind
    {
        if self.senders > 0 {
            self.senders = self.senders - 1;
            self.senders == 0
        } else {
            false
        }
    }

    /// True exactly when the receiver must park before anything can be
    /// delivered: nothing queued, yet senders remain that may still send.
    /// This is the predicate the receiver's wait re-checks on every wake.
    pub(crate) fn must_wait(&self) -> (r: bool)
        ensures
            r == model_blocked(self.queue@, self.senders as nat),
    {
        self.queue.len() == 0 && self.senders > 0
    }

    /// One pass of the receiver's slow path, run with the lock held: pop the
    /// front of the shared queue and, when more values remain behind it,
    /// swap the whole remainder into the receiver's private buffer (and the
    /// buffer's contents — empty whenever the receiver calls this — back
    /// into the shared slot) in the same critical section, so the next
    /// receives can skip the lock. With an empty queue, report disconnection
    /// exactly when no sender remains.
    pub(crate) fn recv_step(&mut self, buf: &mut VecDeque<T>) -> (s: Step<T>)
        ensures
            final(self).senders == old(self).senders,
            (match s {
                Step::Got(v) => {
                    &&& old(self).queue@.len() > 0
                    &&& v == old(self).queue@[0]
                    &&& if old(self).queue@.len() > 1 {
                        final(buf)@ == old(self).queue@.drop_first() && final(self).queue@
                            == old(buf)@
                    } else {
                        final(buf)@ == old(buf)@ && final(self).queue@
                            == old(self).queue@.drop_first()
                    }
                },
                Step::Disconnected => {
                    &&& old(self).queue@.len() == 0
                    &&& old(self).senders == 0
                    &&& final(buf)@ == old(buf)@
                    &&& final(self).queue@ == old(self).queue@
                },
                Step::Empty => {
                    &&& old(self).queue@.len() == 0
                    &&& old(self).senders > 0
                    &&& final(buf)@ == old(buf)@
                    &&& final(self).queue@ == old(self).queue@
                },
            }),
            old(buf)@.len() == 0 ==> (match s {
                Step::Got(v) => {
                    &&& v == model_recv_value(pending(old(buf)@, old(self).queue@))
                    &&& pending(final(buf)@, final(self).queue@) == model_recv_rest(
                        pending(old(buf)@, old(self).queue@),
                    )
                },
                Step::Disconnected => model_disconnected(
                    pending(old(buf)@, old(self).queue@),
                    old(self).senders as nat,
                ),
                Step::Empty => pending(old(buf)@, old(self).queue@).len() == 0
                    && old(self).senders > 0,
            }),
    {
        match self.queue.pop_front() {
            Some(v) => {
                if self.queue.len() > 0 {
                    core::mem::swap(buf, &mut self.queue);
                }
                proof {
                    assert(old(self).queue@.drop_first() =~= old(self).queue@.subrange(
                        1,
                        old(self).queue@.len() as int,
                    ));
                    if old(buf)@.len() == 0 {
                        assert(pending(old(buf)@, old(self).queue@) =~= old(self).queue@);
                        assert(pending(final(buf)@, final(self).queue@) =~= old(
                            self,
                        ).queue@.drop_first());
                    }
                }
                Step::Got(v)
            },
            None => {
                if self.senders == 0 {
                    Step::Disconnected
                } else {
                    Step::Empty
                }
            },
        }
    }
}

#[verifier::external_type_specification]
#[verifier::external_body]
#[verifier::reject_recursive_types(T)]
pub struct ExMutex<T: ?Sized>(std::sync::Mutex<T>);

#[verifier::external_type_specification]
#[verifier::external_body]
pub struct ExCondvar(std::sync::Condvar);

#[verifier::external_type_specification]
#[verifier::external_body]
#[verifier::reject_recursive_types(T)]
pub struct ExMutexGuard<'a, T: ?Sized + 'a>(MutexGuard<'a, T>);

/// The heap block every handle of one channel points at: the guarded state,
/// and the condition a parked receiver waits on. The condition is only ever
/// waited on with the lock held, and only ever signalled after a critical
/// section that queued a value or retired the last sender.
#[verifier::reject_recursive_types(T)]
pub(crate) struct Shared<T> {
    mu: std::sync::Mutex<Inner<T>>,
    avail: std::sync::Condvar,
}

/// Relies on `std::sync::Mutex::new`: a fresh, unlocked mutex holding
/// `inner`, not yet reachable from any other thread.
#[verifier::external_body]
fn new_state_lock<T>(inner: Inner<T>) -> std::sync::Mutex<Inner<T>>
    opens_invariants none
    no_unwind
{
    std::sync::Mutex::new(inner)
}

/// Relies on `std::sync::Condvar::new`: a fresh condition with no waiter.
#[verifier::external_body]
fn new_condvar() -> std::sync::Condvar
    opens_invariants none
    no_unwind
{
    std::sync::Condvar::new()
}

/// Relies on `std::sync::Mutex::lock`: blocks until this thread holds the
/// lock exclusively, for as long as the returned guard lives. The `unwrap`
/// concerns lock poisoning only, and no thread of this module can poison
/// the lock: no verified code panics, and every critical section here is
/// panic-free.
#[verifier::external_body]
fn lock_shared<'a, T>(shared: &'a Arc<Shared<T>>) -> MutexGuard<'a, Inner<T>>
    opens_invariants none
    no_unwind
{
    shared.mu.lock().unwrap()
}

/// Relies on `std::sync::MutexGuard`'s `DerefMut`: the guarded state,
/// exclusively, for as long as the borrow of the guard lasts.
#[verifier::external_body]
fn guard_state<'a, 'b, T>(guard: &'b mut MutexGuard<'a, Inner<T>>) -> &'b mut Inner<T>
    opens_invariants none
    no_unwind
{
    &mut **guard
}

/// Relies on `std::sync::MutexGuard`'s `Drop`: releases the lock. Used to
/// unlock before signalling, so a woken thread does not immediately block
/// on a lock the signaller still holds.
#[verifier::external_body]
fn unlock<'a, T>(guard: MutexGuard<'a, Inner<T>>)
    opens_invariants none
    no_unwind
{
    drop(guard);
}

/// Relies on `std::sync::Condvar::wait_while`: while the verified predicate
/// [`Inner::must_wait`] holds, parks this thread, atomically releasing the
/// lock held through `guard` for the duration of each park and reacquiring
/// it on each wake — so no signal sent between a predicate check and the
/// park can be lost. It returns, with the lock held again, only once the
/// predicate is false, re-checking it on every wake, spurious or not. The
/// `unwrap` concerns poisoning only, as at `lock_shared`.
#[verifier::external_body]
fn wait_ready<'a, T>(
    shared: &Arc<Shared<T>>,
    guard: MutexGuard<'a, Inner<T>>,
) -> MutexGuard<'a, Inner<T>>
    opens_invariants none
    no_unwind
{
    shared.avail.wait_while(guard, |state: &mut Inner<T>| state.must_wait()).unwrap()
}

/// Relies on `std::sync::Condvar::notify_one`: wakes at most one thread
/// blocked on the condition — enough here, since only the single receiver
/// ever waits.
#[verifier::external_body]
fn notify_receiver<T>(shared: &Arc<Shared<T>>)
    opens_invariants none
    no_unwind
{
    shared.avail.notify_one();
}

/// A cloneable handle that enqueues values into the channel.
#[verifier::reject_recursive_types(T)]
pub struct Sender<T> {
    inner: Arc<Shared<T>>,
}

/// The single handle that dequeues values from the channel, with a private
/// buffer that lets it skip the lock while previously swapped-out values
/// remain.
#[verifier::reject_recursive_types(T)]
pub struct Receiver<T> {
    inner: Arc<Shared<T>>,
    buf: VecDeque<T>,
}

impl<T> Sender<T> {
    /// True when both handles belong to the same channel.
    pub closed spec fn connected(&self, receiver: &Receiver<T>) -> bool {
        self.inner == receiver.inner
    }

    /// True when both senders feed the same channel.
    pub closed spec fn same_channel(&self, other: &Sender<T>) -> bool {
        self.inner == other.inner
    }

    /// Appends `val` at the back of the shared queue under the lock, then
    /// wakes the receiver. Never blocks beyond the lock hand-off and never
    /// fails: the queue is unbounded, so there is no backpressure, and a
    /// send with no receiver left simply retains the value until the
    /// handles are gone — detecting the loss of the counterpart is the
    /// receiver's job, not the sender's. The effect on the shared queue is the
    /// verified [`Inner::enqueue`]: `model_send` of the queued values.
    pub fn send(&self, val: T) {
        let mut guard = lock_shared(&self.inner);
        let state = guard_state(&mut guard);
        state.enqueue(val);
        unlock(guard);
        notify_receiver(&self.inner);
    }
}

impl<T> Clone for Sender<T> {
    /// Registers one more live sender under the lock before the new handle
    /// exists — a registration, not a mere pointer copy — so a concurrent
    /// drop of another sender can never observe a stale count and wrongly
    /// report disconnection.
    fn clone(&self) -> (r: Self)
        ensures
            r.same_channel(self),
    {
        let mut guard = lock_shared(&self.inner);
        let state = guard_state(&mut guard);
        state.register_sender();
        unlock(guard);
        Sender { inner: self.inner.clone() }
    }
}

impl<T> Drop for Sender<T> {
    /// Retires this handle under the lock; when it was the last live
    /// sender, signals the condition once, so a receiver blocked in `recv`
    /// wakes and observes disconnection instead of waiting forever.
    fn drop(&mut self)
        opens_invariants none
        no_unwind
    {
        let mut guard = lock_shared(&self.inner);
        let state = guard_state(&mut guard);
        let last = state.release_sender();
        unlock(guard);
        if last {
            notify_receiver(&self.inner);
        }
    }
}

impl<T> Receiver<T> {
    /// The values already swapped into this receiver's private buffer,
    /// oldest first: these are delivered before the shared queue is
    /// consulted again.
    pub closed spec fn buffered(&self) -> Seq<T> {
        self.buf@
    }

    /// Takes the oldest pending value. Fast path: the front of the private
    /// buffer, no lock taken. Slow path: under the lock, pop the shared
    /// queue's front (swapping any remainder into the private buffer);
    /// with the queue empty, either report disconnection — exactly when no
    /// sender remains, a terminal condition — or park on the condition and
    /// re-check on every wake, spurious or not.
    pub fn recv(&mut self) -> (r: Result<T, RecvError>)
        ensures
            old(self).buffered().len() > 0 ==> r == Ok::<T, RecvError>(
                model_recv_value(old(self).buffered()),
            ) && final(self).buffered() == model_recv_rest(old(self).buffered()),
            r is Err ==> old(self).buffered().len() == 0 && final(self).buffered().len() == 0,
    {
        if let Some(val) = self.buf.pop_front() {
            return Ok(val);
        }
        let guard = lock_shared(&self.inner);
        let mut guard = wait_ready(&self.inner, guard);
        let state = guard_state(&mut guard);
        let step = state.recv_step(&mut self.buf);
        unlock(guard);
        match step {
            Step::Got(v) => Ok(v),
            Step::Disconnected => Err(RecvError {}),
            // In practice never reached: the wait returns only once a value
            // is queued or no sender remains.
            Step::Empty => Err(RecvError {}),
        }
    }
}

/// Creates a connected channel: one `Sender` — the live-sender count starts
/// at one — and the only `Receiver`, its private buffer empty, both
/// pointing at one freshly allocated shared state block.
pub fn channel<T>() -> (r: (Sender<T>, Receiver<T>))
    ensures
        r.0.connected(&r.1),
        r.1.buffered() =~= Seq::<T>::empty(),
{
    let shared: Arc<Shared<T>> = Arc::new(
        Shared { mu: new_state_lock(Inner::new()), avail: new_condvar() },
    );
    let sender = Sender { inner: shared.clone() };
    let receiver = Receiver { inner: shared, buf: VecDeque::new() };
    (sender, receiver)
}

} // verus!
