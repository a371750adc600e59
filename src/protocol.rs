//! The lock's protocol as a state machine over `LockState`, and the laws it
//! keeps over every sequence of acquires and releases.
use vstd::prelude::*;

use futures::task::Waker;

use crate::unsync::LockState;

verus! {

/// One thing that can happen to a lock.
pub ghost enum Event {
    /// A non-suspending acquire.
    TryLock,
    /// One poll of a suspending acquire, by the task that `Waker` wakes.
    Poll(Waker),
    /// A guard is released. Its task was failing when it acquired
    /// (`entered_failing`) and is failing now (`failing`).
    Release { entered_failing: bool, failing: bool },
}

/// The state after a successful acquire of a free lock.
pub open spec fn acquire_state(s: LockState) -> LockState {
    LockState { locked: true, ..s }
}

/// The state after a held lock is released.
pub open spec fn release_state(s: LockState, entered_failing: bool, failing: bool) -> LockState {
    LockState {
        locked: false,
        poisoned: s.poisoned || (!entered_failing && failing),
        waiters: Seq::empty(),
    }
}

/// Whether `e` hands out a new guard in state `s`.
pub open spec fn acquires(s: LockState, e: Event) -> bool {
    !s.locked && (e is TryLock || e is Poll)
}

/// Whether `e` gives back the guard that is out in state `s`. A release on
/// a free lock stands for no guard and changes nothing.
pub open spec fn releases(s: LockState, e: Event) -> bool {
    s.locked && e is Release
}

/// The state after `e` happens in state `s`.
pub open spec fn step(s: LockState, e: Event) -> LockState {
    match e {
        Event::TryLock => if s.locked {
            s
        } else {
            acquire_state(s)
        },
        Event::Poll(w) => if s.locked {
            LockState { waiters: s.waiters.push(w), ..s }
        } else {
            acquire_state(s)
        },
        Event::Release { entered_failing, failing } => if s.locked {
            release_state(s, entered_failing, failing)
        } else {
            s
        },
    }
}

/// The wake handles that `e` hands out in state `s`.
pub open spec fn woken_by(s: LockState, e: Event) -> Seq<Waker> {
    if releases(s, e) {
        s.waiters
    } else {
        Seq::empty()
    }
}

/// The state after the events `evs`, in order, starting from `s`.
pub open spec fn run(s: LockState, evs: Seq<Event>) -> LockState
    decreases evs.len(),
{
    if evs.len() == 0 {
        s
    } else {
        step(run(s, evs.drop_last()), evs.last())
    }
}

/// The number of guards out after the events `evs` starting from `s`: the
/// one out at the start, if any, plus those handed out, less those given back.
pub open spec fn live_guards(s: LockState, evs: Seq<Event>) -> int
    decreases evs.len(),
{
    if evs.len() == 0 {
        if s.locked {
            1
        } else {
            0
        }
    } else {
        let before = run(s, evs.drop_last());
        live_guards(s, evs.drop_last()) + (if acquires(before, evs.last()) {
            1int
        } else {
            0
        }) - (if releases(before, evs.last()) {
            1int
        } else {
            0
        })
    }
}

/// Mutual exclusion: over any sequence of acquires and releases, at most one
/// guard is out at any time, and one is out exactly while the lock is held.
pub proof fn lemma_mutual_exclusion(s: LockState, evs: Seq<Event>)
    ensures
        live_guards(s, evs) == (if run(s, evs).locked {
            1int
        } else {
            0
        }),
        0 <= live_guards(s, evs) <= 1,
    decreases evs.len(),
{
    if evs.len() > 0 {
        lemma_mutual_exclusion(s, evs.drop_last());
    }
}

/// Poisoning is never undone: a poisoned lock stays poisoned after any
/// sequence of acquires and releases.
pub proof fn lemma_poison_monotone(s: LockState, evs: Seq<Event>)
    requires
        s.poisoned,
    ensures
        run(s, evs).poisoned,
    decreases evs.len(),
{
    if evs.len() > 0 {
        lemma_poison_monotone(s, evs.drop_last());
    }
}

/// A failed non-suspending acquire is a no-op: on a held lock `TryLock`
/// leaves the lock, its poison flag and its waiters as they were.
pub proof fn lemma_try_lock_held_is_noop(s: LockState)
    requires
        s.locked,
    ensures
        step(s, Event::TryLock) == s,
        !acquires(s, Event::TryLock),
{
}

/// Liveness: releasing a held lock hands out the wake handle of every task
/// that waits on it, and leaves the lock free, so that each woken task's next
/// poll acquires it unless another task takes it first.
pub proof fn lemma_release_wakes_all(s: LockState, entered_failing: bool, failing: bool, w: Waker)
    requires
        s.locked,
    ensures
        woken_by(s, Event::Release { entered_failing, failing }) == s.waiters,
        !step(s, Event::Release { entered_failing, failing }).locked,
        step(s, Event::Release { entered_failing, failing }).waiters.len() == 0,
        acquires(step(s, Event::Release { entered_failing, failing }), Event::Poll(w)),
{
}

/// Abandoning a pending acquire is harmless: its handle stays behind in the
/// queue, and the next release still hands out every handle that was
/// registered before it, empties the queue and frees the lock.
pub proof fn lemma_abandoned_acquire(s: LockState, w: Waker, entered_failing: bool, failing: bool)
    requires
        s.locked,
    ensures
        ({
            let pending = step(s, Event::Poll(w));
            let e = Event::Release { entered_failing, failing };
            &&& woken_by(pending, e) == s.waiters.push(w)
            &&& forall|i: int|
                0 <= i < s.waiters.len() ==> #[trigger] woken_by(pending, e)[i] == s.waiters[i]
            &&& step(pending, e) == release_state(s, entered_failing, failing)
        }),
{
    let pending = step(s, Event::Poll(w));
    let e = Event::Release { entered_failing, failing };
    assert(woken_by(pending, e) == s.waiters.push(w));
    assert forall|i: int| 0 <= i < s.waiters.len() implies #[trigger] woken_by(pending, e)[i]
        == s.waiters[i] by {}
}

} // verus!
