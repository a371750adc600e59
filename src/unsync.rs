use vstd::prelude::*;

use futures::task::{Poll, Waker};

use crate::protocol::{acquire_state, release_state, step, woken_by, Event};

verus! {

/// The scheduler's handle that asks for a suspended task to be polled again.
#[verifier::external_type_specification]
#[verifier::external_body]
pub struct ExWaker(Waker);

/// The outcome of one attempt of an operation that may suspend.
#[verifier::external_type_specification]
#[verifier::reject_recursive_types(T)]
pub struct ExPoll<T>(Poll<T>);

/// What can be observed of a lock apart from the value it protects.
pub ghost struct LockState {
    pub locked: bool,
    pub poisoned: bool,
    pub waiters: Seq<Waker>,
}

/// The state of a lock that was just made.
pub open spec fn initial_state() -> LockState {
    LockState { locked: false, poisoned: false, waiters: Seq::empty() }
}

/// Relies on `Waker::clone`: a second handle for the same suspended task.
#[verifier::external_body]
fn clone_waker(w: &Waker) -> (r: Waker) {
    w.clone()
}

/// Relies on `Waker::wake`: asks the scheduler to poll the task again.
#[verifier::external_body]
fn wake_task(w: Waker) {
    w.wake()
}

/// Hands each handle to its scheduler, in the order in which they were
/// registered.
pub fn wake_all(handles: Vec<Waker>) {
    for w in handles {
        wake_task(w);
    }
}

/// A result that still carries its payload but reports that a former holder
/// of the lock failed while it held it.
pub struct PoisonError<G> {
    payload: G,
}

impl<G> PoisonError<G> {
    /// The value that this error carries.
    pub closed spec fn payload(&self) -> G {
        self.payload
    }

    /// The error that carries `g`.
    pub closed spec fn spec_new(g: G) -> Self {
        PoisonError { payload: g }
    }

    pub fn new(g: G) -> (r: Self)
        ensures
            r == Self::spec_new(g),
            r.payload() == g,
    {
        PoisonError { payload: g }
    }

    /// Gives up the poison report and keeps the payload.
    pub fn into_inner(self) -> (r: G)
        ensures
            r == self.payload(),
    {
        self.payload
    }

    pub fn get_ref(&self) -> (r: &G)
        ensures
            *r == self.payload(),
    {
        &self.payload
    }
}

/// Why a non-suspending acquire did not simply succeed.
pub enum TryLockError<G> {
    /// The lock was free and is now held, but it is poisoned.
    Poisoned(PoisonError<G>),
    /// The lock is held by someone else; nothing changed.
    WouldBlock,
}

/// The payload, or the payload wrapped in a poison report.
pub type LockResult<G> = Result<G, PoisonError<G>>;

/// The guard, the guard wrapped in a poison report, or `WouldBlock`.
pub type TryLockResult<G> = Result<G, TryLockError<G>>;

/// `v` as it is handed out by a lock whose poison flag is `poisoned`.
pub open spec fn lock_result<G>(poisoned: bool, v: G) -> LockResult<G> {
    if poisoned {
        Err(PoisonError::spec_new(v))
    } else {
        Ok(v)
    }
}

/// `lock_result`, with the poison report in the shape of `try_lock`.
pub open spec fn try_lock_result<G>(poisoned: bool, v: G) -> TryLockResult<G> {
    if poisoned {
        Err(TryLockError::Poisoned(PoisonError::spec_new(v)))
    } else {
        Ok(v)
    }
}

/// The one token of access to a locked value.
///
/// It holds the value while the lock is held, and records whether its task
/// was already failing when it acquired the lock.
pub struct MutexGuard<T> {
    value: T,
    entered_failing: bool,
}

impl<T> MutexGuard<T> {
    /// The value held through this guard.
    pub closed spec fn data(&self) -> T {
        self.value
    }

    /// Whether the task was already failing when it took the lock.
    pub closed spec fn entered_failing(&self) -> bool {
        self.entered_failing
    }

    /// The guard that holds `v` for a task whose failure state was `failing`.
    pub closed spec fn spec_new(v: T, failing: bool) -> Self {
        MutexGuard { value: v, entered_failing: failing }
    }

    /// Takes the lock of a free `mutex` and moves its value into a new guard.
    fn new(mutex: &mut Mutex<T>, failing: bool) -> (r: Self)
        requires
            old(mutex).wf(),
            !old(mutex)@.locked,
        ensures
            final(mutex).wf(),
            final(mutex)@ == acquire_state(old(mutex)@),
            r == Self::spec_new(old(mutex).contents().unwrap(), failing),
    {
        mutex.locked = true;
        let v = mutex.data.take().unwrap();
        MutexGuard { value: v, entered_failing: failing }
    }

    /// Read access to the locked value.
    pub fn deref(&self) -> (r: &T)
        ensures
            *r == self.data(),
    {
        &self.value
    }

    /// Write access to the locked value.
    pub fn deref_mut(&mut self) -> (r: &mut T)
        ensures
            *r == old(self).data(),
            *final(self) == Self::spec_new(*final(r), old(self).entered_failing()),
    {
        &mut self.value
    }
}

impl<T> core::ops::Deref for MutexGuard<T> {
    type Target = T;

    fn deref(&self) -> &T {
        MutexGuard::deref(self)
    }
}

impl<T> core::ops::DerefMut for MutexGuard<T> {
    fn deref_mut(&mut self) -> &mut T {
        MutexGuard::deref_mut(self)
    }
}

/// The request to acquire a lock, which may be polled until it succeeds.
///
/// It keeps no progress of its own: every poll races for the lock again, so
/// dropping it at any time leaves at most a stale wake handle behind.
pub struct MutexAcquire {}

impl MutexAcquire {
    /// One attempt: the same as `Mutex::poll_lock`.
    pub fn poll<T>(&mut self, mutex: &mut Mutex<T>, w: &Waker, failing: bool) -> (r: Poll<
        LockResult<MutexGuard<T>>,
    >)
        requires
            old(mutex).wf(),
        ensures
            final(mutex).wf(),
            Mutex::poll_lock_post(*old(mutex), *final(mutex), failing, r),
    {
        mutex.poll_lock(w, failing)
    }
}

/// A lock that protects a value of type `T`.
///
/// While no guard is out the lock holds the value; a successful acquire
/// moves the value into the one guard, and releasing that guard moves it
/// back. So the value has exactly one place at any time.
pub struct Mutex<T> {
    locked: bool,
    poisoned: bool,
    waiters: Vec<Waker>,
    data: Option<T>,
}

impl<T> View for Mutex<T> {
    type V = LockState;

    closed spec fn view(&self) -> LockState {
        LockState { locked: self.locked, poisoned: self.poisoned, waiters: self.waiters@ }
    }
}

impl<T> Mutex<T> {
    /// The protected value, present exactly while no guard is out.
    pub closed spec fn contents(&self) -> Option<T> {
        self.data
    }

    /// The value sits in the lock exactly when the lock is free.
    pub open spec fn wf(&self) -> bool {
        self@.locked <==> self.contents().is_none()
    }

    /// An unlocked, unpoisoned lock around `inner`, with no waiters.
    pub fn new(inner: T) -> (r: Self)
        ensures
            r.wf(),
            r@ == initial_state(),
            r.contents() == Some(inner),
    {
        Mutex { locked: false, poisoned: false, waiters: Vec::new(), data: Some(inner) }
    }

    /// What `into_inner` returns for this lock.
    pub open spec fn into_inner_spec(self) -> LockResult<T> {
        lock_result(self@.poisoned, self.contents().unwrap())
    }

    /// Gives up the lock and returns the value, wrapped in a poison report
    /// when the lock is poisoned. No guard may be out.
    pub fn into_inner(self) -> (r: LockResult<T>)
        requires
            self.wf(),
            !self@.locked,
        ensures
            r == self.into_inner_spec(),
    {
        let Mutex { poisoned, data, .. } = self;
        let inner = data.unwrap();
        if poisoned {
            Err(PoisonError::new(inner))
        } else {
            Ok(inner)
        }
    }

    /// The value, for display, when no guard holds it; `None` while the
    /// lock is held.
    pub fn fmt_data(&self) -> (r: Option<&T>)
        requires
            self.wf(),
        ensures
            r == (if self@.locked {
                None
            } else {
                Some(&self.contents().unwrap())
            }),
    {
        match &self.data {
            Some(v) => Some(v),
            None => None,
        }
    }

    /// Makes a request that acquires this lock when polled.
    pub fn lock(&self) -> (r: MutexAcquire) {
        MutexAcquire {}
    }

    /// What one poll of an acquire does: on a held lock it appends a handle
    /// for the polling task to the waiters and is pending; on a free lock it
    /// acquires as `try_lock` does.
    pub open spec fn poll_lock_post(
        pre: Self,
        post: Self,
        failing: bool,
        r: Poll<LockResult<MutexGuard<T>>>,
    ) -> bool {
        if pre@.locked {
            &&& r is Pending
            &&& post.contents() == pre.contents()
            &&& post@.locked == pre@.locked
            &&& post@.poisoned == pre@.poisoned
            &&& post@.waiters.len() == pre@.waiters.len() + 1
            &&& post@.waiters.drop_last() == pre@.waiters
        } else {
            &&& post@ == acquire_state(pre@)
            &&& r == Poll::Ready(
                lock_result(pre@.poisoned, MutexGuard::spec_new(pre.contents().unwrap(), failing)),
            )
        }
    }

    /// One attempt to acquire the lock for a task whose wake handle is `w`
    /// and whose failure state is `failing`.
    pub fn poll_lock(&mut self, w: &Waker, failing: bool) -> (r: Poll<LockResult<MutexGuard<T>>>)
        requires
            old(self).wf(),
        ensures
            final(self).wf(),
            Self::poll_lock_post(*old(self), *final(self), failing, r),
            final(self)@ == step(old(self)@, Event::Poll(final(self)@.waiters.last())),
    {
        if self.locked {
            let handle = clone_waker(w);
            self.waiters.push(handle);
            assert(self.waiters@.drop_last() =~= old(self).waiters@);
            return Poll::Pending;
        }
        let poisoned = self.poisoned;
        let guard = MutexGuard::new(self, failing);
        if poisoned {
            Poll::Ready(Err(PoisonError::new(guard)))
        } else {
            Poll::Ready(Ok(guard))
        }
    }

    /// Acquires the lock if it is free, without suspending. On a held lock
    /// it fails with `WouldBlock` and changes nothing.
    pub fn try_lock(&mut self, failing: bool) -> (r: TryLockResult<MutexGuard<T>>)
        requires
            old(self).wf(),
        ensures
            final(self).wf(),
            final(self)@ == step(old(self)@, Event::TryLock),
            old(self)@.locked ==> r is Err && r->Err_0 is WouldBlock && *final(self) == *old(self),
            !old(self)@.locked ==> final(self)@ == acquire_state(old(self)@)
                && r == try_lock_result(
                old(self)@.poisoned,
                MutexGuard::spec_new(old(self).contents().unwrap(), failing),
            ),
    {
        if self.locked {
            return Err(TryLockError::WouldBlock);
        }
        let poisoned = self.poisoned;
        let guard = MutexGuard::new(self, failing);
        if poisoned {
            Err(TryLockError::Poisoned(PoisonError::new(guard)))
        } else {
            Ok(guard)
        }
    }

    pub fn is_poisoned(&self) -> (r: bool)
        ensures
            r == self@.poisoned,
    {
        self.poisoned
    }

    /// Direct access to the value of a lock that no guard holds, wrapped in
    /// a poison report when the lock is poisoned.
    pub fn get_mut(&mut self) -> (r: LockResult<&mut T>)
        requires
            old(self).wf(),
            !old(self)@.locked,
        ensures
            final(self)@ == old(self)@,
            old(self)@.poisoned <==> r is Err,
            match r {
                Ok(v) => *v == old(self).contents().unwrap() && final(self).contents() == Some(*final(v)),
                Err(e) => *e.payload() == old(self).contents().unwrap() && final(self).contents() == Some(*final(e.payload())),
            },
    {
        let poisoned = self.poisoned;
        let inner = self.data.as_mut().unwrap();
        if poisoned {
            Err(PoisonError::new(inner))
        } else {
            Ok(inner)
        }
    }

    /// The lock's part of releasing `guard`: the lock is free again and holds
    /// the guard's value, it becomes poisoned when the task was not failing
    /// when it acquired but is failing now, and the waiter queue is emptied.
    /// Returns the handles that were registered, all of which are to be woken.
    /// `guard` is to be the one that this lock handed out: it is the only
    /// guard out while the lock is held.
    pub fn release(&mut self, guard: MutexGuard<T>, failing: bool) -> (woken: Vec<Waker>)
        requires
            old(self).wf(),
            old(self)@.locked,
        ensures
            final(self).wf(),
            final(self)@ == release_state(old(self)@, guard.entered_failing(), failing),
            final(self).contents() == Some(guard.data()),
            woken@ == old(self)@.waiters,
            final(self)@ == step(old(self)@, Event::Release { entered_failing: guard.entered_failing(), failing }),
            woken@ == woken_by(old(self)@, Event::Release { entered_failing: guard.entered_failing(), failing }),
    {
        self.locked = false;
        if !guard.entered_failing && failing {
            self.poisoned = true;
        }
        self.data = Some(guard.value);
        let mut woken: Vec<Waker> = Vec::new();
        std::mem::swap(&mut woken, &mut self.waiters);
        woken
    }

    /// Releases `guard` and wakes every task that waited for the lock.
    pub fn unlock(&mut self, guard: MutexGuard<T>, failing: bool)
        requires
            old(self).wf(),
            old(self)@.locked,
        ensures
            final(self).wf(),
            final(self)@ == release_state(old(self)@, guard.entered_failing(), failing),
            final(self).contents() == Some(guard.data()),
    {
        let woken = self.release(guard, failing);
        wake_all(woken);
    }
}

impl<T> From<T> for Mutex<T> {
    fn from(x: T) -> (r: Self)
        ensures
            r.wf(),
            r@ == initial_state(),
            r.contents() == Some(x),
    {
        Mutex::new(x)
    }
}

/// A lock is more than its argument (it also starts an empty wait queue), so
/// `from` is described by the contract of its impl above, not by a spec
/// function of the argument.
impl<T> vstd::std_specs::convert::FromSpecImpl<T> for Mutex<T> {
    open spec fn obeys_from_spec() -> bool {
        false
    }

    open spec fn from_spec(x: T) -> Self {
        arbitrary()
    }
}

impl<T: Default> Default for Mutex<T> {
    fn default() -> (r: Self)
        ensures
            r.wf(),
            r@ == initial_state(),
            r.contents() is Some,
    {
        Mutex::new(T::default())
    }
}

/// The poison report made from `g` carries `g`.
pub broadcast proof fn lemma_poison_error_payload<G>(g: G)
    ensures
        #[trigger] PoisonError::spec_new(g).payload() == g,
{
}

/// The guard made from `v` and `failing` holds `v` and records `failing`.
pub broadcast proof fn lemma_guard_fields<T>(v: T, failing: bool)
    ensures
        #[trigger] MutexGuard::spec_new(v, failing).data() == v,
        MutexGuard::spec_new(v, failing).entered_failing() == failing,
{
}

/// What callers need to read the results of this module's operations.
pub broadcast group group_unsync {
    lemma_poison_error_payload,
    lemma_guard_fields,
}

/// Poisoning marks only failures that happen while the lock is held: a guard
/// whose task was already failing when it acquired leaves the poison flag as
/// it was when released while failing, and a guard whose task was not
/// failing then poisons the lock when released while failing.
pub proof fn lemma_poison_trigger<T>(s: LockState, v: T)
    requires
        s.locked,
    ensures
        MutexGuard::spec_new(v, true).entered_failing(),
        !MutexGuard::spec_new(v, false).entered_failing(),
        release_state(s, MutexGuard::spec_new(v, true).entered_failing(), true).poisoned
            == s.poisoned,
        release_state(s, MutexGuard::spec_new(v, false).entered_failing(), true).poisoned,
        release_state(s, MutexGuard::spec_new(v, false).entered_failing(), false).poisoned
            == s.poisoned,
{
}

/// A lock that was just made around `x`, and never locked since, gives `x`
/// back unpoisoned.
pub proof fn lemma_round_trip<T>(m: Mutex<T>, x: T)
    requires
        m@ == initial_state(),
        m.contents() == Some(x),
    ensures
        m.wf(),
        !m@.locked,
        m.into_inner_spec() == Ok::<T, PoisonError<T>>(x),
{
}

} // verus!
