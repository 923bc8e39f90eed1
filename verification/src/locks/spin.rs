//! A spin lock: a busy flag and the value that it protects.
//!
//! The kernel runs on one core. The only other party that can ask for a lock
//! is an interrupt handler, which runs to completion while the code that it
//! interrupted stands still. So every operation on the flag is one step that
//! nothing interleaves with, and the lock is a value that is passed to whoever
//! runs: `try_lock` is the single compare-and-swap on the flag, `lock` repeats
//! it until it succeeds, `unlock` is the store that clears the flag.
//!
//! While the lock is held its value is not in the lock: it is in the guard.
//! Whoever has the guard has the value, and nobody else can reach it.
//!
//! The lock cannot detect or break a deadlock. A holder that is interrupted by
//! a handler which asks for the same lock never runs again, and the handler
//! spins forever: callers that share a lock with a handler have to keep
//! interrupts off while they hold it.

use vstd::prelude::*;

verus! {

/// What a compare-and-swap returns on a flag that holds `flag`: the previous
/// value, as `Ok` if it was `current` and the swap took place, as `Err` if not.
pub open spec fn compare_exchange_result(flag: bool, current: bool) -> Result<bool, bool> {
    if flag == current {
        Ok(flag)
    } else {
        Err(flag)
    }
}

/// What a compare-and-swap leaves in a flag that held `flag`.
pub open spec fn compare_exchange_value(flag: bool, current: bool, new: bool) -> bool {
    if flag == current {
        new
    } else {
        flag
    }
}

/// One compare-and-swap on the busy flag.
fn compare_exchange(flag: &mut bool, current: bool, new: bool) -> (previous: Result<bool, bool>)
    ensures
        previous == compare_exchange_result(*old(flag), current),
        *final(flag) == compare_exchange_value(*old(flag), current, new),
{
    let value = *flag;
    if value == current {
        *flag = new;
        Ok(value)
    } else {
        Err(value)
    }
}

/// Takes the value out of a slot and leaves the slot empty.
fn take_value<T>(slot: &mut Option<T>) -> (value: Option<T>)
    ensures
        value == *old(slot),
        *final(slot) is None,
{
    let mut value: Option<T> = None;
    core::mem::swap(slot, &mut value);
    value
}

/// A value behind a busy flag.
pub struct SpinLock<T> {
    lock: bool,
    data: Option<T>,
}

/// The scoped accessor of a held [`SpinLock`]: it carries the protected value
/// from the acquire to the release.
///
/// The release is the call of [`SpinLock::unlock`] with the guard. A guard
/// that is let go without it takes the value along and leaves the lock held
/// for good; [`SpinLock::with_lock`] is the form that cannot forget.
#[must_use]
pub struct SpinLockGuard<T> {
    data: T,
}

impl<T> SpinLockGuard<T> {
    /// The protected value.
    pub closed spec fn value(&self) -> T {
        self.data
    }

    /// Reads the protected value.
    pub fn get(&self) -> (data: &T)
        ensures
            *data == self.value(),
    {
        &self.data
    }

    /// Reaches the protected value to change it.
    pub fn get_mut(&mut self) -> (data: &mut T)
        ensures
            *data == old(self).value(),
            final(self).value() == *final(data),
    {
        &mut self.data
    }
}

impl<T> SpinLock<T> {
    /// The flag is set exactly while the value is out with a guard.
    pub closed spec fn wf(&self) -> bool {
        self.lock <==> self.data is None
    }

    /// The busy flag.
    pub closed spec fn locked(&self) -> bool {
        self.lock
    }

    /// The protected value while the lock is free; nothing while it is held.
    pub closed spec fn value(&self) -> Option<T> {
        self.data
    }

    /// A free lock around `data`.
    pub fn new(data: T) -> (lock: Self)
        ensures
            lock.wf(),
            !lock.locked(),
            lock.value() == Some(data),
    {
        Self { lock: false, data: Some(data) }
    }

    /// Whether the lock is held. The value is in the lock exactly while it is
    /// not.
    pub fn is_locked(&self) -> (locked: bool)
        requires
            self.wf(),
        ensures
            locked == self.locked(),
            locked <==> self.value() is None,
    {
        self.lock
    }

    /// Acquires the lock: swaps the flag from free to busy, again and again
    /// until the swap succeeds. On a lock that is held the swap never succeeds,
    /// since the holder cannot run while this call spins; so the lock has to be
    /// free.
    pub fn lock(&mut self) -> (guard: SpinLockGuard<T>)
        requires
            old(self).wf(),
            !old(self).locked(),
        ensures
            final(self).wf(),
            final(self).locked(),
            final(self).value() is None,
            Some(guard.value()) == old(self).value(),
    {
        loop
            invariant_except_break
                !self.lock,
                self.data is Some,
                self.data == old(self).data,
            ensures
                self.lock,
                self.data == old(self).data,
                self.data is Some,
            decreases
                    (if self.lock {
                        0int
                    } else {
                        1int
                    }),
        {
            if !compare_exchange(&mut self.lock, false, true).is_err() {
                break ;
            }
        }
        let data = take_value(&mut self.data);
        SpinLockGuard { data: data.unwrap() }
    }

    /// Tries once to acquire the lock. On a free lock the flag is swapped to
    /// busy and the guard carries the value. On a held lock nothing changes and
    /// there is no guard.
    pub fn try_lock(&mut self) -> (guard: Option<SpinLockGuard<T>>)
        requires
            old(self).wf(),
        ensures
            final(self).wf(),
            final(self).locked(),
            guard is Some <==> !old(self).locked(),
            guard is Some ==> final(self).value() is None && Some(guard->0.value()) == old(
                self,
            ).value(),
            guard is None ==> *final(self) == *old(self),
    {
        if compare_exchange(&mut self.lock, false, true).is_ok() {
            let data = take_value(&mut self.data);
            Some(SpinLockGuard { data: data.unwrap() })
        } else {
            None
        }
    }

    /// Runs `f` on the protected value with the lock held, and releases the
    /// lock on the way out with what `f` made of the value. The caller never
    /// sees the guard, so there is no way to keep the lock. On a held lock
    /// nothing runs and nothing changes.
    pub fn with_lock<R, F: FnOnce(T) -> (T, R)>(&mut self, f: F) -> (result: Option<R>)
        requires
            old(self).wf(),
            !old(self).locked() ==> call_requires(f, (old(self).value()->0,)),
        ensures
            final(self).wf(),
            final(self).locked() == old(self).locked(),
            old(self).locked() ==> result is None && *final(self) == *old(self),
            !old(self).locked() ==> {
                &&& result is Some
                &&& final(self).value() is Some
                &&& call_ensures(
                    f,
                    (old(self).value()->0,),
                    (final(self).value()->0, result->0),
                )
            },
    {
        match self.try_lock() {
            Some(guard) => {
                let (data, result) = f(guard.data);
                let _ = self.unlock(SpinLockGuard { data });
                Some(result)
            },
            None => None,
        }
    }

    /// Releases the lock: takes the value back from the guard and clears the
    /// flag. A lock that is not held has no guard out; it stays as it is and
    /// the guard comes back.
    pub fn unlock(&mut self, guard: SpinLockGuard<T>) -> (refused: Result<(), SpinLockGuard<T>>)
        requires
            old(self).wf(),
        ensures
            final(self).wf(),
            old(self).locked() ==> {
                &&& refused is Ok
                &&& !final(self).locked()
                &&& final(self).value() == Some(guard.value())
            },
            !old(self).locked() ==> {
                &&& refused == Err::<(), SpinLockGuard<T>>(guard)
                &&& *final(self) == *old(self)
            },
    {
        if self.lock {
            self.data = Some(guard.data);
            self.lock = false;
            Ok(())
        } else {
            Err(guard)
        }
    }
}

/// One of the two parties that can ask for a lock on a single core.
#[derive(Clone, Copy, Debug, PartialEq, Eq, Structural)]
pub enum Context {
    /// Normal execution.
    Normal,
    /// An interrupt handler.
    Handler,
}

/// What a party does to a lock.
#[derive(Clone, Copy, Debug, PartialEq, Eq, Structural)]
pub enum LockEvent {
    /// One compare-and-swap from free to busy.
    TryAcquire(Context),
    /// The drop of the guard, if the party has it.
    Release(Context),
}

/// A lock as two parties see it: the flag, and who has a guard.
pub ghost struct LockModel {
    pub busy: bool,
    pub normal_holds: bool,
    pub handler_holds: bool,
}

impl LockModel {
    /// A lock that nobody has touched.
    pub open spec fn free() -> LockModel {
        LockModel { busy: false, normal_holds: false, handler_holds: false }
    }

    /// Whether `context` has a guard.
    pub open spec fn holds(self, context: Context) -> bool {
        match context {
            Context::Normal => self.normal_holds,
            Context::Handler => self.handler_holds,
        }
    }

    /// The model with the guard given to, or taken from, `context`.
    pub open spec fn with_holder(self, context: Context, holds: bool) -> LockModel {
        match context {
            Context::Normal => LockModel { normal_holds: holds, ..self },
            Context::Handler => LockModel { handler_holds: holds, ..self },
        }
    }

    /// The lock after one event. An attempt gets a guard exactly when its
    /// compare-and-swap succeeds. A release clears the flag, and only a party
    /// with a guard can release.
    pub open spec fn step(self, event: LockEvent) -> LockModel {
        match event {
            LockEvent::TryAcquire(context) => {
                let swapped = LockModel {
                    busy: compare_exchange_value(self.busy, false, true),
                    ..self
                };
                if compare_exchange_result(self.busy, false) is Ok {
                    swapped.with_holder(context, true)
                } else {
                    swapped
                }
            },
            LockEvent::Release(context) => {
                if self.holds(context) {
                    LockModel { busy: false, ..self }.with_holder(context, false)
                } else {
                    self
                }
            },
        }
    }

    /// The lock after a history of events, from a free lock on.
    pub open spec fn run(events: Seq<LockEvent>) -> LockModel
        decreases events.len(),
    {
        if events.len() == 0 {
            LockModel::free()
        } else {
            LockModel::run(events.drop_last()).step(events.last())
        }
    }

    /// At most one party has a guard, and the flag is set exactly while one
    /// has.
    pub open spec fn exclusive(self) -> bool {
        &&& !(self.normal_holds && self.handler_holds)
        &&& self.busy <==> (self.normal_holds || self.handler_holds)
    }

    /// Whatever the two parties do, and in whatever order: there is never more
    /// than one guard, and the flag says whether there is one.
    pub proof fn lemma_mutual_exclusion(events: Seq<LockEvent>)
        ensures
            LockModel::run(events).exclusive(),
        decreases events.len(),
    {
        if events.len() > 0 {
            LockModel::lemma_mutual_exclusion(events.drop_last());
        }
    }

    /// An attempt on a held lock gets no guard and changes nothing, the flag
    /// included.
    pub proof fn lemma_attempt_on_held_lock(self, context: Context)
        requires
            self.busy,
        ensures
            self.step(LockEvent::TryAcquire(context)) == self,
    {
    }

    /// An attempt on a free lock gets the guard.
    pub proof fn lemma_attempt_on_free_lock(self, context: Context)
        requires
            self.exclusive(),
            !self.busy,
        ensures
            self.step(LockEvent::TryAcquire(context)).busy,
            self.step(LockEvent::TryAcquire(context)).holds(context),
    {
    }

    /// The lock after `count` attempts of `context` in a row.
    pub open spec fn attempts(self, context: Context, count: nat) -> LockModel
        decreases count,
    {
        if count == 0 {
            self
        } else {
            self.attempts(context, (count - 1) as nat).step(LockEvent::TryAcquire(context))
        }
    }

    /// While nobody releases, no number of attempts gets a held lock: a
    /// handler that asks for the lock of the code that it interrupted spins
    /// forever.
    pub proof fn lemma_contended_forever(self, context: Context, count: nat)
        requires
            self.busy,
        ensures
            self.attempts(context, count) == self,
        decreases count,
    {
        if count > 0 {
            self.lemma_contended_forever(context, (count - 1) as nat);
        }
    }

    /// Acquire, then release, by one party alone: the lock is free again after
    /// every pair.
    pub proof fn lemma_acquire_then_release(self, context: Context)
        requires
            self.exclusive(),
            !self.busy,
        ensures
            self.step(LockEvent::TryAcquire(context)).step(LockEvent::Release(context)) == self,
    {
    }
}

} // verus!
