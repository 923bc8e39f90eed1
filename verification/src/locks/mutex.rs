//! The guarded cell that the rest of the kernel shares its state through.

use vstd::prelude::*;
use crate::locks::spin::{SpinLock, SpinLockGuard};

verus! {

/// A value that is reached only through a guard.
pub struct Mutex<T> {
    mutex: SpinLock<T>,
}

/// The scoped accessor of a held [`Mutex`]. It has to go back to the cell
/// with [`Mutex::unlock`]; [`Mutex::with_lock`] is the form that cannot
/// forget.
#[must_use]
pub struct MutexGuard<T> {
    guard: SpinLockGuard<T>,
}

impl<T> MutexGuard<T> {
    /// The protected value.
    pub closed spec fn value(&self) -> T {
        self.guard.value()
    }

    /// Reads the protected value.
    pub fn get(&self) -> (data: &T)
        ensures
            *data == self.value(),
    {
        self.guard.get()
    }

    /// Reaches the protected value to change it.
    pub fn get_mut(&mut self) -> (data: &mut T)
        ensures
            *data == old(self).value(),
            final(self).value() == *final(data),
    {
        self.guard.get_mut()
    }
}

impl<T> Mutex<T> {
    /// The cell is in order: its value is out exactly while a guard is.
    pub closed spec fn wf(&self) -> bool {
        self.mutex.wf()
    }

    /// Whether a guard is out.
    pub closed spec fn locked(&self) -> bool {
        self.mutex.locked()
    }

    /// The protected value while no guard is out; nothing while one is.
    pub closed spec fn value(&self) -> Option<T> {
        self.mutex.value()
    }

    /// A cell around `value`, with no guard out.
    pub fn new(value: T) -> (mutex: Self)
        ensures
            mutex.wf(),
            !mutex.locked(),
            mutex.value() == Some(value),
    {
        Self { mutex: SpinLock::new(value) }
    }

    /// Whether a guard is out. The value is in the cell exactly while none
    /// is.
    pub fn is_locked(&self) -> (locked: bool)
        requires
            self.wf(),
        ensures
            locked == self.locked(),
            locked <==> self.value() is None,
    {
        self.mutex.is_locked()
    }

    /// Acquires the cell. While a guard is out the call would spin forever, so
    /// none may be out.
    pub fn lock(&mut self) -> (guard: MutexGuard<T>)
        requires
            old(self).wf(),
            !old(self).locked(),
        ensures
            final(self).wf(),
            final(self).locked(),
            final(self).value() is None,
            Some(guard.value()) == old(self).value(),
    {
        MutexGuard { guard: self.mutex.lock() }
    }

    /// Runs `f` on the protected value and puts back what `f` made of it. The
    /// cell is held while `f` runs and free again when the call returns. While
    /// a guard is out nothing runs and nothing changes.
    pub fn with_lock<R, F: FnOnce(T) -> (T, R)>(&mut self, f: F) -> (result: Option<R>)
        requires
            old(self).wf(),
            !old(self).locked() ==> call_requires(f, (old(self).value()->0,)),
        ensures
            final(self).wf(),
            final(self).locked() == old(self).locked(),
            old(self).locked() ==> result is None && *final(self) == *old(self),
            !old(self).locked() ==> {
                &&& result is Some
                &&& final(self).value() is Some
                &&& call_ensures(
                    f,
                    (old(self).value()->0,),
                    (final(self).value()->0, result->0),
                )
            },
    {
        self.mutex.with_lock(f)
    }

    /// Releases the cell with the value that the guard carries. A cell with no
    /// guard out stays as it is and the guard comes back.
    pub fn unlock(&mut self, guard: MutexGuard<T>) -> (refused: Result<(), MutexGuard<T>>)
        requires
            old(self).wf(),
        ensures
            final(self).wf(),
            old(self).locked() ==> {
                &&& refused is Ok
                &&& !final(self).locked()
                &&& final(self).value() == Some(guard.value())
            },
            !old(self).locked() ==> {
                &&& refused == Err::<(), MutexGuard<T>>(guard)
                &&& *final(self) == *old(self)
            },
    {
        match self.mutex.unlock(guard.guard) {
            Ok(()) => Ok(()),
            Err(guard) => Err(MutexGuard { guard }),
        }
    }
}

} // verus!
