//! Synchronization primitives.

use vstd::prelude::*;

use self::interface::Mutex;

pub mod interface;

verus! {

/// A pseudo-lock that owns exactly one value.
///
/// Acquisition never waits: the lock is valid only while a single execution
/// context is active, which the exclusive borrow taken by `lock` enforces.
/// There is no shared mode, and locking the same instance again from inside
/// the closure does not compile.
pub struct SpinLock<T> {
    data: T,
}

impl<T> SpinLock<T> {
    /// Wraps `data`.
    pub fn new(data: T) -> (lock: Self)
        ensures
            lock.data() == data,
    {
        Self { data }
    }

    /// Gives the protected value back.
    pub fn into_inner(self) -> (data: T)
        ensures
            data == self.data(),
    {
        self.data
    }
}

impl<T> Mutex for SpinLock<T> {
    type Data = T;

    closed spec fn data(&self) -> T {
        self.data
    }

    fn lock<R>(&mut self, f: impl FnOnce(&mut T) -> R) -> (r: R) {
        f(&mut self.data)
    }
}

} // verus!
