//! The guarded shared lock.

use vstd::prelude::*;
use crate::FatalAsyncBlock;
use crate::panic_if_within_tokio;

verus! {

/// A shared lock whose two blocking acquisitions are refused inside the
/// scheduler. It owns one standard read-write lock and nothing else.
#[verifier::reject_recursive_types(T)]
pub struct RwLock<T: ?Sized>(std::sync::RwLock<T>);

/// `std::sync::RwLock::new`: a fresh, unlocked lock around `t`.
#[verifier::external_body]
fn std_rwlock_new<T>(t: T) -> (lock: std::sync::RwLock<T>) {
    std::sync::RwLock::new(t)
}

/// `std::sync::RwLock::try_read`: takes shared access if it can be had
/// without waiting.
#[verifier::external_body]
fn std_rwlock_try_read<'a, T>(lock: &'a std::sync::RwLock<T>) -> (r: Result<
    std::sync::RwLockReadGuard<'a, T>,
    std::sync::TryLockError<std::sync::RwLockReadGuard<'a, T>>,
>) {
    lock.try_read()
}

/// `std::sync::RwLock::try_write`: takes exclusive access if it can be had
/// without waiting.
#[verifier::external_body]
fn std_rwlock_try_write<'a, T>(lock: &'a std::sync::RwLock<T>) -> (r: Result<
    std::sync::RwLockWriteGuard<'a, T>,
    std::sync::TryLockError<std::sync::RwLockWriteGuard<'a, T>>,
>) {
    lock.try_write()
}

/// `std::sync::RwLock::is_poisoned`.
#[verifier::external_body]
fn std_rwlock_is_poisoned<T>(lock: &std::sync::RwLock<T>) -> (poisoned: bool) {
    lock.is_poisoned()
}

/// `std::sync::RwLock::into_inner`.
#[verifier::external_body]
fn std_rwlock_into_inner<T>(lock: std::sync::RwLock<T>) -> (r: Result<
    T,
    std::sync::PoisonError<T>,
>) {
    lock.into_inner()
}

/// `std::sync::RwLock::get_mut`.
#[verifier::external_body]
fn std_rwlock_get_mut<'a, T>(lock: &'a mut std::sync::RwLock<T>) -> (r: Result<
    &'a mut T,
    std::sync::PoisonError<&'a mut T>,
>) {
    lock.get_mut()
}

impl<T> RwLock<T> {
    /// Wraps `t`. Nothing is probed at construction.
    pub fn new(t: T) -> (lock: Self) {
        RwLock(std_rwlock_new(t))
    }

    /// The standard lock that this lock owns.
    pub closed spec fn underlying(&self) -> std::sync::RwLock<T> {
        self.0
    }

    /// Admission to the blocking shared acquisition. `within` is the probe's
    /// verdict for the calling thread. Where it is `true` the acquisition is
    /// refused with the operation name `read`. Where it is `false` the
    /// standard lock is handed out, untouched, for the caller to wait on: the
    /// wait itself is the caller's, and so is its care never to wait on a
    /// lock that its own thread holds.
    pub fn read<'a>(&'a self, within: bool) -> (r: Result<&'a std::sync::RwLock<T>, FatalAsyncBlock>)
        ensures
            r is Err <==> within,
            within ==> r->Err_0.op@ == "read"@,
            !within ==> *r->Ok_0 == self.underlying(),
    {
        match panic_if_within_tokio("read", within) {
            Err(fatal) => Err(fatal),
            Ok(()) => Ok(&self.0),
        }
    }

    /// Non-blocking shared acquisition. It takes no verdict and asks for
    /// none: the standard lock's result is all that can come back.
    pub fn try_read<'a>(&'a self) -> (r: Result<
        std::sync::RwLockReadGuard<'a, T>,
        std::sync::TryLockError<std::sync::RwLockReadGuard<'a, T>>,
    >) {
        std_rwlock_try_read(&self.0)
    }

    /// Admission to the blocking exclusive acquisition: refused with the
    /// operation name `write` where `within` is `true`; where it is `false`
    /// the standard lock is handed out as for `read`.
    pub fn write<'a>(&'a self, within: bool) -> (r: Result<&'a std::sync::RwLock<T>, FatalAsyncBlock>)
        ensures
            r is Err <==> within,
            within ==> r->Err_0.op@ == "write"@,
            !within ==> *r->Ok_0 == self.underlying(),
    {
        match panic_if_within_tokio("write", within) {
            Err(fatal) => Err(fatal),
            Ok(()) => Ok(&self.0),
        }
    }

    /// Non-blocking exclusive acquisition. It takes no verdict and asks for
    /// none.
    pub fn try_write<'a>(&'a self) -> (r: Result<
        std::sync::RwLockWriteGuard<'a, T>,
        std::sync::TryLockError<std::sync::RwLockWriteGuard<'a, T>>,
    >) {
        std_rwlock_try_write(&self.0)
    }

    /// Whether a holder of the lock panicked.
    pub fn is_poisoned(&self) -> (poisoned: bool) {
        std_rwlock_is_poisoned(&self.0)
    }

    /// Gives the value back and ends the lock.
    pub fn into_inner(self) -> (r: Result<T, std::sync::PoisonError<T>>) {
        std_rwlock_into_inner(self.0)
    }

    /// The value through exclusive ownership of the lock.
    pub fn get_mut<'a>(&'a mut self) -> (r: Result<&'a mut T, std::sync::PoisonError<&'a mut T>>) {
        std_rwlock_get_mut(&mut self.0)
    }
}

} // verus!
