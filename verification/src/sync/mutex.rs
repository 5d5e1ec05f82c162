//! The guarded exclusive lock.

use vstd::prelude::*;
use crate::FatalAsyncBlock;
use crate::panic_if_within_tokio;

verus! {

/// An exclusive lock whose blocking acquisition is refused inside the
/// scheduler. It owns one standard mutex and nothing else.
#[derive(Default)]
#[verifier::reject_recursive_types(T)]
pub struct Mutex<T: ?Sized>(std::sync::Mutex<T>);

/// `std::sync::Mutex::new`: a fresh, unlocked mutex around `t`.
#[verifier::external_body]
fn std_mutex_new<T>(t: T) -> (m: std::sync::Mutex<T>) {
    std::sync::Mutex::new(t)
}

/// `std::sync::Mutex::try_lock`: takes the lock if it is free, without
/// waiting.
#[verifier::external_body]
fn std_mutex_try_lock<'a, T>(m: &'a std::sync::Mutex<T>) -> (r: Result<
    std::sync::MutexGuard<'a, T>,
    std::sync::TryLockError<std::sync::MutexGuard<'a, T>>,
>) {
    m.try_lock()
}

/// `std::sync::Mutex::is_poisoned`.
#[verifier::external_body]
fn std_mutex_is_poisoned<T>(m: &std::sync::Mutex<T>) -> (poisoned: bool) {
    m.is_poisoned()
}

/// `std::sync::Mutex::into_inner`.
#[verifier::external_body]
fn std_mutex_into_inner<T>(m: std::sync::Mutex<T>) -> (r: Result<T, std::sync::PoisonError<T>>) {
    m.into_inner()
}

/// `std::sync::Mutex::get_mut`.
#[verifier::external_body]
fn std_mutex_get_mut<'a, T>(m: &'a mut std::sync::Mutex<T>) -> (r: Result<
    &'a mut T,
    std::sync::PoisonError<&'a mut T>,
>) {
    m.get_mut()
}

impl<T> Mutex<T> {
    /// Wraps `t`. Nothing is probed at construction.
    pub fn new(t: T) -> (m: Self) {
        Mutex(std_mutex_new(t))
    }

    /// The standard mutex that this lock owns.
    pub closed spec fn underlying(&self) -> std::sync::Mutex<T> {
        self.0
    }

    /// Admission to the blocking acquisition. `within` is the probe's verdict
    /// for the calling thread. Where it is `true` the acquisition is refused
    /// with the operation name `lock`. Where it is `false` the standard mutex
    /// is handed out, untouched, for the caller to wait on: the wait itself
    /// is the caller's, and so is its care never to wait on a mutex that its
    /// own thread holds.
    pub fn lock<'a>(&'a self, within: bool) -> (r: Result<&'a std::sync::Mutex<T>, FatalAsyncBlock>)
        ensures
            r is Err <==> within,
            within ==> r->Err_0.op@ == "lock"@,
            !within ==> *r->Ok_0 == self.underlying(),
    {
        match panic_if_within_tokio("lock", within) {
            Err(fatal) => Err(fatal),
            Ok(()) => Ok(&self.0),
        }
    }

    /// Non-blocking acquisition. It takes no verdict and asks for none: the
    /// standard lock's result is all that can come back.
    pub fn try_lock<'a>(&'a self) -> (r: Result<
        std::sync::MutexGuard<'a, T>,
        std::sync::TryLockError<std::sync::MutexGuard<'a, T>>,
    >) {
        std_mutex_try_lock(&self.0)
    }

    /// Whether a holder of the lock panicked.
    pub fn is_poisoned(&self) -> (poisoned: bool) {
        std_mutex_is_poisoned(&self.0)
    }

    /// Gives the value back and ends the lock.
    pub fn into_inner(self) -> (r: Result<T, std::sync::PoisonError<T>>) {
        std_mutex_into_inner(self.0)
    }

    /// The value through exclusive ownership of the lock.
    pub fn get_mut<'a>(&'a mut self) -> (r: Result<&'a mut T, std::sync::PoisonError<&'a mut T>>) {
        std_mutex_get_mut(&mut self.0)
    }
}

} // verus!
