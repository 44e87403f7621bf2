//! The standard library's lock and condition variable, as far as the monitor
//! uses them.
//!
//! Nothing here is proved. What a thread finds under the lock depends on what
//! other threads did before, so none of these items promises anything about
//! the protected state: that every [`Buffer`] is well formed follows from its
//! own invariant, which Verus checks wherever one is built or changed.

use crate::buffer::{Buffer, Role};
use std::ops::{Deref, DerefMut};
use std::sync::{Condvar, Mutex, MutexGuard};
use vstd::prelude::*;

verus! {

/// `std::sync::Mutex`, opaque.
#[verifier::external_type_specification]
#[verifier::external_body]
#[verifier::reject_recursive_types(T)]
pub struct ExMutex<T: ?Sized>(Mutex<T>);

/// `std::sync::MutexGuard`, opaque: the proof that a thread holds the lock.
#[verifier::external_type_specification]
#[verifier::external_body]
#[verifier::reject_recursive_types(T)]
pub struct ExMutexGuard<'a, T: ?Sized + 'a>(MutexGuard<'a, T>);

/// `std::sync::Condvar`, opaque.
#[verifier::external_type_specification]
#[verifier::external_body]
pub struct ExCondvar(Condvar);

/// `Mutex::new` makes an unlocked mutex around a value.
pub assume_specification<T>[ Mutex::<T>::new ](value: T) -> (mutex: Mutex<T>);

/// `Condvar::new` makes a condition variable on which nobody waits.
pub assume_specification[ Condvar::new ]() -> (condvar: Condvar);

/// `Condvar::notify_one` wakes one thread that waits on the condition
/// variable, if there is one.
pub assume_specification[ Condvar::notify_one ](condvar: &Condvar);

/// `Condvar::notify_all` wakes every thread that waits on the condition
/// variable.
pub assume_specification[ Condvar::notify_all ](condvar: &Condvar);

/// `MutexGuard::deref` gives the protected value to read.
pub assume_specification<'a, 'b, T: ?Sized>[ <MutexGuard<'a, T> as Deref>::deref ](
    guard: &'b MutexGuard<'a, T>,
) -> (value: &'b T);

/// `MutexGuard::deref_mut` gives the protected value to change.
pub assume_specification<'a, 'b, T: ?Sized>[ <MutexGuard<'a, T> as DerefMut>::deref_mut ](
    guard: &'b mut MutexGuard<'a, T>,
) -> (value: &'b mut T);

/// `Mutex::lock` blocks until the calling thread holds the lock.
///
/// The caller must not hold the lock already. A poisoned lock is fatal and
/// unwinds; a lock gets poisoned only when a thread unwinds while it holds it.
#[verifier::external_body]
pub(crate) fn lock<'a, T>(mutex: &'a Mutex<Buffer<T>>) -> (guard: MutexGuard<'a, Buffer<T>>) {
    mutex.lock().unwrap()
}

/// `Condvar::wait_while` runs [`Buffer::attempt`] under the lock until it
/// says that the thread need not wait, and between two attempts releases the
/// lock and sleeps until the condition variable is notified.
///
/// It returns with the lock held, right after the attempt that went through.
/// It does not return while every attempt has to wait.
#[verifier::external_body]
pub(crate) fn wait_while<'a, T>(
    condvar: &Condvar,
    guard: MutexGuard<'a, Buffer<T>>,
    role: Role,
    slot: &mut Option<T>,
) -> (held: MutexGuard<'a, Buffer<T>>) {
    condvar.wait_while(guard, |buffer| buffer.attempt(role, slot)).unwrap()
}

} // verus!
