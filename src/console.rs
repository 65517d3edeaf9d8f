//! The shared writer handle: output from any caller goes through one lock.
use crate::writer::Writer;
use vstd::prelude::*;

verus! {

#[verifier::external_type_specification]
#[verifier::external_body]
#[verifier::reject_recursive_types(T)]
pub struct ExMutex<T: ?Sized>(spin::Mutex<T>);

#[verifier::external_type_specification]
#[verifier::external_body]
#[verifier::reject_recursive_types(T)]
pub struct ExMutexGuard<'a, T: ?Sized + 'a>(spin::MutexGuard<'a, T>);

/// Relies on `spin::Mutex::lock`: spins until the lock is free and holds it
/// until the returned guard is dropped.
#[verifier::external_body]
fn lock(handle: &spin::Mutex<Writer>) -> spin::MutexGuard<'_, Writer> {
    handle.lock()
}

/// Relies on `DerefMut` of `spin::MutexGuard`: the writer that the held lock
/// guards, borrowed for as long as the guard.
#[verifier::external_body]
fn guarded<'a, 'b>(guard: &'a mut spin::MutexGuard<'b, Writer>) -> &'a mut Writer {
    &mut **guard
}

/// Writes `s` through the shared writer, holding its lock for the whole
/// string so that concurrent callers never interleave their bytes.
pub fn _print(handle: &spin::Mutex<Writer>, s: &str) {
    let mut guard = lock(handle);
    let writer = guarded(&mut guard);
    writer.write_string(s);
}

} // verus!
