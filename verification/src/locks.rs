//! The lock failures of the standard library, which the verifier does not
//! know: their types, the two calls that read them, the description of a
//! poisoned lock, and the plain value that a failed lock attempt is read
//! into.

use std::sync::{MutexGuard, PoisonError, RwLockReadGuard, RwLockWriteGuard, TryLockError};
use vstd::prelude::*;

verus! {

/// Why a lock could not be taken.
#[derive(Debug, Clone, PartialEq, Eq)]
pub enum LockFailure {
    /// A thread panicked while it held the lock; the text describes it.
    Poisoned(String),
    /// Another thread holds the lock, and the attempt did not wait.
    WouldBlock,
}

/// `std::sync::PoisonError`: a lock whose holder panicked.
#[verifier::external_type_specification]
#[verifier::external_body]
#[verifier::reject_recursive_types(T)]
pub struct ExPoisonError<T>(PoisonError<T>);

/// `std::sync::TryLockError`: a lock that is poisoned, or held by another.
#[verifier::external_type_specification]
#[verifier::external_body]
#[verifier::reject_recursive_types(T)]
pub struct ExTryLockError<T>(TryLockError<T>);

/// `std::sync::MutexGuard`.
#[verifier::external_type_specification]
#[verifier::external_body]
#[verifier::reject_recursive_types(T)]
pub struct ExMutexGuard<'a, T: ?Sized + 'a>(MutexGuard<'a, T>);

/// `std::sync::RwLockReadGuard`.
#[verifier::external_type_specification]
#[verifier::external_body]
#[verifier::reject_recursive_types(T)]
pub struct ExRwLockReadGuard<'a, T: ?Sized>(RwLockReadGuard<'a, T>);

/// `std::sync::RwLockWriteGuard`.
#[verifier::external_type_specification]
#[verifier::external_body]
#[verifier::reject_recursive_types(T)]
pub struct ExRwLockWriteGuard<'a, T: ?Sized + 'a>(RwLockWriteGuard<'a, T>);

/// The description that the standard library gives of a poisoned lock. It
/// is the same for every lock and every poison error.
pub open spec fn poison_description() -> Seq<char> {
    "poisoned lock: another task failed inside"@
}

/// The description of a poisoned lock is not empty.
pub proof fn lemma_poison_description_len()
    ensures
        poison_description().len() == 41,
{
    reveal_strlit("poisoned lock: another task failed inside");
}

/// Calls `to_string` on a `PoisonError`, which writes it through its
/// `Display` impl. That impl writes one fixed text, which reads nothing of
/// the error; the result is that text.
#[verifier::external_body]
pub(crate) fn poison_text<T>(e: &PoisonError<T>) -> (r: String)
    ensures
        r@ == poison_description(),
{
    e.to_string()
}

/// Tells the two variants of `TryLockError` apart: the poison error of
/// `Poisoned`, `None` for `WouldBlock`. Nothing is claimed of which it is.
#[verifier::external_body]
pub(crate) fn poison_of<T>(e: TryLockError<T>) -> (r: Option<PoisonError<T>>) {
    match e {
        TryLockError::Poisoned(p) => Some(p),
        TryLockError::WouldBlock => None,
    }
}

/// Telling the failure `e` apart can give `read`: the poison error inside
/// a poisoned attempt, or `None` for an attempt that would have blocked.
pub closed spec fn told_apart<T>(e: TryLockError<T>, read: Option<PoisonError<T>>) -> bool {
    call_ensures(poison_of::<T>, (e,), read)
}

/// Reads a failed lock attempt: of a poisoned lock the description that
/// the standard library gives, of a lock held by another thread nothing
/// more. The guard inside a poison error is dropped, so the lock is
/// released.
///
/// The failure `e` itself is told apart. Where no poison error is found in
/// it, the result is `WouldBlock`. Where one is found, the result is
/// `Poisoned` with the description of a poisoned lock.
pub fn lock_failure_of<T>(e: TryLockError<T>) -> (r: LockFailure)
    ensures
        r matches LockFailure::Poisoned(text) ==> text@ == poison_description(),
        exists|read: Option<PoisonError<T>>| #[trigger]
            told_apart(e, read) && match read {
                Some(_) => r matches LockFailure::Poisoned(text) && text@ == poison_description(),
                None => r is WouldBlock,
            },
{
    let read = poison_of(e);
    assert(told_apart(e, read));
    match read {
        Some(p) => LockFailure::Poisoned(poison_text(&p)),
        None => LockFailure::WouldBlock,
    }
}

} // verus!
