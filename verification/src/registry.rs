//! Failures of the asset registry, and how a failed lock becomes one.

use crate::locks::{lock_failure_of, poison_description, poison_text, LockFailure};
use crate::text::join3;
use std::sync::{MutexGuard, PoisonError, TryLockError};
use vstd::pervasive::arbitrary;
use vstd::prelude::*;
use vstd::std_specs::convert::FromSpecImpl;
use vstd::string::*;

verus! {

/// What can go wrong in the asset registry. A variant that wraps a failure
/// of a lower layer holds that failure's description.
#[derive(Debug, Clone, PartialEq, Eq)]
pub enum Error {
    /// The registry was initialised a second time.
    AlreadyInitialized,
    /// A refresh asked for neither assets nor icons.
    BothAssetsIconsFalse,
    /// An extended public key could not be read.
    BtcBip32Error(String),
    /// A failure of the shared wallet layer.
    Common(String),
    /// A text that is no hexadecimal.
    Hex(String),
    /// A network that the registry does not know.
    InvalidNetwork(String),
    /// An input or output failure.
    Io(String),
    /// Another thread holds the lock, and the attempt did not wait for it.
    MutexBusy,
    /// A thread panicked while it held the lock; the text describes it.
    Poison(String),
    /// The cache file of this wallet has not been written yet.
    CacheNotCreated,
    /// The registry was used before it was initialised.
    RegistryUninitialized,
    /// A JSON text could not be read or written.
    SerdeJson(String),
    /// A CBOR document could not be read or written.
    SerdeCbor(String),
    /// An HTTP request failed.
    Ureq(String),
    /// Any other failure, described by its text.
    Generic(String),
}

impl Error {
    /// The description of the failure.
    pub open spec fn message_spec(&self) -> Seq<char> {
        match self {
            Error::AlreadyInitialized => "Cannot call `init` more than once"@,
            Error::BothAssetsIconsFalse => "Neither assets nor icons were requested"@,
            Error::BtcBip32Error(s) => s@,
            Error::Common(s) => s@,
            Error::Hex(s) => s@,
            Error::InvalidNetwork(s) => "InvalidNetwork("@ + s@ + ")"@,
            Error::Io(s) => s@,
            Error::MutexBusy => "Another thread is holding the Mutex's lock"@,
            Error::Poison(s) => s@,
            Error::CacheNotCreated => "Registry cache for this wallet has not been created"@,
            Error::RegistryUninitialized => "Registry has not been initialized"@,
            Error::SerdeJson(s) => s@,
            Error::SerdeCbor(s) => s@,
            Error::Ureq(s) => s@,
            Error::Generic(s) => s@,
        }
    }

    /// The description of the failure, as a string.
    pub fn to_string(&self) -> (r: String)
        ensures
            r@ == self.message_spec(),
    {
        match self {
            Error::AlreadyInitialized => String::from_str("Cannot call `init` more than once"),
            Error::BothAssetsIconsFalse => String::from_str(
                "Neither assets nor icons were requested",
            ),
            Error::BtcBip32Error(s) => s.clone(),
            Error::Common(s) => s.clone(),
            Error::Hex(s) => s.clone(),
            Error::InvalidNetwork(s) => join3("InvalidNetwork(", s.as_str(), ")"),
            Error::Io(s) => s.clone(),
            Error::MutexBusy => String::from_str("Another thread is holding the Mutex's lock"),
            Error::Poison(s) => s.clone(),
            Error::CacheNotCreated => String::from_str(
                "Registry cache for this wallet has not been created",
            ),
            Error::RegistryUninitialized => String::from_str("Registry has not been initialized"),
            Error::SerdeJson(s) => s.clone(),
            Error::SerdeCbor(s) => s.clone(),
            Error::Ureq(s) => s.clone(),
            Error::Generic(s) => s.clone(),
        }
    }
}

/// A poisoned mutex becomes `Poison`, which carries the standard library's
/// description of the poisoning. The guard inside the error is dropped, so
/// the lock is released.
impl<T> From<PoisonError<MutexGuard<'_, T>>> for Error {
    fn from(e: PoisonError<MutexGuard<'_, T>>) -> (r: Error)
        ensures
            r matches Error::Poison(description) && description@ == poison_description(),
    {
        Error::Poison(poison_text(&e))
    }
}

impl<T> FromSpecImpl<PoisonError<MutexGuard<'_, T>>> for Error {
    open spec fn obeys_from_spec() -> bool {
        false
    }

    open spec fn from_spec(e: PoisonError<MutexGuard<'_, T>>) -> Error {
        arbitrary()
    }
}

/// A failed lock attempt: a poisoned lock becomes `Poison` with the same
/// description, a lock held by another thread becomes `MutexBusy`.
impl From<LockFailure> for Error {
    fn from(failure: LockFailure) -> (r: Error) {
        match failure {
            LockFailure::Poisoned(description) => Error::Poison(description),
            LockFailure::WouldBlock => Error::MutexBusy,
        }
    }
}

impl FromSpecImpl<LockFailure> for Error {
    open spec fn obeys_from_spec() -> bool {
        true
    }

    open spec fn from_spec(failure: LockFailure) -> Error {
        match failure {
            LockFailure::Poisoned(description) => Error::Poison(description),
            LockFailure::WouldBlock => Error::MutexBusy,
        }
    }
}

/// A lock attempt that did not wait and failed: the failure is read by
/// `lock_failure_of` and becomes what that `LockFailure` becomes, `Poison`
/// with the description for a poisoned lock and `MutexBusy` for a lock
/// that another thread holds. So the caller is never made to wait, and a
/// poisoned lock is an ordinary failure.
impl<T> From<TryLockError<MutexGuard<'_, T>>> for Error {
    fn from(err: TryLockError<MutexGuard<'_, T>>) -> (r: Error)
        ensures
            r is MutexBusy || (r matches Error::Poison(description) && description@
                == poison_description()),
            exists|failure: LockFailure| #[trigger]
                call_ensures(lock_failure_of::<MutexGuard<'_, T>>, (err,), failure) && r == (
                match failure {
                    LockFailure::Poisoned(description) => Error::Poison(description),
                    LockFailure::WouldBlock => Error::MutexBusy,
                }),
    {
        Error::from(lock_failure_of(err))
    }
}

impl<T> FromSpecImpl<TryLockError<MutexGuard<'_, T>>> for Error {
    open spec fn obeys_from_spec() -> bool {
        false
    }

    open spec fn from_spec(err: TryLockError<MutexGuard<'_, T>>) -> Error {
        arbitrary()
    }
}

} // verus!
