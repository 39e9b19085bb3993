use vstd::prelude::*;

verus! {

/// A failure reported by the embedded engine, with its message.
#[derive(Debug)]
pub struct EngineError {
    pub message: String,
}

impl EngineError {
    pub fn new(message: &str) -> (r: EngineError)
        ensures
            r.message@ == message@,
    {
        EngineError { message: message.to_owned() }
    }
}

/// A failure of the store layer.
#[derive(Debug)]
pub enum StoreError {
    /// The location could not be opened or connected to; holds the cause.
    OpenFailed(EngineError),
    /// A holder of the store's lock failed while holding it. The store cannot
    /// be used again.
    LockPoisoned,
}

/// Every failure that the library reports.
#[derive(Debug)]
pub enum Error {
    StoreError(StoreError),
    EngineError(EngineError),
    /// A result did not have the shape that the caller's extraction expected.
    UnexpectedResultType(String),
}

impl Error {
    /// Whether the failure leaves the store unusable, so that retrying is futile.
    pub fn is_fatal(&self) -> (r: bool)
        ensures
            r == (self matches Error::StoreError(StoreError::LockPoisoned)),
    {
        match self {
            Error::StoreError(StoreError::LockPoisoned) => true,
            _ => false,
        }
    }
}

/// Carries an engine result over, an engine failure wrapped with its cause.
pub(crate) fn from_engine<T>(r: Result<T, EngineError>) -> (out: Result<T, Error>)
    ensures
        match r {
            Ok(v) => out == Ok::<T, Error>(v),
            Err(e) => out == Err::<T, Error>(Error::EngineError(e)),
        },
{
    match r {
        Ok(v) => Ok(v),
        Err(e) => Err(Error::EngineError(e)),
    }
}

/// Carries the result of opening a location over, a failure as an open failure
/// with its cause.
pub(crate) fn from_open<T>(r: Result<T, EngineError>) -> (out: Result<T, Error>)
    ensures
        match r {
            Ok(v) => out == Ok::<T, Error>(v),
            Err(e) => out == Err::<T, Error>(Error::StoreError(StoreError::OpenFailed(e))),
        },
{
    match r {
        Ok(v) => Ok(v),
        Err(e) => Err(Error::StoreError(StoreError::OpenFailed(e))),
    }
}

/// Carries the outcome of taking a lock over: the guard, or, when the lock is
/// poisoned, the fatal `LockPoisoned` error (so that nothing runs under it).
pub(crate) fn or_poisoned<G>(guard: Option<G>) -> (r: Result<G, Error>)
    ensures
        guard matches Some(g) ==> r == Ok::<G, Error>(g),
        guard is None ==> r == Err::<G, Error>(Error::StoreError(StoreError::LockPoisoned)),
{
    match guard {
        Some(g) => Ok(g),
        None => Err(Error::StoreError(StoreError::LockPoisoned)),
    }
}

} // verus!
