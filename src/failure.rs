use vstd::prelude::*;

verus! {

/// What the remote ledger client reported, reduced to what the crank decides on.
#[derive(Debug, Clone, Copy, PartialEq, Eq, Structural)]
pub enum RemoteError {
    /// The account does not exist (any more).
    AccountNotFound,
    /// The program rejected the transaction with a framework error; `code` is
    /// its error number where it has one.
    AnchorError { code: Option<u32> },
    /// The program rejected the transaction with a plain program error.
    ProgramError,
    /// The RPC transport failed.
    ClientTransport,
    /// The realtime subscription transport failed.
    PubsubTransport,
    /// The response could not be parsed.
    LogParse,
}

/// A classified failure of one remote operation.
#[derive(Debug, Clone, Copy, PartialEq, Eq, Structural)]
pub enum Failure<E> {
    /// Ends the batch.
    Fatal(E),
    /// Counted as a sign of degradation; the batch goes on.
    PossibleDegradation(E),
    /// Dropped silently; the batch goes on.
    Skip,
}

/// The three-way taxonomy of a remote error.
pub open spec fn classification(err: RemoteError) -> Failure<RemoteError> {
    match err {
        RemoteError::AccountNotFound => Failure::Skip,
        RemoteError::AnchorError { .. } => Failure::Fatal(err),
        RemoteError::ProgramError => Failure::Fatal(err),
        RemoteError::ClientTransport => Failure::PossibleDegradation(err),
        RemoteError::PubsubTransport => Failure::PossibleDegradation(err),
        RemoteError::LogParse => Failure::Fatal(err),
    }
}

pub open spec fn is_fatal(err: RemoteError) -> bool {
    classification(err) is Fatal
}

pub open spec fn is_degradation(err: RemoteError) -> bool {
    classification(err) is PossibleDegradation
}

/// What the tolerant entry point makes of one outcome: the increment of the
/// degradation count, or the fatal failure.
pub open spec fn assessment<T>(result: Result<T, RemoteError>) -> Result<usize, Failure<RemoteError>> {
    match result {
        Ok(_) => Ok(0),
        Err(e) => if is_fatal(e) {
            Err(Failure::Fatal(e))
        } else if is_degradation(e) {
            Ok(1)
        } else {
            Ok(0)
        },
    }
}

impl From<RemoteError> for Failure<RemoteError> {
    fn from(err: RemoteError) -> (r: Self) {
        match err {
            RemoteError::AccountNotFound => Failure::Skip,
            RemoteError::AnchorError { .. } => Failure::Fatal(err),
            RemoteError::ProgramError => Failure::Fatal(err),
            RemoteError::ClientTransport => Failure::PossibleDegradation(err),
            RemoteError::PubsubTransport => Failure::PossibleDegradation(err),
            RemoteError::LogParse => Failure::Fatal(err),
        }
    }
}

impl vstd::std_specs::convert::FromSpecImpl<RemoteError> for Failure<RemoteError> {
    open spec fn obeys_from_spec() -> bool {
        true
    }

    open spec fn from_spec(err: RemoteError) -> Failure<RemoteError> {
        classification(err)
    }
}

impl<E> Failure<E> {
    /// The strict entry point: any error becomes fatal.
    pub fn must_succeed<T>(result: Result<T, E>) -> (r: Result<T, Failure<E>>)
        ensures
            match result {
                Ok(v) => r == Ok::<T, Failure<E>>(v),
                Err(e) => r == Err::<T, Failure<E>>(Failure::Fatal(e)),
            },
    {
        match result {
            Ok(v) => Ok(v),
            Err(e) => Err(Failure::Fatal(e)),
        }
    }
}

impl Failure<RemoteError> {
    /// The tolerant entry point: a success or a skipped error counts 0, a
    /// possible degradation counts 1, and a fatal error is handed back.
    pub fn assess<T>(result: Result<T, RemoteError>) -> (r: Result<usize, Failure<RemoteError>>)
        ensures
            r == assessment(result),
    {
        match result {
            Ok(_) => Ok(0),
            Err(err) => match Failure::from(err) {
                Failure::Fatal(e) => Err(Failure::Fatal(e)),
                Failure::PossibleDegradation(_) => Ok(1),
                Failure::Skip => Ok(0),
            },
        }
    }
}

/// Drops an entry that vanished between listing and fetching; keeps any other.
pub fn filter_account_result<T>(result: Result<T, RemoteError>) -> (r: Option<Result<T, RemoteError>>)
    ensures
        r == (if result == Err::<T, RemoteError>(RemoteError::AccountNotFound) {
            None::<Result<T, RemoteError>>
        } else {
            Some(result)
        }),
{
    match result {
        Err(RemoteError::AccountNotFound) => None,
        t => Some(t),
    }
}

} // verus!
