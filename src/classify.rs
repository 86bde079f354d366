use vstd::prelude::*;

verus! {

/// What the backend reported about a failed statement.
#[derive(Debug, Clone, Copy, PartialEq, Eq, Structural)]
pub enum ErrorKind {
    /// The request was malformed.
    BadRequest,
    /// The session is invalid or has expired.
    InvalidSession,
    /// Optimistic concurrency control rejected the transaction.
    OccConflict,
    /// The request rate was too high.
    RateExceeded,
    /// The backend ran out of capacity.
    CapacityExceeded,
    /// A service limit was reached.
    LimitExceeded,
    /// Any other failure, such as a transport error.
    Other,
}

/// Whether the transaction survives a failed statement.
#[derive(Debug, Clone, Copy, PartialEq, Eq, Structural)]
pub enum Severity {
    /// Only this statement failed; the transaction is still open.
    Recoverable,
    /// The transaction (or its session) can no longer be used.
    Fatal,
}

/// A failed statement: the backend's kind of failure and its message.
#[derive(Debug, Clone)]
pub struct StatementError {
    pub kind: ErrorKind,
    pub message: String,
}

/// The kinds of failure after which the transaction cannot go on.
pub open spec fn is_fatal_kind(kind: ErrorKind) -> bool {
    kind == ErrorKind::BadRequest || kind == ErrorKind::InvalidSession
}

pub open spec fn severity_of(kind: ErrorKind) -> Severity {
    if is_fatal_kind(kind) {
        Severity::Fatal
    } else {
        Severity::Recoverable
    }
}

/// Decides whether a statement failure of the given kind ends the transaction.
pub fn classify(kind: ErrorKind) -> (r: Severity)
    ensures
        r == severity_of(kind),
{
    match kind {
        ErrorKind::BadRequest | ErrorKind::InvalidSession => Severity::Fatal,
        _ => Severity::Recoverable,
    }
}

impl StatementError {
    /// The severity of this failure.
    pub fn severity(&self) -> (r: Severity)
        ensures
            r == severity_of(self.kind),
    {
        classify(self.kind)
    }
}

} // verus!
