use vstd::prelude::*;
use vstd::string::StringExecFns;

verus! {

/// Errors that the shell reports to its user without ending the program.
#[derive(Debug, Clone)]
pub enum ShellError {
    /// The user asked for something that cannot be done in the current state.
    UsageError { message: String },
    /// An internal invariant was broken: a defect in the shell itself.
    Bug(String),
}

impl ShellError {
    /// Holds when `self` is a usage error carrying `msg`.
    pub open spec fn is_usage(&self, msg: Seq<char>) -> bool {
        match self {
            ShellError::UsageError { message } => message@ == msg,
            _ => false,
        }
    }

    /// Holds when `self` reports a defect carrying `msg`.
    pub open spec fn is_bug(&self, msg: Seq<char>) -> bool {
        match self {
            ShellError::Bug(message) => message@ == msg,
            _ => false,
        }
    }
}

/// A usage error with the given message.
pub fn usage_error(message: &str) -> (r: ShellError)
    ensures
        r.is_usage(message@),
{
    ShellError::UsageError { message: String::from_str(message) }
}

/// A defect report with the given message.
pub fn bug(message: &str) -> (r: ShellError)
    ensures
        r.is_bug(message@),
{
    ShellError::Bug(String::from_str(message))
}

} // verus!
