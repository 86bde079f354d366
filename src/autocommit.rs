//! Auto-commit: a statement entered while no transaction is open runs in a
//! transaction of its own, which is committed when the statement succeeds
//! and aborted when it fails.
use crate::error::{usage_error, ShellError};
use crate::transaction::{already_open_message, Command, CommandView, Coordinator, Phase, TransactionError};
use vstd::prelude::*;

verus! {

/// How a statement is to be run.
#[derive(Debug, Clone, Copy, PartialEq, Eq, Structural)]
pub enum Route {
    /// Inside the transaction that is open.
    InTransaction,
    /// In a transaction opened and ended for it alone.
    AutoCommit,
}

pub open spec fn not_auto_commit_message() -> Seq<char> {
    "No active transaction and not in auto-commit mode. Start a transaction with 'start transaction' or 'begin'"@
}

/// Chooses how a statement runs, from whether a transaction is open and
/// whether auto-commit is on.
pub fn route_statement(open: bool, auto_commit: bool) -> (r: Result<Route, ShellError>)
    ensures
        open ==> r == Ok::<Route, ShellError>(Route::InTransaction),
        !open && auto_commit ==> r == Ok::<Route, ShellError>(Route::AutoCommit),
        !open && !auto_commit ==> (r matches Err(e) && e.is_usage(not_auto_commit_message())),
{
    if open {
        Ok(Route::InTransaction)
    } else if auto_commit {
        Ok(Route::AutoCommit)
    } else {
        Err(
            usage_error(
                "No active transaction and not in auto-commit mode. Start a transaction with 'start transaction' or 'begin'",
            ),
        )
    }
}

/// Opens a transaction for `text` alone and gives the command that carries
/// the statement. The caller spawns the body, then sends the command.
pub fn auto_begin(coordinator: &mut Coordinator, text: String) -> (r: Result<Command, ShellError>)
    ensures
        old(coordinator)@ == Phase::Idle ==> final(coordinator)@ == Phase::Executing && (r matches Ok(
            cmd,
        ) && cmd@ == CommandView::Execute(text@)),
        old(coordinator)@ != Phase::Idle ==> final(coordinator)@ == old(coordinator)@ && (r matches Err(
            e,
        ) && e.is_usage(already_open_message())),
{
    match coordinator.start() {
        Err(e) => Err(e),
        Ok(()) => coordinator.execute_statement(text),
    }
}

/// What follows the answer to an auto-committed statement.
#[derive(Debug)]
pub enum FollowUp<R> {
    /// The statement succeeded: send the commit, join the body, then give
    /// the results.
    Commit { results: R, command: Command },
    /// The statement failed: send the abort when there is one (a fatal
    /// failure has already discarded the transaction), join the body,
    /// ignore how the abort went, and report `error`.
    AbortThenFail { error: TransactionError, abort: Option<Command> },
}

/// Decides what follows the answer to an auto-committed statement, as
/// [`crate::transaction::Coordinator::statement_finished`] returned it.
pub fn auto_follow_up<R>(coordinator: &mut Coordinator, answer: Result<R, TransactionError>) -> (r:
    FollowUp<R>)
    ensures
        final(coordinator)@ == Phase::Idle || (final(coordinator)@ == old(coordinator)@
            && old(coordinator)@ == Phase::Executing),
        old(coordinator)@ == Phase::Open ==> final(coordinator)@ == Phase::Idle,
        match answer {
            Ok(v) => old(coordinator)@ == Phase::Open ==> (r matches FollowUp::Commit {
                results,
                command,
            } && results == v && command@ == CommandView::Commit),
            Err(e) => r matches FollowUp::AbortThenFail { error, abort } && error == e && (
            old(coordinator)@ == Phase::Open <==> (abort matches Some(c) && c@
                == CommandView::Abort)),
        },
{
    match answer {
        Ok(results) => match coordinator.commit() {
            Ok(command) => FollowUp::Commit { results, command },
            Err(e) => FollowUp::AbortThenFail { error: TransactionError::Shell(e), abort: None },
        },
        Err(error) => match coordinator.abort() {
            Ok(command) => FollowUp::AbortThenFail { error, abort: Some(command) },
            Err(_) => FollowUp::AbortThenFail { error, abort: None },
        },
    }
}

} // verus!
