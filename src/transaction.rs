//! The interactive transaction protocol.
//!
//! A backend runs a whole transaction as one body. The foreground loop feeds
//! that body one command at a time through a channel that holds one command,
//! and waits for exactly one answer before it sends the next. The decisions
//! of both sides are made here; the channels, the spawned body and the
//! backend calls are run by the caller.
use crate::classify::{classify, severity_of, Severity, StatementError};
use crate::error::{bug, usage_error, ShellError};
use vstd::prelude::*;

verus! {

/// A command from the foreground loop to the transaction body.
#[derive(Debug, Clone)]
pub enum Command {
    ExecuteStatement(String),
    Commit,
    Abort,
}

/// The mathematical form of a [`Command`].
pub enum CommandView {
    Execute(Seq<char>),
    Commit,
    Abort,
}

impl View for Command {
    type V = CommandView;

    open spec fn view(&self) -> CommandView {
        match self {
            Command::ExecuteStatement(text) => CommandView::Execute(text@),
            Command::Commit => CommandView::Commit,
            Command::Abort => CommandView::Abort,
        }
    }
}

/// Where the coordinator stands.
#[derive(Debug, Clone, Copy, PartialEq, Eq, Structural)]
pub enum Phase {
    /// No transaction is open.
    Idle,
    /// A transaction is open and waits for the next command.
    Open,
    /// A statement was sent and its result has not come back yet.
    Executing,
}

/// Why the coordinator turned a request down without sending anything.
#[derive(Debug, Clone, Copy, PartialEq, Eq, Structural)]
pub enum Refusal {
    NoActiveTransaction,
    AlreadyOpen,
    StatementInFlight,
    NothingInFlight,
}

/// What came back for a statement, as far as the protocol cares.
#[derive(Debug, Clone, Copy, PartialEq, Eq, Structural)]
pub enum ReplyView {
    Results,
    Failed(Severity),
    Closed,
}

/// How a transaction body ended.
#[derive(Debug, Clone, Copy, PartialEq, Eq, Structural)]
pub enum Ending {
    Commit,
    Abort,
}

/// The terminal result of a transaction body.
#[derive(Debug, PartialEq, Eq)]
pub enum TransactionOutcome<V> {
    Committed(V),
    Aborted,
}

/// Errors of the coordinator's operations.
#[derive(Debug)]
pub enum TransactionError {
    /// A usage error or a defect report; nothing was sent.
    Shell(ShellError),
    /// The statement failed on the backend.
    Statement(StatementError),
    /// The transaction body stopped before it answered; its join error
    /// tells why.
    WorkerStopped,
}

pub open spec fn no_active_message() -> Seq<char> {
    "No active transaction"@
}

pub open spec fn already_open_message() -> Seq<char> {
    "Transaction already open"@
}

pub open spec fn in_flight_message() -> Seq<char> {
    "a statement is already in flight"@
}

pub open spec fn nothing_in_flight_message() -> Seq<char> {
    "no statement is awaiting a result"@
}

/// The error by which a refusal is reported.
pub open spec fn reports(e: ShellError, why: Refusal) -> bool {
    match why {
        Refusal::NoActiveTransaction => e.is_usage(no_active_message()),
        Refusal::AlreadyOpen => e.is_usage(already_open_message()),
        Refusal::StatementInFlight => e.is_bug(in_flight_message()),
        Refusal::NothingInFlight => e.is_bug(nothing_in_flight_message()),
    }
}

/// `start`: opens a transaction unless one is open.
pub open spec fn start_step(p: Phase) -> (Phase, Option<Refusal>) {
    match p {
        Phase::Idle => (Phase::Open, None),
        _ => (p, Some(Refusal::AlreadyOpen)),
    }
}

/// `execute_statement`: sends the statement when a transaction waits for one.
pub open spec fn execute_step(p: Phase, text: Seq<char>) -> (Phase, Result<CommandView, Refusal>) {
    match p {
        Phase::Idle => (p, Err(Refusal::NoActiveTransaction)),
        Phase::Open => (Phase::Executing, Ok(CommandView::Execute(text))),
        Phase::Executing => (p, Err(Refusal::StatementInFlight)),
    }
}

/// The phase after the answer to a statement arrives.
pub open spec fn finish_step(p: Phase, reply: ReplyView) -> Phase {
    match p {
        Phase::Executing => match reply {
            ReplyView::Results => Phase::Open,
            ReplyView::Failed(Severity::Recoverable) => Phase::Open,
            ReplyView::Failed(Severity::Fatal) => Phase::Idle,
            ReplyView::Closed => Phase::Idle,
        },
        _ => p,
    }
}

/// `commit` (with `ending` Commit) or `abort`: ends an open transaction.
pub open spec fn end_step(p: Phase, ending: Ending) -> (Phase, Result<CommandView, Refusal>) {
    match p {
        Phase::Idle => (p, Err(Refusal::NoActiveTransaction)),
        Phase::Open => (
            Phase::Idle,
            Ok(
                match ending {
                    Ending::Commit => CommandView::Commit,
                    Ending::Abort => CommandView::Abort,
                },
            ),
        ),
        Phase::Executing => (p, Err(Refusal::StatementInFlight)),
    }
}

/// Dropping the handle: the body must be cancelled when one was running.
pub open spec fn cancel_step(p: Phase) -> (Phase, bool) {
    (Phase::Idle, p != Phase::Idle)
}

/// The protocol's view of a statement's answer; `None` is a closed channel.
pub open spec fn reply_view<R>(reply: Option<Result<R, StatementError>>) -> ReplyView {
    match reply {
        None => ReplyView::Closed,
        Some(Ok(_)) => ReplyView::Results,
        Some(Err(e)) => ReplyView::Failed(severity_of(e.kind)),
    }
}

/// The side of the protocol that the foreground loop holds: it knows whether
/// a transaction is open and whether a statement is in flight.
#[derive(Debug)]
pub struct Coordinator {
    phase: Phase,
}

impl View for Coordinator {
    type V = Phase;

    closed spec fn view(&self) -> Phase {
        self.phase
    }
}

impl Coordinator {
    /// A coordinator with no transaction open.
    pub fn new() -> (r: Coordinator)
        ensures
            r@ == Phase::Idle,
    {
        Coordinator { phase: Phase::Idle }
    }

    /// The current phase.
    pub fn phase(&self) -> (r: Phase)
        ensures
            r == self@,
    {
        self.phase
    }

    /// Whether a transaction is open.
    pub fn is_open(&self) -> (r: bool)
        ensures
            r == (self@ != Phase::Idle),
    {
        self.phase != Phase::Idle
    }

    /// Opens a transaction. The caller then spawns the transaction body.
    pub fn start(&mut self) -> (r: Result<(), ShellError>)
        ensures
            final(self)@ == start_step(old(self)@).0,
            match start_step(old(self)@).1 {
                None => r is Ok,
                Some(why) => r matches Err(e) && reports(e, why),
            },
    {
        if self.phase != Phase::Idle {
            return Err(usage_error("Transaction already open"));
        }
        self.phase = Phase::Open;
        Ok(())
    }

    /// Gives the command that carries `text` to the transaction body. The
    /// caller sends it and hands the answer to [`Coordinator::statement_finished`].
    pub fn execute_statement(&mut self, text: String) -> (r: Result<Command, ShellError>)
        ensures
            final(self)@ == execute_step(old(self)@, text@).0,
            match execute_step(old(self)@, text@).1 {
                Ok(c) => r matches Ok(cmd) && cmd@ == c,
                Err(why) => r matches Err(e) && reports(e, why),
            },
    {
        match self.phase {
            Phase::Idle => Err(usage_error("No active transaction")),
            Phase::Executing => Err(bug("a statement is already in flight")),
            Phase::Open => {
                self.phase = Phase::Executing;
                Ok(Command::ExecuteStatement(text))
            },
        }
    }

    /// Takes the answer to the statement in flight; `None` means that the
    /// body's channel was closed. A fatal failure or a closed channel
    /// discards the transaction before the error is returned.
    pub fn statement_finished<R>(&mut self, reply: Option<Result<R, StatementError>>) -> (r: Result<
        R,
        TransactionError,
    >)
        ensures
            final(self)@ == finish_step(old(self)@, reply_view(reply)),
            old(self)@ != Phase::Executing ==> (r matches Err(TransactionError::Shell(e)) && reports(
                e,
                Refusal::NothingInFlight,
            )),
            old(self)@ == Phase::Executing ==> match reply {
                Some(Ok(v)) => r == Ok::<R, TransactionError>(v),
                Some(Err(e)) => r matches Err(TransactionError::Statement(e2)) && e2 == e,
                None => r matches Err(TransactionError::WorkerStopped),
            },
    {
        if self.phase != Phase::Executing {
            return Err(TransactionError::Shell(bug("no statement is awaiting a result")));
        }
        match reply {
            Some(Ok(v)) => {
                self.phase = Phase::Open;
                Ok(v)
            },
            Some(Err(e)) => {
                match classify(e.kind) {
                    Severity::Fatal => {
                        self.phase = Phase::Idle;
                    },
                    Severity::Recoverable => {
                        self.phase = Phase::Open;
                    },
                }
                Err(TransactionError::Statement(e))
            },
            None => {
                self.phase = Phase::Idle;
                Err(TransactionError::WorkerStopped)
            },
        }
    }

    fn end(&mut self, ending: Ending) -> (r: Result<Command, ShellError>)
        ensures
            final(self)@ == end_step(old(self)@, ending).0,
            match end_step(old(self)@, ending).1 {
                Ok(c) => r matches Ok(cmd) && cmd@ == c,
                Err(why) => r matches Err(e) && reports(e, why),
            },
    {
        match self.phase {
            Phase::Idle => Err(usage_error("No active transaction")),
            Phase::Executing => Err(bug("a statement is already in flight")),
            Phase::Open => {
                self.phase = Phase::Idle;
                match ending {
                    Ending::Commit => Ok(Command::Commit),
                    Ending::Abort => Ok(Command::Abort),
                }
            },
        }
    }

    /// Ends the open transaction with a commit. The transaction is discarded
    /// whatever the outcome; the caller sends the command and joins the body.
    pub fn commit(&mut self) -> (r: Result<Command, ShellError>)
        ensures
            final(self)@ == end_step(old(self)@, Ending::Commit).0,
            match end_step(old(self)@, Ending::Commit).1 {
                Ok(c) => r matches Ok(cmd) && cmd@ == c,
                Err(why) => r matches Err(e) && reports(e, why),
            },
            old(self)@ == Phase::Idle ==> final(self)@ == Phase::Idle && (r matches Err(e)
                && e.is_usage(no_active_message())),
    {
        self.end(Ending::Commit)
    }

    /// Ends the open transaction with an abort, as [`Coordinator::commit`] does.
    pub fn abort(&mut self) -> (r: Result<Command, ShellError>)
        ensures
            final(self)@ == end_step(old(self)@, Ending::Abort).0,
            match end_step(old(self)@, Ending::Abort).1 {
                Ok(c) => r matches Ok(cmd) && cmd@ == c,
                Err(why) => r matches Err(e) && reports(e, why),
            },
            old(self)@ == Phase::Idle ==> final(self)@ == Phase::Idle && (r matches Err(e)
                && e.is_usage(no_active_message())),
    {
        self.end(Ending::Abort)
    }

    /// The handle is dropped without a commit or an abort. Returns whether a
    /// running body must be cancelled; the coordinator is idle afterwards.
    pub fn cancel(&mut self) -> (r: bool)
        ensures
            (final(self)@, r) == cancel_step(old(self)@),
    {
        let running = self.phase != Phase::Idle;
        self.phase = Phase::Idle;
        running
    }
}

/// What the transaction body does with the command it received.
#[derive(Debug, Clone)]
pub enum WorkerStep {
    /// Run the statement on the backend and send its answer back.
    Execute(String),
    /// Leave the body with a commit or an abort.
    Finish(Ending),
}

/// The mathematical form of a [`WorkerStep`].
pub enum WorkerStepView {
    Execute(Seq<char>),
    Finish(Ending),
}

impl View for WorkerStep {
    type V = WorkerStepView;

    open spec fn view(&self) -> WorkerStepView {
        match self {
            WorkerStep::Execute(text) => WorkerStepView::Execute(text@),
            WorkerStep::Finish(ending) => WorkerStepView::Finish(*ending),
        }
    }
}

pub open spec fn received_view(cmd: Option<Command>) -> Option<CommandView> {
    match cmd {
        Some(c) => Some(c@),
        None => None,
    }
}

/// The body's rule: a closed command channel counts as an abort.
pub open spec fn worker_step_spec(cmd: Option<CommandView>) -> WorkerStepView {
    match cmd {
        Some(CommandView::Execute(text)) => WorkerStepView::Execute(text),
        Some(CommandView::Commit) => WorkerStepView::Finish(Ending::Commit),
        Some(CommandView::Abort) => WorkerStepView::Finish(Ending::Abort),
        None => WorkerStepView::Finish(Ending::Abort),
    }
}

/// Decides what the transaction body does with what it received; `None`
/// means that the command channel was closed.
pub fn worker_step(cmd: Option<Command>) -> (r: WorkerStep)
    ensures
        r@ == worker_step_spec(received_view(cmd)),
{
    match cmd {
        Some(Command::ExecuteStatement(text)) => WorkerStep::Execute(text),
        Some(Command::Commit) => WorkerStep::Finish(Ending::Commit),
        Some(Command::Abort) | None => WorkerStep::Finish(Ending::Abort),
    }
}

pub open spec fn conclude_spec<V>(ending: Ending, value: V) -> TransactionOutcome<V> {
    match ending {
        Ending::Commit => TransactionOutcome::Committed(value),
        Ending::Abort => TransactionOutcome::Aborted,
    }
}

/// The outcome of a body that ended after the backend accepted its commit
/// (of `value`) or its abort.
pub fn conclude<V>(ending: Ending, value: V) -> (r: TransactionOutcome<V>)
    ensures
        r == conclude_spec(ending, value),
        ending == Ending::Commit ==> r == TransactionOutcome::Committed(value),
{
    match ending {
        Ending::Commit => TransactionOutcome::Committed(value),
        Ending::Abort => TransactionOutcome::Aborted,
    }
}

pub open spec fn ended_spec<V>(joined: Option<Result<TransactionOutcome<V>, StatementError>>) -> Result<
    TransactionOutcome<V>,
    TransactionError,
> {
    match joined {
        Some(Ok(outcome)) => Ok(outcome),
        Some(Err(e)) => Err(TransactionError::Statement(e)),
        None => Err(TransactionError::WorkerStopped),
    }
}

/// The result of a commit or an abort, from what joining the body gave:
/// `None` when the body failed or was cancelled before it returned.
pub fn transaction_ended<V>(joined: Option<Result<TransactionOutcome<V>, StatementError>>) -> (r:
    Result<TransactionOutcome<V>, TransactionError>)
    ensures
        r == ended_spec(joined),
{
    match joined {
        Some(Ok(outcome)) => Ok(outcome),
        Some(Err(e)) => Err(TransactionError::Statement(e)),
        None => Err(TransactionError::WorkerStopped),
    }
}

/// The commands that the coordinator sends, from phase `p`, for the given
/// statements, each of whose answers comes back with results.
pub open spec fn issue_statements(p: Phase, texts: Seq<Seq<char>>) -> (Phase, Seq<CommandView>)
    decreases texts.len(),
{
    if texts.len() == 0 {
        (p, Seq::empty())
    } else {
        let (sending, sent) = execute_step(p, texts[0]);
        let answered = finish_step(sending, ReplyView::Results);
        let (last, rest) = issue_statements(answered, texts.drop_first());
        match sent {
            Ok(c) => (last, seq![c] + rest),
            Err(_) => (last, rest),
        }
    }
}

/// The statements that a body runs, in order, when it receives `cmds`, and
/// how it ends (`None` when the commands run out first).
pub open spec fn worker_run(cmds: Seq<CommandView>) -> (Seq<Seq<char>>, Option<Ending>)
    decreases cmds.len(),
{
    if cmds.len() == 0 {
        (Seq::empty(), None)
    } else {
        match worker_step_spec(Some(cmds[0])) {
            WorkerStepView::Execute(text) => {
                let (rest, ending) = worker_run(cmds.drop_first());
                (seq![text] + rest, ending)
            },
            WorkerStepView::Finish(ending) => (Seq::empty(), Some(ending)),
        }
    }
}

/// The statements sent in an open transaction reach the body in the order in
/// which they were sent, each one once, and the commit that follows ends it.
/// While a statement is in flight no other command is sent.
pub proof fn lemma_statements_in_send_order(texts: Seq<Seq<char>>)
    ensures
        issue_statements(Phase::Open, texts).0 == Phase::Open,
        issue_statements(Phase::Open, texts).1 == texts.map_values(
            |t: Seq<char>| CommandView::Execute(t),
        ),
        end_step(issue_statements(Phase::Open, texts).0, Ending::Commit) == (
            Phase::Idle,
            Ok::<CommandView, Refusal>(CommandView::Commit),
        ),
        worker_run(issue_statements(Phase::Open, texts).1.push(CommandView::Commit)) == (
            texts,
            Some(Ending::Commit),
        ),
        forall|t: Seq<char>|
            #![trigger execute_step(Phase::Executing, t)]
            execute_step(Phase::Executing, t) == (
                Phase::Executing,
                Err::<CommandView, Refusal>(Refusal::StatementInFlight),
            ),
        end_step(Phase::Executing, Ending::Commit).1 == Err::<CommandView, Refusal>(
            Refusal::StatementInFlight,
        ),
        end_step(Phase::Executing, Ending::Abort).1 == Err::<CommandView, Refusal>(
            Refusal::StatementInFlight,
        ),
    decreases texts.len(),
{
    let cmds = texts.map_values(|t: Seq<char>| CommandView::Execute(t));
    if texts.len() > 0 {
        lemma_statements_in_send_order(texts.drop_first());
        let rest = texts.drop_first().map_values(|t: Seq<char>| CommandView::Execute(t));
        assert(cmds =~= seq![CommandView::Execute(texts[0])] + rest);
        let all = cmds.push(CommandView::Commit);
        assert(all.drop_first() =~= rest.push(CommandView::Commit));
        assert(texts =~= seq![texts[0]] + texts.drop_first());
    } else {
        assert(cmds =~= Seq::<CommandView>::empty());
        assert(cmds.push(CommandView::Commit).drop_first() =~= Seq::<CommandView>::empty());
        assert(texts =~= Seq::<Seq<char>>::empty());
    }
}

/// After a statement fails fatally the transaction is gone: a commit or an
/// abort that follows is refused as a usage error and sends nothing.
pub proof fn lemma_fatal_error_discards(e: StatementError)
    requires
        severity_of(e.kind) == Severity::Fatal,
    ensures
        finish_step(Phase::Executing, ReplyView::Failed(severity_of(e.kind))) == Phase::Idle,
        end_step(finish_step(Phase::Executing, ReplyView::Failed(severity_of(e.kind))), Ending::Commit)
            == (Phase::Idle, Err::<CommandView, Refusal>(Refusal::NoActiveTransaction)),
        end_step(finish_step(Phase::Executing, ReplyView::Failed(severity_of(e.kind))), Ending::Abort)
            == (Phase::Idle, Err::<CommandView, Refusal>(Refusal::NoActiveTransaction)),
{
}

/// Dropping the handle in any phase leaves the coordinator idle, so that a
/// new transaction can be started at once.
pub proof fn lemma_cancel_then_start(p: Phase)
    ensures
        cancel_step(p).0 == Phase::Idle,
        cancel_step(p).1 == (p != Phase::Idle),
        start_step(cancel_step(p).0) == (Phase::Open, None::<Refusal>),
{
}

/// The value that a body commits comes back unchanged as the payload of the
/// committed outcome.
pub proof fn lemma_commit_value_unchanged<V>(value: V)
    ensures
        ended_spec(Some(Ok::<TransactionOutcome<V>, StatementError>(conclude_spec(Ending::Commit, value))))
            == Ok::<TransactionOutcome<V>, TransactionError>(TransactionOutcome::Committed(value)),
{
}

} // verus!
